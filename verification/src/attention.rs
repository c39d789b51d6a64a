//! Grouped-query self-attention (GQA) for a Gemma-style decoder layer.
//!
//! One forward call projects the hidden states into query, key and value,
//! rotates query and key by their absolute positions, appends the rotated
//! key and the value to the layer's cache, expands the key/value heads to
//! the query head count, and finishes with scaled dot-product attention and
//! the output projection.  The head expansion is a whole-block repeat of
//! the key/value head axis, so query head `h` reads key/value head
//! `h mod num_key_value_heads`; that tiling is pinned element by element in
//! the contract of [`expand_kv_heads`].

use vstd::prelude::*;

use crate::error::BurnCoreError;
use crate::kv_cache::KVCache;
use crate::rope::{RotaryPositionalEmbedding, RotaryPositionalEmbeddingConfig};
use crate::tensor::{
    add4, at4, cat_heads, clone4, dims3, dims3_is, dims4, dims4_is, div4_by_scalar_tensor, in4,
    linear_forward3, linear_shape, make_linear, matmul4, reshape3_to4, reshape4_to3, scalar_f,
    scalar_to4, softmax_keys, sqrt1, swap_heads_seq, swap_last_two, t3_shape, t4_shape, wf3, wf4,
    LinearLayer, Tensor3, Tensor4,
};

verus! {

/// Expands the key/value head axis to `groups` times its width by a
/// whole-block repeat: the expanded tensor at head `j` reads the original
/// at head `j mod kv_heads`.  With a single group the input is returned
/// unchanged, so the expansion is a no-op exactly when the query and
/// key/value head counts agree.
pub fn expand_kv_heads(x: &Tensor4, groups: usize) -> (r: Tensor4)
    requires
        wf4(*x),
        groups >= 1,
        dims4(*x)[1] * groups <= usize::MAX,
    ensures
        wf4(r),
        dims4_is(r, dims4(*x)[0], (dims4(*x)[1] * groups) as nat, dims4(*x)[2], dims4(*x)[3]),
        groups == 1 ==> r == *x,
        forall|i: int, j: int, k: int, l: int|
            in4(r, i, j, k, l) ==> #[trigger] at4(r, i, j, k, l) == at4(
                *x,
                i,
                j % (dims4(*x)[1] as int),
                k,
                l,
            ),
{
    let mut acc = clone4(x);
    let mut g: usize = 1;
    proof {
        let d1 = dims4(*x)[1] as int;
        assert(dims4(*x)[1] * 1 == dims4(*x)[1]) by (nonlinear_arith);
        assert(dims4(acc) =~= seq![
            dims4(*x)[0],
            (dims4(*x)[1] * 1) as nat,
            dims4(*x)[2],
            dims4(*x)[3],
        ]);
        assert forall|i: int, j: int, k: int, l: int| in4(acc, i, j, k, l) implies #[trigger] at4(
            acc,
            i,
            j,
            k,
            l,
        ) == at4(*x, i, j % d1, k, l) by {
            assert(j % d1 == j) by (nonlinear_arith)
                requires
                    0 <= j < d1,
            ;
        }
    }
    if groups == 1 {
        return acc;
    }
    while g < groups
        invariant
            wf4(*x),
            wf4(acc),
            1 <= g <= groups,
            dims4_is(acc, dims4(*x)[0], (dims4(*x)[1] * g) as nat, dims4(*x)[2], dims4(*x)[3]),
            forall|i: int, j: int, k: int, l: int|
                in4(acc, i, j, k, l) ==> #[trigger] at4(acc, i, j, k, l) == at4(
                    *x,
                    i,
                    j % (dims4(*x)[1] as int),
                    k,
                    l,
                ),
        decreases groups - g,
    {
        let ghost prev = acc;
        let ghost gp = g as int;
        acc = cat_heads(&acc, x);
        g = g + 1;
        proof {
            let d1 = dims4(*x)[1] as int;
            assert(dims4(prev)[1] as int == gp * d1);
            assert(gp * d1 + d1 == (gp + 1) * d1) by (nonlinear_arith);
            assert(dims4(acc) =~= seq![
                dims4(*x)[0],
                (dims4(*x)[1] * (gp + 1)) as nat,
                dims4(*x)[2],
                dims4(*x)[3],
            ]) by {
                assert(dims4(*x)[1] * gp + dims4(*x)[1] == dims4(*x)[1] * (gp + 1))
                    by (nonlinear_arith);
            }
            assert forall|i: int, j: int, k: int, l: int|
                in4(acc, i, j, k, l) implies #[trigger] at4(acc, i, j, k, l) == at4(
                *x,
                i,
                j % d1,
                k,
                l,
            ) by {
                if j < gp * d1 {
                    assert(in4(prev, i, j, k, l));
                } else {
                    assert(d1 >= 1) by (nonlinear_arith)
                        requires
                            0 <= j,
                            j < (gp + 1) * d1,
                            gp * d1 <= j,
                    ;
                    assert(j % d1 == j - gp * d1) by (nonlinear_arith)
                        requires
                            d1 >= 1,
                            gp >= 0,
                            gp * d1 <= j < (gp + 1) * d1,
                    ;
                    assert(in4(*x, i, j - gp * d1, k, l));
                }
            }
        }
    }
    acc
}

/// Configuration of one attention layer.
#[derive(Debug, Clone, Copy, PartialEq, Eq, Structural)]
pub struct GemmaAttentionConfig {
    /// Width of the layer's input and output.
    pub hidden_size: usize,
    /// Number of query heads.
    pub num_attention_heads: usize,
    /// Number of key/value heads; it must divide `num_attention_heads`.
    pub num_key_value_heads: usize,
    /// Per-head feature width.
    pub head_dim: usize,
    /// Configuration of the rotary encoder.
    pub rope_config: RotaryPositionalEmbeddingConfig,
    /// Names the scoring strategy.  Both settings currently scale the
    /// scores by `1 / sqrt(head_dim)`; true QK-normalization (dividing by
    /// per-vector norms) is a declared but not yet selected policy, and
    /// the flag is carried so that callers can state their choice.
    pub use_qk_norm: bool,
    /// Bit pattern (IEEE 754, 64-bit) of the attention dropout
    /// probability.  Dropout is a training-time operation and the identity
    /// at inference, which is all this layer serves; the value is stored,
    /// not applied.
    pub attention_dropout_prob_bits: u64,
    /// Whether the four projections carry a bias.
    pub use_bias: bool,
}

impl GemmaAttentionConfig {
    /// The configured sizes stay within what the backend carries.
    pub open spec fn bounds_ok(self) -> bool {
        &&& self.rope_config.bounds_ok()
        &&& self.num_attention_heads * self.head_dim <= usize::MAX
        &&& self.num_key_value_heads * self.head_dim <= usize::MAX
        &&& self.head_dim as int <= i64::MAX as int
    }

    /// The architectural conditions construction enforces: an even rotary
    /// width, at least one key/value head, and a query head count that the
    /// key/value head count divides.
    pub open spec fn arch_ok(self) -> bool {
        &&& self.rope_config.dim % 2 == 0
        &&& self.num_key_value_heads >= 1
        &&& self.num_attention_heads % self.num_key_value_heads == 0
    }

    /// Builds the layer with freshly initialized projection weights, as the
    /// backend draws them.
    ///
    /// Fails with `InvalidConfig` exactly when [`Self::arch_ok`] does not
    /// hold; on success the layer is consistent, carries this
    /// configuration, and its group count is the head-count ratio.
    pub fn init(&self) -> (r: Result<GemmaAttention, BurnCoreError>)
        requires
            self.bounds_ok(),
        ensures
            r is Ok <==> self.arch_ok(),
            r is Err ==> r->Err_0 is InvalidConfig,
            r is Ok ==> r->Ok_0.wf() && r->Ok_0.matches_config(*self),
            r is Ok ==> {
                &&& crate::tensor::lin_bias(r->Ok_0.spec_q_proj()) == self.use_bias
                &&& crate::tensor::lin_bias(r->Ok_0.spec_k_proj()) == self.use_bias
                &&& crate::tensor::lin_bias(r->Ok_0.spec_v_proj()) == self.use_bias
                &&& crate::tensor::lin_bias(r->Ok_0.spec_o_proj()) == self.use_bias
            },
    {
        let q_proj = make_linear(
            self.hidden_size,
            self.num_attention_heads * self.head_dim,
            self.use_bias,
        );
        let k_proj = make_linear(
            self.hidden_size,
            self.num_key_value_heads * self.head_dim,
            self.use_bias,
        );
        let v_proj = make_linear(
            self.hidden_size,
            self.num_key_value_heads * self.head_dim,
            self.use_bias,
        );
        let o_proj = make_linear(
            self.num_attention_heads * self.head_dim,
            self.hidden_size,
            self.use_bias,
        );
        let rope = RotaryPositionalEmbedding::new(self.rope_config)?;

        if self.num_key_value_heads == 0 || self.num_attention_heads % self.num_key_value_heads
            != 0 {
            return Err(
                BurnCoreError::InvalidConfig(
                    String::from_str(
                        "the key/value head count must be positive and divide the query head count",
                    ),
                ),
            );
        }
        let num_kv_groups = self.num_attention_heads / self.num_key_value_heads;

        Ok(
            GemmaAttention {
                q_proj,
                k_proj,
                v_proj,
                o_proj,
                rope,
                hidden_size: self.hidden_size,
                num_attention_heads: self.num_attention_heads,
                num_key_value_heads: self.num_key_value_heads,
                head_dim: self.head_dim,
                num_kv_groups,
                use_qk_norm: self.use_qk_norm,
                attention_dropout_prob_bits: self.attention_dropout_prob_bits,
            },
        )
    }
}

/// The filled length of an optional cache; an absent cache holds nothing.
pub open(crate) spec fn prior_len(cache: Option<KVCache>) -> nat {
    match cache {
        Some(c) => c.spec_current_len(),
        None => 0,
    }
}

/// An absent mask is fine; a present one must be `[batch, 1, seq, kv_seq]`.
pub open(crate) spec fn mask_ok(mask: Option<&Tensor4>, b: nat, s: nat, kv: nat) -> bool {
    match mask {
        Some(m) => dims4_is(*m, b, 1, s, kv),
        None => true,
    }
}

impl GemmaAttentionConfig {
    /// The four projections carry the widths this configuration calls
    /// for: query in `hidden -> heads * head_dim`, key and value in
    /// `hidden -> kv_heads * head_dim`, output back to `hidden`.
    pub open spec fn projections_fit(
        self,
        q: LinearLayer,
        k: LinearLayer,
        v: LinearLayer,
        o: LinearLayer,
    ) -> bool {
        &&& crate::tensor::lin_in(q) == self.hidden_size
        &&& crate::tensor::lin_out(q) == self.num_attention_heads * self.head_dim
        &&& crate::tensor::lin_in(k) == self.hidden_size
        &&& crate::tensor::lin_out(k) == self.num_key_value_heads * self.head_dim
        &&& crate::tensor::lin_in(v) == self.hidden_size
        &&& crate::tensor::lin_out(v) == self.num_key_value_heads * self.head_dim
        &&& crate::tensor::lin_in(o) == self.num_attention_heads * self.head_dim
        &&& crate::tensor::lin_out(o) == self.hidden_size
    }
}

/// One grouped-query attention layer: the four projections, the rotary
/// encoder, and the head-count bookkeeping.
pub struct GemmaAttention {
    pub(crate) q_proj: LinearLayer,
    pub(crate) k_proj: LinearLayer,
    pub(crate) v_proj: LinearLayer,
    pub(crate) o_proj: LinearLayer,
    pub(crate) rope: RotaryPositionalEmbedding,
    pub(crate) hidden_size: usize,
    pub(crate) num_attention_heads: usize,
    pub(crate) num_key_value_heads: usize,
    pub(crate) head_dim: usize,
    pub(crate) num_kv_groups: usize,
    pub(crate) use_qk_norm: bool,
    // Stored with the layer but not applied: dropout is the identity at
    // inference, which is all this layer serves.
    pub(crate) attention_dropout_prob_bits: u64,
}

impl GemmaAttention {
    /// The layer's input and output width.
    pub open(crate) spec fn spec_hidden_size(self) -> nat {
        self.hidden_size as nat
    }

    /// The number of query heads.
    pub open(crate) spec fn spec_num_heads(self) -> nat {
        self.num_attention_heads as nat
    }

    /// The number of key/value heads.
    pub open(crate) spec fn spec_num_kv_heads(self) -> nat {
        self.num_key_value_heads as nat
    }

    /// The per-head feature width.
    pub open(crate) spec fn spec_head_dim(self) -> nat {
        self.head_dim as nat
    }

    /// How many query heads share one key/value head.
    pub open(crate) spec fn spec_num_kv_groups(self) -> nat {
        self.num_kv_groups as nat
    }

    /// The number of positions the rotation tables cover, which is also
    /// the capacity of a cache this layer synthesizes on a prefill call.
    pub open(crate) spec fn spec_table_len(self) -> nat {
        self.rope.spec_max_seq_len()
    }

    /// The layer carries the fields of this configuration.
    pub open(crate) spec fn matches_config(self, config: GemmaAttentionConfig) -> bool {
        &&& self.hidden_size == config.hidden_size
        &&& self.num_attention_heads == config.num_attention_heads
        &&& self.num_key_value_heads == config.num_key_value_heads
        &&& self.head_dim == config.head_dim
        &&& self.rope.spec_config() == config.rope_config
        &&& self.use_qk_norm == config.use_qk_norm
        &&& self.attention_dropout_prob_bits == config.attention_dropout_prob_bits
        &&& self.num_kv_groups == config.num_attention_heads / config.num_key_value_heads
    }

    /// The query projection.
    pub open(crate) spec fn spec_q_proj(self) -> LinearLayer {
        self.q_proj
    }

    /// The key projection.
    pub open(crate) spec fn spec_k_proj(self) -> LinearLayer {
        self.k_proj
    }

    /// The value projection.
    pub open(crate) spec fn spec_v_proj(self) -> LinearLayer {
        self.v_proj
    }

    /// The output projection.
    pub open(crate) spec fn spec_o_proj(self) -> LinearLayer {
        self.o_proj
    }

    /// Internal consistency: the projections carry the widths the head
    /// bookkeeping calls for, the rotary encoder is consistent, and the
    /// group count is the head-count ratio.
    pub open(crate) spec fn wf(self) -> bool {
        &&& crate::tensor::lin_in(self.q_proj) == self.hidden_size
        &&& crate::tensor::lin_out(self.q_proj) == self.num_attention_heads * self.head_dim
        &&& crate::tensor::lin_in(self.k_proj) == self.hidden_size
        &&& crate::tensor::lin_out(self.k_proj) == self.num_key_value_heads * self.head_dim
        &&& crate::tensor::lin_in(self.v_proj) == self.hidden_size
        &&& crate::tensor::lin_out(self.v_proj) == self.num_key_value_heads * self.head_dim
        &&& crate::tensor::lin_in(self.o_proj) == self.num_attention_heads * self.head_dim
        &&& crate::tensor::lin_out(self.o_proj) == self.hidden_size
        &&& self.rope.wf()
        &&& self.num_key_value_heads >= 1
        &&& self.num_attention_heads % self.num_key_value_heads == 0
        &&& self.num_kv_groups == self.num_attention_heads / self.num_key_value_heads
        &&& self.num_attention_heads * self.head_dim <= usize::MAX
        &&& self.num_key_value_heads * self.head_dim <= usize::MAX
        &&& self.head_dim as int <= i64::MAX as int
    }

    /// The hidden-state and position shapes [`Self::forward`] accepts:
    /// the feature axis carries `hidden_size`, there is one position per
    /// sequence step, nothing is empty, and the per-head width is the
    /// (even, at least 2) width the rotary encoder was built for.
    pub open(crate) spec fn fwd_shapes_ok(self, hs: Tensor3, n_pos: nat) -> bool {
        &&& dims3(hs)[2] == self.spec_hidden_size()
        &&& self.spec_hidden_size() >= 1
        &&& dims3(hs)[0] >= 1
        &&& dims3(hs)[1] == n_pos
        &&& n_pos >= 1
        &&& self.spec_num_heads() >= 1
        &&& self.spec_head_dim() == self.rope.spec_dim()
        &&& self.spec_head_dim() >= 2
    }

    /// The cache state a forward call starts from: the supplied cache must
    /// carry this layer's geometry and have room for the new positions; a
    /// synthesized cache has the table length as capacity, so the new
    /// positions must fit it.
    pub open(crate) spec fn cache_room_ok(self, cache: Option<KVCache>, b: nat, s: nat) -> bool {
        match cache {
            Some(c) => {
                &&& c.spec_batch() == b
                &&& c.spec_heads() == self.spec_num_kv_heads()
                &&& c.spec_head_dim() == self.spec_head_dim()
                &&& c.spec_current_len() + s <= c.spec_max_len()
            },
            None => s <= self.spec_table_len(),
        }
    }

    /// Every position lies inside the precomputed rotation tables.
    pub open(crate) spec fn positions_ok(self, positions: Seq<usize>) -> bool {
        self.rope.positions_ok(positions)
    }

    /// Everything [`Self::forward`] needs to succeed.
    pub open(crate) spec fn fwd_ok(
        self,
        hs: Tensor3,
        positions: Seq<usize>,
        mask: Option<&Tensor4>,
        cache: Option<KVCache>,
    ) -> bool {
        &&& self.fwd_shapes_ok(hs, positions.len() as nat)
        &&& self.rope.positions_ok(positions)
        &&& mask_ok(
            mask,
            dims3(hs)[0],
            positions.len() as nat,
            prior_len(cache) + positions.len(),
        )
        &&& self.cache_room_ok(cache, dims3(hs)[0], positions.len() as nat)
    }

    /// Runs the layer on `hidden_states` of shape `[batch, seq,
    /// hidden_size]`, with one absolute position per sequence step, an
    /// optional additive mask of shape `[batch, 1, seq, kv_seq]`, and the
    /// layer's cache slot: `None` on the first (prefill) call, after which
    /// the slot holds the growing cache that later decode steps extend.
    ///
    /// On success the output has shape `[batch, seq, hidden_size]`
    /// whatever the accumulated cache length, and the slot holds a
    /// consistent cache extended by exactly the new positions: the
    /// already-cached history is unchanged entry for entry, and the
    /// rotated keys and raw values are appended as
    /// [`KVCache::update_and_get`]'s contract states.  Failures are
    /// returned, never raised, and leave the slot as it was: a shape
    /// disagreement (including a mask of the wrong shape) returns
    /// `IncompatibleShape`; a position beyond the rotation tables returns
    /// `PositionOutOfBounds`; a cache without room or with the wrong
    /// geometry returns the cache's own error under `KVCache`.
    ///
    /// Scores are `Q Kᵗ / sqrt(head_dim)` under either setting of the
    /// QK-normalization flag, whose alternative strategy is declared but
    /// not selected; attention dropout is the identity at inference and
    /// is not applied.
    pub fn forward(
        &self,
        hidden_states: &Tensor3,
        positions: &Vec<usize>,
        attention_mask: Option<&Tensor4>,
        kv_cache: &mut Option<KVCache>,
    ) -> (r: Result<Tensor3, BurnCoreError>)
        requires
            self.wf(),
            wf3(*hidden_states),
            attention_mask is Some ==> wf4(*attention_mask->0),
            (*old(kv_cache)) is Some ==> (*old(kv_cache))->0.wf(),
        ensures
            r is Ok <==> self.fwd_ok(*hidden_states, positions@, attention_mask, *old(kv_cache)),
            r is Err ==> *final(kv_cache) == *old(kv_cache),
            !self.fwd_shapes_ok(*hidden_states, positions@.len() as nat) ==> r is Err
                && r->Err_0 is IncompatibleShape,
            (self.fwd_shapes_ok(*hidden_states, positions@.len() as nat)
                && !self.positions_ok(positions@)) ==> r is Err
                && r->Err_0 is PositionOutOfBounds,
            (self.fwd_shapes_ok(*hidden_states, positions@.len() as nat)
                && self.positions_ok(positions@) && !mask_ok(
                attention_mask,
                dims3(*hidden_states)[0],
                positions@.len() as nat,
                prior_len(*old(kv_cache)) + positions@.len(),
            )) ==> r is Err && r->Err_0 is IncompatibleShape,
            (self.fwd_shapes_ok(*hidden_states, positions@.len() as nat)
                && self.positions_ok(positions@) && mask_ok(
                attention_mask,
                dims3(*hidden_states)[0],
                positions@.len() as nat,
                prior_len(*old(kv_cache)) + positions@.len(),
            ) && !self.cache_room_ok(
                *old(kv_cache),
                dims3(*hidden_states)[0],
                positions@.len() as nat,
            )) ==> r is Err && r->Err_0 is KVCache,
            r is Ok ==> {
                &&& wf3(r->Ok_0)
                &&& dims3_is(
                    r->Ok_0,
                    dims3(*hidden_states)[0],
                    positions@.len() as nat,
                    self.spec_hidden_size(),
                )
                &&& (*final(kv_cache)) is Some
                &&& (*final(kv_cache))->0.wf()
                &&& (*final(kv_cache))->0.spec_current_len() == prior_len(*old(kv_cache))
                    + positions@.len()
                &&& (*final(kv_cache))->0.spec_batch() == dims3(*hidden_states)[0]
                &&& (*final(kv_cache))->0.spec_heads() == self.spec_num_kv_heads()
                &&& (*final(kv_cache))->0.spec_head_dim() == self.spec_head_dim()
                &&& ((*old(kv_cache)) is Some ==> (*final(kv_cache))->0.spec_max_len() == old(
                    kv_cache,
                )->0.spec_max_len())
                &&& ((*old(kv_cache)) is None ==> (*final(kv_cache))->0.spec_max_len()
                    == self.spec_table_len())
            },
            // A supplied cache keeps its history: every already-cached key
            // and value entry is unchanged by the append.
            (r is Ok && (*old(kv_cache)) is Some) ==> {
                let c0 = (*old(kv_cache))->0;
                let after = (*final(kv_cache))->0;
                &&& forall|i: int, j: int, p: int, l: int|
                    in4(after.spec_key(), i, j, p, l) && p < c0.spec_current_len()
                        ==> #[trigger] at4(after.spec_key(), i, j, p, l) == at4(
                        c0.spec_key(),
                        i,
                        j,
                        p,
                        l,
                    )
                &&& forall|i: int, j: int, p: int, l: int|
                    in4(after.spec_value(), i, j, p, l) && p < c0.spec_current_len()
                        ==> #[trigger] at4(after.spec_value(), i, j, p, l) == at4(
                        c0.spec_value(),
                        i,
                        j,
                        p,
                        l,
                    )
            },
    {
        let cache_in: Option<KVCache> = kv_cache.take();
        let (bsz, s, hid) = t3_shape(hidden_states);
        let n = positions.len();

        // Everything the projections and the rotation need of the shapes
        // is tested before the first backend call: the projections divide
        // by their widths and take no empty operand.
        if hid != self.hidden_size || self.hidden_size == 0 || bsz == 0 || s == 0 || n != s
            || self.num_attention_heads == 0 || self.head_dim != self.rope.config.dim
            || self.head_dim < 2 {
            proof {
                assert(!self.fwd_shapes_ok(*hidden_states, positions@.len() as nat));
            }
            *kv_cache = cache_in;
            return Err(
                BurnCoreError::IncompatibleShape(
                    String::from_str(
                        "the hidden states must be [batch, seq, hidden_size] with one position per step and the rotary width per head",
                    ),
                ),
            );
        }
        proof {
            assert(self.fwd_shapes_ok(*hidden_states, positions@.len() as nat));
            assert(self.num_attention_heads * self.head_dim >= 1) by (nonlinear_arith)
                requires
                    self.num_attention_heads >= 1,
                    self.head_dim >= 1,
            ;
            assert(self.num_key_value_heads * self.head_dim >= 1) by (nonlinear_arith)
                requires
                    self.num_key_value_heads >= 1,
                    self.head_dim >= 1,
            ;
        }

        // Project, split into heads, and move the head axis forward.
        let q3 = linear_forward3(&self.q_proj, hidden_states);
        let k3 = linear_forward3(&self.k_proj, hidden_states);
        let v3 = linear_forward3(&self.v_proj, hidden_states);
        let qh = reshape3_to4(&q3, bsz, s, self.num_attention_heads, self.head_dim);
        let kh = reshape3_to4(&k3, bsz, s, self.num_key_value_heads, self.head_dim);
        let vh = reshape3_to4(&v3, bsz, s, self.num_key_value_heads, self.head_dim);
        let q4 = swap_heads_seq(&qh);
        let k4 = swap_heads_seq(&kh);
        let v4 = swap_heads_seq(&vh);

        proof {
            assert(self.rope.shapes_ok(q4, k4, positions@.len() as nat) <==> self.fwd_shapes_ok(
                *hidden_states,
                positions@.len() as nat,
            ));
        }

        // Rotate query and key; caching happens after rotation, so cached
        // keys already carry their positional information.
        let rotated = self.rope.forward(&q4, &k4, positions);
        let (q_rot, k_rot) = match rotated {
            Ok(t) => t,
            Err(e) => {
                *kv_cache = cache_in;
                return Err(e);
            },
        };

        // The mask is validated against the key length the cache will
        // reach, before anything is mutated.
        let prior: usize = match &cache_in {
            Some(c) => c.current_len,
            None => 0,
        };
        if let Some(m) = attention_mask {
            let (mb, mo, ms, mkv) = t4_shape(m);
            if mb != bsz || mo != 1 || ms != s || mkv < s || mkv - s != prior {
                proof {
                    let kv = (prior_len(cache_in) + positions@.len()) as nat;
                    assert(!dims4_is(*m, dims3(*hidden_states)[0], 1, positions@.len() as nat, kv));
                }
                *kv_cache = cache_in;
                return Err(
                    BurnCoreError::IncompatibleShape(
                        String::from_str("the additive mask must be [batch, 1, seq, kv_seq]"),
                    ),
                );
            }
            proof {
                assert(dims4(*m) =~= seq![
                    dims3(*hidden_states)[0],
                    1nat,
                    positions@.len() as nat,
                    (prior_len(cache_in) + positions@.len()) as nat,
                ]);
            }
        }

        // Append to the supplied cache, or synthesize one whose capacity is
        // the rotation-table length.
        let (k_full, v_full) = match cache_in {
            Some(mut c) => {
                match c.update_and_get(&k_rot, &v4) {
                    Ok(t) => {
                        *kv_cache = Some(c);
                        t
                    },
                    Err(e) => {
                        *kv_cache = Some(c);
                        return Err(BurnCoreError::KVCache(e));
                    },
                }
            },
            None => {
                let mut c = KVCache::new(
                    bsz,
                    self.num_key_value_heads,
                    self.rope.config.max_seq_len,
                    self.head_dim,
                );
                match c.update_and_get(&k_rot, &v4) {
                    Ok(t) => {
                        *kv_cache = Some(c);
                        t
                    },
                    Err(e) => {
                        *kv_cache = None;
                        return Err(BurnCoreError::KVCache(e));
                    },
                }
            },
        };

        // Grouped-head expansion: tile the key/value head axis whole-block
        // until it matches the query head count.
        proof {
            assert(self.num_attention_heads as int / self.num_key_value_heads as int >= 1)
                by (nonlinear_arith)
                requires
                    self.num_attention_heads >= 1,
                    self.num_key_value_heads >= 1,
                    self.num_attention_heads as int % self.num_key_value_heads as int == 0,
            ;
            assert(self.num_key_value_heads as int * (self.num_attention_heads as int
                / self.num_key_value_heads as int) == self.num_attention_heads as int)
                by (nonlinear_arith)
                requires
                    self.num_key_value_heads >= 1,
                    self.num_attention_heads as int % self.num_key_value_heads as int == 0,
            ;
        }
        let k_exp = expand_kv_heads(&k_full, self.num_kv_groups);
        let v_exp = expand_kv_heads(&v_full, self.num_kv_groups);

        // Scores: Q Kᵗ, scaled by 1 / sqrt(head_dim).
        let k_t = swap_last_two(&k_exp);
        let scores = matmul4(&q_rot, &k_t);
        let d_scalar = scalar_f(self.head_dim as u64);
        let d_sqrt = sqrt1(&d_scalar);
        let d4 = scalar_to4(&d_sqrt);
        let scores = div4_by_scalar_tensor(&scores, &d4);

        // The additive mask suppresses disallowed key positions.
        let scores = match attention_mask {
            Some(m) => add4(&scores, m),
            None => scores,
        };

        // Softmax over the key axis, weighted sum with the values, and the
        // output projection.
        let weights = softmax_keys(&scores);
        let ctx = matmul4(&weights, &v_exp);
        let ctx_heads_last = swap_heads_seq(&ctx);
        let flat = self.num_attention_heads * self.head_dim;
        let ctx3 = reshape4_to3(&ctx_heads_last, bsz, s, flat);
        let out = linear_forward3(&self.o_proj, &ctx3);
        Ok(out)
    }

    /// Assembles the layer from explicitly supplied projection weights,
    /// as a weight loader hands them over.
    ///
    /// Fails with `InvalidConfig` exactly when the configuration violates
    /// [`GemmaAttentionConfig::arch_ok`] or a projection does not carry
    /// the widths the configuration calls for.
    pub fn from_parts(
        config: &GemmaAttentionConfig,
        q_proj: LinearLayer,
        k_proj: LinearLayer,
        v_proj: LinearLayer,
        o_proj: LinearLayer,
    ) -> (r: Result<GemmaAttention, BurnCoreError>)
        requires
            config.bounds_ok(),
        ensures
            r is Ok <==> (config.arch_ok() && config.projections_fit(
                q_proj,
                k_proj,
                v_proj,
                o_proj,
            )),
            r is Err ==> r->Err_0 is InvalidConfig,
            r is Ok ==> r->Ok_0.wf() && r->Ok_0.matches_config(*config),
            r is Ok ==> {
                &&& r->Ok_0.spec_q_proj() == q_proj
                &&& r->Ok_0.spec_k_proj() == k_proj
                &&& r->Ok_0.spec_v_proj() == v_proj
                &&& r->Ok_0.spec_o_proj() == o_proj
            },
    {
        let rope = RotaryPositionalEmbedding::new(config.rope_config)?;
        if config.num_key_value_heads == 0 || config.num_attention_heads
            % config.num_key_value_heads != 0 {
            return Err(
                BurnCoreError::InvalidConfig(
                    String::from_str(
                        "the key/value head count must be positive and divide the query head count",
                    ),
                ),
            );
        }
        let (qi, qo) = linear_shape(&q_proj);
        let (ki, ko) = linear_shape(&k_proj);
        let (vi, vo) = linear_shape(&v_proj);
        let (oi, oo) = linear_shape(&o_proj);
        let wide = config.num_attention_heads * config.head_dim;
        let narrow = config.num_key_value_heads * config.head_dim;
        if qi != config.hidden_size || qo != wide || ki != config.hidden_size || ko != narrow || vi
            != config.hidden_size || vo != narrow || oi != wide || oo != config.hidden_size {
            return Err(
                BurnCoreError::InvalidConfig(
                    String::from_str("a projection does not match the configured widths"),
                ),
            );
        }
        let num_kv_groups = config.num_attention_heads / config.num_key_value_heads;
        Ok(
            GemmaAttention {
                q_proj,
                k_proj,
                v_proj,
                o_proj,
                rope,
                hidden_size: config.hidden_size,
                num_attention_heads: config.num_attention_heads,
                num_key_value_heads: config.num_key_value_heads,
                head_dim: config.head_dim,
                num_kv_groups,
                use_qk_norm: config.use_qk_norm,
                attention_dropout_prob_bits: config.attention_dropout_prob_bits,
            },
        )
    }

    /// How many query heads share one key/value head.
    pub fn num_kv_groups(&self) -> (r: usize)
        ensures
            r as nat == self.spec_num_kv_groups(),
    {
        self.num_kv_groups
    }

    /// With as many key/value heads as query heads there is exactly one
    /// group, so the head expansion is the identity and the layer computes
    /// standard multi-head attention.
    pub proof fn lemma_equal_head_counts_mean_one_group(self)
        requires
            self.wf(),
            self.spec_num_heads() == self.spec_num_kv_heads(),
        ensures
            self.spec_num_kv_groups() == 1,
    {
        assert(self.num_attention_heads as int / self.num_key_value_heads as int == 1)
            by (nonlinear_arith)
            requires
                self.num_attention_heads == self.num_key_value_heads,
                self.num_key_value_heads >= 1,
        ;
    }
}

} // verus!
