//! Rotary positional encoding (RoPE).
//!
//! A [`RotaryPositionalEmbedding`] precomputes cosine and sine tables for
//! every position up to a configured maximum and is stateless afterwards.
//! Applying it rotates paired coordinates of query and key vectors by
//! position-dependent angles: the last axis is split into two halves
//! `x1, x2`, and the output is `[x1*cos - x2*sin, x1*sin + x2*cos]`, with
//! the rows of the tables gathered at the given absolute positions.
//!
//! The tables go through the backend's `exp`, `log`, `cos` and `sin`, so
//! their entries are not pinned element by element; everything after the
//! gather is: the contract of [`RotaryPositionalEmbedding::forward`] gives
//! each output element as [`RotaryPositionalEmbedding::rope_elem`], a pure
//! function of the inputs and the fixed tables.

use vstd::prelude::*;

use crate::error::BurnCoreError;
use crate::tensor::{
    add4, arange_f, arange_step_f, at2, at4, at4_bc, bc, bits2, bits4, broadcast2_to4, cat_last, cos2,
    dims2, dims2_is, dims4, dims4_is, div_scalar1, exp1, f32_add_bits, f32_mul_bits, f32_sub_bits,
    i1_from_vals, in4, len1, log1, matmul2, mul1, mul4, recip1, reshape1_to2, scalar_f,
    select_rows, sin2, slice_last, sub4, t4_shape, vals_i1, wf2, wf4, IntTensor1, Tensor2, Tensor4,
};

verus! {

/// Configuration of the rotary encoder: the rotated width (it must be
/// even), the integral base of the inverse frequencies, and the number of
/// positions to precompute.
#[derive(Debug, Clone, Copy, PartialEq, Eq, Structural)]
pub struct RotaryPositionalEmbeddingConfig {
    /// The width the rotation applies to; normally the per-head feature
    /// width.
    pub dim: usize,
    /// The base of the inverse frequencies (commonly 10000).
    pub base_theta: u64,
    /// How many positions the tables cover.
    pub max_seq_len: usize,
}

impl RotaryPositionalEmbeddingConfig {
    /// The configured sizes stay within what the backend's index type
    /// carries.
    pub open spec fn bounds_ok(self) -> bool {
        &&& self.dim as int <= i64::MAX as int
        &&& self.max_seq_len as int <= i64::MAX as int
        &&& self.base_theta as int <= i64::MAX as int
    }

    /// Creates a configuration.
    pub fn new(dim: usize, base_theta: u64, max_seq_len: usize) -> (r:
        RotaryPositionalEmbeddingConfig)
        ensures
            r.dim == dim,
            r.base_theta == base_theta,
            r.max_seq_len == max_seq_len,
    {
        RotaryPositionalEmbeddingConfig { dim, base_theta, max_seq_len }
    }
}

/// A rotary encoder: the configuration together with the precomputed
/// cosine and sine tables, both of shape `[max_seq_len, dim / 2]`.
pub struct RotaryPositionalEmbedding {
    pub(crate) config: RotaryPositionalEmbeddingConfig,
    pub(crate) cos_cached: Tensor2,
    pub(crate) sin_cached: Tensor2,
}

impl RotaryPositionalEmbedding {
    /// The stored configuration.
    pub open(crate) spec fn spec_config(self) -> RotaryPositionalEmbeddingConfig {
        self.config
    }

    /// The rotated width.
    pub open(crate) spec fn spec_dim(self) -> nat {
        self.config.dim as nat
    }

    /// Half the rotated width: the width of each table row.
    pub open(crate) spec fn spec_half(self) -> nat {
        (self.config.dim / 2) as nat
    }

    /// The number of precomputed positions.
    pub open(crate) spec fn spec_max_seq_len(self) -> nat {
        self.config.max_seq_len as nat
    }

    /// Internal consistency: the width is even and the tables have shape
    /// `[max_seq_len, dim / 2]`.
    pub open(crate) spec fn wf(self) -> bool {
        &&& self.config.dim % 2 == 0
        &&& self.config.bounds_ok()
        &&& wf2(self.cos_cached)
        &&& wf2(self.sin_cached)
        &&& dims2_is(self.cos_cached, self.spec_max_seq_len(), self.spec_half())
        &&& dims2_is(self.sin_cached, self.spec_max_seq_len(), self.spec_half())
    }

    /// A rotated tensor has the right shape: rotated width on the last
    /// axis, one position per sequence step, and nothing degenerate.
    pub open(crate) spec fn input_shape_ok(self, x: Tensor4, n_pos: nat) -> bool {
        &&& dims4(x)[3] == self.spec_dim()
        &&& dims4(x)[2] == n_pos
        &&& dims4(x)[0] >= 1
        &&& dims4(x)[1] >= 1
    }

    /// The shapes [`Self::forward`] accepts for query, key and positions.
    /// The two tensors may differ in batch and head count; only the
    /// sequence and feature axes are constrained.
    pub open(crate) spec fn shapes_ok(self, q: Tensor4, k: Tensor4, n_pos: nat) -> bool {
        &&& self.input_shape_ok(q, n_pos)
        &&& self.input_shape_ok(k, n_pos)
        &&& n_pos >= 1
        &&& self.spec_dim() >= 2
    }

    /// Every position lies inside the precomputed tables.
    pub open(crate) spec fn positions_ok(self, positions: Seq<usize>) -> bool {
        forall|i: int|
            0 <= i < positions.len() ==> (#[trigger] positions[i]) < self.config.max_seq_len
    }

    /// One element of the rotation's output: for an output index `l` in the
    /// first half, `x[l]*cos - x[l+half]*sin`; in the second half,
    /// `x[l-half]*sin + x[l]*cos`; with the table rows gathered at
    /// `positions[k]`.  A pure function of the input, the positions and the
    /// tables.
    pub open(crate) spec fn rope_elem(
        self,
        x: Tensor4,
        positions: Seq<usize>,
        i: int,
        j: int,
        k: int,
        l: int,
    ) -> u32 {
        let half = self.spec_half() as int;
        let p = positions[k] as int;
        if l < half {
            f32_sub_bits(
                f32_mul_bits(at4(x, i, j, k, l), at2(self.cos_cached, p, l)),
                f32_mul_bits(at4(x, i, j, k, l + half), at2(self.sin_cached, p, l)),
            )
        } else {
            f32_add_bits(
                f32_mul_bits(at4(x, i, j, k, l - half), at2(self.sin_cached, p, l - half)),
                f32_mul_bits(at4(x, i, j, k, l), at2(self.cos_cached, p, l - half)),
            )
        }
    }

    /// Precomputes the tables for the given configuration.
    ///
    /// Fails with `InvalidConfig` exactly when the width is odd, since the
    /// rotation works on coordinate pairs.  On success the encoder is
    /// consistent and keeps the configuration unchanged.
    ///
    /// The inverse frequency of pair `k` is `base_theta^(-2k/dim)`,
    /// computed as `exp(-(2k/dim) * ln(base_theta))` through the backend;
    /// the tables are the elementwise cosine and sine of the outer product
    /// of `[0, .., max_seq_len - 1]` with those frequencies.
    pub fn new(config: RotaryPositionalEmbeddingConfig) -> (r: Result<
        RotaryPositionalEmbedding,
        BurnCoreError,
    >)
        requires
            config.bounds_ok(),
        ensures
            r is Ok <==> config.dim % 2 == 0,
            r is Err ==> r->Err_0 is InvalidConfig,
            r is Ok ==> r->Ok_0.wf() && r->Ok_0.spec_config() == config,
    {
        if config.dim % 2 != 0 {
            return Err(
                BurnCoreError::InvalidConfig(
                    String::from_str("the rotary width must be even: it rotates coordinate pairs"),
                ),
            );
        }
        let half = config.dim / 2;

        // A zero width or position count leaves one table axis empty:
        // there is nothing to compute, and the backend's matrix product
        // does not take empty operands.
        if config.max_seq_len == 0 || config.dim == 0 {
            proof {
                assert(config.max_seq_len * (config.dim / 2) == 0) by (nonlinear_arith)
                    requires
                        config.max_seq_len == 0 || config.dim / 2 == 0,
                ;
            }
            let cos_cached = crate::tensor::t2_from_bits(Vec::new(), config.max_seq_len, half);
            let sin_cached = crate::tensor::t2_from_bits(Vec::new(), config.max_seq_len, half);
            return Ok(RotaryPositionalEmbedding { config, cos_cached, sin_cached });
        }

        // inv_freq[k] = 1 / exp((2k / dim) * ln(base_theta))
        let idx = arange_step_f(config.dim, 2);
        proof {
            assert(len1(idx) == half);
        }
        let scaled = div_scalar1(&idx, config.dim);
        let theta_t = scalar_f(config.base_theta);
        let ln_theta = log1(&theta_t);
        let freq_ln = mul1(&scaled, &ln_theta);
        let powed = exp1(&freq_ln);
        let inv_freq = recip1(&powed);

        // angle[p, k] = p * inv_freq[k]
        let positions = arange_f(config.max_seq_len);
        let pos2 = reshape1_to2(&positions, config.max_seq_len, 1);
        let invf2 = reshape1_to2(&inv_freq, 1, half);
        let freqs = matmul2(&pos2, &invf2);

        let cos_cached = cos2(&freqs);
        let sin_cached = sin2(&freqs);
        Ok(RotaryPositionalEmbedding { config, cos_cached, sin_cached })
    }

    /// Rotates one tensor by the gathered tables.  `cos4` and `sin4` hold
    /// the gathered rows, reshaped to `[1, 1, seq, half]` so that they
    /// broadcast over batch and heads.
    fn apply_rotation(&self, x: &Tensor4, cos4: &Tensor4, sin4: &Tensor4, half: usize) -> (r:
        Tensor4)
        requires
            wf4(*x),
            wf4(*cos4),
            wf4(*sin4),
            half >= 1,
            dims4(*x)[3] == 2 * half,
            dims4(*x)[0] >= 1,
            dims4(*x)[1] >= 1,
            dims4(*x)[2] >= 1,
            dims4_is(*cos4, 1, 1, dims4(*x)[2], half as nat),
            dims4_is(*sin4, 1, 1, dims4(*x)[2], half as nat),
        ensures
            wf4(r),
            dims4(r) == dims4(*x),
            forall|i: int, j: int, k: int, l: int|
                in4(r, i, j, k, l) ==> #[trigger] at4(r, i, j, k, l) == if l < half {
                    f32_sub_bits(
                        f32_mul_bits(at4(*x, i, j, k, l), at4(*cos4, 0, 0, k, l)),
                        f32_mul_bits(at4(*x, i, j, k, l + half), at4(*sin4, 0, 0, k, l)),
                    )
                } else {
                    f32_add_bits(
                        f32_mul_bits(at4(*x, i, j, k, l - half), at4(*sin4, 0, 0, k, l - half)),
                        f32_mul_bits(at4(*x, i, j, k, l), at4(*cos4, 0, 0, k, l - half)),
                    )
                },
    {
        let d3 = {
            let (_, _, _, d3) = t4_shape(x);
            d3
        };
        let x1 = slice_last(x, 0, half);
        let x2 = slice_last(x, half, d3);
        let t1 = mul4(&x1, cos4);
        let t2 = mul4(&x2, sin4);
        let r1 = sub4(&t1, &t2);
        let t3 = mul4(&x1, sin4);
        let t4 = mul4(&x2, cos4);
        let r2 = add4(&t3, &t4);
        let out = cat_last(&r1, &r2);

        proof {
            let xv = *x;
            let s = dims4(xv)[2] as int;
            let h = half as int;
            // Broadcast reads of the gathered tables always land on batch 0,
            // head 0.
            assert forall|i: int, j: int, k: int, l: int|
                0 <= i < dims4(xv)[0] && 0 <= j < dims4(xv)[1] && 0 <= k < s && 0 <= l
                    < h implies #[trigger] at4_bc(*cos4, i, j, k, l) == at4(*cos4, 0, 0, k, l)
                && at4_bc(*sin4, i, j, k, l) == at4(*sin4, 0, 0, k, l) by {
                assert(bc(dims4(*cos4)[0], i) == 0);
                assert(bc(dims4(*cos4)[1], j) == 0);
                if dims4(*cos4)[2] == 1 {
                    assert(k == 0);
                }
                if dims4(*cos4)[3] == 1 {
                    assert(l == 0);
                }
            }
            // The same for the equal-shaped intermediate operands.
            assert forall|i: int, j: int, k: int, l: int|
                in4(t1, i, j, k, l) implies #[trigger] at4_bc(t2, i, j, k, l) == at4(
                t2,
                i,
                j,
                k,
                l,
            ) by {
                if dims4(t2)[0] == 1 {
                    assert(i == 0);
                }
                if dims4(t2)[1] == 1 {
                    assert(j == 0);
                }
                if dims4(t2)[2] == 1 {
                    assert(k == 0);
                }
                if dims4(t2)[3] == 1 {
                    assert(l == 0);
                }
            }
            assert forall|i: int, j: int, k: int, l: int|
                in4(t3, i, j, k, l) implies #[trigger] at4_bc(t4, i, j, k, l) == at4(
                t4,
                i,
                j,
                k,
                l,
            ) by {
                if dims4(t4)[0] == 1 {
                    assert(i == 0);
                }
                if dims4(t4)[1] == 1 {
                    assert(j == 0);
                }
                if dims4(t4)[2] == 1 {
                    assert(k == 0);
                }
                if dims4(t4)[3] == 1 {
                    assert(l == 0);
                }
            }
            assert(dims4(out) =~= dims4(xv));
        }
        out
    }

    /// Applies the rotation to query and key tensors at the given absolute
    /// positions.
    ///
    /// Succeeds exactly when both tensors carry the rotated width on their
    /// last axis, one position per sequence step, nothing is empty, and
    /// every position lies inside the precomputed tables.  A shape
    /// disagreement returns `IncompatibleShape`; an oversized position
    /// returns `PositionOutOfBounds` naming it.  On success each output
    /// element is [`Self::rope_elem`] of the matching input: query and key
    /// are rotated independently and identically.
    pub fn forward(&self, q_states: &Tensor4, k_states: &Tensor4, positions: &Vec<usize>) -> (r:
        Result<(Tensor4, Tensor4), BurnCoreError>)
        requires
            self.wf(),
            wf4(*q_states),
            wf4(*k_states),
        ensures
            r is Ok <==> (self.shapes_ok(*q_states, *k_states, positions@.len() as nat)
                && self.positions_ok(positions@)),
            !self.shapes_ok(*q_states, *k_states, positions@.len() as nat) ==> r is Err
                && r->Err_0 is IncompatibleShape,
            (self.shapes_ok(*q_states, *k_states, positions@.len() as nat) && !self.positions_ok(
                positions@,
            )) ==> r is Err && (match r->Err_0 {
                BurnCoreError::PositionOutOfBounds { position, max_len } => {
                    &&& max_len as nat == self.spec_max_seq_len()
                    &&& position as nat >= self.spec_max_seq_len()
                    &&& positions@.contains(position)
                },
                _ => false,
            }),
            r is Ok ==> {
                &&& wf4(r->Ok_0.0)
                &&& wf4(r->Ok_0.1)
                &&& dims4(r->Ok_0.0) == dims4(*q_states)
                &&& dims4(r->Ok_0.1) == dims4(*k_states)
                &&& forall|i: int, j: int, k: int, l: int|
                    in4(r->Ok_0.0, i, j, k, l) ==> #[trigger] at4(r->Ok_0.0, i, j, k, l)
                        == self.rope_elem(*q_states, positions@, i, j, k, l)
                &&& forall|i: int, j: int, k: int, l: int|
                    in4(r->Ok_0.1, i, j, k, l) ==> #[trigger] at4(r->Ok_0.1, i, j, k, l)
                        == self.rope_elem(*k_states, positions@, i, j, k, l)
            },
    {
        let (qb, qh, qs, qd) = t4_shape(q_states);
        let (kb, kh, ks, kd) = t4_shape(k_states);
        let n = positions.len();
        if qd != self.config.dim || kd != self.config.dim || self.config.dim < 2 || qs != n || ks
            != n || n == 0 || qb == 0 || qh == 0 || kb == 0 || kh == 0 {
            return Err(
                BurnCoreError::IncompatibleShape(
                    String::from_str(
                        "query and key must be [batch, heads, seq, dim] with one position per step",
                    ),
                ),
            );
        }

        let mut pos_i: Vec<i64> = Vec::new();
        let mut idx: usize = 0;
        while idx < n
            invariant
                self.wf(),
                self.shapes_ok(*q_states, *k_states, positions@.len() as nat),
                n == positions@.len(),
                idx <= n,
                pos_i@.len() == idx,
                forall|t: int|
                    0 <= t < idx ==> (#[trigger] positions@[t]) < self.config.max_seq_len,
                forall|t: int|
                    0 <= t < idx ==> #[trigger] pos_i@[t] as int == positions@[t] as int,
            decreases n - idx,
        {
            let p = positions[idx];
            if p >= self.config.max_seq_len {
                proof {
                    assert(positions@[idx as int] == p);
                    assert(positions@.contains(p));
                    assert(!self.positions_ok(positions@));
                }
                return Err(
                    BurnCoreError::PositionOutOfBounds {
                        position: p,
                        max_len: self.config.max_seq_len,
                    },
                );
            }
            pos_i.push(p as i64);
            idx = idx + 1;
        }

        let pos_t = i1_from_vals(pos_i);
        proof {
            assert(vals_i1(pos_t).len() == n);
            assert(forall|t: int|
                0 <= t < n ==> #[trigger] vals_i1(pos_t)[t] == positions@[t] as int);
        }
        let half = self.config.dim / 2;
        let cos_sel = select_rows(&self.cos_cached, &pos_t);
        let sin_sel = select_rows(&self.sin_cached, &pos_t);
        let cos4 = broadcast2_to4(&cos_sel);
        let sin4 = broadcast2_to4(&sin_sel);

        let q_rot = self.apply_rotation(q_states, &cos4, &sin4, half);
        let k_rot = self.apply_rotation(k_states, &cos4, &sin4, half);

        proof {
            self.lemma_gathered_tables(cos_sel, cos4, self.cos_cached, pos_t, positions@, half);
            self.lemma_gathered_tables(sin_sel, sin4, self.sin_cached, pos_t, positions@, half);
            let npos = positions@;
            let halfi = half as int;
            assert(2 * halfi == self.config.dim) by {
                assert(self.config.dim % 2 == 0);
            }
            assert forall|i: int, j: int, k: int, l: int|
                in4(q_rot, i, j, k, l) implies #[trigger] at4(q_rot, i, j, k, l)
                == self.rope_elem(*q_states, npos, i, j, k, l) by {
                assert(0 <= k < npos.len());
                if l < halfi {
                    assert(at4(cos4, 0, 0, k, l) == at2(self.cos_cached, npos[k] as int, l));
                    assert(at4(sin4, 0, 0, k, l) == at2(self.sin_cached, npos[k] as int, l));
                } else {
                    assert(0 <= l - halfi < halfi);
                    assert(at4(cos4, 0, 0, k, l - halfi) == at2(
                        self.cos_cached,
                        npos[k] as int,
                        l - halfi,
                    ));
                    assert(at4(sin4, 0, 0, k, l - halfi) == at2(
                        self.sin_cached,
                        npos[k] as int,
                        l - halfi,
                    ));
                }
            }
            assert forall|i: int, j: int, k: int, l: int|
                in4(k_rot, i, j, k, l) implies #[trigger] at4(k_rot, i, j, k, l)
                == self.rope_elem(*k_states, npos, i, j, k, l) by {
                assert(0 <= k < npos.len());
                if l < halfi {
                    assert(at4(cos4, 0, 0, k, l) == at2(self.cos_cached, npos[k] as int, l));
                    assert(at4(sin4, 0, 0, k, l) == at2(self.sin_cached, npos[k] as int, l));
                } else {
                    assert(0 <= l - halfi < halfi);
                    assert(at4(cos4, 0, 0, k, l - halfi) == at2(
                        self.cos_cached,
                        npos[k] as int,
                        l - halfi,
                    ));
                    assert(at4(sin4, 0, 0, k, l - halfi) == at2(
                        self.sin_cached,
                        npos[k] as int,
                        l - halfi,
                    ));
                }
            }
        }
        Ok((q_rot, k_rot))
    }

    /// The gathered, broadcast-shaped table reads back as the table row of
    /// the requested position: `bcast[0, 0, k, l] == table[positions[k], l]`.
    proof fn lemma_gathered_tables(
        self,
        sel: Tensor2,
        bcast: Tensor4,
        table: Tensor2,
        pos_t: IntTensor1,
        positions: Seq<usize>,
        half: usize,
    )
        requires
            wf2(table),
            wf2(sel),
            wf4(bcast),
            dims2(table)[1] == half,
            vals_i1(pos_t).len() == positions.len(),
            positions.len() >= 1,
            forall|t: int|
                0 <= t < positions.len() ==> #[trigger] vals_i1(pos_t)[t] == positions[t] as int,
            dims2_is(sel, vals_i1(pos_t).len(), dims2(table)[1]),
            forall|i: int, j: int|
                crate::tensor::in2(sel, i, j) ==> #[trigger] at2(sel, i, j) == at2(
                    table,
                    vals_i1(pos_t)[i],
                    j,
                ),
            dims4_is(bcast, 1, 1, dims2(sel)[0], dims2(sel)[1]),
            bits4(bcast) == bits2(sel),
        ensures
            forall|k: int, l: int|
                0 <= k < positions.len() && 0 <= l < half ==> #[trigger] at4(bcast, 0, 0, k, l)
                    == at2(table, positions[k] as int, l),
    {
        let n = positions.len() as int;
        let h = half as int;
        assert forall|k: int, l: int|
            0 <= k < n && 0 <= l < h implies #[trigger] at4(bcast, 0, 0, k, l) == at2(
            table,
            positions[k] as int,
            l,
        ) by {
            assert(dims4(bcast)[1] == 1);
            assert(dims4(bcast)[2] == dims2(sel)[0]);
            assert(dims4(bcast)[3] == dims2(sel)[1]);
            assert(dims2(sel)[1] == h as nat);
            let d1 = dims4(bcast)[1] as int;
            let d2 = dims4(bcast)[2] as int;
            let d3 = dims4(bcast)[3] as int;
            assert(((0 * d1 + 0) * d2 + k) * d3 + l == k * h + l) by (nonlinear_arith)
                requires
                    d3 == h,
            ;
            assert(at4(bcast, 0, 0, k, l) == bits4(bcast)[k * h + l]);
            let c1 = dims2(sel)[1] as int;
            assert(k * c1 + l == k * h + l) by (nonlinear_arith)
                requires
                    c1 == h,
            ;
            assert(at2(sel, k, l) == bits2(sel)[k * h + l]);
            assert(crate::tensor::in2(sel, k, l));
        }
    }

    /// Given a fixed table, the rotation is a pure function of its inputs:
    /// two inputs that agree elementwise are rotated to outputs that agree
    /// elementwise.  Together with the contract of [`Self::forward`], which
    /// pins every output element to [`Self::rope_elem`], this says that
    /// identical calls always produce identical outputs.
    pub proof fn lemma_forward_is_pure(self, a: Tensor4, b: Tensor4, positions: Seq<usize>)
        requires
            dims4(a) == dims4(b),
            bits4(a) == bits4(b),
        ensures
            forall|i: int, j: int, k: int, l: int|
                #[trigger] self.rope_elem(a, positions, i, j, k, l) == self.rope_elem(
                    b,
                    positions,
                    i,
                    j,
                    k,
                    l,
                ),
    {
    }
}

} // verus!
