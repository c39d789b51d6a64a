//! Incremental key/value cache for one attention layer of one generation
//! session.
//!
//! The cache owns a key tensor and a value tensor of shape
//! `[batch, kv_heads, seq_len, head_dim]` together with the filled length
//! `current_len` and a fixed capacity `max_len`.  It starts empty, grows
//! monotonically through [`KVCache::update_and_get`], and shrinks only
//! through [`KVCache::reset`].  One aggregate state object is owned
//! exclusively and mutated through `&mut`, so a single writer is enforced by
//! the borrow checker rather than by a pair of locks; the error taxonomy
//! nevertheless keeps a `LockFailed` variant for callers that match on it,
//! and this implementation never produces it.

use vstd::prelude::*;

use crate::tensor::{at4, bits4, clone4, cat_seq, dims4, in4, t4_shape, wf4, zeros4, Tensor4};

verus! {

/// Errors that cache operations can return.
#[derive(Debug, Clone, PartialEq, Eq)]
pub enum KVCacheError {
    /// An append would grow the cache past its fixed capacity; `position`
    /// is the length the cache would have needed.
    PositionOutOfBounds { position: usize, max_len: usize },
    /// A synchronization primitive could not be acquired.  Kept for callers
    /// that match on the full taxonomy; the exclusively-owned cache of this
    /// crate never returns it.
    LockFailed(String),
    /// The appended tensors disagree with the cache in batch, head count or
    /// head width, or with each other in sequence length.  The expected
    /// shape carries `usize::MAX` in the sequence slot, which is the
    /// growing axis and free.
    IncompatibleShape { expected_dims: Vec<usize>, actual_dims: Vec<usize> },
    /// An error of the tensor backend, passed through as text.  The
    /// operations of this crate validate shapes first and never produce it.
    BurnTensor(String),
}

/// Key/value history of one layer.  Shape `[batch, kv_heads, seq_len,
/// head_dim]` on both tensors, with `seq_len == current_len <= max_len`.
pub struct KVCache {
    pub(crate) key: Tensor4,
    pub(crate) value: Tensor4,
    pub(crate) max_len: usize,
    pub(crate) current_len: usize,
}

impl KVCache {
    /// The stored key history.
    pub open(crate) spec fn spec_key(self) -> Tensor4 {
        self.key
    }

    /// The stored value history.
    pub open(crate) spec fn spec_value(self) -> Tensor4 {
        self.value
    }

    /// The fixed capacity.
    pub open(crate) spec fn spec_max_len(self) -> nat {
        self.max_len as nat
    }

    /// The filled sequence length.
    pub open(crate) spec fn spec_current_len(self) -> nat {
        self.current_len as nat
    }

    /// The batch size the cache was created with.
    pub open(crate) spec fn spec_batch(self) -> nat {
        dims4(self.key)[0]
    }

    /// The number of key/value heads.
    pub open(crate) spec fn spec_heads(self) -> nat {
        dims4(self.key)[1]
    }

    /// The per-head feature width.
    pub open(crate) spec fn spec_head_dim(self) -> nat {
        dims4(self.key)[3]
    }

    /// Internal consistency: both tensors share one shape, whose sequence
    /// axis is the filled length, within capacity.
    pub open(crate) spec fn wf(self) -> bool {
        &&& wf4(self.key)
        &&& wf4(self.value)
        &&& dims4(self.value) == dims4(self.key)
        &&& dims4(self.key)[2] == self.current_len
        &&& self.current_len <= self.max_len
    }

    /// The appends this cache accepts: batch, head count and head width
    /// agree with the cache on both tensors, key and value bring the same
    /// number of new positions, and the result stays within capacity.  The
    /// sequence axis is exempt from matching the cache: it is the growing
    /// axis.
    pub open(crate) spec fn can_append(self, nk: Tensor4, nv: Tensor4) -> bool {
        &&& dims4(nk)[0] == self.spec_batch()
        &&& dims4(nk)[1] == self.spec_heads()
        &&& dims4(nk)[3] == self.spec_head_dim()
        &&& dims4(nv)[0] == dims4(nk)[0]
        &&& dims4(nv)[1] == dims4(nk)[1]
        &&& dims4(nv)[3] == dims4(nk)[3]
        &&& dims4(nv)[2] == dims4(nk)[2]
        &&& self.spec_current_len() + dims4(nk)[2] <= self.spec_max_len()
    }

    /// Two caches hold the same abstract state: same capacity, same filled
    /// length, and the same tensors element for element.
    pub open(crate) spec fn same_state(self, other: KVCache) -> bool {
        &&& self.spec_max_len() == other.spec_max_len()
        &&& self.spec_current_len() == other.spec_current_len()
        &&& dims4(self.key) == dims4(other.key)
        &&& dims4(self.value) == dims4(other.value)
        &&& bits4(self.key) == bits4(other.key)
        &&& bits4(self.value) == bits4(other.value)
    }

    /// Creates an empty cache: zero-length key and value tensors with the
    /// given batch size, head count and head width, and capacity `max_len`.
    pub fn new(batch_size: usize, num_heads: usize, max_len: usize, head_dim: usize) -> (r:
        KVCache)
        ensures
            r.wf(),
            r.spec_current_len() == 0,
            r.spec_max_len() == max_len,
            r.spec_batch() == batch_size,
            r.spec_heads() == num_heads,
            r.spec_head_dim() == head_dim,
            bits4(r.spec_key()).len() == 0,
            bits4(r.spec_value()).len() == 0,
    {
        proof {
            assert(batch_size * num_heads * ((0 as usize) * head_dim) == 0) by (nonlinear_arith);
        }
        let key = zeros4(batch_size, num_heads, 0, head_dim);
        let value = zeros4(batch_size, num_heads, 0, head_dim);
        proof {
            assert(dims4(key) == dims4(value));
        }
        KVCache { key, value, max_len, current_len: 0 }
    }

    /// Appends rotated key/value states for the newest positions and
    /// returns the full accumulated history.
    ///
    /// Succeeds exactly on the appends that [`Self::can_append`] admits.
    /// Capacity is checked first: overflow returns `PositionOutOfBounds`
    /// with the length the cache would have needed.  A shape disagreement
    /// returns `IncompatibleShape`.  On failure the cache is unchanged; on
    /// success both histories are the old contents with the new states
    /// concatenated along the sequence axis, and the returned tensors are
    /// that new history.
    pub fn update_and_get(&mut self, new_key_states: &Tensor4, new_value_states: &Tensor4) -> (r:
        Result<(Tensor4, Tensor4), KVCacheError>)
        requires
            old(self).wf(),
            wf4(*new_key_states),
            wf4(*new_value_states),
        ensures
            final(self).wf(),
            final(self).spec_max_len() == old(self).spec_max_len(),
            r is Ok <==> old(self).can_append(*new_key_states, *new_value_states),
            r is Err ==> *final(self) == *old(self),
            old(self).spec_current_len() + dims4(*new_key_states)[2] > old(self).spec_max_len()
                ==> (r is Err && match r->Err_0 {
                KVCacheError::PositionOutOfBounds { position, max_len } => {
                    &&& max_len as nat == old(self).spec_max_len()
                    &&& position as nat == if old(self).spec_current_len() + dims4(
                        *new_key_states,
                    )[2] <= usize::MAX as nat {
                        old(self).spec_current_len() + dims4(*new_key_states)[2]
                    } else {
                        usize::MAX as nat
                    }
                },
                _ => false,
            }),
            (old(self).spec_current_len() + dims4(*new_key_states)[2] <= old(self).spec_max_len()
                && !old(self).can_append(*new_key_states, *new_value_states)) ==> (r is Err
                && match r->Err_0 {
                KVCacheError::IncompatibleShape { expected_dims, actual_dims } => {
                    &&& expected_dims@.len() == 4
                    &&& expected_dims@[0] as nat == old(self).spec_batch()
                    &&& expected_dims@[1] as nat == old(self).spec_heads()
                    &&& expected_dims@[2] == usize::MAX
                    &&& expected_dims@[3] as nat == old(self).spec_head_dim()
                    &&& actual_dims@.len() == 4
                    &&& forall|d: int|
                        0 <= d < 4 ==> #[trigger] actual_dims@[d] as nat == dims4(
                            *new_key_states,
                        )[d]
                },
                _ => false,
            }),
            r is Ok ==> {
                &&& final(self).spec_current_len() == old(self).spec_current_len() + dims4(
                    *new_key_states,
                )[2]
                &&& final(self).spec_batch() == old(self).spec_batch()
                &&& final(self).spec_heads() == old(self).spec_heads()
                &&& final(self).spec_head_dim() == old(self).spec_head_dim()
                &&& forall|i: int, j: int, k: int, l: int|
                    in4(final(self).spec_key(), i, j, k, l) ==> #[trigger] at4(
                        final(self).spec_key(),
                        i,
                        j,
                        k,
                        l,
                    ) == if k < old(self).spec_current_len() {
                        at4(old(self).spec_key(), i, j, k, l)
                    } else {
                        at4(*new_key_states, i, j, k - old(self).spec_current_len(), l)
                    }
                &&& forall|i: int, j: int, k: int, l: int|
                    in4(final(self).spec_value(), i, j, k, l) ==> #[trigger] at4(
                        final(self).spec_value(),
                        i,
                        j,
                        k,
                        l,
                    ) == if k < old(self).spec_current_len() {
                        at4(old(self).spec_value(), i, j, k, l)
                    } else {
                        at4(*new_value_states, i, j, k - old(self).spec_current_len(), l)
                    }
                &&& r->Ok_0.0 == final(self).spec_key()
                &&& r->Ok_0.1 == final(self).spec_value()
            },
    {
        let (nb, nh, ns, nd) = t4_shape(new_key_states);

        // Capacity first, as the failure taxonomy orders it.
        if ns > self.max_len - self.current_len {
            let position = if ns <= usize::MAX - self.current_len {
                self.current_len + ns
            } else {
                usize::MAX
            };
            return Err(KVCacheError::PositionOutOfBounds { position, max_len: self.max_len });
        }

        let (cb, ch, _cs, cd) = t4_shape(&self.key);
        let (vb, vh, vs, vd) = t4_shape(new_value_states);
        if cb != nb || ch != nh || cd != nd || vb != nb || vh != nh || vd != nd || vs != ns {
            return Err(
                KVCacheError::IncompatibleShape {
                    expected_dims: vec![cb, ch, usize::MAX, cd],
                    actual_dims: vec![nb, nh, ns, nd],
                },
            );
        }

        let new_key = cat_seq(&self.key, new_key_states);
        let new_value = cat_seq(&self.value, new_value_states);
        self.current_len = self.current_len + ns;
        self.key = new_key;
        self.value = new_value;
        Ok((clone4(&self.key), clone4(&self.value)))
    }

    /// A non-mutating snapshot of the current key and value history.
    /// Always succeeds: there is no lock to fail.
    pub fn get_current_values(&self) -> (r: Result<(Tensor4, Tensor4), KVCacheError>)
        ensures
            r is Ok,
            r->Ok_0.0 == self.spec_key(),
            r->Ok_0.1 == self.spec_value(),
    {
        Ok((clone4(&self.key), clone4(&self.value)))
    }

    /// The filled sequence length.  Always succeeds.
    pub fn current_seq_length(&self) -> (r: Result<usize, KVCacheError>)
        ensures
            r is Ok,
            r->Ok_0 as nat == self.spec_current_len(),
    {
        Ok(self.current_len)
    }

    /// The fixed capacity.
    pub fn max_sequence_length(&self) -> (r: usize)
        ensures
            r as nat == self.spec_max_len(),
    {
        self.max_len
    }

    /// Truncates both histories back to zero length, keeping batch, head
    /// count, head width and capacity.  Always succeeds.
    pub fn reset(&mut self) -> (r: Result<(), KVCacheError>)
        requires
            old(self).wf(),
        ensures
            r is Ok,
            final(self).wf(),
            final(self).spec_current_len() == 0,
            final(self).spec_max_len() == old(self).spec_max_len(),
            final(self).spec_batch() == old(self).spec_batch(),
            final(self).spec_heads() == old(self).spec_heads(),
            final(self).spec_head_dim() == old(self).spec_head_dim(),
            bits4(final(self).spec_key()).len() == 0,
            bits4(final(self).spec_value()).len() == 0,
    {
        let (b, h, _s, d) = t4_shape(&self.key);
        proof {
            assert(b * h * ((0 as usize) * d) == 0) by (nonlinear_arith);
        }
        self.key = zeros4(b, h, 0, d);
        self.value = zeros4(b, h, 0, d);
        self.current_len = 0;
        Ok(())
    }

    /// A reset cache is indistinguishable from a freshly constructed one:
    /// a cache at length zero with empty tensors holds the same abstract
    /// state as a new cache with the same batch, head count, head width and
    /// capacity.  Every operation's contract pins its outcome by that state
    /// and its arguments alone, so a subsequent append behaves identically
    /// on both.
    pub proof fn lemma_reset_matches_fresh(self, fresh: KVCache)
        requires
            self.wf(),
            fresh.wf(),
            self.spec_current_len() == 0,
            fresh.spec_current_len() == 0,
            bits4(self.spec_key()).len() == 0,
            bits4(self.spec_value()).len() == 0,
            bits4(fresh.spec_key()).len() == 0,
            bits4(fresh.spec_value()).len() == 0,
            self.spec_batch() == fresh.spec_batch(),
            self.spec_heads() == fresh.spec_heads(),
            self.spec_head_dim() == fresh.spec_head_dim(),
            self.spec_max_len() == fresh.spec_max_len(),
        ensures
            self.same_state(fresh),
    {
        assert(dims4(self.key) =~= dims4(fresh.key));
        assert(dims4(self.value) =~= dims4(fresh.value));
        assert(bits4(self.key) =~= bits4(fresh.key));
        assert(bits4(self.value) =~= bits4(fresh.value));
    }

    /// The capacity bound is exact.  With `update_and_get`'s contract —
    /// success exactly on the appends [`Self::can_append`] admits — this
    /// says that a cache of capacity `N` takes `N` sequential
    /// single-token appends of matching geometry, each growing the
    /// length by one, and rejects the next one with
    /// `PositionOutOfBounds`, whatever its shapes.
    pub proof fn lemma_capacity_is_exact(self, nk: Tensor4, nv: Tensor4)
        requires
            self.wf(),
        ensures
            self.spec_current_len() + dims4(nk)[2] > self.spec_max_len() ==> !self.can_append(
                nk,
                nv,
            ),
            (dims4(nk)[0] == self.spec_batch() && dims4(nk)[1] == self.spec_heads() && dims4(
                nk,
            )[3] == self.spec_head_dim() && dims4(nv) == dims4(nk) && self.spec_current_len()
                + dims4(nk)[2] <= self.spec_max_len()) ==> self.can_append(nk, nv),
    {
    }

    /// Caches in the same abstract state accept exactly the same appends.
    pub proof fn lemma_same_state_same_appends(self, other: KVCache, nk: Tensor4, nv: Tensor4)
        requires
            self.same_state(other),
        ensures
            self.can_append(nk, nv) <==> other.can_append(nk, nv),
    {
    }
}

} // verus!
