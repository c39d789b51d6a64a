//! Trusted surface over the `burn` tensor library on its CPU (`NdArray`)
//! backend.
//!
//! Tensors are held opaquely: each rank used by the attention stack gets a
//! handle struct whose inside Verus never sees.  What the verified code knows
//! of a tensor is written over two uninterpreted names per handle: its shape
//! (`dims*`) and, where contracts need it, its contents as the row-major
//! sequence of 32-bit patterns of its elements (`bits*`).  Every wrapper
//! states over those names exactly what the corresponding `burn` operation
//! does, as far as its source shows it; element arithmetic is named
//! (`f32_mul_bits` and friends), since the IEEE operations are functions of
//! their operands alone, while results that pass through libm or through a
//! reduction whose order the backend picks (matmul, softmax, the
//! trigonometric tables) only get shape-level contracts.

use vstd::prelude::*;

verus! {

// ---------------------------------------------------------------------------
// Opaque handles
// ---------------------------------------------------------------------------

/// A rank-1 float tensor on the CPU backend.
#[derive(Debug)]
#[verifier::external_body]
pub struct Tensor1 {
    t: burn::tensor::Tensor<burn::backend::NdArray, 1>,
}

/// A rank-2 float tensor on the CPU backend.
#[derive(Debug)]
#[verifier::external_body]
pub struct Tensor2 {
    t: burn::tensor::Tensor<burn::backend::NdArray, 2>,
}

/// A rank-3 float tensor on the CPU backend.
#[derive(Debug)]
#[verifier::external_body]
pub struct Tensor3 {
    t: burn::tensor::Tensor<burn::backend::NdArray, 3>,
}

/// A rank-4 float tensor on the CPU backend.
#[derive(Debug)]
#[verifier::external_body]
pub struct Tensor4 {
    t: burn::tensor::Tensor<burn::backend::NdArray, 4>,
}

/// A rank-1 integer tensor, used for absolute token positions.
#[derive(Debug)]
#[verifier::external_body]
pub struct IntTensor1 {
    t: burn::tensor::Tensor<burn::backend::NdArray, 1, burn::tensor::Int>,
}

/// A linear projection (`burn::nn::Linear`): a weight matrix of shape
/// `[d_input, d_output]` with an optional bias vector of length `d_output`.
#[derive(Debug)]
#[verifier::external_body]
pub struct LinearLayer {
    l: burn::nn::Linear<burn::backend::NdArray>,
}

// ---------------------------------------------------------------------------
// Names for what the handles hold
// ---------------------------------------------------------------------------

/// Number of elements of a rank-1 tensor.
pub uninterp spec fn len1(t: Tensor1) -> nat;

/// Shape of a rank-2 tensor.
pub uninterp spec fn dims2(t: Tensor2) -> Seq<nat>;

/// Shape of a rank-3 tensor.
pub uninterp spec fn dims3(t: Tensor3) -> Seq<nat>;

/// Shape of a rank-4 tensor.
pub uninterp spec fn dims4(t: Tensor4) -> Seq<nat>;

/// Contents of a rank-2 tensor: bit patterns of its elements, row-major.
pub uninterp spec fn bits2(t: Tensor2) -> Seq<u32>;

/// Contents of a rank-3 tensor: bit patterns of its elements, row-major.
pub uninterp spec fn bits3(t: Tensor3) -> Seq<u32>;

/// Contents of a rank-4 tensor: bit patterns of its elements, row-major.
pub uninterp spec fn bits4(t: Tensor4) -> Seq<u32>;

/// Contents of a rank-1 integer tensor.
pub uninterp spec fn vals_i1(t: IntTensor1) -> Seq<int>;

/// Input width of a linear projection.
pub uninterp spec fn lin_in(l: LinearLayer) -> nat;

/// Output width of a linear projection.
pub uninterp spec fn lin_out(l: LinearLayer) -> nat;

/// Whether a linear projection carries a bias vector.
pub uninterp spec fn lin_bias(l: LinearLayer) -> bool;

/// Bit pattern of the product of the two elements whose bit patterns are
/// given, as `burn`'s elementwise `mul` computes it.  IEEE 754 determines
/// the result from the operands alone, so the result may be named.  (For
/// NaN operands the payload of the resulting NaN is the platform's
/// choice; no contract of this crate tells NaN payloads apart.)
pub uninterp spec fn f32_mul_bits(a: u32, b: u32) -> u32;

/// Bit pattern of the sum, as `burn`'s elementwise `add` computes it;
/// determined by IEEE 754 as for [`f32_mul_bits`].
pub uninterp spec fn f32_add_bits(a: u32, b: u32) -> u32;

/// Bit pattern of the difference, as `burn`'s elementwise `sub` computes
/// it; determined by IEEE 754 as for [`f32_mul_bits`].
pub uninterp spec fn f32_sub_bits(a: u32, b: u32) -> u32;

// ---------------------------------------------------------------------------
// Derived shape and indexing helpers
// ---------------------------------------------------------------------------

/// A rank-2 tensor is consistent: two dimensions, and as many elements as
/// the shape calls for.
pub open spec fn wf2(t: Tensor2) -> bool {
    &&& dims2(t).len() == 2
    &&& bits2(t).len() == dims2(t)[0] * dims2(t)[1]
}

/// Rank-3 consistency.
pub open spec fn wf3(t: Tensor3) -> bool {
    &&& dims3(t).len() == 3
    &&& bits3(t).len() == dims3(t)[0] * dims3(t)[1] * dims3(t)[2]
}

/// Rank-4 consistency.
pub open spec fn wf4(t: Tensor4) -> bool {
    &&& dims4(t).len() == 4
    &&& bits4(t).len() == dims4(t)[0] * dims4(t)[1] * dims4(t)[2] * dims4(t)[3]
}

/// The shape of `t` is `[a, b]`.
pub open spec fn dims2_is(t: Tensor2, a: nat, b: nat) -> bool {
    dims2(t) =~= seq![a, b]
}

/// The shape of `t` is `[a, b, c]`.
pub open spec fn dims3_is(t: Tensor3, a: nat, b: nat, c: nat) -> bool {
    dims3(t) =~= seq![a, b, c]
}

/// The shape of `t` is `[a, b, c, d]`.
pub open spec fn dims4_is(t: Tensor4, a: nat, b: nat, c: nat, d: nat) -> bool {
    dims4(t) =~= seq![a, b, c, d]
}

/// The element of a rank-2 tensor at row `i`, column `j`.
pub open spec fn at2(t: Tensor2, i: int, j: int) -> u32 {
    bits2(t)[i * dims2(t)[1] + j]
}

/// The element of a rank-4 tensor at index `[i, j, k, l]`.
pub open spec fn at4(t: Tensor4, i: int, j: int, k: int, l: int) -> u32 {
    bits4(t)[((i * dims4(t)[1] + j) * dims4(t)[2] + k) * dims4(t)[3] + l]
}

/// Index `[i, j]` lies inside the shape of `t`.
pub open spec fn in2(t: Tensor2, i: int, j: int) -> bool {
    0 <= i < dims2(t)[0] && 0 <= j < dims2(t)[1]
}

/// Index `[i, j, k, l]` lies inside the shape of `t`.
pub open spec fn in4(t: Tensor4, i: int, j: int, k: int, l: int) -> bool {
    &&& 0 <= i < dims4(t)[0]
    &&& 0 <= j < dims4(t)[1]
    &&& 0 <= k < dims4(t)[2]
    &&& 0 <= l < dims4(t)[3]
}

/// How a size-1 dimension broadcasts: it always reads its only entry.
pub open spec fn bc(size: nat, i: int) -> int {
    if size == 1 {
        0
    } else {
        i
    }
}

/// The element of `t` read at `[i, j, k, l]` under `burn`'s broadcasting:
/// every size-1 dimension of `t` is read at 0.
pub open spec fn at4_bc(t: Tensor4, i: int, j: int, k: int, l: int) -> u32 {
    at4(
        t,
        bc(dims4(t)[0], i),
        bc(dims4(t)[1], j),
        bc(dims4(t)[2], k),
        bc(dims4(t)[3], l),
    )
}

/// Dimension `d` of `b` is compatible with dimension `d` of `a` when the
/// result is to keep `a`'s shape: equal, or 1 on `b`'s side.
pub open spec fn bc_into(a: Seq<nat>, b: Seq<nat>, d: int) -> bool {
    b[d] == a[d] || b[d] == 1
}

// ---------------------------------------------------------------------------
// Construction and observation
// ---------------------------------------------------------------------------

/// Builds a rank-1 tensor holding the given bit patterns.
/// Relies on `Tensor::from_data`.
#[verifier::external_body]
pub fn t1_from_bits(v: Vec<u32>) -> (r: Tensor1)
    ensures
        len1(r) == v@.len(),
{
    let n = v.len();
    let value: Vec<_> = bytemuck::cast_vec(v);
    let data = burn::tensor::Data::new(value, burn::tensor::Shape::new([n]));
    Tensor1 { t: burn::tensor::Tensor::from_data(data, &burn::backend::ndarray::NdArrayDevice::Cpu) }
}

/// Builds a rank-2 tensor of shape `[a, b]` whose elements carry the given
/// bit patterns, row-major.
/// Relies on `Tensor::from_data`: it lays the values out in that order.
#[verifier::external_body]
pub fn t2_from_bits(v: Vec<u32>, a: usize, b: usize) -> (r: Tensor2)
    requires
        v@.len() == a * b,
    ensures
        wf2(r),
        dims2_is(r, a as nat, b as nat),
        bits2(r) == v@,
{
    let value: Vec<_> = bytemuck::cast_vec(v);
    let data = burn::tensor::Data::new(value, burn::tensor::Shape::new([a, b]));
    Tensor2 { t: burn::tensor::Tensor::from_data(data, &burn::backend::ndarray::NdArrayDevice::Cpu) }
}

/// Builds a rank-3 tensor of shape `[a, b, c]` from bit patterns, row-major.
/// Relies on `Tensor::from_data`.
#[verifier::external_body]
pub fn t3_from_bits(v: Vec<u32>, a: usize, b: usize, c: usize) -> (r: Tensor3)
    requires
        v@.len() == a * b * c,
    ensures
        wf3(r),
        dims3_is(r, a as nat, b as nat, c as nat),
        bits3(r) == v@,
{
    let value: Vec<_> = bytemuck::cast_vec(v);
    let data = burn::tensor::Data::new(value, burn::tensor::Shape::new([a, b, c]));
    Tensor3 { t: burn::tensor::Tensor::from_data(data, &burn::backend::ndarray::NdArrayDevice::Cpu) }
}

/// Builds a rank-4 tensor of shape `[a, b, c, d]` from bit patterns,
/// row-major.  Relies on `Tensor::from_data`.
#[verifier::external_body]
pub fn t4_from_bits(v: Vec<u32>, a: usize, b: usize, c: usize, d: usize) -> (r: Tensor4)
    requires
        v@.len() == a * b * (c * d),
    ensures
        wf4(r),
        dims4_is(r, a as nat, b as nat, c as nat, d as nat),
        bits4(r) == v@,
{
    let value: Vec<_> = bytemuck::cast_vec(v);
    let data = burn::tensor::Data::new(value, burn::tensor::Shape::new([a, b, c, d]));
    Tensor4 { t: burn::tensor::Tensor::from_data(data, &burn::backend::ndarray::NdArrayDevice::Cpu) }
}


/// Reads a rank-3 tensor back out as bit patterns, row-major.
/// Relies on `Tensor::to_data`.
#[verifier::external_body]
pub fn t3_to_bits(t: &Tensor3) -> (r: Vec<u32>)
    ensures
        r@ == bits3(*t),
{
    bytemuck::cast_vec(t.t.to_data().value)
}

/// Reads a rank-4 tensor back out as bit patterns, row-major.
/// Relies on `Tensor::to_data`.
#[verifier::external_body]
pub fn t4_to_bits(t: &Tensor4) -> (r: Vec<u32>)
    ensures
        r@ == bits4(*t),
{
    bytemuck::cast_vec(t.t.to_data().value)
}

/// Builds a rank-1 integer tensor holding the given values.
/// Relies on `Tensor::from_data` for integer tensors.
#[verifier::external_body]
pub fn i1_from_vals(v: Vec<i64>) -> (r: IntTensor1)
    ensures
        vals_i1(r) == v@.map_values(|x: i64| x as int),
{
    let n = v.len();
    let data = burn::tensor::Data::new(v, burn::tensor::Shape::new([n]));
    IntTensor1 {
        t: burn::tensor::Tensor::from_data(data, &burn::backend::ndarray::NdArrayDevice::Cpu),
    }
}


/// An all-zero rank-4 tensor of the given shape.  Relies on
/// `Tensor::zeros`; the bit pattern of floating zero is 0.
#[verifier::external_body]
pub(crate) fn zeros4(a: usize, b: usize, c: usize, d: usize) -> (r: Tensor4)
    requires
        a * b * (c * d) <= usize::MAX,
    ensures
        wf4(r),
        dims4_is(r, a as nat, b as nat, c as nat, d as nat),
        bits4(r) =~= Seq::new((a * b * (c * d)) as nat, |i: int| 0u32),
{
    Tensor4 {
        t: burn::tensor::Tensor::zeros(
            [a, b, c, d],
            &burn::backend::ndarray::NdArrayDevice::Cpu,
        ),
    }
}


/// Clones a rank-4 tensor; the clone holds the same value.
/// Relies on `Tensor::clone`.
#[verifier::external_body]
pub(crate) fn clone4(t: &Tensor4) -> (r: Tensor4)
    ensures
        r == *t,
{
    Tensor4 { t: t.t.clone() }
}


/// Reads the shape of a rank-3 tensor.  Relies on `Tensor::dims`.
#[verifier::external_body]
pub fn t3_shape(t: &Tensor3) -> (r: (usize, usize, usize))
    ensures
        r.0 as nat == dims3(*t)[0],
        r.1 as nat == dims3(*t)[1],
        r.2 as nat == dims3(*t)[2],
{
    let d = t.t.dims();
    (d[0], d[1], d[2])
}

/// Reads the shape of a rank-4 tensor.  Relies on `Tensor::dims`.
#[verifier::external_body]
pub fn t4_shape(t: &Tensor4) -> (r: (usize, usize, usize, usize))
    ensures
        r.0 as nat == dims4(*t)[0],
        r.1 as nat == dims4(*t)[1],
        r.2 as nat == dims4(*t)[2],
        r.3 as nat == dims4(*t)[3],
{
    let d = t.t.dims();
    (d[0], d[1], d[2], d[3])
}


// ---------------------------------------------------------------------------
// Data movement
// ---------------------------------------------------------------------------

/// Concatenation along the head axis (dimension 1).
/// Relies on `Tensor::cat`: the right-hand block follows the left one.
#[verifier::external_body]
pub(crate) fn cat_heads(a: &Tensor4, b: &Tensor4) -> (r: Tensor4)
    requires
        wf4(*a),
        wf4(*b),
        dims4(*b)[0] == dims4(*a)[0],
        dims4(*b)[2] == dims4(*a)[2],
        dims4(*b)[3] == dims4(*a)[3],
    ensures
        wf4(r),
        dims4_is(
            r,
            dims4(*a)[0],
            dims4(*a)[1] + dims4(*b)[1],
            dims4(*a)[2],
            dims4(*a)[3],
        ),
        forall|i: int, j: int, k: int, l: int|
            in4(r, i, j, k, l) ==> #[trigger] at4(r, i, j, k, l) == if j < dims4(*a)[1] {
                at4(*a, i, j, k, l)
            } else {
                at4(*b, i, j - dims4(*a)[1], k, l)
            },
{
    Tensor4 { t: burn::tensor::Tensor::cat(vec![a.t.clone(), b.t.clone()], 1) }
}

/// Concatenation along the sequence axis (dimension 2).
/// Relies on `Tensor::cat`.
#[verifier::external_body]
pub(crate) fn cat_seq(a: &Tensor4, b: &Tensor4) -> (r: Tensor4)
    requires
        wf4(*a),
        wf4(*b),
        dims4(*b)[0] == dims4(*a)[0],
        dims4(*b)[1] == dims4(*a)[1],
        dims4(*b)[3] == dims4(*a)[3],
    ensures
        wf4(r),
        dims4_is(
            r,
            dims4(*a)[0],
            dims4(*a)[1],
            dims4(*a)[2] + dims4(*b)[2],
            dims4(*a)[3],
        ),
        forall|i: int, j: int, k: int, l: int|
            in4(r, i, j, k, l) ==> #[trigger] at4(r, i, j, k, l) == if k < dims4(*a)[2] {
                at4(*a, i, j, k, l)
            } else {
                at4(*b, i, j, k - dims4(*a)[2], l)
            },
{
    Tensor4 { t: burn::tensor::Tensor::cat(vec![a.t.clone(), b.t.clone()], 2) }
}

/// Concatenation along the feature axis (dimension 3).
/// Relies on `Tensor::cat`.
#[verifier::external_body]
pub(crate) fn cat_last(a: &Tensor4, b: &Tensor4) -> (r: Tensor4)
    requires
        wf4(*a),
        wf4(*b),
        dims4(*b)[0] == dims4(*a)[0],
        dims4(*b)[1] == dims4(*a)[1],
        dims4(*b)[2] == dims4(*a)[2],
    ensures
        wf4(r),
        dims4_is(
            r,
            dims4(*a)[0],
            dims4(*a)[1],
            dims4(*a)[2],
            dims4(*a)[3] + dims4(*b)[3],
        ),
        forall|i: int, j: int, k: int, l: int|
            in4(r, i, j, k, l) ==> #[trigger] at4(r, i, j, k, l) == if l < dims4(*a)[3] {
                at4(*a, i, j, k, l)
            } else {
                at4(*b, i, j, k, l - dims4(*a)[3])
            },
{
    Tensor4 { t: burn::tensor::Tensor::cat(vec![a.t.clone(), b.t.clone()], 3) }
}

/// The slice `[.., .., .., lo..hi]` of the feature axis.
/// Relies on `Tensor::slice`; ranges must be non-empty and in bounds.
#[verifier::external_body]
pub(crate) fn slice_last(x: &Tensor4, lo: usize, hi: usize) -> (r: Tensor4)
    requires
        wf4(*x),
        dims4(*x)[0] >= 1,
        dims4(*x)[1] >= 1,
        dims4(*x)[2] >= 1,
        lo < hi,
        hi <= dims4(*x)[3],
    ensures
        wf4(r),
        dims4_is(r, dims4(*x)[0], dims4(*x)[1], dims4(*x)[2], (hi - lo) as nat),
        forall|i: int, j: int, k: int, l: int|
            in4(r, i, j, k, l) ==> #[trigger] at4(r, i, j, k, l) == at4(*x, i, j, k, l + lo),
{
    let d = x.t.dims();
    Tensor4 { t: x.t.clone().slice([0..d[0], 0..d[1], 0..d[2], lo..hi]) }
}

/// Swap of the head and sequence axes (dimensions 1 and 2).
/// Relies on `Tensor::swap_dims`.
#[verifier::external_body]
pub(crate) fn swap_heads_seq(x: &Tensor4) -> (r: Tensor4)
    requires
        wf4(*x),
    ensures
        wf4(r),
        dims4_is(r, dims4(*x)[0], dims4(*x)[2], dims4(*x)[1], dims4(*x)[3]),
        forall|i: int, j: int, k: int, l: int|
            in4(r, i, j, k, l) ==> #[trigger] at4(r, i, j, k, l) == at4(*x, i, k, j, l),
{
    Tensor4 { t: x.t.clone().swap_dims(1, 2) }
}

/// Swap of the two last axes (dimensions 2 and 3), as used for `K`
/// transposition.  Relies on `Tensor::swap_dims`.
#[verifier::external_body]
pub(crate) fn swap_last_two(x: &Tensor4) -> (r: Tensor4)
    requires
        wf4(*x),
    ensures
        wf4(r),
        dims4_is(r, dims4(*x)[0], dims4(*x)[1], dims4(*x)[3], dims4(*x)[2]),
        forall|i: int, j: int, k: int, l: int|
            in4(r, i, j, k, l) ==> #[trigger] at4(r, i, j, k, l) == at4(*x, i, j, l, k),
{
    Tensor4 { t: x.t.clone().swap_dims(2, 3) }
}

/// Reshape of a rank-3 tensor into rank 4; the flat element order is kept.
/// Relies on `Tensor::reshape`.
#[verifier::external_body]
pub(crate) fn reshape3_to4(x: &Tensor3, a: usize, b: usize, c: usize, d: usize) -> (r: Tensor4)
    requires
        wf3(*x),
        a * b * (c * d) == dims3(*x)[0] * dims3(*x)[1] * dims3(*x)[2],
    ensures
        wf4(r),
        dims4_is(r, a as nat, b as nat, c as nat, d as nat),
        bits4(r) == bits3(*x),
{
    Tensor4 { t: x.t.clone().reshape([a, b, c, d]) }
}

/// Reshape of a rank-4 tensor into rank 3; the flat element order is kept.
/// Relies on `Tensor::reshape`.
#[verifier::external_body]
pub(crate) fn reshape4_to3(x: &Tensor4, a: usize, b: usize, c: usize) -> (r: Tensor3)
    requires
        wf4(*x),
        a * b * c == dims4(*x)[0] * dims4(*x)[1] * (dims4(*x)[2] * dims4(*x)[3]),
    ensures
        wf3(r),
        dims3_is(r, a as nat, b as nat, c as nat),
        bits3(r) == bits4(*x),
{
    Tensor3 { t: x.t.clone().reshape([a, b, c]) }
}

/// Reshape of a rank-2 tensor of shape `[s, h]` into `[1, 1, s, h]`, ready
/// to broadcast over batch and heads.  Relies on `Tensor::reshape`.
#[verifier::external_body]
pub(crate) fn broadcast2_to4(x: &Tensor2) -> (r: Tensor4)
    requires
        wf2(*x),
    ensures
        wf4(r),
        dims4_is(r, 1, 1, dims2(*x)[0], dims2(*x)[1]),
        bits4(r) == bits2(*x),
{
    let d = x.t.dims();
    Tensor4 { t: x.t.clone().reshape([1, 1, d[0], d[1]]) }
}

/// Row gather: row `i` of the result is row `idx[i]` of the table.
/// Relies on `Tensor::select` on dimension 0; every index must be in range,
/// else the backend aborts.
#[verifier::external_body]
pub(crate) fn select_rows(table: &Tensor2, idx: &IntTensor1) -> (r: Tensor2)
    requires
        wf2(*table),
        forall|i: int|
            0 <= i < vals_i1(*idx).len() ==> 0 <= #[trigger] vals_i1(*idx)[i] < dims2(
                *table,
            )[0],
    ensures
        wf2(r),
        dims2_is(r, vals_i1(*idx).len(), dims2(*table)[1]),
        forall|i: int, j: int|
            in2(r, i, j) ==> #[trigger] at2(r, i, j) == at2(*table, vals_i1(*idx)[i], j),
{
    Tensor2 { t: table.t.clone().select(0, idx.t.clone()) }
}

// ---------------------------------------------------------------------------
// Elementwise arithmetic
// ---------------------------------------------------------------------------

/// Elementwise product, with `burn`'s broadcasting on the right operand.
/// Relies on `Tensor::mul`.
#[verifier::external_body]
pub(crate) fn mul4(a: &Tensor4, b: &Tensor4) -> (r: Tensor4)
    requires
        wf4(*a),
        wf4(*b),
        forall|d: int| 0 <= d < 4 ==> #[trigger] bc_into(dims4(*a), dims4(*b), d),
    ensures
        wf4(r),
        dims4(r) == dims4(*a),
        forall|i: int, j: int, k: int, l: int|
            in4(r, i, j, k, l) ==> #[trigger] at4(r, i, j, k, l) == f32_mul_bits(
                at4(*a, i, j, k, l),
                at4_bc(*b, i, j, k, l),
            ),
{
    Tensor4 { t: a.t.clone().mul(b.t.clone()) }
}

/// Elementwise sum, with `burn`'s broadcasting on the right operand.
/// Relies on `Tensor::add`.
#[verifier::external_body]
pub(crate) fn add4(a: &Tensor4, b: &Tensor4) -> (r: Tensor4)
    requires
        wf4(*a),
        wf4(*b),
        forall|d: int| 0 <= d < 4 ==> #[trigger] bc_into(dims4(*a), dims4(*b), d),
    ensures
        wf4(r),
        dims4(r) == dims4(*a),
        forall|i: int, j: int, k: int, l: int|
            in4(r, i, j, k, l) ==> #[trigger] at4(r, i, j, k, l) == f32_add_bits(
                at4(*a, i, j, k, l),
                at4_bc(*b, i, j, k, l),
            ),
{
    Tensor4 { t: a.t.clone().add(b.t.clone()) }
}

/// Elementwise difference, with `burn`'s broadcasting on the right operand.
/// Relies on `Tensor::sub`.
#[verifier::external_body]
pub(crate) fn sub4(a: &Tensor4, b: &Tensor4) -> (r: Tensor4)
    requires
        wf4(*a),
        wf4(*b),
        forall|d: int| 0 <= d < 4 ==> #[trigger] bc_into(dims4(*a), dims4(*b), d),
    ensures
        wf4(r),
        dims4(r) == dims4(*a),
        forall|i: int, j: int, k: int, l: int|
            in4(r, i, j, k, l) ==> #[trigger] at4(r, i, j, k, l) == f32_sub_bits(
                at4(*a, i, j, k, l),
                at4_bc(*b, i, j, k, l),
            ),
{
    Tensor4 { t: a.t.clone().sub(b.t.clone()) }
}

/// Elementwise division by a tensor of shape `[1, 1, 1, 1]` (the scaling
/// step of attention scores).  IEEE division never traps; the contents are
/// not pinned because only the shape feeds later contracts.
/// Relies on `Tensor::div`.
#[verifier::external_body]
pub(crate) fn div4_by_scalar_tensor(a: &Tensor4, s: &Tensor4) -> (r: Tensor4)
    requires
        wf4(*a),
        wf4(*s),
        dims4_is(*s, 1, 1, 1, 1),
    ensures
        wf4(r),
        dims4(r) == dims4(*a),
{
    Tensor4 { t: a.t.clone().div(s.t.clone()) }
}

// ---------------------------------------------------------------------------
// Contractions and reductions (shape-level contracts only: the backend
// chooses the reduction order, so their results carry no element names)
// ---------------------------------------------------------------------------

/// Batched matrix product over the two last axes.
/// Relies on `Tensor::matmul`; inner dimensions must agree, and the row,
/// inner and column counts must not be zero: the backend divides element
/// counts by the matrix-component sizes when it splits the batches.
#[verifier::external_body]
pub(crate) fn matmul4(a: &Tensor4, b: &Tensor4) -> (r: Tensor4)
    requires
        wf4(*a),
        wf4(*b),
        dims4(*b)[0] == dims4(*a)[0],
        dims4(*b)[1] == dims4(*a)[1],
        dims4(*b)[2] == dims4(*a)[3],
        dims4(*a)[2] >= 1,
        dims4(*a)[3] >= 1,
        dims4(*b)[3] >= 1,
    ensures
        wf4(r),
        dims4_is(r, dims4(*a)[0], dims4(*a)[1], dims4(*a)[2], dims4(*b)[3]),
{
    Tensor4 { t: a.t.clone().matmul(b.t.clone()) }
}

/// Matrix product of two rank-2 tensors.  Relies on `Tensor::matmul`;
/// the row, inner and column counts must not be zero, since the backend
/// divides element counts by the matrix-component sizes.
#[verifier::external_body]
pub(crate) fn matmul2(a: &Tensor2, b: &Tensor2) -> (r: Tensor2)
    requires
        wf2(*a),
        wf2(*b),
        dims2(*b)[0] == dims2(*a)[1],
        dims2(*a)[0] >= 1,
        dims2(*a)[1] >= 1,
        dims2(*b)[1] >= 1,
    ensures
        wf2(r),
        dims2_is(r, dims2(*a)[0], dims2(*b)[1]),
{
    Tensor2 { t: a.t.clone().matmul(b.t.clone()) }
}

/// Softmax along the key axis (dimension 3); the shape is kept.
/// Relies on `burn::tensor::activation::softmax`; the axis must not be
/// empty, since the inner maximum folds over it.
#[verifier::external_body]
pub(crate) fn softmax_keys(x: &Tensor4) -> (r: Tensor4)
    requires
        wf4(*x),
        dims4(*x)[3] >= 1,
    ensures
        wf4(r),
        dims4(r) == dims4(*x),
{
    Tensor4 { t: burn::tensor::activation::softmax(x.t.clone(), 3) }
}

// ---------------------------------------------------------------------------
// Rank-1 and rank-2 table construction (shape-level contracts only: the
// values go through libm)
// ---------------------------------------------------------------------------

/// The float tensor `[0, 1, ..., n - 1]`.
/// Relies on `Tensor::arange` and the int-to-float cast.
#[verifier::external_body]
pub(crate) fn arange_f(n: usize) -> (r: Tensor1)
    requires
        n <= i64::MAX,
    ensures
        len1(r) == n,
{
    Tensor1 {
        t: burn::tensor::Tensor::arange(
            0..(n as i64),
            &burn::backend::ndarray::NdArrayDevice::Cpu,
        ).float(),
    }
}

/// The float tensor `[0, step, 2 * step, ...]` below `n`.
/// Relies on `Tensor::arange_step` and the int-to-float cast.
#[verifier::external_body]
pub(crate) fn arange_step_f(n: usize, step: usize) -> (r: Tensor1)
    requires
        step >= 1,
        n <= i64::MAX,
    ensures
        len1(r) == (n + step - 1) as nat / step as nat,
{
    Tensor1 {
        t: burn::tensor::Tensor::arange_step(
            0..(n as i64),
            step,
            &burn::backend::ndarray::NdArrayDevice::Cpu,
        ).float(),
    }
}

/// A one-element float tensor holding the given integer value.
/// Relies on `Tensor::from_data` and the int-to-float cast.
#[verifier::external_body]
pub(crate) fn scalar_f(v: u64) -> (r: Tensor1)
    requires
        v <= i64::MAX,
    ensures
        len1(r) == 1,
{
    let data = burn::tensor::Data::new(
        vec![v as i64],
        burn::tensor::Shape::new([1]),
    );
    Tensor1 {
        t: burn::tensor::Tensor::<burn::backend::NdArray, 1, burn::tensor::Int>::from_data(
            data,
            &burn::backend::ndarray::NdArrayDevice::Cpu,
        ).float(),
    }
}

/// Elementwise division of a rank-1 tensor by an integer scalar.
/// Relies on `Tensor::div_scalar`.
#[verifier::external_body]
pub(crate) fn div_scalar1(t: &Tensor1, k: usize) -> (r: Tensor1)
    requires
        k <= i64::MAX,
    ensures
        len1(r) == len1(*t),
{
    Tensor1 { t: t.t.clone().div_scalar(k as i64) }
}

/// Elementwise product of rank-1 tensors, broadcasting a one-element right
/// operand.  Relies on `Tensor::mul`.
#[verifier::external_body]
pub(crate) fn mul1(a: &Tensor1, b: &Tensor1) -> (r: Tensor1)
    requires
        len1(*b) == len1(*a) || len1(*b) == 1,
    ensures
        len1(r) == len1(*a),
{
    Tensor1 { t: a.t.clone().mul(b.t.clone()) }
}

/// Elementwise natural logarithm.  Relies on `Tensor::log`.
#[verifier::external_body]
pub(crate) fn log1(t: &Tensor1) -> (r: Tensor1)
    ensures
        len1(r) == len1(*t),
{
    Tensor1 { t: t.t.clone().log() }
}

/// Elementwise exponential.  Relies on `Tensor::exp`.
#[verifier::external_body]
pub(crate) fn exp1(t: &Tensor1) -> (r: Tensor1)
    ensures
        len1(r) == len1(*t),
{
    Tensor1 { t: t.t.clone().exp() }
}

/// Elementwise reciprocal.  Relies on `Tensor::recip`.
#[verifier::external_body]
pub(crate) fn recip1(t: &Tensor1) -> (r: Tensor1)
    ensures
        len1(r) == len1(*t),
{
    Tensor1 { t: t.t.clone().recip() }
}

/// Elementwise square root.  Relies on `Tensor::sqrt`.
#[verifier::external_body]
pub(crate) fn sqrt1(t: &Tensor1) -> (r: Tensor1)
    ensures
        len1(r) == len1(*t),
{
    Tensor1 { t: t.t.clone().sqrt() }
}

/// Reshape of a rank-1 tensor into rank 2.  Relies on `Tensor::reshape`.
#[verifier::external_body]
pub(crate) fn reshape1_to2(t: &Tensor1, a: usize, b: usize) -> (r: Tensor2)
    requires
        a * b == len1(*t),
    ensures
        wf2(r),
        dims2_is(r, a as nat, b as nat),
{
    Tensor2 { t: t.t.clone().reshape([a, b]) }
}

/// Reshape of a rank-1 tensor into a `[1, 1, 1, 1]` scalar tensor.
/// Relies on `Tensor::reshape`.
#[verifier::external_body]
pub(crate) fn scalar_to4(t: &Tensor1) -> (r: Tensor4)
    requires
        len1(*t) == 1,
    ensures
        wf4(r),
        dims4_is(r, 1, 1, 1, 1),
{
    Tensor4 { t: t.t.clone().reshape([1, 1, 1, 1]) }
}

/// Elementwise cosine of a rank-2 tensor.  Relies on `Tensor::cos`.
#[verifier::external_body]
pub(crate) fn cos2(t: &Tensor2) -> (r: Tensor2)
    requires
        wf2(*t),
    ensures
        wf2(r),
        dims2(r) == dims2(*t),
{
    Tensor2 { t: t.t.clone().cos() }
}

/// Elementwise sine of a rank-2 tensor.  Relies on `Tensor::sin`.
#[verifier::external_body]
pub(crate) fn sin2(t: &Tensor2) -> (r: Tensor2)
    requires
        wf2(*t),
    ensures
        wf2(r),
        dims2(r) == dims2(*t),
{
    Tensor2 { t: t.t.clone().sin() }
}

// ---------------------------------------------------------------------------
// Linear projections
// ---------------------------------------------------------------------------

/// A linear projection with randomly initialized weights, as
/// `burn::nn::LinearConfig::init` draws them.  Nothing is claimed of the
/// weight values; the widths and the presence of a bias are pinned.
#[verifier::external_body]
pub(crate) fn make_linear(d_input: usize, d_output: usize, bias: bool) -> (r: LinearLayer)
    ensures
        lin_in(r) == d_input,
        lin_out(r) == d_output,
        lin_bias(r) == bias,
{
    LinearLayer {
        l: burn::nn::LinearConfig::new(d_input, d_output).with_bias(bias).init(
            &burn::backend::ndarray::NdArrayDevice::Cpu,
        ),
    }
}

/// A linear projection assembled from an explicit weight matrix and
/// optional bias, as a weight loader would supply them.
/// Relies on `burn::nn::Linear` and `Param::initialized`.
#[verifier::external_body]
pub fn linear_from_parts(weight: Tensor2, bias: Option<Tensor1>) -> (r: LinearLayer)
    requires
        wf2(weight),
        bias is Some ==> len1(bias->0) == dims2(weight)[1],
    ensures
        lin_in(r) == dims2(weight)[0],
        lin_out(r) == dims2(weight)[1],
        lin_bias(r) == (bias is Some),
{
    let b = match bias {
        Some(t) => Some(burn::module::Param::initialized(
            burn::module::ParamId::new(),
            t.t,
        )),
        None => None,
    };
    LinearLayer {
        l: burn::nn::Linear {
            weight: burn::module::Param::initialized(burn::module::ParamId::new(), weight.t),
            bias: b,
        },
    }
}

/// Reads the widths of a linear projection off its weight matrix, which
/// `burn` stores as `[d_input, d_output]`.
/// Relies on `Param::val` and `Tensor::dims`.
#[verifier::external_body]
pub fn linear_shape(l: &LinearLayer) -> (r: (usize, usize))
    ensures
        r.0 as nat == lin_in(*l),
        r.1 as nat == lin_out(*l),
{
    let d = l.l.weight.val().dims();
    (d[0], d[1])
}

/// Applies a linear projection to a rank-3 tensor: the feature axis is
/// mapped from `lin_in` to `lin_out` and the leading axes are kept.
/// Relies on `burn::nn::Linear::forward`, which is the matrix product
/// with the weight: the sequence length and both widths must not be
/// zero, since the backend divides element counts by the
/// matrix-component sizes.
#[verifier::external_body]
pub(crate) fn linear_forward3(l: &LinearLayer, x: &Tensor3) -> (r: Tensor3)
    requires
        wf3(*x),
        dims3(*x)[2] == lin_in(*l),
        dims3(*x)[1] >= 1,
        lin_in(*l) >= 1,
        lin_out(*l) >= 1,
    ensures
        wf3(r),
        dims3_is(r, dims3(*x)[0], dims3(*x)[1], lin_out(*l)),
{
    Tensor3 { t: l.l.forward(x.t.clone()) }
}

} // verus!
