use vstd::prelude::*;

verus! {

/// A coordinate or an extent, in whole pixels.
///
/// Sums and differences of scalars are computed exactly and then brought back
/// into the scalar range: a value beyond either end becomes that end.
pub type Scalar = i64;

/// A position: `[x, y]`.
pub type Point = [Scalar; 2];

/// The scalar nearest to `v`.
pub open spec fn saturated(v: int) -> Scalar {
    if v < Scalar::MIN {
        Scalar::MIN
    } else if v > Scalar::MAX {
        Scalar::MAX
    } else {
        v as Scalar
    }
}

/// Brings an exactly computed value back into the scalar range.
pub fn saturate(v: i128) -> (r: Scalar)
    ensures
        r == saturated(v as int),
{
    if v < Scalar::MIN as i128 {
        Scalar::MIN
    } else if v > Scalar::MAX as i128 {
        Scalar::MAX
    } else {
        v as Scalar
    }
}

/// The sum of two vectors, component by component.
///
/// Calls `vecmath::vec2_add`, which adds the first components and the second
/// components with `+`, and so panics where either sum leaves the range of the
/// component type: such vectors are left out. Nothing is proved of the call;
/// its result is taken to be the two sums.
#[verifier::external_body]
pub(crate) fn vec2_add(a: [i128; 2], b: [i128; 2]) -> (sum: [i128; 2])
    requires
        i128::MIN <= a[0] + b[0] <= i128::MAX,
        i128::MIN <= a[1] + b[1] <= i128::MAX,
    ensures
        sum[0] == a[0] + b[0],
        sum[1] == a[1] + b[1],
{
    vecmath::vec2_add(a, b)
}

/// The difference of two vectors, component by component.
///
/// Calls `vecmath::vec2_sub`, which subtracts the first components and the
/// second components with `-`, and so panics where either difference leaves
/// the range of the component type: such vectors are left out. Nothing is
/// proved of the call; its result is taken to be the two differences.
#[verifier::external_body]
pub(crate) fn vec2_sub(a: [i128; 2], b: [i128; 2]) -> (difference: [i128; 2])
    requires
        i128::MIN <= a[0] - b[0] <= i128::MAX,
        i128::MIN <= a[1] - b[1] <= i128::MAX,
    ensures
        difference[0] == a[0] - b[0],
        difference[1] == a[1] - b[1],
{
    vecmath::vec2_sub(a, b)
}

} // verus!
