//! Interpolation and axis helpers shared by the conversions and gradients.

use std::ops::{Add, Mul, Sub};
use vstd::prelude::*;
use vstd::std_specs::ops::{AddSpec, MulSpec, SubSpec};

verus! {

/// The linear interpolation `a + (b - a) * percent`, in the arithmetic of `T`.
pub open spec fn lerp_spec<T>(a: T, b: T, percent: T) -> T where
    T: Copy + Add<Output = T> + Sub<Output = T> + Mul<Output = T>,
 {
    a.add_spec(b.sub_spec(a).mul_spec(percent))
}

/// `lerp(a, b, percent)` is defined: `T`'s arithmetic is one whose results
/// Verus knows, and no step of `a + (b - a) * percent` leaves its range.
pub open spec fn lerp_defined<T>(a: T, b: T, percent: T) -> bool where
    T: Copy + Add<Output = T> + Sub<Output = T> + Mul<Output = T>,
 {
    &&& T::obeys_add_spec()
    &&& T::obeys_sub_spec()
    &&& T::obeys_mul_spec()
    &&& b.sub_req(a)
    &&& b.sub_spec(a).mul_req(percent)
    &&& a.add_req(b.sub_spec(a).mul_spec(percent))
}

/// Linear interpolation from `a` (at `percent` zero) towards `b` (at one).
pub fn lerp<T>(a: T, b: T, percent: T) -> (r: T) where
    T: Copy + Add<Output = T> + Sub<Output = T> + Mul<Output = T>,

    requires
        lerp_defined(a, b, percent),
    ensures
        r == lerp_spec(a, b, percent),
{
    a + (b - a) * percent
}

/// Interpolates two arrays element by element with the same `percent`.
pub fn array_lerp<T, const N: usize>(array_a: &[T; N], array_b: &[T; N], percent: T) -> (r: [T;
    N]) where T: Copy + Add<Output = T> + Sub<Output = T> + Mul<Output = T>,

    requires
        forall|i: int| 0 <= i < N ==> lerp_defined(#[trigger] array_a[i], array_b[i], percent),
    ensures
        forall|i: int| 0 <= i < N ==> #[trigger] r[i] == lerp_spec(array_a[i], array_b[i], percent),
{
    let mut result = *array_a;
    let mut i: usize = 0;
    while i < N
        invariant
            i <= N,
            forall|j: int| 0 <= j < N ==> lerp_defined(#[trigger] array_a[j], array_b[j], percent),
            forall|j: int| 0 <= j < i ==> #[trigger] result[j] == lerp_spec(array_a[j], array_b[j], percent),
        decreases N - i,
    {
        result[i] = lerp(array_a[i], array_b[i], percent);
        i = i + 1;
    }
    result
}

/// `(a, b, c)` turned one step clockwise: `(b, c, a)`.
pub open spec fn clockwise<T>(t: (T, T, T)) -> (T, T, T) {
    (t.1, t.2, t.0)
}

/// `(a, b, c)` turned one step counterclockwise: `(c, a, b)`.
pub open spec fn counterclockwise<T>(t: (T, T, T)) -> (T, T, T) {
    (t.2, t.0, t.1)
}

/// `(a, b, c)` with its last two axes swapped: `(a, c, b)`.
pub open spec fn mirrored<T>(t: (T, T, T)) -> (T, T, T) {
    (t.0, t.2, t.1)
}

/// Turns the axes one step clockwise: `(a, b, c)` becomes `(b, c, a)`.
pub fn rotate_axes_clockwise<T>(a: T, b: T, c: T) -> (r: (T, T, T))
    ensures
        r == clockwise((a, b, c)),
{
    (b, c, a)
}

/// Turns the axes one step counterclockwise: `(a, b, c)` becomes `(c, a, b)`.
pub fn rotate_axes_counterclockwise<T>(a: T, b: T, c: T) -> (r: (T, T, T))
    ensures
        r == counterclockwise((a, b, c)),
{
    (c, a, b)
}

/// Swaps the last two axes: `(a, b, c)` becomes `(a, c, b)`.
pub fn mirror_axes<T>(a: T, b: T, c: T) -> (r: (T, T, T))
    ensures
        r == mirrored((a, b, c)),
{
    (a, c, b)
}

/// Turning the axes counterclockwise undoes turning them clockwise, and the
/// other way round; mirroring twice leaves them as they were.
pub proof fn lemma_axes_round_trip<T>(t: (T, T, T))
    ensures
        counterclockwise(clockwise(t)) == t,
        clockwise(counterclockwise(t)) == t,
        mirrored(mirrored(t)) == t,
{
}

/// In integer arithmetic, interpolating at zero gives the start and at one
/// gives the end, whenever the interpolation is defined.
pub proof fn lemma_lerp_endpoints(a: i64, b: i64)
    ensures
        lerp_defined(a, b, 0i64) ==> lerp_spec(a, b, 0i64) == a,
        lerp_defined(a, b, 1i64) ==> lerp_spec(a, b, 1i64) == b,
{
}

} // verus!
