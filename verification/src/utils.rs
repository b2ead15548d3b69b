use vstd::prelude::*;
use vstd::std_specs::ops::{AddSpec, MulSpec, SubSpec};
use core::ops::{Add, Mul, Sub};

verus! {

/// `d` may be what `b - a` gives.
pub open spec fn difference_of<T: Sub<T, Output = T>>(b: T, a: T, d: T) -> bool {
    T::obeys_sub_spec() ==> d == b.sub_spec(a)
}

/// `m` may be what `d * f` gives.
pub open spec fn product_of<T: Mul<F, Output = T>, F>(d: T, f: F, m: T) -> bool {
    T::obeys_mul_spec() ==> m == d.mul_spec(f)
}

/// Every operation that `a + (b - a) * f` performs is defined for its
/// operands, whatever the earlier operations gave.
pub open spec fn lerp_defined<T, F>(a: T, b: T, f: F) -> bool where
    T: Clone + Add<T, Output = T> + Sub<T, Output = T> + Mul<F, Output = T>,
 {
    &&& b.sub_req(a)
    &&& forall|d: T| #[trigger] difference_of(b, a, d) ==> d.mul_req(f)
    &&& forall|d: T, m: T, c: T|
        #![trigger difference_of(b, a, d), product_of(d, f, m), cloned(a, c)]
        difference_of(b, a, d) && product_of(d, f, m) && cloned(a, c) ==> c.add_req(m)
}

/// `r` is what `a + (b - a) * f` gives for a clone of `a`, when the
/// operators of `T` follow their specifications.
pub open spec fn lerp_result<T, F>(a: T, b: T, f: F, r: T) -> bool where
    T: Clone + Add<T, Output = T> + Sub<T, Output = T> + Mul<F, Output = T>,
 {
    T::obeys_add_spec() && T::obeys_sub_spec() && T::obeys_mul_spec() ==> exists|c: T|
        cloned(a, c) && r == c.add_spec(b.sub_spec(a).mul_spec(f))
}

/// Linear interpolation `a + (b - a) * f` between `a` and `b`.
pub fn lerp<T, F>(a: T, b: T, f: F) -> (r: T) where
    T: Clone + Add<T, Output = T> + Sub<T, Output = T> + Mul<F, Output = T>,

    requires
        lerp_defined(a, b, f),
    ensures
        lerp_result(a, b, f, r),
{
    let c = a.clone();
    let d = b - a;
    assert(difference_of(b, a, d));
    let m = d * f;
    assert(product_of(d, f, m));
    assert(cloned(a, c));
    c + m
}

/// For a type whose operators follow their specifications and whose clone
/// gives back the value itself, linear interpolation computes exactly
/// `a + (b - a) * f` in the type's own arithmetic.
pub proof fn law_lerp_exact<T, F>(a: T, b: T, f: F, r: T)
    where
        T: Clone + Add<T, Output = T> + Sub<T, Output = T> + Mul<F, Output = T>,
    requires
        T::obeys_add_spec(),
        T::obeys_sub_spec(),
        T::obeys_mul_spec(),
        forall|c: T| #[trigger] cloned(a, c) ==> c == a,
        lerp_result(a, b, f, r),
    ensures
        r == a.add_spec(b.sub_spec(a).mul_spec(f)),
{
    let c = choose|c: T| cloned(a, c) && r == c.add_spec(b.sub_spec(a).mul_spec(f));
    assert(cloned(a, c));
}

/// On machine integers, where no step overflows, linear interpolation is
/// exact: it gives `a + (b - a) * f`, so `a` at `f == 0` and `b` at `f == 1`.
pub proof fn law_lerp_integers(a: i64, b: i64, f: i64, r: i64)
    requires
        lerp_defined(a, b, f),
        lerp_result(a, b, f, r),
    ensures
        r == a + (b - a) * f,
        f == 0 ==> r == a,
        f == 1 ==> r == b,
{
    let d = b.sub_spec(a);
    assert(difference_of(b, a, d));
    assert(d == b - a);
    let m = d.mul_spec(f);
    assert(product_of(d, f, m));
    assert(m == (b - a) * f);
    let c = choose|c: i64| cloned(a, c) && r == c.add_spec(b.sub_spec(a).mul_spec(f));
    assert(cloned(a, c));
    assert(c == a);
    assert(c.add_req(m));
    assert(f == 0 ==> (b - a) * f == 0) by (nonlinear_arith);
    assert(f == 1 ==> (b - a) * f == b - a) by (nonlinear_arith);
}

} // verus!
