//! Numeric utilities.

use vstd::prelude::*;
use core::cmp::Ordering;
use vstd::std_specs::cmp::PartialOrdSpec;
use vstd::arithmetic::div_mod::{lemma_fundamental_div_mod, lemma_mod_multiples_basic};

verus! {

/// What `a < b` means for a `PartialOrd` type in terms of its comparison
/// specification.
pub open spec fn lt_spec<T: PartialOrd>(a: &T, b: &T) -> bool {
    a.partial_cmp_spec(b) == Some(Ordering::Less)
}

/// What `a > b` means for a `PartialOrd` type in terms of its comparison
/// specification.
pub open spec fn gt_spec<T: PartialOrd>(a: &T, b: &T) -> bool {
    a.partial_cmp_spec(b) == Some(Ordering::Greater)
}

/// What `a >= b` means for a `PartialOrd` type in terms of its comparison
/// specification.
pub open spec fn ge_spec<T: PartialOrd>(a: &T, b: &T) -> bool {
    a.partial_cmp_spec(b) matches Some(Ordering::Greater | Ordering::Equal)
}

/// Generic min function for any `PartialOrd`.
///
/// For a type whose comparison obeys its specification, the result is `a`
/// exactly when `a < b`; either way it is one of the two arguments.
pub fn min<T: PartialOrd>(a: T, b: T) -> (r: T)
    ensures
        r == a || r == b,
        T::obeys_partial_cmp_spec() ==> r == (if lt_spec(&a, &b) {
            a
        } else {
            b
        }),
{
    if a < b {
        a
    } else {
        b
    }
}

/// Generic max function for any `PartialOrd`.
///
/// For a type whose comparison obeys its specification, the result is `a`
/// exactly when `a >= b`; either way it is one of the two arguments.
pub fn max<T: PartialOrd>(a: T, b: T) -> (r: T)
    ensures
        r == a || r == b,
        T::obeys_partial_cmp_spec() ==> r == (if ge_spec(&a, &b) {
            a
        } else {
            b
        }),
{
    if a >= b {
        a
    } else {
        b
    }
}

/// Generic min-max function for any `PartialOrd`: both arguments, smaller
/// first when the comparison obeys its specification.
pub fn min_max<T: PartialOrd>(a: T, b: T) -> (r: (T, T))
    ensures
        (r.0 == a && r.1 == b) || (r.0 == b && r.1 == a),
        T::obeys_partial_cmp_spec() ==> r == (if ge_spec(&a, &b) {
            (b, a)
        } else {
            (a, b)
        }),
{
    if a >= b {
        (b, a)
    } else {
        (a, b)
    }
}

/// Round `num` up to the next multiple of `multiple`.
pub fn round_multiple(num: u64, multiple: u64) -> (r: u64)
    requires
        multiple > 0,
        num + multiple <= u64::MAX,
    ensures
        r == ((num + multiple - 1) / (multiple as int)) * multiple,
        r % multiple == 0,
        num <= r < num + multiple,
{
    proof {
        let x = (num + multiple - 1) as int;
        let m = multiple as int;
        lemma_fundamental_div_mod(x, m);
        vstd::arithmetic::div_mod::lemma_mod_division_less_than_divisor(x, m);
        assert((x / m) * m == x - x % m);
        lemma_mod_multiples_basic(x / m, m);
    }
    ((num + multiple - 1) / multiple) * multiple
}

/// Adds a `clamp` function to ordered types.
pub trait ClampExt: Sized + PartialOrd {
    /// Clamps the value to the `min` and `max` bounds: the result is `min`
    /// when the value lies below it, `max` when above, and the value itself
    /// otherwise.
    fn clamp(self, min: Self, max: Self) -> (r: Self)
        ensures
            r == self || r == min || r == max,
            Self::obeys_partial_cmp_spec() ==> r == (if lt_spec(&self, &min) {
                min
            } else if gt_spec(&self, &max) {
                max
            } else {
                self
            }),
    ;
}

impl<T: PartialOrd> ClampExt for T {
    fn clamp(self, min: T, max: T) -> (r: T) {
        if self < min {
            min
        } else if self > max {
            max
        } else {
            self
        }
    }
}

/// Approximate equality comparison within a given accuracy.
///
/// This crate fixes only the interface; the floating-point implementors
/// live outside the verified library, with the tooling that uses them.
pub trait AlmostEqExt: Sized {
    /// Tests if two numbers are almost equal within a degree of accuracy.
    fn almost_eq(&self, b: Self, accuracy: Self) -> bool;

    /// Variation of `almost_eq` that doesn't check for infinite or NaN
    /// values.
    fn almost_eq_fast(&self, b: Self, accuracy: Self) -> bool;
}

} // verus!
