//! The numbers that the engine computes with.
//!
//! The engine is written once, for any scalar type that has the arithmetic
//! operators of the standard library, a square root, and conversions from small
//! integers. Each operation `op` of a scalar has a specification function
//! `op_spec`; every contract in this crate is stated over those functions and
//! holds for scalars whose operations compute them (`exact`) and never fail
//! (`total`).
//!
//! The fixed-point type of this crate is such a scalar, and is proved to be.
//! A thin wrapper makes a floating-point type a scalar too. Such a wrapper
//! promises nothing of its results, and the contracts then say only which
//! operations are carried out, on what, and in which order.

use core::ops::{Add, Div, Mul, Neg, Sub};
use vstd::prelude::*;
use vstd::std_specs::convert::FromSpec;
use vstd::std_specs::ops::{AddSpec, DivSpec, MulSpec, NegSpec, SubSpec};

verus! {

/// A number type that positions, velocities, masses and times can be made of.
///
/// Arithmetic comes from the operator traits of the standard library. The
/// two methods declared here complete it.
pub trait Scalar: Copy + Add<Output = Self> + Sub<Output = Self> + Mul<Output = Self> + Div<
    Output = Self,
> + Neg<Output = Self> + From<u8> + From<i8> + From<u16> {
    /// Whether `sqrt` and `from_count` compute `sqrt_spec` and `count_spec`.
    /// A scalar that does not say so makes no such promise.
    open spec fn obeys_scalar_spec() -> bool {
        false
    }

    /// The value that `sqrt` stands for.
    open spec fn sqrt_spec(self) -> Self {
        arbitrary()
    }

    /// The value that `from_count` stands for.
    open spec fn count_spec(n: usize) -> Self {
        arbitrary()
    }

    /// The square root of `self`. It is defined on every value: a scalar
    /// decides for itself what the root of a negative number is.
    fn sqrt(self) -> (r: Self)
        ensures
            Self::obeys_scalar_spec() ==> r == self.sqrt_spec(),
    ;

    /// The scalar nearest to the number of items `n`.
    fn from_count(n: usize) -> (r: Self)
        ensures
            Self::obeys_scalar_spec() ==> r == Self::count_spec(n),
    ;
}

/// Addition is defined on every pair of scalars.
pub open spec fn can_add<T: Scalar>() -> bool {
    forall|a: T, b: T| #[trigger] a.add_req(b)
}

/// Subtraction is defined on every pair of scalars.
pub open spec fn can_sub<T: Scalar>() -> bool {
    forall|a: T, b: T| #[trigger] a.sub_req(b)
}

/// Multiplication is defined on every pair of scalars.
pub open spec fn can_mul<T: Scalar>() -> bool {
    forall|a: T, b: T| #[trigger] a.mul_req(b)
}

/// Division is defined on every pair of scalars, a zero divisor included.
pub open spec fn can_div<T: Scalar>() -> bool {
    forall|a: T, b: T| #[trigger] a.div_req(b)
}

/// Negation is defined on every scalar.
pub open spec fn can_neg<T: Scalar>() -> bool {
    forall|a: T| #[trigger] a.neg_req()
}

/// Every arithmetic operation of `T` is defined on all of its values, as it
/// is for a type that answers overflow and division by zero with a value of
/// its own (an infinity, a saturated number) rather than with a panic.
pub open spec fn total<T: Scalar>() -> bool {
    &&& can_add::<T>()
    &&& can_sub::<T>()
    &&& can_mul::<T>()
    &&& can_div::<T>()
    &&& can_neg::<T>()
}

/// Conversion from each of the three small integer types computes `from_spec`.
pub open spec fn exact_from<T: Scalar>() -> bool {
    &&& <T as FromSpec<u8>>::obeys_from_spec()
    &&& <T as FromSpec<i8>>::obeys_from_spec()
    &&& <T as FromSpec<u16>>::obeys_from_spec()
}

/// Every operation of `T` computes its specification function: the same
/// arguments always give the same result.
pub open spec fn exact<T: Scalar>() -> bool {
    &&& T::obeys_add_spec()
    &&& T::obeys_sub_spec()
    &&& T::obeys_mul_spec()
    &&& T::obeys_div_spec()
    &&& T::obeys_neg_spec()
    &&& exact_from::<T>()
    &&& T::obeys_scalar_spec()
}

/// The scalar that stands for the small unsigned integer `v`.
pub open spec fn of_u8<T: Scalar>(v: u8) -> T {
    <T as FromSpec<u8>>::from_spec(v)
}

/// The scalar that stands for the small signed integer `v`.
pub open spec fn of_i8<T: Scalar>(v: i8) -> T {
    <T as FromSpec<i8>>::from_spec(v)
}

/// The scalar that stands for the unsigned integer `v`.
pub open spec fn of_u16<T: Scalar>(v: u16) -> T {
    <T as FromSpec<u16>>::from_spec(v)
}

/// The scalar zero.
pub open spec fn zero<T: Scalar>() -> T {
    of_u8::<T>(0)
}

} // verus!
