//! A fixed-point scalar: a signed 64-bit number with 32 binary places.
//!
//! Its arithmetic is exact integer arithmetic on the raw value, rounded
//! towards zero and saturated at the limits of the type, so that the same
//! computation gives the same bits on every machine. Division by zero
//! saturates by the sign of the dividend; the root of a negative number is
//! zero.
//!
//! The range is the same on both sides of zero: the greatest number is
//! `i64::MAX`, the least `-i64::MAX`. No operation returns the one bit
//! pattern below that, `i64::MIN`, and every operation reads it as the least
//! number. So whatever holds of an operation holds of it with all signs
//! flipped.

use crate::drift::zero_laws;
use crate::force::{contribution, lemma_action_reaction, pull};
use crate::scalar::{exact, total, zero, Scalar};
use crate::sim::Bodies;
use crate::symmetry::{opposites_cancel, sign_symmetric};
use core::ops::{Add, Div, Mul, Neg, Sub};
use vstd::prelude::*;
use vstd::std_specs::ops::{AddSpec, DivSpec, MulSpec, NegSpec, SubSpec};

verus! {

/// The raw value of the number one, `2^32`.
pub const ONE: i64 = 0x1_0000_0000;

/// A number with 32 binary places: `raw / 2^32`.
#[derive(Clone, Copy, Debug, PartialEq, Eq)]
pub struct Fixed {
    pub raw: i64,
}

/// The raw value nearest to `v` that an operation returns: `v` itself where
/// it lies between `-i64::MAX` and `i64::MAX`, else the nearer of the two.
pub open spec fn clamp(v: int) -> i64 {
    if v < -i64::MAX {
        (-i64::MAX) as i64
    } else if v > i64::MAX {
        i64::MAX
    } else {
        v as i64
    }
}

impl Fixed {
    /// The number that the bits stand for, in units of `2^-32`. It is the raw
    /// value but for `i64::MIN`, which stands for the least number.
    pub open spec fn value(self) -> int {
        if self.raw == i64::MIN {
            -i64::MAX
        } else {
            self.raw as int
        }
    }
}

/// The size of `v` without its sign.
pub open spec fn magnitude(v: int) -> int {
    if v < 0 {
        -v
    } else {
        v
    }
}

/// The quotient of `p` by `q`, rounded towards zero: the quotient of the two
/// magnitudes, negative where the signs differ.
pub open spec fn quotient(p: int, q: int) -> int {
    let m: int = magnitude(p) / magnitude(q);
    if (p < 0) != (q < 0) {
        -m
    } else {
        m
    }
}

/// `r` is the whole part of the square root of `v`.
pub open spec fn is_root(v: int, r: int) -> bool {
    r >= 0 && r * r <= v < (r + 1) * (r + 1)
}

/// The whole part of the square root of `v`.
pub open spec fn root(v: int) -> int {
    choose|r: int| is_root(v, r)
}

/// A number has one whole root only.
pub proof fn lemma_root_unique(v: int, r: int)
    requires
        is_root(v, r),
    ensures
        root(v) == r,
{
    let s = root(v);
    assert(is_root(v, s));
    if s < r {
        assert((s + 1) * (s + 1) <= r * r) by (nonlinear_arith)
            requires
                0 <= s,
                s + 1 <= r,
        ;
    }
    if r < s {
        assert((r + 1) * (r + 1) <= s * s) by (nonlinear_arith)
            requires
                0 <= r,
                r + 1 <= s,
        ;
    }
}

impl Fixed {
    /// The sum, saturated.
    pub open spec fn sum(self, rhs: Fixed) -> Fixed {
        Fixed { raw: clamp(self.value() + rhs.value()) }
    }

    /// The difference, saturated.
    pub open spec fn difference(self, rhs: Fixed) -> Fixed {
        Fixed { raw: clamp(self.value() - rhs.value()) }
    }

    /// The number with the other sign.
    pub open spec fn opposite(self) -> Fixed {
        Fixed { raw: clamp(-self.value()) }
    }

    /// The product, rounded towards zero and saturated.
    pub open spec fn product(self, rhs: Fixed) -> Fixed {
        Fixed { raw: clamp(quotient(self.value() * rhs.value(), ONE as int)) }
    }

    /// The quotient, rounded towards zero and saturated. Division by zero
    /// gives the greatest number for a positive dividend, the least for a
    /// negative one, and zero for zero.
    pub open spec fn ratio(self, rhs: Fixed) -> Fixed {
        if rhs.raw == 0 {
            Fixed {
                raw: if self.raw > 0 {
                    i64::MAX
                } else if self.raw < 0 {
                    (-i64::MAX) as i64
                } else {
                    0
                },
            }
        } else {
            Fixed { raw: clamp(quotient(self.value() * ONE, rhs.value())) }
        }
    }

    /// The square root, rounded down to the 32 binary places of the type.
    /// The root of a negative number is zero.
    pub open spec fn square_root(self) -> Fixed {
        if self.raw <= 0 {
            Fixed { raw: 0 }
        } else {
            Fixed { raw: root(self.raw * ONE) as i64 }
        }
    }

    /// The whole number `v`, saturated.
    pub open spec fn whole(v: int) -> Fixed {
        Fixed { raw: clamp(v * ONE) }
    }
}

fn saturate(v: i128) -> (r: i64)
    ensures
        r == clamp(v as int),
{
    if v < -0x7fff_ffff_ffff_ffff {
        -0x7fff_ffff_ffff_ffff
    } else if v > 0x7fff_ffff_ffff_ffff {
        i64::MAX
    } else {
        v as i64
    }
}

fn value_of(a: Fixed) -> (r: i128)
    ensures
        r == a.value(),
{
    if a.raw == i64::MIN {
        -0x7fff_ffff_ffff_ffff
    } else {
        a.raw as i128
    }
}

fn floor_sqrt(v: u128) -> (r: u64)
    requires
        v < 0x1_0000_0000_0000_0000_0000_0000,
    ensures
        is_root(v as int, r as int),
        r < 0x1_0000_0000_0000,
{
    let mut lo: u128 = 0;
    let mut hi: u128 = 0x1_0000_0000_0000;
    assert(0x1_0000_0000_0000 * 0x1_0000_0000_0000 == 0x1_0000_0000_0000_0000_0000_0000int);
    while hi - lo > 1
        invariant
            lo < hi <= 0x1_0000_0000_0000,
            lo * lo <= v < hi * hi,
        decreases hi - lo,
    {
        let mid: u128 = lo + (hi - lo) / 2;
        assert(mid * mid < 0x1_0000_0000_0000_0000_0000_0000) by (nonlinear_arith)
            requires
                0 <= mid < 0x1_0000_0000_0000,
        ;
        if mid * mid <= v {
            lo = mid;
        } else {
            hi = mid;
        }
    }
    lo as u64
}

impl vstd::std_specs::ops::AddSpecImpl for Fixed {
    open spec fn obeys_add_spec() -> bool {
        true
    }

    open spec fn add_req(self, rhs: Fixed) -> bool {
        true
    }

    open spec fn add_spec(self, rhs: Fixed) -> Fixed {
        self.sum(rhs)
    }
}

impl Add for Fixed {
    type Output = Fixed;

    /// The sum, saturated.
    fn add(self, rhs: Fixed) -> (r: Fixed)
        ensures
            r == self.sum(rhs),
    {
        Fixed { raw: saturate(value_of(self) + value_of(rhs)) }
    }
}

impl vstd::std_specs::ops::SubSpecImpl for Fixed {
    open spec fn obeys_sub_spec() -> bool {
        true
    }

    open spec fn sub_req(self, rhs: Fixed) -> bool {
        true
    }

    open spec fn sub_spec(self, rhs: Fixed) -> Fixed {
        self.difference(rhs)
    }
}

impl Sub for Fixed {
    type Output = Fixed;

    /// The difference, saturated.
    fn sub(self, rhs: Fixed) -> (r: Fixed)
        ensures
            r == self.difference(rhs),
    {
        Fixed { raw: saturate(value_of(self) - value_of(rhs)) }
    }
}

impl vstd::std_specs::ops::NegSpecImpl for Fixed {
    open spec fn obeys_neg_spec() -> bool {
        true
    }

    open spec fn neg_req(self) -> bool {
        true
    }

    open spec fn neg_spec(self) -> Fixed {
        self.opposite()
    }
}

impl Neg for Fixed {
    type Output = Fixed;

    /// The number with the other sign.
    fn neg(self) -> (r: Fixed)
        ensures
            r == self.opposite(),
    {
        Fixed { raw: saturate(-value_of(self)) }
    }
}

impl vstd::std_specs::ops::MulSpecImpl for Fixed {
    open spec fn obeys_mul_spec() -> bool {
        true
    }

    open spec fn mul_req(self, rhs: Fixed) -> bool {
        true
    }

    open spec fn mul_spec(self, rhs: Fixed) -> Fixed {
        self.product(rhs)
    }
}

impl Mul for Fixed {
    type Output = Fixed;

    /// The product, rounded towards zero and saturated.
    fn mul(self, rhs: Fixed) -> (r: Fixed)
        ensures
            r == self.product(rhs),
    {
        let a: i128 = value_of(self);
        let b: i128 = value_of(rhs);
        assert(-0x4000_0000_0000_0000_0000_0000_0000_0000 <= a * b
            <= 0x4000_0000_0000_0000_0000_0000_0000_0000) by (nonlinear_arith)
            requires
                -0x8000_0000_0000_0000 <= a <= 0x8000_0000_0000_0000,
                -0x8000_0000_0000_0000 <= b <= 0x8000_0000_0000_0000,
        ;
        let p: i128 = a * b;
        Fixed { raw: saturate(p / 0x1_0000_0000) }
    }
}

impl vstd::std_specs::ops::DivSpecImpl for Fixed {
    open spec fn obeys_div_spec() -> bool {
        true
    }

    open spec fn div_req(self, rhs: Fixed) -> bool {
        true
    }

    open spec fn div_spec(self, rhs: Fixed) -> Fixed {
        self.ratio(rhs)
    }
}

impl Div for Fixed {
    type Output = Fixed;

    /// The quotient, rounded towards zero and saturated. A zero divisor
    /// gives the greatest number for a positive dividend, the least for a
    /// negative one, and zero for zero.
    fn div(self, rhs: Fixed) -> (r: Fixed)
        ensures
            r == self.ratio(rhs),
    {
        if rhs.raw == 0 {
            if self.raw > 0 {
                Fixed { raw: i64::MAX }
            } else if self.raw < 0 {
                Fixed { raw: -0x7fff_ffff_ffff_ffff }
            } else {
                Fixed { raw: 0 }
            }
        } else {
            let a: i128 = value_of(self);
            let b: i128 = value_of(rhs);
            let p: i128 = (if a < 0 {
                -a
            } else {
                a
            }) * 0x1_0000_0000;
            let d: i128 = if b < 0 {
                -b
            } else {
                b
            };
            let m: i128 = p / d;
            assert(p == magnitude(self.value() * ONE));
            if (a < 0) != (b < 0) {
                Fixed { raw: saturate(-m) }
            } else {
                Fixed { raw: saturate(m) }
            }
        }
    }
}

impl vstd::std_specs::convert::FromSpecImpl<u8> for Fixed {
    open spec fn obeys_from_spec() -> bool {
        true
    }

    open spec fn from_spec(v: u8) -> Fixed {
        Fixed::whole(v as int)
    }
}

impl From<u8> for Fixed {
    /// The whole number `v`.
    fn from(v: u8) -> (r: Fixed)
        ensures
            r == Fixed::whole(v as int),
    {
        Fixed { raw: (v as i64) * ONE }
    }
}

impl vstd::std_specs::convert::FromSpecImpl<i8> for Fixed {
    open spec fn obeys_from_spec() -> bool {
        true
    }

    open spec fn from_spec(v: i8) -> Fixed {
        Fixed::whole(v as int)
    }
}

impl From<i8> for Fixed {
    /// The whole number `v`.
    fn from(v: i8) -> (r: Fixed)
        ensures
            r == Fixed::whole(v as int),
    {
        Fixed { raw: (v as i64) * ONE }
    }
}

impl vstd::std_specs::convert::FromSpecImpl<u16> for Fixed {
    open spec fn obeys_from_spec() -> bool {
        true
    }

    open spec fn from_spec(v: u16) -> Fixed {
        Fixed::whole(v as int)
    }
}

impl From<u16> for Fixed {
    /// The whole number `v`.
    fn from(v: u16) -> (r: Fixed)
        ensures
            r == Fixed::whole(v as int),
    {
        Fixed { raw: (v as i64) * ONE }
    }
}

impl Scalar for Fixed {
    open spec fn obeys_scalar_spec() -> bool {
        true
    }

    open spec fn sqrt_spec(self) -> Fixed {
        self.square_root()
    }

    open spec fn count_spec(n: usize) -> Fixed {
        Fixed::whole(n as int)
    }

    /// The square root, rounded down to the 32 binary places of the type.
    /// The root of a negative number is zero.
    fn sqrt(self) -> (r: Fixed)
        ensures
            r == self.square_root(),
    {
        if self.raw <= 0 {
            Fixed { raw: 0 }
        } else {
            let v: u128 = (self.raw as u128) * 0x1_0000_0000;
            let s: u64 = floor_sqrt(v);
            proof {
                lemma_root_unique(v as int, s as int);
            }
            Fixed { raw: s as i64 }
        }
    }

    /// The whole number `n`, saturated.
    fn from_count(n: usize) -> (r: Fixed)
        ensures
            r == Fixed::whole(n as int),
    {
        Fixed { raw: saturate((n as i128) * 0x1_0000_0000) }
    }
}

/// The fixed-point scalar is one that the engine's contracts speak of: its
/// operations are defined on all values and compute their specification
/// functions.
pub proof fn lemma_fixed_is_scalar()
    ensures
        total::<Fixed>(),
        exact::<Fixed>(),
{
}

/// Negating a fixed-point number twice gives it back, unless its bits are
/// the one pattern that no operation returns.
pub proof fn lemma_neg_twice(a: Fixed)
    requires
        a.raw != i64::MIN,
    ensures
        a.neg_spec().neg_spec() == a,
{
}

/// The arithmetic of the fixed-point scalar does not tell a number from its
/// opposite.
pub proof fn lemma_fixed_sign_symmetric()
    ensures
        sign_symmetric::<Fixed>(),
{
    assert forall|a: Fixed, b: Fixed| #[trigger]
        a.neg_spec().mul_spec(b) == a.mul_spec(b).neg_spec() by {
        assert((-a.value()) * b.value() == -(a.value() * b.value())) by (nonlinear_arith);
    }
    assert forall|a: Fixed, b: Fixed| #[trigger]
        a.mul_spec(b.neg_spec()) == a.mul_spec(b).neg_spec() by {
        assert(a.value() * (-b.value()) == -(a.value() * b.value())) by (nonlinear_arith);
    }
    assert forall|a: Fixed, b: Fixed| #[trigger]
        a.neg_spec().div_spec(b) == a.div_spec(b).neg_spec() by {
        assert((-a.value()) * ONE == -(a.value() * ONE));
    }
}

/// A fixed-point number and its opposite add up to zero.
pub proof fn lemma_fixed_opposites_cancel()
    ensures
        opposites_cancel::<Fixed>(),
{
}

/// Zero behaves in fixed-point arithmetic as it does among the real numbers.
pub proof fn lemma_fixed_zero_laws()
    ensures
        zero_laws::<Fixed>(),
{
    assert forall|a: Fixed| #[trigger] zero::<Fixed>().mul_spec(a) == zero::<Fixed>() by {
        assert(0 * a.value() == 0);
    }
    assert forall|a: Fixed| #[trigger] a.mul_spec(zero::<Fixed>()) == zero::<Fixed>() by {
        assert(a.value() * 0 == 0);
    }
    assert forall|a: Fixed| #[trigger] zero::<Fixed>().div_spec(a) == zero::<Fixed>() by {
        if a.raw != 0 {
            assert(0int / magnitude(a.value()) == 0);
        }
    }
}

/// Adding zero to a fixed-point number leaves it, unless its bits are the
/// one pattern that no operation returns.
pub proof fn lemma_add_zero(a: Fixed)
    requires
        a.raw != i64::MIN,
    ensures
        a.add_spec(zero::<Fixed>()) == a,
{
}

/// In fixed-point arithmetic action and reaction are opposite with no
/// further condition: a pull is a product, and no product has the one bit
/// pattern that double negation changes.
pub proof fn lemma_fixed_action_reaction<const N: usize>(
    b: Bodies<Fixed, N>,
    c: [Fixed; N],
    i: int,
    j: int,
)
    requires
        i != j,
    ensures
        contribution(b, c, i, j) == contribution(b, c, j, i).neg_spec(),
{
    if j < i {
        lemma_neg_twice(pull(b, c, i, j));
    }
    lemma_action_reaction(b, c, i, j);
}

} // verus!
