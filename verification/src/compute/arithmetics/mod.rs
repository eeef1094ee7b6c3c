//! Arithmetic on the native types and on arrays of them.
pub mod basic;

use crate::error::ArrowError;
use crate::types::NativeType;
use std::ops::Div;
use strength_reduce::{
    StrengthReducedU16, StrengthReducedU32, StrengthReducedU64, StrengthReducedU8,
};
use vstd::prelude::*;
use vstd::std_specs::ops::DivSpec;

verus! {

/// The quotient of `a` by `b`, rounded towards zero, for a divisor that is not zero.
pub open spec fn quotient_towards_zero(a: int, b: int) -> int {
    if a >= 0 {
        a / b
    } else {
        -((-a) / b)
    }
}

/// The distance of `a` from zero.
pub open spec fn magnitude(a: int) -> int {
    if a >= 0 {
        a
    } else {
        -a
    }
}

/// The quotient rounded towards zero is the quotient of the magnitudes with
/// the sign of the exact quotient, and is no farther from zero than the
/// dividend: as far only for a divisor of 1 or -1, or a dividend of zero.
pub proof fn lemma_quotient_towards_zero(a: int, b: int)
    requires
        b != 0,
    ensures
        quotient_towards_zero(a, b) == (if (a >= 0) == (b > 0) {
            magnitude(a) / magnitude(b)
        } else {
            -(magnitude(a) / magnitude(b))
        }),
        -magnitude(a) <= quotient_towards_zero(a, b) <= magnitude(a),
        b == 1 ==> quotient_towards_zero(a, b) == a,
        b == -1 ==> quotient_towards_zero(a, b) == -a,
        magnitude(b) > 1 && a != 0 ==> -magnitude(a) < quotient_towards_zero(a, b) < magnitude(a),
{
    let m = magnitude(a);
    let n = magnitude(b);
    assert(0 <= m / n <= m && (n > 1 && m > 0 ==> m / n < m) && (n == 1 ==> m / n == m))
        by (nonlinear_arith)
        requires
            m >= 0,
            n > 0,
    ;
    if b < 0 {
        assert(m / b == -(m / (-b))) by (nonlinear_arith)
            requires
                m >= 0,
                b < 0,
        ;
    }
}

/// The quotient of a division that reports a zero divisor or an overflow
/// instead of failing: nothing where `a / b` is not defined, else `a / b`.
pub open spec fn checked_quotient<T: Div<Output = T>>(a: T, b: T) -> Option<T> {
    if a.div_req(b) {
        Some(a.div_spec(b))
    } else {
        None
    }
}

/// Arrays that can be divided by a right-hand side: an array or a scalar.
pub trait ArrayDiv<Rhs>: Sized {
    type Output;

    /// Whether the division cannot fail on a zero divisor or an overflow.
    spec fn can_div(&self, rhs: &Rhs) -> bool;

    /// Whether `out` is the outcome that the division must have.
    spec fn is_div(&self, rhs: &Rhs, out: Result<Self::Output, ArrowError>) -> bool;

    /// The quotients, slot by slot. The division itself is not checked.
    fn div(&self, rhs: &Rhs) -> (out: Result<Self::Output, ArrowError>)
        requires
            self.can_div(rhs),
        ensures
            self.is_div(rhs, out),
    ;
}

/// Arrays that can be divided by a right-hand side, an array or a scalar,
/// with a null wherever the division is not defined.
pub trait ArrayCheckedDiv<Rhs>: Sized {
    type Output;

    /// Whether `out` is the outcome that the division must have.
    spec fn is_checked_div(&self, rhs: &Rhs, out: Result<Self::Output, ArrowError>) -> bool;

    /// The quotients, slot by slot, null where the divisor is zero or the
    /// quotient overflows.
    fn checked_div(&self, rhs: &Rhs) -> (out: Result<Self::Output, ArrowError>)
        ensures
            self.is_checked_div(rhs, out),
    ;
}

/// A native type that can be divided.
pub trait NativeArithmetics: NativeType + Div<Output = Self> {
    /// A divisor made ready for many divisions: for the unsigned types a
    /// multiplier that takes the place of the division, for the others the
    /// divisor itself.
    type Divisor: Copy;

    /// The divisor that a prepared divisor was made of.
    spec fn divisor_value(divisor: Self::Divisor) -> Self;

    /// `/` on this type is the division of the integers, rounded towards
    /// zero. It is defined unless the divisor is zero or the quotient lies
    /// outside the range of the type.
    proof fn lemma_division(a: Self, b: Self)
        ensures
            Self::obeys_div_spec(),
            a.div_req(b) <==> b.to_int() != 0 && Self::min_int() <= quotient_towards_zero(
                a.to_int(),
                b.to_int(),
            ) <= Self::max_int(),
            a.div_req(b) ==> a.div_spec(b).to_int() == quotient_towards_zero(
                a.to_int(),
                b.to_int(),
            ),
    ;

    /// `self / rhs`, or nothing where the divisor is zero or the quotient overflows.
    fn checked_div(self, rhs: Self) -> (q: Option<Self>)
        ensures
            q == checked_quotient(self, rhs),
    ;

    /// Prepares `rhs` for many divisions.
    fn prepare_divisor(rhs: Self) -> (divisor: Self::Divisor)
        requires
            rhs != Self::spec_zero(),
        ensures
            Self::divisor_value(divisor) == rhs,
    ;

    /// `self` divided by the divisor that `divisor` was made of.
    fn div_prepared(self, divisor: Self::Divisor) -> (q: Self)
        requires
            self.div_req(Self::divisor_value(divisor)),
        ensures
            q == self.div_spec(Self::divisor_value(divisor)),
    ;
}

/// `num_traits::CheckedDiv::checked_div` on `i8`: nothing where the divisor is
/// zero or the quotient overflows, which it does for the least value divided
/// by -1 alone; else the quotient, rounded towards zero.
#[verifier::external_body]
fn checked_div_i8(a: i8, b: i8) -> (q: Option<i8>)
    ensures
        q == (if b == 0 || (a == i8::MIN && b == -1) {
            None
        } else {
            Some(quotient_towards_zero(a as int, b as int) as i8)
        }),
{
    num_traits::CheckedDiv::checked_div(&a, &b)
}

impl NativeArithmetics for i8 {
    type Divisor = i8;

    open spec fn divisor_value(divisor: i8) -> i8 {
        divisor
    }

    proof fn lemma_division(a: Self, b: Self) {
        if b != 0 {
            lemma_quotient_towards_zero(a as int, b as int);
        }
    }

    fn checked_div(self, rhs: Self) -> (q: Option<Self>) {
        checked_div_i8(self, rhs)
    }

    fn prepare_divisor(rhs: Self) -> (divisor: i8) {
        rhs
    }

    fn div_prepared(self, divisor: i8) -> (q: Self) {
        self / divisor
    }
}

/// `num_traits::CheckedDiv::checked_div` on `i16`: nothing where the divisor is
/// zero or the quotient overflows, which it does for the least value divided
/// by -1 alone; else the quotient, rounded towards zero.
#[verifier::external_body]
fn checked_div_i16(a: i16, b: i16) -> (q: Option<i16>)
    ensures
        q == (if b == 0 || (a == i16::MIN && b == -1) {
            None
        } else {
            Some(quotient_towards_zero(a as int, b as int) as i16)
        }),
{
    num_traits::CheckedDiv::checked_div(&a, &b)
}

impl NativeArithmetics for i16 {
    type Divisor = i16;

    open spec fn divisor_value(divisor: i16) -> i16 {
        divisor
    }

    proof fn lemma_division(a: Self, b: Self) {
        if b != 0 {
            lemma_quotient_towards_zero(a as int, b as int);
        }
    }

    fn checked_div(self, rhs: Self) -> (q: Option<Self>) {
        checked_div_i16(self, rhs)
    }

    fn prepare_divisor(rhs: Self) -> (divisor: i16) {
        rhs
    }

    fn div_prepared(self, divisor: i16) -> (q: Self) {
        self / divisor
    }
}

/// `num_traits::CheckedDiv::checked_div` on `i32`: nothing where the divisor is
/// zero or the quotient overflows, which it does for the least value divided
/// by -1 alone; else the quotient, rounded towards zero.
#[verifier::external_body]
fn checked_div_i32(a: i32, b: i32) -> (q: Option<i32>)
    ensures
        q == (if b == 0 || (a == i32::MIN && b == -1) {
            None
        } else {
            Some(quotient_towards_zero(a as int, b as int) as i32)
        }),
{
    num_traits::CheckedDiv::checked_div(&a, &b)
}

impl NativeArithmetics for i32 {
    type Divisor = i32;

    open spec fn divisor_value(divisor: i32) -> i32 {
        divisor
    }

    proof fn lemma_division(a: Self, b: Self) {
        if b != 0 {
            lemma_quotient_towards_zero(a as int, b as int);
        }
    }

    fn checked_div(self, rhs: Self) -> (q: Option<Self>) {
        checked_div_i32(self, rhs)
    }

    fn prepare_divisor(rhs: Self) -> (divisor: i32) {
        rhs
    }

    fn div_prepared(self, divisor: i32) -> (q: Self) {
        self / divisor
    }
}

/// `num_traits::CheckedDiv::checked_div` on `i64`: nothing where the divisor is
/// zero or the quotient overflows, which it does for the least value divided
/// by -1 alone; else the quotient, rounded towards zero.
#[verifier::external_body]
fn checked_div_i64(a: i64, b: i64) -> (q: Option<i64>)
    ensures
        q == (if b == 0 || (a == i64::MIN && b == -1) {
            None
        } else {
            Some(quotient_towards_zero(a as int, b as int) as i64)
        }),
{
    num_traits::CheckedDiv::checked_div(&a, &b)
}

impl NativeArithmetics for i64 {
    type Divisor = i64;

    open spec fn divisor_value(divisor: i64) -> i64 {
        divisor
    }

    proof fn lemma_division(a: Self, b: Self) {
        if b != 0 {
            lemma_quotient_towards_zero(a as int, b as int);
        }
    }

    fn checked_div(self, rhs: Self) -> (q: Option<Self>) {
        checked_div_i64(self, rhs)
    }

    fn prepare_divisor(rhs: Self) -> (divisor: i64) {
        rhs
    }

    fn div_prepared(self, divisor: i64) -> (q: Self) {
        self / divisor
    }
}

/// `strength_reduce::StrengthReducedU8`: a divisor of type `u8`, prepared
/// so that a multiplication and a shift take the place of the division.
#[verifier::external_type_specification]
#[verifier::external_body]
pub struct ExStrengthReducedU8(StrengthReducedU8);

/// The divisor that a `StrengthReducedU8` was made of: what its `get` returns.
pub uninterp spec fn reduced_u8(reduced: StrengthReducedU8) -> u8;

/// `StrengthReducedU8::new`: the prepared form of a divisor that is not zero.
#[verifier::external_body]
fn new_reduced_u8(divisor: u8) -> (reduced: StrengthReducedU8)
    requires
        divisor != 0,
    ensures
        reduced_u8(reduced) == divisor,
{
    StrengthReducedU8::new(divisor)
}

/// `/` of a `u8` by a `StrengthReducedU8`: the quotient by the divisor that
/// it was made of.
#[verifier::external_body]
fn div_reduced_u8(a: u8, reduced: StrengthReducedU8) -> (q: u8)
    requires
        reduced_u8(reduced) != 0,
    ensures
        q == a / reduced_u8(reduced),
{
    a / reduced
}

/// `num_traits::CheckedDiv::checked_div` on `u8`: nothing where the divisor is
/// zero, else the quotient.
#[verifier::external_body]
fn checked_div_u8(a: u8, b: u8) -> (q: Option<u8>)
    ensures
        q == (if b != 0 {
            Some(a / b)
        } else {
            None
        }),
{
    num_traits::CheckedDiv::checked_div(&a, &b)
}

impl NativeArithmetics for u8 {
    type Divisor = StrengthReducedU8;

    open spec fn divisor_value(divisor: StrengthReducedU8) -> u8 {
        reduced_u8(divisor)
    }

    proof fn lemma_division(a: Self, b: Self) {
        if b != 0 {
            lemma_quotient_towards_zero(a as int, b as int);
        }
    }

    fn checked_div(self, rhs: Self) -> (q: Option<Self>) {
        checked_div_u8(self, rhs)
    }

    fn prepare_divisor(rhs: Self) -> (divisor: StrengthReducedU8) {
        new_reduced_u8(rhs)
    }

    fn div_prepared(self, divisor: StrengthReducedU8) -> (q: Self) {
        div_reduced_u8(self, divisor)
    }
}

/// `strength_reduce::StrengthReducedU16`: a divisor of type `u16`, prepared
/// so that a multiplication and a shift take the place of the division.
#[verifier::external_type_specification]
#[verifier::external_body]
pub struct ExStrengthReducedU16(StrengthReducedU16);

/// The divisor that a `StrengthReducedU16` was made of: what its `get` returns.
pub uninterp spec fn reduced_u16(reduced: StrengthReducedU16) -> u16;

/// `StrengthReducedU16::new`: the prepared form of a divisor that is not zero.
#[verifier::external_body]
fn new_reduced_u16(divisor: u16) -> (reduced: StrengthReducedU16)
    requires
        divisor != 0,
    ensures
        reduced_u16(reduced) == divisor,
{
    StrengthReducedU16::new(divisor)
}

/// `/` of a `u16` by a `StrengthReducedU16`: the quotient by the divisor that
/// it was made of.
#[verifier::external_body]
fn div_reduced_u16(a: u16, reduced: StrengthReducedU16) -> (q: u16)
    requires
        reduced_u16(reduced) != 0,
    ensures
        q == a / reduced_u16(reduced),
{
    a / reduced
}

/// `num_traits::CheckedDiv::checked_div` on `u16`: nothing where the divisor is
/// zero, else the quotient.
#[verifier::external_body]
fn checked_div_u16(a: u16, b: u16) -> (q: Option<u16>)
    ensures
        q == (if b != 0 {
            Some(a / b)
        } else {
            None
        }),
{
    num_traits::CheckedDiv::checked_div(&a, &b)
}

impl NativeArithmetics for u16 {
    type Divisor = StrengthReducedU16;

    open spec fn divisor_value(divisor: StrengthReducedU16) -> u16 {
        reduced_u16(divisor)
    }

    proof fn lemma_division(a: Self, b: Self) {
        if b != 0 {
            lemma_quotient_towards_zero(a as int, b as int);
        }
    }

    fn checked_div(self, rhs: Self) -> (q: Option<Self>) {
        checked_div_u16(self, rhs)
    }

    fn prepare_divisor(rhs: Self) -> (divisor: StrengthReducedU16) {
        new_reduced_u16(rhs)
    }

    fn div_prepared(self, divisor: StrengthReducedU16) -> (q: Self) {
        div_reduced_u16(self, divisor)
    }
}

/// `strength_reduce::StrengthReducedU32`: a divisor of type `u32`, prepared
/// so that a multiplication and a shift take the place of the division.
#[verifier::external_type_specification]
#[verifier::external_body]
pub struct ExStrengthReducedU32(StrengthReducedU32);

/// The divisor that a `StrengthReducedU32` was made of: what its `get` returns.
pub uninterp spec fn reduced_u32(reduced: StrengthReducedU32) -> u32;

/// `StrengthReducedU32::new`: the prepared form of a divisor that is not zero.
#[verifier::external_body]
fn new_reduced_u32(divisor: u32) -> (reduced: StrengthReducedU32)
    requires
        divisor != 0,
    ensures
        reduced_u32(reduced) == divisor,
{
    StrengthReducedU32::new(divisor)
}

/// `/` of a `u32` by a `StrengthReducedU32`: the quotient by the divisor that
/// it was made of.
#[verifier::external_body]
fn div_reduced_u32(a: u32, reduced: StrengthReducedU32) -> (q: u32)
    requires
        reduced_u32(reduced) != 0,
    ensures
        q == a / reduced_u32(reduced),
{
    a / reduced
}

/// `num_traits::CheckedDiv::checked_div` on `u32`: nothing where the divisor is
/// zero, else the quotient.
#[verifier::external_body]
fn checked_div_u32(a: u32, b: u32) -> (q: Option<u32>)
    ensures
        q == (if b != 0 {
            Some(a / b)
        } else {
            None
        }),
{
    num_traits::CheckedDiv::checked_div(&a, &b)
}

impl NativeArithmetics for u32 {
    type Divisor = StrengthReducedU32;

    open spec fn divisor_value(divisor: StrengthReducedU32) -> u32 {
        reduced_u32(divisor)
    }

    proof fn lemma_division(a: Self, b: Self) {
        if b != 0 {
            lemma_quotient_towards_zero(a as int, b as int);
        }
    }

    fn checked_div(self, rhs: Self) -> (q: Option<Self>) {
        checked_div_u32(self, rhs)
    }

    fn prepare_divisor(rhs: Self) -> (divisor: StrengthReducedU32) {
        new_reduced_u32(rhs)
    }

    fn div_prepared(self, divisor: StrengthReducedU32) -> (q: Self) {
        div_reduced_u32(self, divisor)
    }
}

/// `strength_reduce::StrengthReducedU64`: a divisor of type `u64`, prepared
/// so that a multiplication and a shift take the place of the division.
#[verifier::external_type_specification]
#[verifier::external_body]
pub struct ExStrengthReducedU64(StrengthReducedU64);

/// The divisor that a `StrengthReducedU64` was made of: what its `get` returns.
pub uninterp spec fn reduced_u64(reduced: StrengthReducedU64) -> u64;

/// `StrengthReducedU64::new`: the prepared form of a divisor that is not zero.
#[verifier::external_body]
fn new_reduced_u64(divisor: u64) -> (reduced: StrengthReducedU64)
    requires
        divisor != 0,
    ensures
        reduced_u64(reduced) == divisor,
{
    StrengthReducedU64::new(divisor)
}

/// `/` of a `u64` by a `StrengthReducedU64`: the quotient by the divisor that
/// it was made of.
#[verifier::external_body]
fn div_reduced_u64(a: u64, reduced: StrengthReducedU64) -> (q: u64)
    requires
        reduced_u64(reduced) != 0,
    ensures
        q == a / reduced_u64(reduced),
{
    a / reduced
}

/// `num_traits::CheckedDiv::checked_div` on `u64`: nothing where the divisor is
/// zero, else the quotient.
#[verifier::external_body]
fn checked_div_u64(a: u64, b: u64) -> (q: Option<u64>)
    ensures
        q == (if b != 0 {
            Some(a / b)
        } else {
            None
        }),
{
    num_traits::CheckedDiv::checked_div(&a, &b)
}

impl NativeArithmetics for u64 {
    type Divisor = StrengthReducedU64;

    open spec fn divisor_value(divisor: StrengthReducedU64) -> u64 {
        reduced_u64(divisor)
    }

    proof fn lemma_division(a: Self, b: Self) {
        if b != 0 {
            lemma_quotient_towards_zero(a as int, b as int);
        }
    }

    fn checked_div(self, rhs: Self) -> (q: Option<Self>) {
        checked_div_u64(self, rhs)
    }

    fn prepare_divisor(rhs: Self) -> (divisor: StrengthReducedU64) {
        new_reduced_u64(rhs)
    }

    fn div_prepared(self, divisor: StrengthReducedU64) -> (q: Self) {
        div_reduced_u64(self, divisor)
    }
}

} // verus!
