//! Division of primitive arrays, by arrays and by scalars.
use crate::array::primitive::{PrimitiveArray, PrimitiveView};
use crate::compute::arithmetics::{
    checked_quotient, quotient_towards_zero, ArrayCheckedDiv, ArrayDiv, NativeArithmetics,
};
use crate::compute::arity::{binary, binary_checked, is_length_mismatch, unary, unary_checked};
use crate::error::ArrowError;
use vstd::prelude::*;
use vstd::std_specs::ops::DivSpec;

verus! {

/// The error of two operands of different logical types.
pub open spec fn is_type_mismatch(error: ArrowError) -> bool {
    error matches ArrowError::InvalidArgumentError(message) && message@
        == "Arrays must have the same logical type"@
}

/// Whether no division of `lhs` by `rhs`, slot by slot, has a zero divisor or
/// overflows where neither is null.
pub open spec fn divides_everywhere<T: NativeArithmetics>(
    lhs: PrimitiveView<T>,
    rhs: PrimitiveView<T>,
) -> bool {
    forall|i: int|
        #![trigger lhs.slots[i]]
        #![trigger rhs.slots[i]]
        0 <= i < lhs.slots.len() ==> (lhs.slots[i] matches Some(a) ==> (
        rhs.slots[i] matches Some(b) ==> a.div_req(b)))
}

/// The array of the quotients `lhs[i] / rhs[i]`, null where either is null.
pub open spec fn quotients<T: NativeArithmetics>(
    lhs: PrimitiveView<T>,
    rhs: PrimitiveView<T>,
) -> PrimitiveView<T> {
    PrimitiveView {
        data_type: lhs.data_type,
        slots: Seq::new(
            lhs.slots.len(),
            |i: int|
                match (lhs.slots[i], rhs.slots[i]) {
                    (Some(a), Some(b)) => Some(a.div_spec(b)),
                    _ => None,
                },
        ),
    }
}

/// The array of the quotients `lhs[i] / rhs[i]`, null where either is null,
/// the divisor is zero or the quotient overflows.
pub open spec fn checked_quotients<T: NativeArithmetics>(
    lhs: PrimitiveView<T>,
    rhs: PrimitiveView<T>,
) -> PrimitiveView<T> {
    PrimitiveView {
        data_type: lhs.data_type,
        slots: Seq::new(
            lhs.slots.len(),
            |i: int|
                match (lhs.slots[i], rhs.slots[i]) {
                    (Some(a), Some(b)) => checked_quotient(a, b),
                    _ => None,
                },
        ),
    }
}

/// The array of `len` slots that all hold `value`.
pub open spec fn broadcast<T: NativeArithmetics>(
    like: PrimitiveView<T>,
    value: T,
) -> PrimitiveView<T> {
    PrimitiveView {
        data_type: like.data_type,
        slots: Seq::new(like.slots.len(), |i: int| Some(value)),
    }
}

/// What a slot of a division holds, in integers: the quotient rounded towards
/// zero. A slot of a checked division is null exactly where the divisor is
/// zero or the quotient lies outside the range of the type; an unchecked
/// division is defined exactly where the checked one gives a value.
pub proof fn lemma_quotient_in_integers<T: NativeArithmetics>(a: T, b: T)
    ensures
        checked_quotient(a, b) is None <==> b.to_int() == 0 || !(T::min_int()
            <= quotient_towards_zero(a.to_int(), b.to_int()) <= T::max_int()),
        checked_quotient(a, b) matches Some(q) ==> a.div_req(b) && q == a.div_spec(b) && q.to_int()
            == quotient_towards_zero(a.to_int(), b.to_int()),
{
    T::lemma_division(a, b);
}

/// Division by a scalar is division by the array that repeats the scalar:
/// both divisions are defined on the same operands and give the same
/// quotients, checked or not.
pub proof fn lemma_scalar_division_is_broadcast_division<T: NativeArithmetics>(
    lhs: PrimitiveView<T>,
    rhs: PrimitiveView<T>,
    scalar: T,
)
    requires
        rhs.data_type == lhs.data_type,
        rhs.slots.len() == lhs.slots.len(),
        forall|i: int| 0 <= i < rhs.slots.len() ==> rhs.slots[i] == Some(scalar),
    ensures
        rhs == broadcast(lhs, scalar),
        divides_everywhere(lhs, rhs) <==> forall|i: int|
            0 <= i < lhs.slots.len() ==> (#[trigger] lhs.slots[i] matches Some(a) ==> a.div_req(
                scalar,
            )),
        quotients(lhs, rhs).slots == Seq::new(
            lhs.slots.len(),
            |i: int|
                match lhs.slots[i] {
                    Some(a) => Some(a.div_spec(scalar)),
                    None => None,
                },
        ),
        checked_quotients(lhs, rhs).slots == Seq::new(
            lhs.slots.len(),
            |i: int|
                match lhs.slots[i] {
                    Some(a) => checked_quotient(a, scalar),
                    None => None,
                },
        ),
{
    assert(rhs.slots =~= broadcast(lhs, scalar).slots);
    assert(quotients(lhs, rhs).slots =~= Seq::new(
        lhs.slots.len(),
        |i: int|
            match lhs.slots[i] {
                Some(a) => Some(a.div_spec(scalar)),
                None => None,
            },
    ));
    assert(checked_quotients(lhs, rhs).slots =~= Seq::new(
        lhs.slots.len(),
        |i: int|
            match lhs.slots[i] {
                Some(a) => checked_quotient(a, scalar),
                None => None,
            },
    ));
    if divides_everywhere(lhs, rhs) {
        assert forall|i: int| 0 <= i < lhs.slots.len() implies (
        #[trigger] lhs.slots[i] matches Some(a) ==> a.div_req(scalar)) by {
            assert(rhs.slots[i] == Some(scalar));
        }
    }
}

/// Divides two primitive arrays of the same logical type and length, slot by
/// slot. A slot of the result is null where either operand is null. The
/// division itself is not checked: no pair of values may have a zero divisor
/// or overflow.
pub fn div<T>(lhs: &PrimitiveArray<T>, rhs: &PrimitiveArray<T>) -> (out: Result<
    PrimitiveArray<T>,
    ArrowError,
>) where T: NativeArithmetics
    requires
        lhs@.data_type == rhs@.data_type && lhs@.slots.len() == rhs@.slots.len()
            ==> divides_everywhere(lhs@, rhs@),
    ensures
        match out {
            Ok(array) => {
                &&& lhs@.data_type == rhs@.data_type
                &&& lhs@.slots.len() == rhs@.slots.len()
                &&& array.wf()
                &&& array@ == quotients(lhs@, rhs@)
            },
            Err(error) => if lhs@.data_type != rhs@.data_type {
                is_type_mismatch(error)
            } else {
                lhs@.slots.len() != rhs@.slots.len() && is_length_mismatch(error)
            },
        },
{
    if !lhs.data_type().equals(rhs.data_type()) {
        return Err(ArrowError::invalid_argument("Arrays must have the same logical type"));
    }
    proof {
        T::lemma_division(T::spec_zero(), T::spec_zero());
    }
    let op = |a: T, b: T| -> (q: T)
        requires
            a.div_req(b),
        ensures
            q == a.div_spec(b),
        { a / b };
    let out = binary(lhs, rhs, lhs.data_type().clone(), op);
    proof {
        if let Ok(array) = &out {
            assert(array@.slots =~= quotients(lhs@, rhs@).slots);
        }
    }
    out
}

/// Divides two primitive arrays of the same logical type and length, slot by
/// slot. A slot of the result is null where either operand is null, where the
/// divisor is zero and where the quotient overflows.
pub fn checked_div<T>(lhs: &PrimitiveArray<T>, rhs: &PrimitiveArray<T>) -> (out: Result<
    PrimitiveArray<T>,
    ArrowError,
>) where T: NativeArithmetics
    ensures
        match out {
            Ok(array) => {
                &&& lhs@.data_type == rhs@.data_type
                &&& lhs@.slots.len() == rhs@.slots.len()
                &&& array.wf()
                &&& array@ == checked_quotients(lhs@, rhs@)
            },
            Err(error) => if lhs@.data_type != rhs@.data_type {
                is_type_mismatch(error)
            } else {
                lhs@.slots.len() != rhs@.slots.len() && is_length_mismatch(error)
            },
        },
{
    if !lhs.data_type().equals(rhs.data_type()) {
        return Err(ArrowError::invalid_argument("Arrays must have the same logical type"));
    }
    let op = |a: T, b: T| -> (q: Option<T>)
        ensures
            q == checked_quotient(a, b),
        { a.checked_div(b) };
    let out = binary_checked(lhs, rhs, lhs.data_type().clone(), op);
    proof {
        if let Ok(array) = &out {
            assert(array@.slots =~= checked_quotients(lhs@, rhs@).slots);
        }
    }
    out
}

/// Divides every element of a primitive array by `rhs`, which is not zero. A
/// slot of the result is null where it is null in `lhs`. The division itself
/// is not checked: no quotient may overflow. The divisor is prepared once and
/// used for every element; for the unsigned types the prepared divisor
/// replaces each division by a multiplication.
pub fn div_scalar<T>(lhs: &PrimitiveArray<T>, rhs: &T) -> (out: PrimitiveArray<T>) where
    T: NativeArithmetics,

    requires
        *rhs != T::spec_zero(),
        divides_everywhere(lhs@, broadcast(lhs@, *rhs)),
    ensures
        out.wf(),
        out@ == quotients(lhs@, broadcast(lhs@, *rhs)),
{
    let rhs = *rhs;
    proof {
        assert forall|i: int| 0 <= i < lhs@.slots.len() implies (
        #[trigger] lhs@.slots[i] matches Some(a) ==> a.div_req(rhs)) by {
            assert(broadcast(lhs@, rhs).slots[i] == Some(rhs));
        }
    }
    let divisor = T::prepare_divisor(rhs);
    let op = |a: T| -> (q: T)
        requires
            a.div_req(rhs),
        ensures
            q == a.div_spec(rhs),
        { a.div_prepared(divisor) };
    let out = unary(lhs, op, lhs.data_type().clone());
    assert(out@.slots =~= quotients(lhs@, broadcast(lhs@, rhs)).slots);
    out
}

/// Divides every element of a primitive array by `rhs`. A slot of the result
/// is null where it is null in `lhs`, where `rhs` is zero and where the
/// quotient overflows.
pub fn checked_div_scalar<T>(lhs: &PrimitiveArray<T>, rhs: &T) -> (out: PrimitiveArray<T>) where
    T: NativeArithmetics,

    ensures
        out.wf(),
        out@ == checked_quotients(lhs@, broadcast(lhs@, *rhs)),
{
    let rhs = *rhs;
    let op = |a: T| -> (q: Option<T>)
        ensures
            q == checked_quotient(a, rhs),
        { a.checked_div(rhs) };
    let out = unary_checked(lhs, op, lhs.data_type().clone());
    assert(out@.slots =~= checked_quotients(lhs@, broadcast(lhs@, rhs)).slots);
    out
}

impl<T: NativeArithmetics> ArrayDiv<PrimitiveArray<T>> for PrimitiveArray<T> {
    type Output = Self;

    open spec fn can_div(&self, rhs: &PrimitiveArray<T>) -> bool {
        self@.data_type == rhs@.data_type && self@.slots.len() == rhs@.slots.len()
            ==> divides_everywhere(self@, rhs@)
    }

    open spec fn is_div(&self, rhs: &PrimitiveArray<T>, out: Result<Self, ArrowError>) -> bool {
        match out {
            Ok(array) => {
                &&& self@.data_type == rhs@.data_type
                &&& self@.slots.len() == rhs@.slots.len()
                &&& array@ == quotients(self@, rhs@)
            },
            Err(error) => if self@.data_type != rhs@.data_type {
                is_type_mismatch(error)
            } else {
                self@.slots.len() != rhs@.slots.len() && is_length_mismatch(error)
            },
        }
    }

    fn div(&self, rhs: &PrimitiveArray<T>) -> (out: Result<Self, ArrowError>) {
        div(self, rhs)
    }
}

impl<T: NativeArithmetics> ArrayCheckedDiv<PrimitiveArray<T>> for PrimitiveArray<T> {
    type Output = Self;

    open spec fn is_checked_div(
        &self,
        rhs: &PrimitiveArray<T>,
        out: Result<Self, ArrowError>,
    ) -> bool {
        match out {
            Ok(array) => {
                &&& self@.data_type == rhs@.data_type
                &&& self@.slots.len() == rhs@.slots.len()
                &&& array@ == checked_quotients(self@, rhs@)
            },
            Err(error) => if self@.data_type != rhs@.data_type {
                is_type_mismatch(error)
            } else {
                self@.slots.len() != rhs@.slots.len() && is_length_mismatch(error)
            },
        }
    }

    fn checked_div(&self, rhs: &PrimitiveArray<T>) -> (out: Result<Self, ArrowError>) {
        checked_div(self, rhs)
    }
}

impl<T: NativeArithmetics> ArrayDiv<T> for PrimitiveArray<T> {
    type Output = Self;

    open spec fn can_div(&self, rhs: &T) -> bool {
        *rhs != T::spec_zero() && divides_everywhere(self@, broadcast(self@, *rhs))
    }

    open spec fn is_div(&self, rhs: &T, out: Result<Self, ArrowError>) -> bool {
        out matches Ok(array) && array@ == quotients(self@, broadcast(self@, *rhs))
    }

    fn div(&self, rhs: &T) -> (out: Result<Self, ArrowError>) {
        Ok(div_scalar(self, rhs))
    }
}

impl<T: NativeArithmetics> ArrayCheckedDiv<T> for PrimitiveArray<T> {
    type Output = Self;

    open spec fn is_checked_div(&self, rhs: &T, out: Result<Self, ArrowError>) -> bool {
        out matches Ok(array) && array@ == checked_quotients(self@, broadcast(self@, *rhs))
    }

    fn checked_div(&self, rhs: &T) -> (out: Result<Self, ArrowError>) {
        Ok(checked_div_scalar(self, rhs))
    }
}

} // verus!
