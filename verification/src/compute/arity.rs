//! The elementwise engine: applies a scalar operation to every element of one
//! array, or to every pair of elements of two arrays, and keeps track of nulls.
use crate::array::primitive::PrimitiveArray;
use crate::bitmap::{Bitmap, MutableBitmap};
use crate::buffer::Buffer;
use crate::datatypes::DataType;
use crate::error::ArrowError;
use crate::types::NativeType;
use vstd::prelude::*;

verus! {

/// The error of two operands of different lengths.
pub open spec fn is_length_mismatch(error: ArrowError) -> bool {
    error matches ArrowError::InvalidArgumentError(message) && message@
        == "Arrays must have the same length"@
}

/// The mask of the elements that both masks leave valid, where no mask means
/// that every element is valid.
pub fn combine_validities(lhs: &Option<Bitmap>, rhs: &Option<Bitmap>) -> (out: Option<Bitmap>)
    requires
        lhs matches Some(a) ==> (rhs matches Some(b) ==> a@.len() == b@.len()),
    ensures
        out matches Some(c) ==> c.wf(),
        match (*lhs, *rhs) {
            (Some(a), Some(b)) => out matches Some(c) && c@.len() == a@.len() && forall|i: int|
                0 <= i < a@.len() ==> c@[i] == (a@[i] && b@[i]),
            (Some(a), None) => out == Some(a),
            (None, Some(b)) => out == Some(b),
            (None, None) => out is None,
        },
{
    match lhs {
        Some(a) => match rhs {
            Some(b) => Some(a.and(b)),
            None => {
                proof {
                    use_type_invariant(a);
                }
                Some(a.clone())
            },
        },
        None => match rhs {
            Some(b) => {
                proof {
                    use_type_invariant(b);
                }
                Some(b.clone())
            },
            None => None,
        },
    }
}

/// Applies `op` to every element that is not null. The result has the nulls of
/// `array` and the logical type `data_type`.
pub fn unary<I, O, F>(array: &PrimitiveArray<I>, op: F, data_type: DataType) -> (out:
    PrimitiveArray<O>) where I: NativeType, O: NativeType, F: Fn(I) -> O
    requires
        data_type@.primitive() == Some(O::primitive()),
        forall|i: int|
            0 <= i < array@.slots.len() ==> (#[trigger] array@.slots[i] matches Some(v)
                ==> call_requires(op, (v,))),
    ensures
        out.wf(),
        out@.data_type == data_type@,
        out@.slots.len() == array@.slots.len(),
        out.spec_validity() == array.spec_validity(),
        forall|i: int|
            #![trigger out@.slots[i]]
            #![trigger array@.slots[i]]
            0 <= i < array@.slots.len() ==> match array@.slots[i] {
                Some(v) => out@.slots[i] matches Some(w) && call_ensures(op, (v,), w),
                None => out@.slots[i] is None,
            },
{
    let len = array.len();
    let mut values: Vec<O> = Vec::new();
    let mut i: usize = 0;
    while i < len
        invariant
            array.wf(),
            len == array@.slots.len(),
            i <= len,
            values@.len() == i,
            forall|k: int|
                0 <= k < array@.slots.len() ==> (#[trigger] array@.slots[k] matches Some(v)
                    ==> call_requires(op, (v,))),
            forall|k: int|
                0 <= k < i ==> (#[trigger] array@.slots[k] matches Some(v) ==> call_ensures(
                    op,
                    (v,),
                    values@[k],
                )),
        decreases len - i,
    {
        match array.get(i) {
            Some(v) => {
                values.push(op(v));
            },
            None => {
                values.push(O::zero());
            },
        }
        i += 1;
    }
    let validity = match array.validity() {
        Some(bitmap) => Some(bitmap.clone()),
        None => None,
    };
    PrimitiveArray::from_data(data_type, Buffer::from_vec(values), validity)
}

/// Applies `op` to every element that is not null. An element is null in the
/// result where it is null in `array`, without a call of `op`, and where `op`
/// returns no value.
pub fn unary_checked<I, O, F>(array: &PrimitiveArray<I>, op: F, data_type: DataType) -> (out:
    PrimitiveArray<O>) where I: NativeType, O: NativeType, F: Fn(I) -> Option<O>
    requires
        data_type@.primitive() == Some(O::primitive()),
        forall|i: int|
            0 <= i < array@.slots.len() ==> (#[trigger] array@.slots[i] matches Some(v)
                ==> call_requires(op, (v,))),
    ensures
        out.wf(),
        out@.data_type == data_type@,
        out@.slots.len() == array@.slots.len(),
        forall|i: int|
            #![trigger out@.slots[i]]
            #![trigger array@.slots[i]]
            0 <= i < array@.slots.len() ==> match array@.slots[i] {
                Some(v) => call_ensures(op, (v,), out@.slots[i]),
                None => out@.slots[i] is None,
            },
{
    let len = array.len();
    let mut values: Vec<O> = Vec::new();
    let mut validity = MutableBitmap::new();
    let mut i: usize = 0;
    while i < len
        invariant
            array.wf(),
            len == array@.slots.len(),
            i <= len,
            values@.len() == i,
            validity.wf(),
            validity@.len() == i,
            forall|k: int|
                0 <= k < array@.slots.len() ==> (#[trigger] array@.slots[k] matches Some(v)
                    ==> call_requires(op, (v,))),
            forall|k: int|
                0 <= k < i ==> match #[trigger] array@.slots[k] {
                    Some(v) => call_ensures(
                        op,
                        (v,),
                        if validity@[k] {
                            Some(values@[k])
                        } else {
                            None
                        },
                    ),
                    None => !validity@[k],
                },
        decreases len - i,
    {
        let result = match array.get(i) {
            Some(v) => op(v),
            None => None,
        };
        match result {
            Some(w) => {
                values.push(w);
                validity.push(true);
            },
            None => {
                values.push(O::zero());
                validity.push(false);
            },
        }
        i += 1;
    }
    PrimitiveArray::from_data(data_type, Buffer::from_vec(values), Some(validity.freeze()))
}

/// Applies `op` to every pair of elements of which neither is null. An element
/// of the result is null where either operand is. Arrays of different lengths
/// are refused before any element is looked at.
pub fn binary<L, R, O, F>(
    lhs: &PrimitiveArray<L>,
    rhs: &PrimitiveArray<R>,
    data_type: DataType,
    op: F,
) -> (out: Result<PrimitiveArray<O>, ArrowError>) where
    L: NativeType,
    R: NativeType,
    O: NativeType,
    F: Fn(L, R) -> O,

    requires
        data_type@.primitive() == Some(O::primitive()),
        lhs@.slots.len() == rhs@.slots.len() ==> forall|i: int|
            #![trigger lhs@.slots[i]]
            #![trigger rhs@.slots[i]]
            0 <= i < lhs@.slots.len() ==> (lhs@.slots[i] matches Some(a) ==> (
            rhs@.slots[i] matches Some(b) ==> call_requires(op, (a, b)))),
    ensures
        match out {
            Ok(array) => {
                &&& lhs@.slots.len() == rhs@.slots.len()
                &&& array.wf()
                &&& array@.data_type == data_type@
                &&& array@.slots.len() == lhs@.slots.len()
                &&& forall|i: int|
                    #![trigger array@.slots[i]]
                    0 <= i < lhs@.slots.len() ==> match (lhs@.slots[i], rhs@.slots[i]) {
                        (Some(a), Some(b)) => array@.slots[i] matches Some(w) && call_ensures(
                            op,
                            (a, b),
                            w,
                        ),
                        _ => array@.slots[i] is None,
                    }
            },
            Err(error) => lhs@.slots.len() != rhs@.slots.len() && is_length_mismatch(error),
        },
{
    let len = lhs.len();
    if len != rhs.len() {
        return Err(ArrowError::invalid_argument("Arrays must have the same length"));
    }
    let validity = combine_validities(lhs.validity(), rhs.validity());
    let mut values: Vec<O> = Vec::new();
    let mut i: usize = 0;
    while i < len
        invariant
            lhs.wf(),
            rhs.wf(),
            len == lhs@.slots.len(),
            len == rhs@.slots.len(),
            i <= len,
            values@.len() == i,
            forall|k: int|
                #![trigger lhs@.slots[k]]
                #![trigger rhs@.slots[k]]
                0 <= k < lhs@.slots.len() ==> (lhs@.slots[k] matches Some(a) ==> (
                rhs@.slots[k] matches Some(b) ==> call_requires(op, (a, b)))),
            forall|k: int|
                #![trigger values@[k]]
                0 <= k < i ==> (lhs@.slots[k] matches Some(a) ==> (rhs@.slots[k] matches Some(b)
                    ==> call_ensures(op, (a, b), values@[k]))),
        decreases len - i,
    {
        let value = match lhs.get(i) {
            Some(a) => match rhs.get(i) {
                Some(b) => op(a, b),
                None => O::zero(),
            },
            None => O::zero(),
        };
        values.push(value);
        i += 1;
    }
    let array = PrimitiveArray::from_data(data_type, Buffer::from_vec(values), validity);
    Ok(array)
}

/// Applies `op` to every pair of elements of which neither is null. An element
/// of the result is null where either operand is, without a call of `op`, and
/// where `op` returns no value. Arrays of different lengths are refused before
/// any element is looked at.
pub fn binary_checked<L, R, O, F>(
    lhs: &PrimitiveArray<L>,
    rhs: &PrimitiveArray<R>,
    data_type: DataType,
    op: F,
) -> (out: Result<PrimitiveArray<O>, ArrowError>) where
    L: NativeType,
    R: NativeType,
    O: NativeType,
    F: Fn(L, R) -> Option<O>,

    requires
        data_type@.primitive() == Some(O::primitive()),
        lhs@.slots.len() == rhs@.slots.len() ==> forall|i: int|
            #![trigger lhs@.slots[i]]
            #![trigger rhs@.slots[i]]
            0 <= i < lhs@.slots.len() ==> (lhs@.slots[i] matches Some(a) ==> (
            rhs@.slots[i] matches Some(b) ==> call_requires(op, (a, b)))),
    ensures
        match out {
            Ok(array) => {
                &&& lhs@.slots.len() == rhs@.slots.len()
                &&& array.wf()
                &&& array@.data_type == data_type@
                &&& array@.slots.len() == lhs@.slots.len()
                &&& forall|i: int|
                    #![trigger array@.slots[i]]
                    0 <= i < lhs@.slots.len() ==> match (lhs@.slots[i], rhs@.slots[i]) {
                        (Some(a), Some(b)) => call_ensures(op, (a, b), array@.slots[i]),
                        _ => array@.slots[i] is None,
                    }
            },
            Err(error) => lhs@.slots.len() != rhs@.slots.len() && is_length_mismatch(error),
        },
{
    let len = lhs.len();
    if len != rhs.len() {
        return Err(ArrowError::invalid_argument("Arrays must have the same length"));
    }
    let mut values: Vec<O> = Vec::new();
    let mut validity = MutableBitmap::new();
    let mut i: usize = 0;
    while i < len
        invariant
            lhs.wf(),
            rhs.wf(),
            len == lhs@.slots.len(),
            len == rhs@.slots.len(),
            i <= len,
            values@.len() == i,
            validity.wf(),
            validity@.len() == i,
            forall|k: int|
                #![trigger lhs@.slots[k]]
                #![trigger rhs@.slots[k]]
                0 <= k < lhs@.slots.len() ==> (lhs@.slots[k] matches Some(a) ==> (
                rhs@.slots[k] matches Some(b) ==> call_requires(op, (a, b)))),
            forall|k: int|
                #![trigger validity@[k]]
                0 <= k < i ==> match (lhs@.slots[k], rhs@.slots[k]) {
                    (Some(a), Some(b)) => call_ensures(
                        op,
                        (a, b),
                        if validity@[k] {
                            Some(values@[k])
                        } else {
                            None
                        },
                    ),
                    _ => !validity@[k],
                },
        decreases len - i,
    {
        let result = match lhs.get(i) {
            Some(a) => match rhs.get(i) {
                Some(b) => op(a, b),
                None => None,
            },
            None => None,
        };
        match result {
            Some(w) => {
                values.push(w);
                validity.push(true);
            },
            None => {
                values.push(O::zero());
                validity.push(false);
            },
        }
        i += 1;
    }
    let array = PrimitiveArray::from_data(
        data_type,
        Buffer::from_vec(values),
        Some(validity.freeze()),
    );
    Ok(array)
}

} // verus!
