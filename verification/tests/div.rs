use arrow_core::array::primitive::{
    Int16Array, Int32Array, Int64Array, Int8Array, PrimitiveArray, UInt16Array, UInt32Array,
    UInt64Array, UInt8Array,
};
use arrow_core::compute::arithmetics::basic::div::{
    checked_div, checked_div_scalar, div, div_scalar,
};
use arrow_core::compute::arithmetics::{ArrayCheckedDiv, ArrayDiv};
use arrow_core::datatypes::DataType;
use arrow_core::error::ArrowError;

#[test]
fn test_div_mismatched_length() {
    let a = Int32Array::from_slice(&[5, 6]);
    let b = Int32Array::from_slice(&[5]);
    div(&a, &b)
        .err()
        .expect("should have failed due to different lengths");
}

#[test]
fn test_div() {
    let a = Int32Array::from(&[Some(5), Some(6)]);
    let b = Int32Array::from(&[Some(5), Some(6)]);
    let result = div(&a, &b).unwrap();
    let expected = Int32Array::from(&[Some(1), Some(1)]);
    assert_eq!(result, expected);

    // Trait testing
    let result = a.div(&b).unwrap();
    assert_eq!(result, expected);
}

#[test]
#[should_panic]
fn test_div_panic() {
    let a = Int8Array::from(&[Some(10i8)]);
    let b = Int8Array::from(&[Some(0i8)]);
    let _ = div(&a, &b);
}

#[test]
fn test_div_checked() {
    let a = Int32Array::from(&[Some(5), None, Some(3), Some(6)]);
    let b = Int32Array::from(&[Some(5), Some(3), None, Some(6)]);
    let result = checked_div(&a, &b).unwrap();
    let expected = Int32Array::from(&[Some(1), None, None, Some(1)]);
    assert_eq!(result, expected);

    let a = Int32Array::from(&[Some(5), None, Some(3), Some(6)]);
    let b = Int32Array::from(&[Some(5), Some(0), Some(0), Some(6)]);
    let result = checked_div(&a, &b).unwrap();
    let expected = Int32Array::from(&[Some(1), None, None, Some(1)]);
    assert_eq!(result, expected);

    // Trait testing
    let result = a.checked_div(&b).unwrap();
    assert_eq!(result, expected);
}

#[test]
fn test_div_scalar() {
    let a = Int32Array::from(&[None, Some(6), None, Some(6)]);
    let result = div_scalar(&a, &1i32);
    let expected = Int32Array::from(&[None, Some(6), None, Some(6)]);
    assert_eq!(result, expected);

    // Trait testing
    let result = a.div(&1i32).unwrap();
    assert_eq!(result, expected);

    // check the strength reduced branches
    let a = UInt64Array::from(&[None, Some(6), None, Some(6)]);
    let result = div_scalar(&a, &1u64);
    let expected = UInt64Array::from(&[None, Some(6), None, Some(6)]);
    assert_eq!(result, expected);

    let a = UInt32Array::from(&[None, Some(6), None, Some(6)]);
    let result = div_scalar(&a, &1u32);
    let expected = UInt32Array::from(&[None, Some(6), None, Some(6)]);
    assert_eq!(result, expected);

    let a = UInt16Array::from(&[None, Some(6), None, Some(6)]);
    let result = div_scalar(&a, &1u16);
    let expected = UInt16Array::from(&[None, Some(6), None, Some(6)]);
    assert_eq!(result, expected);

    let a = UInt8Array::from(&[None, Some(6), None, Some(6)]);
    let result = div_scalar(&a, &1u8);
    let expected = UInt8Array::from(&[None, Some(6), None, Some(6)]);
    assert_eq!(result, expected);
}

#[test]
fn test_div_scalar_checked() {
    let a = Int32Array::from(&[None, Some(6), None, Some(6)]);
    let result = checked_div_scalar(&a, &1i32);
    let expected = Int32Array::from(&[None, Some(6), None, Some(6)]);
    assert_eq!(result, expected);

    let a = Int32Array::from(&[None, Some(6), None, Some(6)]);
    let result = checked_div_scalar(&a, &0);
    let expected = Int32Array::from(&[None, None, None, None]);
    assert_eq!(result, expected);

    // Trait testing
    let result = a.checked_div(&0).unwrap();
    assert_eq!(result, expected);
}

#[test]
fn div_of_ten_and_six() {
    let a = Int32Array::from(&[Some(10), Some(6)]);
    let b = Int32Array::from(&[Some(5), Some(6)]);
    assert_eq!(div(&a, &b).unwrap(), Int32Array::from(&[Some(2), Some(1)]));
}

#[test]
fn checked_div_nulls_a_zero_divisor() {
    let a = Int8Array::from(&[Some(-100i8), Some(10i8)]);
    let b = Int8Array::from(&[Some(100i8), Some(0i8)]);
    let result = checked_div(&a, &b).unwrap();
    assert_eq!(result, Int8Array::from(&[Some(-1i8), None]));
    assert_eq!(result.null_count(), 1);
}

#[test]
fn checked_div_scalar_of_minus_hundred() {
    let a = Int8Array::from(&[Some(-100i8)]);
    assert_eq!(checked_div_scalar(&a, &100i8), Int8Array::from(&[Some(-1i8)]));
}

#[test]
fn div_rounds_towards_zero() {
    let a = Int32Array::from_slice(&[-7, 7, -7, 7, 0]);
    let b = Int32Array::from_slice(&[2, -2, -2, 2, -5]);
    let expected = Int32Array::from_slice(&[-3, -3, 3, 3, 0]);
    assert_eq!(div(&a, &b).unwrap(), expected);
    assert_eq!(checked_div(&a, &b).unwrap(), expected);
}

#[test]
fn div_leaves_null_slots_alone() {
    // Under a null lies a zero, which is never divided by.
    let a = Int32Array::from(&[Some(1), None, Some(9), None]);
    let b = Int32Array::from(&[Some(1), None, None, Some(3)]);
    let expected = Int32Array::from(&[Some(1), None, None, None]);
    assert_eq!(div(&a, &b).unwrap(), expected);
}

#[test]
fn checked_div_nulls_an_overflow() {
    let a = Int8Array::from(&[Some(i8::MIN), Some(i8::MIN), Some(i8::MAX)]);
    let b = Int8Array::from(&[Some(-1i8), Some(1i8), Some(-1i8)]);
    let expected = Int8Array::from(&[None, Some(i8::MIN), Some(-i8::MAX)]);
    assert_eq!(checked_div(&a, &b).unwrap(), expected);

    let a = Int64Array::from(&[Some(i64::MIN), Some(i64::MIN)]);
    let b = Int64Array::from(&[Some(-1i64), Some(2i64)]);
    let expected = Int64Array::from(&[None, Some(i64::MIN / 2)]);
    assert_eq!(checked_div(&a, &b).unwrap(), expected);
    assert_eq!(
        checked_div_scalar(&a, &-1i64),
        Int64Array::from(&[None, None])
    );
}

#[test]
fn div_refuses_different_logical_types() {
    let a = Int32Array::from_slice(&[5, 6]);
    let b = Int32Array::from_slice(&[5, 6]).to(DataType::Date32);
    match div(&a, &b) {
        Err(ArrowError::InvalidArgumentError(message)) => {
            assert_eq!(message, "Arrays must have the same logical type")
        }
        _ => panic!("different logical types must be refused"),
    }
    match checked_div(&a, &b) {
        Err(ArrowError::InvalidArgumentError(message)) => {
            assert_eq!(message, "Arrays must have the same logical type")
        }
        _ => panic!("different logical types must be refused"),
    }
    // The logical type is looked at before the length.
    let c = Int32Array::from_slice(&[5]).to(DataType::Date32);
    match div(&a, &c) {
        Err(ArrowError::InvalidArgumentError(message)) => {
            assert_eq!(message, "Arrays must have the same logical type")
        }
        _ => panic!("different logical types must be refused"),
    }
}

#[test]
fn div_refuses_different_lengths() {
    let a = Int32Array::from_slice(&[5, 6, 0]);
    let b = Int32Array::from_slice(&[5, 0]);
    match div(&a, &b) {
        Err(ArrowError::InvalidArgumentError(message)) => {
            assert_eq!(message, "Arrays must have the same length")
        }
        _ => panic!("different lengths must be refused"),
    }
    match checked_div(&a, &b) {
        Err(ArrowError::InvalidArgumentError(message)) => {
            assert_eq!(message, "Arrays must have the same length")
        }
        _ => panic!("different lengths must be refused"),
    }
}

#[test]
fn div_keeps_the_logical_type_of_the_operands() {
    let a = Int32Array::from_slice(&[10]).to(DataType::Date32);
    let b = Int32Array::from_slice(&[5]).to(DataType::Date32);
    let result = div(&a, &b).unwrap();
    assert!(result.data_type().equals(&DataType::Date32));
    assert_eq!(result.get(0), Some(2));
}

#[test]
fn div_scalar_of_unsigned_bytes() {
    let a = UInt8Array::from(&[Some(0), Some(1), Some(6), None, Some(7), Some(255)]);
    assert_eq!(
        div_scalar(&a, &7u8),
        UInt8Array::from(&[Some(0), Some(0), Some(0), None, Some(1), Some(36)])
    );
    assert_eq!(
        div_scalar(&a, &4u8),
        UInt8Array::from(&[Some(0), Some(0), Some(1), None, Some(1), Some(63)])
    );
    assert_eq!(
        div_scalar(&a, &255u8),
        UInt8Array::from(&[Some(0), Some(0), Some(0), None, Some(0), Some(1)])
    );
}

#[test]
fn div_scalar_of_unsigned_shorts() {
    let a = UInt16Array::from(&[Some(0), Some(48), None, Some(u16::MAX)]);
    assert_eq!(
        div_scalar(&a, &7u16),
        UInt16Array::from(&[Some(0), Some(6), None, Some(9362)])
    );
    assert_eq!(
        div_scalar(&a, &16u16),
        UInt16Array::from(&[Some(0), Some(3), None, Some(4095)])
    );
}

#[test]
fn div_scalar_of_unsigned_words() {
    let a = UInt32Array::from(&[Some(0), Some(48), None, Some(u32::MAX)]);
    assert_eq!(
        div_scalar(&a, &7u32),
        UInt32Array::from(&[Some(0), Some(6), None, Some(613_566_756)])
    );
    assert_eq!(
        div_scalar(&a, &65_536u32),
        UInt32Array::from(&[Some(0), Some(0), None, Some(65_535)])
    );
}

#[test]
fn div_scalar_of_unsigned_long_words() {
    let a = UInt64Array::from(&[Some(0), Some(48), None, Some(u64::MAX)]);
    assert_eq!(
        div_scalar(&a, &7u64),
        UInt64Array::from(&[Some(0), Some(6), None, Some(2_635_249_153_387_078_802)])
    );
    assert_eq!(
        div_scalar(&a, &3u64),
        UInt64Array::from(&[Some(0), Some(16), None, Some(6_148_914_691_236_517_205)])
    );
}

#[test]
fn div_scalar_of_signed_values() {
    let a = Int32Array::from(&[Some(-7), Some(7), None, Some(i32::MIN)]);
    assert_eq!(
        div_scalar(&a, &-2),
        Int32Array::from(&[Some(3), Some(-3), None, Some(1_073_741_824)])
    );
}

fn scalar_agrees_with_broadcast<T>(values: &[Option<T>], divisor: T)
where
    T: arrow_core::compute::arithmetics::NativeArithmetics + std::fmt::Debug,
{
    let a = PrimitiveArray::<T>::from_options(values);
    let repeated: Vec<T> = values.iter().map(|_| divisor).collect();
    let b = PrimitiveArray::<T>::from_slice(&repeated);
    assert_eq!(div_scalar(&a, &divisor), div(&a, &b).unwrap());
    assert_eq!(
        checked_div_scalar(&a, &divisor),
        checked_div(&a, &b).unwrap()
    );
}

#[test]
fn scalar_division_agrees_with_division_by_a_repeated_value() {
    scalar_agrees_with_broadcast(&[Some(-128i8), Some(5), None, Some(127)], 3i8);
    scalar_agrees_with_broadcast(&[Some(-300i16), Some(5), None, Some(i16::MAX)], -7i16);
    scalar_agrees_with_broadcast(&[Some(-300i32), Some(5), None, Some(i32::MAX)], 11i32);
    scalar_agrees_with_broadcast(&[Some(i64::MIN), Some(5), None, Some(i64::MAX)], 13i64);
    scalar_agrees_with_broadcast(&[Some(200u8), Some(5), None, Some(u8::MAX)], 3u8);
    scalar_agrees_with_broadcast(&[Some(60_000u16), Some(5), None, Some(u16::MAX)], 10u16);
    scalar_agrees_with_broadcast(&[Some(4_000_000_000u32), None, Some(u32::MAX)], 1_000u32);
    scalar_agrees_with_broadcast(&[Some(1u64 << 63), Some(5), None, Some(u64::MAX)], 12_345u64);
}

#[test]
fn checked_scalar_division_by_zero_agrees_with_division_by_zeros() {
    let a = UInt8Array::from(&[Some(200u8), None, Some(0)]);
    let zeros = UInt8Array::from_slice(&[0, 0, 0]);
    let expected = UInt8Array::from(&[None, None, None]);
    assert_eq!(checked_div_scalar(&a, &0u8), expected);
    assert_eq!(checked_div(&a, &zeros).unwrap(), expected);
}

#[test]
fn division_of_empty_arrays() {
    let a = Int32Array::from_slice(&[]);
    let b = Int32Array::from_slice(&[]);
    assert_eq!(div(&a, &b).unwrap().len(), 0);
    assert_eq!(checked_div(&a, &b).unwrap().len(), 0);
    assert_eq!(div_scalar(&a, &3).len(), 0);
    assert_eq!(checked_div_scalar(&a, &0).len(), 0);
}

#[test]
fn checked_div_of_every_width() {
    assert_eq!(
        checked_div(
            &Int8Array::from_slice(&[-100, 100, 7]),
            &Int8Array::from_slice(&[7, -7, 0])
        )
        .unwrap(),
        Int8Array::from(&[Some(-14), Some(-14), None])
    );
    assert_eq!(
        checked_div(
            &Int16Array::from_slice(&[-30_000, i16::MIN, 7]),
            &Int16Array::from_slice(&[7, -1, 0])
        )
        .unwrap(),
        Int16Array::from(&[Some(-4_285), None, None])
    );
    assert_eq!(
        checked_div(
            &Int32Array::from_slice(&[-2_000_000_000, i32::MIN, 7]),
            &Int32Array::from_slice(&[7, -1, 0])
        )
        .unwrap(),
        Int32Array::from(&[Some(-285_714_285), None, None])
    );
    assert_eq!(
        checked_div(
            &Int64Array::from_slice(&[-9_000_000_000_000_000_000, i64::MIN, 7]),
            &Int64Array::from_slice(&[7, -1, 0])
        )
        .unwrap(),
        Int64Array::from(&[Some(-1_285_714_285_714_285_714), None, None])
    );
    assert_eq!(
        checked_div(
            &UInt8Array::from_slice(&[255, 7]),
            &UInt8Array::from_slice(&[7, 0])
        )
        .unwrap(),
        UInt8Array::from(&[Some(36), None])
    );
    assert_eq!(
        checked_div(
            &UInt16Array::from_slice(&[u16::MAX, 7]),
            &UInt16Array::from_slice(&[7, 0])
        )
        .unwrap(),
        UInt16Array::from(&[Some(9_362), None])
    );
    assert_eq!(
        checked_div(
            &UInt32Array::from_slice(&[u32::MAX, 7]),
            &UInt32Array::from_slice(&[7, 0])
        )
        .unwrap(),
        UInt32Array::from(&[Some(613_566_756), None])
    );
    assert_eq!(
        checked_div(
            &UInt64Array::from_slice(&[u64::MAX, 7]),
            &UInt64Array::from_slice(&[7, 0])
        )
        .unwrap(),
        UInt64Array::from(&[Some(2_635_249_153_387_078_802), None])
    );
}

#[test]
fn div_of_every_signed_width() {
    assert_eq!(
        div(
            &Int8Array::from_slice(&[-100, 100]),
            &Int8Array::from_slice(&[7, -7])
        )
        .unwrap(),
        Int8Array::from_slice(&[-14, -14])
    );
    assert_eq!(
        div_scalar(&Int16Array::from_slice(&[-30_000, 30_000]), &-7),
        Int16Array::from_slice(&[4_285, -4_285])
    );
    assert_eq!(
        div_scalar(&Int64Array::from_slice(&[i64::MIN, i64::MAX]), &2),
        Int64Array::from_slice(&[-4_611_686_018_427_387_904, 4_611_686_018_427_387_903])
    );
}
