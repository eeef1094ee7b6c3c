use arrow_core::array::primitive::{Int32Array, Int64Array, Int8Array, PrimitiveArray};
use arrow_core::array::Array;
use arrow_core::compute::temporal::{can_hour, can_year, hour, year};
use arrow_core::datatypes::{DataType, TimeUnit};
use arrow_core::error::ArrowError;

fn hours_of_i32(data_type: DataType, values: &[Option<i32>]) -> PrimitiveArray<u32> {
    let array = Array::Int32(Int32Array::from_options(values).to(data_type));
    hour(&array).unwrap()
}

fn hours_of_i64(data_type: DataType, values: &[Option<i64>]) -> PrimitiveArray<u32> {
    let array = Array::Int64(Int64Array::from_options(values).to(data_type));
    hour(&array).unwrap()
}

fn years_of_i64(data_type: DataType, values: &[Option<i64>]) -> PrimitiveArray<i32> {
    let array = Array::Int64(Int64Array::from_options(values).to(data_type));
    year(&array).unwrap()
}

#[test]
fn hour_of_seconds_since_midnight() {
    let hours = hours_of_i32(DataType::Time32(TimeUnit::Second), &[Some(3661)]);
    assert_eq!(hours, PrimitiveArray::<u32>::from(&[Some(1)]));
    assert!(hours.data_type().equals(&DataType::UInt32));
}

#[test]
fn hour_of_microseconds_in_32_bits() {
    let array = Array::Int32(
        Int32Array::from(&[Some(3_600_000)]).to(DataType::Time32(TimeUnit::Microsecond)),
    );
    // 3.6 seconds after midnight
    assert_eq!(hour(&array).unwrap(), PrimitiveArray::<u32>::from(&[Some(0u32)]));
}

#[test]
fn hour_of_times_of_day() {
    assert_eq!(
        hours_of_i32(
            DataType::Time32(TimeUnit::Second),
            &[Some(0), Some(3599), Some(3600), None, Some(86_399)]
        ),
        PrimitiveArray::<u32>::from(&[Some(0), Some(0), Some(1), None, Some(23)])
    );
    // 32 bits of microseconds end some 35 minutes past midnight.
    assert_eq!(
        hours_of_i32(
            DataType::Time32(TimeUnit::Microsecond),
            &[Some(0), Some(3_600_000), None, Some(86_399_999), Some(i32::MAX)]
        ),
        PrimitiveArray::<u32>::from(&[Some(0), Some(0), None, Some(0), Some(0)])
    );
    assert_eq!(
        hours_of_i64(
            DataType::Time64(TimeUnit::Microsecond),
            &[Some(7_199_999_999), Some(7_200_000_000), None]
        ),
        PrimitiveArray::<u32>::from(&[Some(1), Some(2), None])
    );
    assert_eq!(
        hours_of_i64(
            DataType::Time64(TimeUnit::Nanosecond),
            &[Some(3_599_999_999_999), Some(3_600_000_000_000), Some(86_399_999_999_999)]
        ),
        PrimitiveArray::<u32>::from(&[Some(0), Some(1), Some(23)])
    );
}

#[test]
fn hour_of_dates() {
    assert_eq!(
        hours_of_i32(DataType::Date32, &[Some(0), Some(-1), None, Some(18_000)]),
        PrimitiveArray::<u32>::from(&[Some(0), Some(0), None, Some(0)])
    );
    let five_past = 1_000 * (86_400 * 3 + 3_600 * 5 + 7) + 250;
    assert_eq!(
        hours_of_i64(DataType::Date64, &[Some(five_past), Some(-3_600_000), None]),
        PrimitiveArray::<u32>::from(&[Some(5), Some(23), None])
    );
}

#[test]
fn hour_of_timestamps() {
    assert_eq!(
        hours_of_i64(
            DataType::Timestamp(TimeUnit::Second, None),
            &[Some(0), Some(-1), Some(951_782_400 + 13 * 3_600), None]
        ),
        PrimitiveArray::<u32>::from(&[Some(0), Some(23), Some(13), None])
    );
    assert_eq!(
        hours_of_i64(
            DataType::Timestamp(TimeUnit::Millisecond, None),
            &[Some(3_600_999), Some(-7_200_000)]
        ),
        PrimitiveArray::<u32>::from(&[Some(1), Some(22)])
    );
    assert_eq!(
        hours_of_i64(
            DataType::Timestamp(TimeUnit::Microsecond, None),
            &[Some(2 * 3_600_000_000 + 1), Some(-1_000_000)]
        ),
        PrimitiveArray::<u32>::from(&[Some(2), Some(23)])
    );
    assert_eq!(
        hours_of_i64(
            DataType::Timestamp(TimeUnit::Nanosecond, None),
            &[Some(i64::MAX), Some(-9_223_372_036_000_000_000)]
        ),
        // 2262-04-11 23:47:16 and 1677-09-21 00:12:44
        PrimitiveArray::<u32>::from(&[Some(23), Some(0)])
    );
}

#[test]
fn year_of_timestamps() {
    assert_eq!(
        years_of_i64(
            DataType::Timestamp(TimeUnit::Second, None),
            &[
                Some(0),
                Some(-1),
                Some(946_684_799),
                Some(946_684_800),
                Some(951_782_400),
                None,
                Some(978_307_199),
                Some(978_307_200),
            ]
        ),
        PrimitiveArray::<i32>::from(&[
            Some(1970),
            Some(1969),
            Some(1999),
            Some(2000),
            Some(2000),
            None,
            Some(2000),
            Some(2001),
        ])
    );
    assert_eq!(
        years_of_i64(
            DataType::Timestamp(TimeUnit::Millisecond, None),
            &[Some(946_684_799_999), Some(946_684_800_000), Some(-1_000)]
        ),
        PrimitiveArray::<i32>::from(&[Some(1999), Some(2000), Some(1969)])
    );
    assert_eq!(
        years_of_i64(
            DataType::Timestamp(TimeUnit::Microsecond, None),
            &[Some(946_684_799_999_999), Some(946_684_800_000_000)]
        ),
        PrimitiveArray::<i32>::from(&[Some(1999), Some(2000)])
    );
    assert_eq!(
        years_of_i64(
            DataType::Timestamp(TimeUnit::Nanosecond, None),
            &[Some(i64::MAX), Some(-9_223_372_036_000_000_000)]
        ),
        PrimitiveArray::<i32>::from(&[Some(2262), Some(1677)])
    );
}

#[test]
fn year_at_the_ends_of_the_calendar() {
    assert_eq!(
        years_of_i64(
            DataType::Timestamp(TimeUnit::Second, None),
            &[Some(8_210_266_876_799), Some(-8_334_601_228_800)]
        ),
        PrimitiveArray::<i32>::from(&[Some(262_142), Some(-262_143)])
    );
}

#[test]
fn year_of_dates() {
    let array = Array::Int32(
        Int32Array::from(&[
            Some(0),
            Some(-1),
            Some(364),
            Some(365),
            Some(10_956),
            Some(10_957),
            Some(11_016),
            None,
            // 1 January of the years 1 and 0, and the days before them
            Some(-719_162),
            Some(-719_163),
            Some(-719_528),
            Some(-719_529),
            // 1900 was no leap year, 1600 was one
            Some(-25_567),
            Some(-25_568),
            Some(-134_774),
            Some(-135_140),
            Some(-135_141),
        ])
        .to(DataType::Date32),
    );
    assert_eq!(
        year(&array).unwrap(),
        PrimitiveArray::<i32>::from(&[
            Some(1970),
            Some(1969),
            Some(1970),
            Some(1971),
            Some(1999),
            Some(2000),
            Some(2000),
            None,
            Some(1),
            Some(0),
            Some(0),
            Some(-1),
            Some(1900),
            Some(1899),
            Some(1601),
            Some(1600),
            Some(1599),
        ])
    );
    assert_eq!(
        years_of_i64(
            DataType::Date64,
            &[Some(0), Some(-86_400_000), Some(951_782_400_123)]
        ),
        PrimitiveArray::<i32>::from(&[Some(1970), Some(1969), Some(2000)])
    );
    assert!(year(&array).unwrap().data_type().equals(&DataType::Int32));
}

#[test]
fn can_year_of_dates_only() {
    assert_eq!(can_year(&DataType::Date32), true);
    assert_eq!(can_year(&DataType::Int8), false);
    assert_eq!(can_year(&DataType::Date64), true);
    assert_eq!(can_year(&DataType::Timestamp(TimeUnit::Nanosecond, None)), true);
    assert_eq!(
        can_year(&DataType::Timestamp(TimeUnit::Second, Some("UTC".to_string()))),
        false
    );
    assert_eq!(can_year(&DataType::Time32(TimeUnit::Second)), false);
    assert_eq!(can_year(&DataType::Time64(TimeUnit::Nanosecond)), false);
    assert_eq!(can_year(&DataType::Union(vec![], true)), false);
}

#[test]
fn can_hour_of_times_and_dates() {
    assert_eq!(can_hour(&DataType::Time32(TimeUnit::Second)), true);
    assert_eq!(can_hour(&DataType::Int8), false);
    assert_eq!(can_hour(&DataType::Time32(TimeUnit::Microsecond)), true);
    assert_eq!(can_hour(&DataType::Time32(TimeUnit::Millisecond)), false);
    assert_eq!(can_hour(&DataType::Time32(TimeUnit::Nanosecond)), false);
    assert_eq!(can_hour(&DataType::Time64(TimeUnit::Microsecond)), true);
    assert_eq!(can_hour(&DataType::Time64(TimeUnit::Nanosecond)), true);
    assert_eq!(can_hour(&DataType::Time64(TimeUnit::Second)), false);
    assert_eq!(can_hour(&DataType::Time64(TimeUnit::Millisecond)), false);
    assert_eq!(can_hour(&DataType::Date32), true);
    assert_eq!(can_hour(&DataType::Date64), true);
    assert_eq!(can_hour(&DataType::Timestamp(TimeUnit::Millisecond, None)), true);
    assert_eq!(
        can_hour(&DataType::Timestamp(TimeUnit::Millisecond, Some("+01:00".to_string()))),
        false
    );
    assert_eq!(can_hour(&DataType::UInt64), false);
}

fn assert_unsupported(out: Result<impl std::fmt::Debug, ArrowError>, name: &str, of: &DataType) {
    match out {
        Err(ArrowError::NotYetImplemented {
            operation,
            data_type,
        }) => {
            assert_eq!(operation, name);
            assert!(data_type.equals(of));
        }
        other => panic!("expected an unsupported operation, got {:?}", other),
    }
}

#[test]
fn hour_refuses_other_logical_types() {
    let ints = Array::Int8(Int8Array::from_slice(&[1, 2]));
    assert_unsupported(hour(&ints), "hour", &DataType::Int8);

    let plain = Array::Int32(Int32Array::from_slice(&[1, 2]));
    assert_unsupported(hour(&plain), "hour", &DataType::Int32);

    let millis = DataType::Time32(TimeUnit::Millisecond);
    let array = Array::Int32(Int32Array::from_slice(&[1, 2]).to(millis.clone()));
    assert_unsupported(hour(&array), "hour", &millis);

    let zoned = DataType::Timestamp(TimeUnit::Second, Some("UTC".to_string()));
    let array = Array::Int64(Int64Array::from_slice(&[1, 2]).to(zoned.clone()));
    assert_unsupported(hour(&array), "hour", &zoned);
}

#[test]
fn year_refuses_other_logical_types() {
    let ints = Array::Int8(Int8Array::from_slice(&[1, 2]));
    assert_unsupported(year(&ints), "year", &DataType::Int8);

    let time = DataType::Time32(TimeUnit::Second);
    let array = Array::Int32(Int32Array::from_slice(&[1, 2]).to(time.clone()));
    assert_unsupported(year(&array), "year", &time);

    let time = DataType::Time64(TimeUnit::Nanosecond);
    let array = Array::Int64(Int64Array::from_slice(&[1, 2]).to(time.clone()));
    assert_unsupported(year(&array), "year", &time);

    let zoned = DataType::Timestamp(TimeUnit::Second, Some("UTC".to_string()));
    let array = Array::Int64(Int64Array::from_slice(&[1, 2]).to(zoned.clone()));
    assert_unsupported(year(&array), "year", &zoned);
}

#[test]
fn field_extraction_whatever_lies_under_a_null() {
    // Under the null lies a zero; were it looked at, it would still be a valid time.
    let hours = hours_of_i32(DataType::Time32(TimeUnit::Second), &[None, Some(7_200)]);
    assert_eq!(hours.get(0), None);
    assert_eq!(hours.get(1), Some(2));
    assert_eq!(hours.null_count(), 1);
}
