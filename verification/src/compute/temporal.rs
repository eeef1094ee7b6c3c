//! Kernels that extract a field of the civil time from temporal arrays.
use crate::array::primitive::PrimitiveArray;
use crate::array::{lemma_as_ints, Array};
use crate::compute::arity::unary;
use crate::datatypes::{DataType, DataTypeView, TimeUnit};
use crate::error::ArrowError;
use crate::temporal_conversions::{
    date32_to_datetime, date64_to_datetime, hour_of_time, hour_of_timestamp, instant_valid,
    is_year_of, time32s_to_time, time32us_to_time, time64ns_to_time, time64us_to_time,
    time_valid, timestamp_in_range, timestamp_ms_to_datetime, timestamp_ns_to_datetime,
    timestamp_s_to_datetime, timestamp_us_to_datetime,
};
use vstd::prelude::*;

verus! {

/// How many of the unit make a second.
pub open spec fn units_per_second(unit: TimeUnit) -> int {
    match unit {
        TimeUnit::Second => 1,
        TimeUnit::Millisecond => 1_000,
        TimeUnit::Microsecond => 1_000_000,
        TimeUnit::Nanosecond => 1_000_000_000,
    }
}

/// The error of an operation that has no meaning for the logical type.
pub open spec fn is_unsupported(error: ArrowError, name: Seq<char>, of: DataTypeView) -> bool {
    error matches ArrowError::NotYetImplemented { operation, data_type } && operation@ == name
        && data_type@ == of
}

/// The logical types of which `hour` can be taken: times of day counted in
/// seconds, microseconds or nanoseconds, dates, and timestamps without a time
/// zone.
pub open spec fn can_hour_spec(data_type: DataTypeView) -> bool {
    match data_type {
        DataTypeView::Time32(TimeUnit::Second) => true,
        DataTypeView::Time32(TimeUnit::Microsecond) => true,
        DataTypeView::Time64(TimeUnit::Microsecond) => true,
        DataTypeView::Time64(TimeUnit::Nanosecond) => true,
        DataTypeView::Date32 => true,
        DataTypeView::Date64 => true,
        DataTypeView::Timestamp(_, zone) => zone is None,
        _ => false,
    }
}

/// Whether the raw value `v` of the logical type stands for a time of day or
/// an instant of which the hour can be told. Every time of day is counted in
/// the unit of its logical type.
pub open spec fn has_hour(data_type: DataTypeView, v: int) -> bool {
    match data_type {
        DataTypeView::Time32(TimeUnit::Second) => time_valid(v, 1),
        DataTypeView::Time32(TimeUnit::Microsecond) => time_valid(v, 1_000_000),
        DataTypeView::Time64(TimeUnit::Microsecond) => time_valid(v, 1_000_000),
        DataTypeView::Time64(TimeUnit::Nanosecond) => time_valid(v, 1_000_000_000),
        DataTypeView::Date32 => timestamp_in_range(v * 86_400),
        DataTypeView::Date64 => instant_valid(v, 1_000),
        DataTypeView::Timestamp(unit, zone) => zone is None && instant_valid(
            v,
            units_per_second(unit),
        ),
        _ => false,
    }
}

/// The hour of the day, from 0 to 23, of the raw value `v` of the logical type.
pub open spec fn hour_of(data_type: DataTypeView, v: int) -> int {
    match data_type {
        DataTypeView::Time32(TimeUnit::Second) => hour_of_time(v),
        DataTypeView::Time32(TimeUnit::Microsecond) => hour_of_time(v / 1_000_000),
        DataTypeView::Time64(TimeUnit::Microsecond) => hour_of_time(v / 1_000_000),
        DataTypeView::Time64(TimeUnit::Nanosecond) => hour_of_time(v / 1_000_000_000),
        DataTypeView::Date32 => hour_of_timestamp(v * 86_400),
        DataTypeView::Date64 => hour_of_timestamp(v / 1_000),
        DataTypeView::Timestamp(unit, _) => hour_of_timestamp(v / units_per_second(unit)),
        _ => 0,
    }
}

/// The logical types of which `year` can be taken: dates, and timestamps
/// without a time zone.
pub open spec fn can_year_spec(data_type: DataTypeView) -> bool {
    match data_type {
        DataTypeView::Date32 => true,
        DataTypeView::Date64 => true,
        DataTypeView::Timestamp(_, zone) => zone is None,
        _ => false,
    }
}

/// Whether the raw value `v` of the logical type stands for an instant of
/// which the year can be told.
pub open spec fn has_year(data_type: DataTypeView, v: int) -> bool {
    can_year_spec(data_type) && has_hour(data_type, v)
}

/// The day, counted from 1 January 1970, on which the raw value `v` of the
/// logical type falls.
pub open spec fn day_of(data_type: DataTypeView, v: int) -> int {
    match data_type {
        DataTypeView::Date32 => v,
        DataTypeView::Date64 => v / 1_000 / 86_400,
        DataTypeView::Timestamp(unit, _) => v / units_per_second(unit) / 86_400,
        _ => 0,
    }
}

/// Checks if an array of type `data_type` can perform the hour operation.
pub fn can_hour(data_type: &DataType) -> (b: bool)
    ensures
        b == can_hour_spec(data_type@),
{
    match data_type {
        DataType::Time32(TimeUnit::Second) => true,
        DataType::Time32(TimeUnit::Microsecond) => true,
        DataType::Time64(TimeUnit::Microsecond) => true,
        DataType::Time64(TimeUnit::Nanosecond) => true,
        DataType::Date32 => true,
        DataType::Date64 => true,
        DataType::Timestamp(_, zone) => zone.is_none(),
        _ => false,
    }
}

/// Checks if an array of type `data_type` can perform the year operation.
pub fn can_year(data_type: &DataType) -> (b: bool)
    ensures
        b == can_year_spec(data_type@),
{
    match data_type {
        DataType::Date32 => true,
        DataType::Date64 => true,
        DataType::Timestamp(_, zone) => zone.is_none(),
        _ => false,
    }
}

/// Extracts the hours of a temporal array as an array of integers from 0 to
/// 23, null where the array is null. Every value that is not null stands for
/// a time of day or an instant of which the hour can be told. An array of
/// another logical type is refused.
pub fn hour(array: &Array) -> (out: Result<PrimitiveArray<u32>, ArrowError>)
    requires
        can_hour_spec(array@.data_type()) ==> forall|i: int|
            0 <= i < array@.len() ==> (#[trigger] array@.int_slots()[i] matches Some(v)
                ==> has_hour(array@.data_type(), v)),
    ensures
        match out {
            Ok(hours) => {
                &&& can_hour_spec(array@.data_type())
                &&& hours.wf()
                &&& hours@.data_type == DataTypeView::UInt32
                &&& hours@.slots.len() == array@.len()
                &&& forall|i: int|
                    0 <= i < array@.len() ==> match array@.int_slots()[i] {
                        Some(v) => #[trigger] hours@.slots[i] matches Some(h) && h == hour_of(
                            array@.data_type(),
                            v,
                        ),
                        None => hours@.slots[i] is None,
                    }
            },
            Err(error) => !can_hour_spec(array@.data_type()) && is_unsupported(
                error,
                "hour"@,
                array@.data_type(),
            ),
        },
{
    proof {
        match array {
            Array::Int32(values) => lemma_as_ints(values@.slots),
            Array::Int64(values) => lemma_as_ints(values@.slots),
            _ => {},
        }
    }
    match array {
        Array::Int32(values) => match values.data_type() {
            DataType::Time32(TimeUnit::Second) => {
                let op = |x: i32| -> (h: u32)
                    requires
                        time_valid(x as int, 1),
                    ensures
                        h == hour_of_time(x as int),
                    { time32s_to_time(x).hour() };
                Ok(unary(values, op, DataType::UInt32))
            },
            DataType::Time32(TimeUnit::Microsecond) => {
                let op = |x: i32| -> (h: u32)
                    requires
                        time_valid(x as int, 1_000_000),
                    ensures
                        h == hour_of_time(x as int / 1_000_000),
                    { time32us_to_time(x).hour() };
                Ok(unary(values, op, DataType::UInt32))
            },
            DataType::Date32 => {
                let op = |x: i32| -> (h: u32)
                    requires
                        timestamp_in_range(x * 86_400),
                    ensures
                        h == hour_of_timestamp(x * 86_400),
                    { date32_to_datetime(x).hour() };
                Ok(unary(values, op, DataType::UInt32))
            },
            other => Err(ArrowError::not_yet_implemented("hour", other)),
        },
        Array::Int64(values) => match values.data_type() {
            DataType::Time64(TimeUnit::Microsecond) => {
                let op = |x: i64| -> (h: u32)
                    requires
                        time_valid(x as int, 1_000_000),
                    ensures
                        h == hour_of_time(x as int / 1_000_000),
                    { time64us_to_time(x).hour() };
                Ok(unary(values, op, DataType::UInt32))
            },
            DataType::Time64(TimeUnit::Nanosecond) => {
                let op = |x: i64| -> (h: u32)
                    requires
                        time_valid(x as int, 1_000_000_000),
                    ensures
                        h == hour_of_time(x as int / 1_000_000_000),
                    { time64ns_to_time(x).hour() };
                Ok(unary(values, op, DataType::UInt32))
            },
            DataType::Date64 => {
                let op = |x: i64| -> (h: u32)
                    requires
                        instant_valid(x as int, 1_000),
                    ensures
                        h == hour_of_timestamp(x as int / 1_000),
                    { date64_to_datetime(x).hour() };
                Ok(unary(values, op, DataType::UInt32))
            },
            DataType::Timestamp(time_unit, None) => {
                let hours = match time_unit {
                    TimeUnit::Second => {
                        let op = |x: i64| -> (h: u32)
                            requires
                                instant_valid(x as int, 1),
                            ensures
                                h == hour_of_timestamp(x as int / 1),
                            { timestamp_s_to_datetime(x).hour() };
                        unary(values, op, DataType::UInt32)
                    },
                    TimeUnit::Millisecond => {
                        let op = |x: i64| -> (h: u32)
                            requires
                                instant_valid(x as int, 1_000),
                            ensures
                                h == hour_of_timestamp(x as int / 1_000),
                            { timestamp_ms_to_datetime(x).hour() };
                        unary(values, op, DataType::UInt32)
                    },
                    TimeUnit::Microsecond => {
                        let op = |x: i64| -> (h: u32)
                            requires
                                instant_valid(x as int, 1_000_000),
                            ensures
                                h == hour_of_timestamp(x as int / 1_000_000),
                            { timestamp_us_to_datetime(x).hour() };
                        unary(values, op, DataType::UInt32)
                    },
                    TimeUnit::Nanosecond => {
                        let op = |x: i64| -> (h: u32)
                            requires
                                instant_valid(x as int, 1_000_000_000),
                            ensures
                                h == hour_of_timestamp(x as int / 1_000_000_000),
                            { timestamp_ns_to_datetime(x).hour() };
                        unary(values, op, DataType::UInt32)
                    },
                };
                Ok(hours)
            },
            other => Err(ArrowError::not_yet_implemented("hour", other)),
        },
        other => Err(ArrowError::not_yet_implemented("hour", other.data_type())),
    }
}

/// Extracts the years of a temporal array as an array of integers, null where
/// the array is null. Every value that is not null stands for an instant of
/// which the year can be told. An array of another logical type is refused.
pub fn year(array: &Array) -> (out: Result<PrimitiveArray<i32>, ArrowError>)
    requires
        can_year_spec(array@.data_type()) ==> forall|i: int|
            0 <= i < array@.len() ==> (#[trigger] array@.int_slots()[i] matches Some(v)
                ==> has_year(array@.data_type(), v)),
    ensures
        match out {
            Ok(years) => {
                &&& can_year_spec(array@.data_type())
                &&& years.wf()
                &&& years@.data_type == DataTypeView::Int32
                &&& years@.slots.len() == array@.len()
                &&& forall|i: int|
                    0 <= i < array@.len() ==> match array@.int_slots()[i] {
                        Some(v) => #[trigger] years@.slots[i] matches Some(y) && is_year_of(
                            y as int,
                            day_of(array@.data_type(), v),
                        ),
                        None => years@.slots[i] is None,
                    }
            },
            Err(error) => !can_year_spec(array@.data_type()) && is_unsupported(
                error,
                "year"@,
                array@.data_type(),
            ),
        },
{
    proof {
        match array {
            Array::Int32(values) => lemma_as_ints(values@.slots),
            Array::Int64(values) => lemma_as_ints(values@.slots),
            _ => {},
        }
    }
    match array {
        Array::Int32(values) => match values.data_type() {
            DataType::Date32 => {
                let op = |x: i32| -> (y: i32)
                    requires
                        timestamp_in_range(x * 86_400),
                    ensures
                        is_year_of(y as int, x as int),
                    { date32_to_datetime(x).year() };
                Ok(unary(values, op, DataType::Int32))
            },
            other => Err(ArrowError::not_yet_implemented("year", other)),
        },
        Array::Int64(values) => match values.data_type() {
            DataType::Date64 => {
                let op = |x: i64| -> (y: i32)
                    requires
                        instant_valid(x as int, 1_000),
                    ensures
                        is_year_of(y as int, x as int / 1_000 / 86_400),
                    { date64_to_datetime(x).year() };
                Ok(unary(values, op, DataType::Int32))
            },
            DataType::Timestamp(time_unit, None) => {
                let years = match time_unit {
                    TimeUnit::Second => {
                        let op = |x: i64| -> (y: i32)
                            requires
                                instant_valid(x as int, 1),
                            ensures
                                is_year_of(y as int, x as int / 1 / 86_400),
                            { timestamp_s_to_datetime(x).year() };
                        unary(values, op, DataType::Int32)
                    },
                    TimeUnit::Millisecond => {
                        let op = |x: i64| -> (y: i32)
                            requires
                                instant_valid(x as int, 1_000),
                            ensures
                                is_year_of(y as int, x as int / 1_000 / 86_400),
                            { timestamp_ms_to_datetime(x).year() };
                        unary(values, op, DataType::Int32)
                    },
                    TimeUnit::Microsecond => {
                        let op = |x: i64| -> (y: i32)
                            requires
                                instant_valid(x as int, 1_000_000),
                            ensures
                                is_year_of(y as int, x as int / 1_000_000 / 86_400),
                            { timestamp_us_to_datetime(x).year() };
                        unary(values, op, DataType::Int32)
                    },
                    TimeUnit::Nanosecond => {
                        let op = |x: i64| -> (y: i32)
                            requires
                                instant_valid(x as int, 1_000_000_000),
                            ensures
                                is_year_of(y as int, x as int / 1_000_000_000 / 86_400),
                            { timestamp_ns_to_datetime(x).year() };
                        unary(values, op, DataType::Int32)
                    },
                };
                Ok(years)
            },
            other => Err(ArrowError::not_yet_implemented("year", other)),
        },
        other => Err(ArrowError::not_yet_implemented("year", other.data_type())),
    }
}

} // verus!
