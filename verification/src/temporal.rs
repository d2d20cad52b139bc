//! Calendar and clock interpretation of temporal arrays: a peripheral
//! convenience over the fixed-width layout. A stored integer is decomposed
//! into whole seconds and a sub-second remainder by its unit's scale factor
//! (date tags count whole days or milliseconds since the epoch); chrono turns
//! the decomposition into calendar values. An input the calendar library
//! rejects decodes to no value rather than aborting: this library's verified
//! functions do not panic.

use vstd::prelude::*;

use crate::array::Array;
use crate::datatypes::{DataType, TimeUnit};
use crate::native::ArrowTemporalType;
use crate::primitive::PrimitiveArray;

verus! {

#[verifier::external_type_specification]
#[verifier::external_body]
pub struct ExNaiveDateTime(chrono::NaiveDateTime);

#[verifier::external_type_specification]
#[verifier::external_body]
pub struct ExNaiveDate(chrono::NaiveDate);

#[verifier::external_type_specification]
#[verifier::external_body]
pub struct ExNaiveTime(chrono::NaiveTime);

/// What chrono makes of an epoch-relative (seconds, nanoseconds) pair: a
/// function of the two arguments alone; `None` where the seconds lie outside
/// chrono's representable range.
pub uninterp spec fn datetime_of_timestamp(secs: int, nsecs: int) -> Option<chrono::NaiveDateTime>;

/// What chrono makes of a midnight-relative (seconds, nanoseconds) pair: a
/// function of the two arguments alone.
pub uninterp spec fn time_of_day_of(secs: int, nanos: int) -> Option<chrono::NaiveTime>;

/// Relies on chrono's NaiveDateTime::from_timestamp_opt: deterministic in its
/// two arguments, `None` on out-of-range input. Its documentation reserves a
/// panic for a nanosecond count of two seconds or more (the version built
/// here returns `None` there instead); the precondition stays clear of that
/// region either way.
#[verifier::external_body]
#[allow(deprecated)]
fn datetime_from_timestamp(secs: i64, nsecs: u32) -> (r: Option<chrono::NaiveDateTime>)
    requires
        nsecs < 2_000_000_000,
    ensures
        r == datetime_of_timestamp(secs as int, nsecs as int),
{
    chrono::NaiveDateTime::from_timestamp_opt(secs, nsecs)
}

/// When chrono accepts a midnight-relative (seconds, nanoseconds) pair as a
/// time of day: seconds within a day and a nanosecond count in range, where a
/// count past one second stands for a leap second and is accepted only on a
/// 59th second.
pub open spec fn time_present(secs: int, nanos: int) -> bool {
    secs < 86_400 && nanos < 2_000_000_000 && (nanos < 1_000_000_000 || secs % 60 == 59)
}

/// Relies on chrono's NaiveTime::from_num_seconds_from_midnight_opt:
/// deterministic, and `Some` exactly as `time_present` states, matching the
/// source's own test.
#[verifier::external_body]
fn time_from_midnight(secs: u32, nano: u32) -> (r: Option<chrono::NaiveTime>)
    ensures
        r == time_of_day_of(secs as int, nano as int),
        r is Some <==> time_present(secs as int, nano as int),
{
    chrono::NaiveTime::from_num_seconds_from_midnight_opt(secs, nano)
}

/// Relies on chrono's NaiveDateTime::date: the date component of an instant.
#[verifier::external_body]
fn datetime_date(dt: &chrono::NaiveDateTime) -> chrono::NaiveDate {
    dt.date()
}

/// Relies on chrono's NaiveDateTime::time: the clock component of an instant.
#[verifier::external_body]
fn datetime_time(dt: &chrono::NaiveDateTime) -> chrono::NaiveTime {
    dt.time()
}

/// Truncating division, as the machine divides a signed integer.
pub open spec fn tdiv(a: int, b: int) -> int {
    if a >= 0 {
        a / b
    } else {
        -((-a) / b)
    }
}

/// Truncating remainder, paired with `tdiv`.
pub open spec fn tmod(a: int, b: int) -> int {
    a - b * tdiv(a, b)
}

/// The (whole seconds, nanoseconds) decomposition a temporal tag gives to a
/// stored value: the unit's scale factor splits it, dates scale to seconds,
/// and the remainder is narrowed to 32 bits exactly as the machine narrows
/// it. Tags carrying no instant — times of day, intervals, and the
/// non-temporal tags — decompose to nothing.
pub open spec fn datetime_parts(dt: DataType, v: int) -> Option<(int, u32)> {
    match dt {
        DataType::Date32(_) => Some((v * 86_400, 0u32)),
        DataType::Date64(_) => Some((tdiv(v, 1_000), ((tmod(v, 1_000) * 1_000_000) as u32))),
        DataType::Timestamp(u) => match u {
            TimeUnit::Second => Some((v, 0u32)),
            TimeUnit::Millisecond => Some(
                (tdiv(v, 1_000), ((tmod(v, 1_000) * 1_000_000) as u32)),
            ),
            TimeUnit::Microsecond => Some(
                (tdiv(v, 1_000_000), ((tmod(v, 1_000_000) * 1_000) as u32)),
            ),
            TimeUnit::Nanosecond => Some((tdiv(v, 1_000_000_000), (tmod(v, 1_000_000_000) as u32))),
        },
        _ => None,
    }
}

/// What `value_as_datetime` returns for a value `v` of tag `dt`: chrono's
/// instant for the decomposition, or nothing where the tag has none, the
/// seconds overflow the 64-bit range, or the narrowed remainder is not a
/// valid nanosecond count.
pub open spec fn datetime_decode(dt: DataType, v: int) -> Option<chrono::NaiveDateTime> {
    match datetime_parts(dt, v) {
        Some((s, n)) => if i64::MIN <= s <= i64::MAX && n < 2_000_000_000 {
            datetime_of_timestamp(s, n as int)
        } else {
            None
        },
        None => None,
    }
}

/// What `value_as_time` returns for a value `v` of tag `dt`: the named time
/// of day for the decomposition its unit gives, present exactly when chrono
/// accepts the pair — except for the timestamp tags, whose result is the
/// clock component of the instant and is pinned only as far as its presence.
pub open spec fn time_decode_ok(dt: DataType, v: int, r: Option<chrono::NaiveTime>) -> bool {
    match dt {
        DataType::Time32(u) => {
            let w = (v as u32) as int;
            match u {
                TimeUnit::Second => {
                    &&& r == time_of_day_of(w, 0)
                    &&& (r is Some <==> time_present(w, 0))
                },
                TimeUnit::Millisecond => {
                    &&& r == time_of_day_of(w / 1_000, (w % 1_000) * 1_000_000)
                    &&& (r is Some <==> time_present(w / 1_000, (w % 1_000) * 1_000_000))
                },
                _ => r is None,
            }
        },
        DataType::Time64(u) => {
            match u {
                TimeUnit::Microsecond => {
                    let s = (tdiv(v, 1_000_000) as u32) as int;
                    let n = ((tmod(v, 1_000_000) * 1_000) as u32) as int;
                    &&& r == time_of_day_of(s, n)
                    &&& (r is Some <==> time_present(s, n))
                },
                TimeUnit::Nanosecond => {
                    let s = (tdiv(v, 1_000_000_000) as u32) as int;
                    let n = (tmod(v, 1_000_000_000) as u32) as int;
                    &&& r == time_of_day_of(s, n)
                    &&& (r is Some <==> time_present(s, n))
                },
                _ => r is None,
            }
        },
        DataType::Timestamp(u) => (r is Some <==> datetime_decode(
            DataType::Timestamp(u),
            v,
        ) is Some),
        DataType::Date32(_) => r == time_of_day_of(0, 0) && r is Some,
        DataType::Date64(_) => r == time_of_day_of(0, 0) && r is Some,
        _ => r is None,
    }
}

impl<T: ArrowTemporalType> PrimitiveArray<T> {
    /// The value at index `i` as a calendar instant, by the container's
    /// temporal tag. A tag that carries no instant, or a value chrono cannot
    /// represent, gives no value rather than failing. The index is unchecked
    /// against the logical length, as at every fixed-width read.
    pub fn value_as_datetime(&self, i: usize) -> (r: Option<chrono::NaiveDateTime>)
        requires
            self.value_readable(i as int),
        ensures
            r == datetime_decode(self.spec_data().data_type, T::as_int(self.value_spec(i as int))),
    {
        let v: i64 = T::to_i64(self.value(i));
        match self.data_type() {
            DataType::Date32(_) => {
                let secs: i128 = (v as i128) * 86_400;
                if secs < (i64::MIN as i128) || secs > (i64::MAX as i128) {
                    None
                } else {
                    datetime_from_timestamp(secs as i64, 0)
                }
            },
            DataType::Date64(_) => split_millis_to_datetime(v),
            DataType::Timestamp(unit) => match unit {
                TimeUnit::Second => datetime_from_timestamp(v, 0),
                TimeUnit::Millisecond => split_millis_to_datetime(v),
                TimeUnit::Microsecond => {
                    let n = ((v % 1_000_000) * 1_000) as u32;
                    if n >= 2_000_000_000 {
                        None
                    } else {
                        datetime_from_timestamp(v / 1_000_000, n)
                    }
                },
                TimeUnit::Nanosecond => {
                    let n = (v % 1_000_000_000) as u32;
                    if n >= 2_000_000_000 {
                        None
                    } else {
                        datetime_from_timestamp(v / 1_000_000_000, n)
                    }
                },
            },
            _ => None,
        }
    }

    /// The value at index `i` as a calendar date: the date component of
    /// `value_as_datetime`, present exactly when the instant is.
    pub fn value_as_date(&self, i: usize) -> (r: Option<chrono::NaiveDate>)
        requires
            self.value_readable(i as int),
        ensures
            r is Some <==> datetime_decode(
                self.spec_data().data_type,
                T::as_int(self.value_spec(i as int)),
            ) is Some,
    {
        match self.value_as_datetime(i) {
            Some(dt) => Some(datetime_date(&dt)),
            None => None,
        }
    }

    /// The value at index `i` as a time of day. Date tags answer midnight,
    /// having no time resolution; timestamp tags answer the clock component
    /// of their instant; tags carrying no time answer nothing.
    pub fn value_as_time(&self, i: usize) -> (r: Option<chrono::NaiveTime>)
        requires
            self.value_readable(i as int),
        ensures
            time_decode_ok(self.spec_data().data_type, T::as_int(self.value_spec(i as int)), r),
    {
        match self.data_type() {
            DataType::Time32(unit) => {
                let v = T::to_i64(self.value(i)) as u32;
                match unit {
                    TimeUnit::Second => time_from_midnight(v, 0),
                    TimeUnit::Millisecond => time_from_midnight(v / 1_000, (v % 1_000) * 1_000_000),
                    _ => None,
                }
            },
            DataType::Time64(unit) => {
                let v = T::to_i64(self.value(i));
                match unit {
                    TimeUnit::Microsecond => time_from_midnight(
                        (v / 1_000_000) as u32,
                        ((v % 1_000_000) * 1_000) as u32,
                    ),
                    TimeUnit::Nanosecond => time_from_midnight(
                        (v / 1_000_000_000) as u32,
                        (v % 1_000_000_000) as u32,
                    ),
                    _ => None,
                }
            },
            DataType::Timestamp(_) => match self.value_as_datetime(i) {
                Some(dt) => Some(datetime_time(&dt)),
                None => None,
            },
            DataType::Date32(_) => time_from_midnight(0, 0),
            DataType::Date64(_) => time_from_midnight(0, 0),
            _ => None,
        }
    }
}

/// Splits a millisecond count into whole seconds and leftover nanoseconds
/// and hands the pair to chrono, machine-narrowing the remainder first.
fn split_millis_to_datetime(v: i64) -> (r: Option<chrono::NaiveDateTime>)
    ensures
        ({
            let n = (tmod(v as int, 1_000) * 1_000_000) as u32;
            r == (if n < 2_000_000_000 {
                datetime_of_timestamp(tdiv(v as int, 1_000), n as int)
            } else {
                None
            })
        }),
{
    let n = ((v % 1_000) * 1_000_000) as u32;
    if n >= 2_000_000_000 {
        None
    } else {
        datetime_from_timestamp(v / 1_000, n)
    }
}

} // verus!
