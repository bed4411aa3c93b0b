//! From a timestamp to the date-and-time tag.
//!
//! The calendar arithmetic is done by the `chrono` crate. Its result is a
//! function of the timestamp alone, which this module names but does not
//! define: [`utc_fields`]. Everything after that call is verified.

use crate::proto::udp::outbound::types::tags::DateTime;
use chrono::{Datelike, Timelike};
use vstd::prelude::*;

verus! {

/// The fields of a date and time in UTC, as `chrono` reports them.
#[derive(Copy, Clone, Debug, PartialEq, Eq, Structural)]
pub struct UtcFields {
    /// Microseconds since the last whole second.
    pub micros: u32,
    pub second: u32,
    pub minute: u32,
    pub hour: u32,
    /// The day of the month, counted from 1.
    pub day: u32,
    /// The month, counted from 0.
    pub month0: u32,
    pub year: i32,
}

/// The fields that `chrono` gives for the instant `secs` seconds and `nanos`
/// nanoseconds after 1970-01-01 00:00:00 UTC, or `None` for an instant that
/// it cannot represent.
pub uninterp spec fn utc_fields(secs: i64, nanos: u32) -> Option<UtcFields>;

/// `chrono::DateTime::from_timestamp`, read out field by field with the
/// methods of `Timelike` and `Datelike`. The contract claims only that the
/// outcome depends on nothing but the two arguments.
#[verifier::external_body]
pub(crate) fn utc_from_timestamp(secs: i64, nanos: u32) -> (fields: Option<UtcFields>)
    ensures
        fields == utc_fields(secs, nanos),
{
    let now = chrono::DateTime::from_timestamp(secs, nanos)?;
    Some(
        UtcFields {
            micros: now.timestamp_subsec_micros(),
            second: now.time().second(),
            minute: now.time().minute(),
            hour: now.time().hour(),
            day: now.date_naive().day(),
            month0: now.date_naive().month0(),
            year: now.date_naive().year(),
        },
    )
}

/// The low eight bits of `n`.
pub open spec fn low_byte(n: int) -> u8 {
    (n % 256) as u8
}

/// The tag that carries `fields`: the microseconds as they are, and of
/// every other field the low eight bits; the year is counted from 1900.
pub open spec fn date_time_of(fields: UtcFields) -> DateTime {
    DateTime {
        micros: fields.micros,
        second: low_byte(fields.second as int),
        minute: low_byte(fields.minute as int),
        hour: low_byte(fields.hour as int),
        day: low_byte(fields.day as int),
        month: low_byte(fields.month0 as int),
        year: low_byte(fields.year - 1900),
    }
}

fn low_byte_of(n: u32) -> (b: u8)
    ensures
        b == low_byte(n as int),
{
    (n % 256) as u8
}

/// The date-and-time tag for `fields`: see [`date_time_of`].
pub fn date_time_tag(fields: UtcFields) -> (tag: DateTime)
    ensures
        tag == date_time_of(fields),
{
    let since_1900: i64 = fields.year as i64 - 1900;
    let year: u8 = if since_1900 >= 0 {
        (since_1900 % 256) as u8
    } else {
        let below: i64 = (-since_1900) % 256;
        if below == 0 {
            0
        } else {
            (256 - below) as u8
        }
    };
    DateTime::new(
        fields.micros,
        low_byte_of(fields.second),
        low_byte_of(fields.minute),
        low_byte_of(fields.hour),
        low_byte_of(fields.day),
        low_byte_of(fields.month0),
        year,
    )
}

/// The date-and-time tag for the instant `secs` seconds and `nanos`
/// nanoseconds after 1970-01-01 00:00:00 UTC, or `None` for an instant that
/// `chrono` cannot represent.
pub fn clock_tag(secs: i64, nanos: u32) -> (tag: Option<DateTime>)
    ensures
        tag == match utc_fields(secs, nanos) {
            Some(fields) => Some(date_time_of(fields)),
            None => None,
        },
{
    match utc_from_timestamp(secs, nanos) {
        Some(fields) => Some(date_time_tag(fields)),
        None => None,
    }
}

} // verus!
