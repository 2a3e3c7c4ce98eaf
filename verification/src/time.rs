//! Points in time and their forms on the wire.

use chrono::{Datelike, Timelike};
use vstd::prelude::*;

verus! {

/// A point in time: whole seconds since the Unix epoch, which may be
/// negative, and the nanoseconds into that second.
#[derive(Clone, Copy, Debug, PartialEq, Eq, Structural)]
pub struct Timestamp {
    pub secs: i64,
    pub nanos: u32,
}

/// A date and time of day in UTC.
#[derive(Clone, Copy, Debug, PartialEq, Eq, Structural)]
pub struct CivilTime {
    pub year: i32,
    pub month: u32,
    pub day: u32,
    pub hour: u32,
    pub minute: u32,
    pub second: u32,
    pub nanosecond: u32,
}

/// Whether the parts of a date and time are in the ranges of the calendar:
/// month 1 to 12, day 1 to 31, hour below 24, minute and second below 60,
/// and the nanoseconds below two seconds, the second second being a leap
/// second.
pub open spec fn in_calendar(civil: CivilTime) -> bool {
    &&& 1 <= civil.month <= 12
    &&& 1 <= civil.day <= 31
    &&& civil.hour <= 23
    &&& civil.minute <= 59
    &&& civil.second <= 59
    &&& civil.nanosecond <= 1_999_999_999
}

/// The UTC date and time of a point in time, where the calendar reaches it.
pub uninterp spec fn utc_civil_time(secs: i64, nanos: u32) -> Option<CivilTime>;

/// The RFC 3339 text of a point in time in UTC, where the calendar reaches it.
pub uninterp spec fn rfc3339_text(secs: i64, nanos: u32) -> Option<Seq<char>>;

/// `DateTime::from_timestamp` of chrono, read through `year`, `month`, `day`,
/// `hour`, `minute`, `second` and `nanosecond`: the UTC date and time of the
/// point in time, or nothing where chrono cannot represent it. The parts
/// are in the ranges that chrono documents for them.
#[verifier::external_body]
fn civil_from_timestamp(secs: i64, nanos: u32) -> (out: Option<CivilTime>)
    ensures
        out == utc_civil_time(secs, nanos),
        out matches Some(civil) ==> in_calendar(civil),
{
    match chrono::DateTime::from_timestamp(secs, nanos) {
        Some(dt) => Some(
            CivilTime {
                year: dt.year(),
                month: dt.month(),
                day: dt.day(),
                hour: dt.hour(),
                minute: dt.minute(),
                second: dt.second(),
                nanosecond: dt.nanosecond(),
            },
        ),
        None => None,
    }
}

/// `DateTime::to_rfc3339` of chrono on what `DateTime::from_timestamp`
/// gives: the RFC 3339 text of the point in time, or nothing where chrono
/// cannot represent it.
#[verifier::external_body]
fn text_from_timestamp(secs: i64, nanos: u32) -> (out: Option<String>)
    ensures
        out is Some <==> rfc3339_text(secs, nanos) is Some,
        out matches Some(text) ==> rfc3339_text(secs, nanos) == Some(text@),
{
    match chrono::DateTime::from_timestamp(secs, nanos) {
        Some(dt) => Some(dt.to_rfc3339()),
        None => None,
    }
}

/// The low 16 bits of a number.
pub open spec fn low16(value: int) -> u16 {
    (value % 0x1_0000) as u16
}

/// The eight numbers of a system time: year, month, a zero that is always
/// there, day, hour, minute, second and millisecond, each cut to 16 bits.
pub open spec fn system_time_words(civil: CivilTime) -> Seq<u16> {
    seq![
        low16(civil.year as int),
        low16(civil.month as int),
        0u16,
        low16(civil.day as int),
        low16(civil.hour as int),
        low16(civil.minute as int),
        low16(civil.second as int),
        low16(civil.nanosecond as int / 1_000_000),
    ]
}

/// Whether eight numbers are a system time in the ranges of the calendar:
/// after the year the month, 1 to 12, a zero, the day, 1 to 31, the hour,
/// below 24, minute and second, below 60, and the milliseconds, below 2000.
pub open spec fn is_system_time(words: Seq<u16>) -> bool {
    &&& words.len() == 8
    &&& 1 <= words[1] <= 12
    &&& words[2] == 0
    &&& 1 <= words[3] <= 31
    &&& words[4] <= 23
    &&& words[5] <= 59
    &&& words[6] <= 59
    &&& words[7] <= 1999
}

/// A date and time in the ranges of the calendar keeps its parts as they
/// are in the system time; only the year is cut to 16 bits.
pub proof fn lemma_system_time_in_range(civil: CivilTime)
    requires
        in_calendar(civil),
    ensures
        is_system_time(system_time_words(civil)),
        system_time_words(civil)[1] == civil.month,
        system_time_words(civil)[3] == civil.day,
        system_time_words(civil)[4] == civil.hour,
        system_time_words(civil)[5] == civil.minute,
        system_time_words(civil)[6] == civil.second,
        system_time_words(civil)[7] == civil.nanosecond / 1_000_000,
{
}

/// A date and time as eight 16-bit numbers.
#[derive(Clone, Copy, Debug)]
pub struct Win32SystemTime {
    pub st: [u16; 8],
}

fn low16_u32(value: u32) -> (out: u16)
    ensures
        out == low16(value as int),
{
    (value % 0x1_0000) as u16
}

fn low16_i32(value: i32) -> (out: u16)
    ensures
        out == low16(value as int),
{
    let wide: i64 = value as i64 + 0x1_0000_0000;
    let lifted: u64 = wide as u64;
    assert((value as int + 0x1_0000_0000) % 0x1_0000 == (value as int) % 0x1_0000);
    (lifted % 0x1_0000) as u16
}

impl Win32SystemTime {
    /// Lays a date and time out as a system time: see [`system_time_words`].
    pub fn from_civil(civil: &CivilTime) -> (out: Win32SystemTime)
        ensures
            out.st@ == system_time_words(*civil),
    {
        let st = [
            low16_i32(civil.year),
            low16_u32(civil.month),
            0,
            low16_u32(civil.day),
            low16_u32(civil.hour),
            low16_u32(civil.minute),
            low16_u32(civil.second),
            low16_u32(civil.nanosecond / 1_000_000),
        ];
        assert(st@ =~= system_time_words(*civil));
        Win32SystemTime { st }
    }

    /// The system time of a point in time, or nothing where the calendar
    /// does not reach it.
    pub fn from(value: &Timestamp) -> (out: Option<Win32SystemTime>)
        ensures
            out is Some <==> utc_civil_time(value.secs, value.nanos) is Some,
            out matches Some(time) ==> time.st@ == system_time_words(
                utc_civil_time(value.secs, value.nanos)->0,
            ),
            out matches Some(time) ==> is_system_time(time.st@),
    {
        match civil_from_timestamp(value.secs, value.nanos) {
            Some(civil) => {
                proof {
                    lemma_system_time_in_range(civil);
                }
                Some(Win32SystemTime::from_civil(&civil))
            },
            None => None,
        }
    }
}

/// The number of nanoseconds in a second.
pub const NANOS_PER_SECOND: u32 = 1_000_000_000;

/// The point in time that lies a duration after the Unix epoch, where its
/// seconds can be counted in 64 bits with a sign.
pub open spec fn after_epoch(secs: u64, nanos: u32) -> Option<Timestamp> {
    if secs <= i64::MAX {
        Some(Timestamp { secs: secs as i64, nanos })
    } else {
        None
    }
}

/// The point in time that lies a duration before the Unix epoch, where its
/// seconds can be counted in 64 bits with a sign: the nanoseconds always
/// count forward from a whole second.
pub open spec fn before_epoch(secs: u64, nanos: u32) -> Option<Timestamp> {
    if secs >= i64::MAX {
        None
    } else if nanos == 0 {
        Some(Timestamp { secs: (-(secs as int)) as i64, nanos: 0 })
    } else {
        Some(
            Timestamp {
                secs: (-(secs as int) - 1) as i64,
                nanos: (NANOS_PER_SECOND - nanos) as u32,
            },
        )
    }
}

impl Timestamp {
    /// The point in time a duration after the Unix epoch: see [`after_epoch`].
    pub fn since_epoch(secs: u64, nanos: u32) -> (out: Option<Timestamp>)
        ensures
            out == after_epoch(secs, nanos),
    {
        if secs <= i64::MAX as u64 {
            Some(Timestamp { secs: secs as i64, nanos })
        } else {
            None
        }
    }

    /// The point in time a duration before the Unix epoch: see
    /// [`before_epoch`]. The nanoseconds of a duration are less than a second.
    pub fn until_epoch(secs: u64, nanos: u32) -> (out: Option<Timestamp>)
        requires
            nanos < NANOS_PER_SECOND,
        ensures
            out == before_epoch(secs, nanos),
    {
        if secs >= i64::MAX as u64 {
            None
        } else if nanos == 0 {
            Some(Timestamp { secs: -(secs as i64), nanos: 0 })
        } else {
            Some(Timestamp { secs: -(secs as i64) - 1, nanos: NANOS_PER_SECOND - nanos })
        }
    }

    /// The UTC date and time of this point in time, or nothing where the
    /// calendar does not reach it.
    pub fn civil(&self) -> (out: Option<CivilTime>)
        ensures
            out == utc_civil_time(self.secs, self.nanos),
            out matches Some(civil) ==> in_calendar(civil),
    {
        civil_from_timestamp(self.secs, self.nanos)
    }

    /// The RFC 3339 text of this point in time, or nothing where the
    /// calendar does not reach it.
    pub fn to_rfc3339(&self) -> (out: Option<String>)
        ensures
            out is Some <==> rfc3339_text(self.secs, self.nanos) is Some,
            out matches Some(text) ==> rfc3339_text(self.secs, self.nanos) == Some(text@),
    {
        text_from_timestamp(self.secs, self.nanos)
    }

    /// The whole seconds since the Unix epoch, for a time at or after it.
    pub fn unix_seconds(&self) -> (out: Option<u64>)
        ensures
            out == if self.secs >= 0 {
                Some(self.secs as u64)
            } else {
                None
            },
    {
        if self.secs >= 0 {
            Some(self.secs as u64)
        } else {
            None
        }
    }
}

} // verus!
