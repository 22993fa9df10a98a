//! The snapshot's timestamp: a wall-clock reading at a fixed offset from UTC.
use chrono::{Datelike, FixedOffset, NaiveDateTime, Timelike};
use vstd::prelude::*;

verus! {

/// The format of the timestamp text, in `chrono`'s notation: year, month and
/// day joined by `-`, a space, hour and minute joined by `:`.
pub const TIMESTAMP_FORMAT: &'static str = "%Y-%m-%d %H:%M";

/// The upstream clock runs eight hours east of UTC.
pub const UTC_OFFSET_SECONDS: i32 = 8 * 3600;

/// A calendar date and a time of day, read off a clock in no stated zone.
#[derive(Clone, Copy, Debug, PartialEq, Eq)]
pub struct WallClock {
    pub year: i32,
    pub month: u32,
    pub day: u32,
    pub hour: u32,
    pub minute: u32,
    pub second: u32,
    pub nanosecond: u32,
}

impl WallClock {
    /// Each field lies in the range of its unit. A nanosecond count of a
    /// billion or more marks a leap second.
    pub open spec fn in_range(self) -> bool {
        &&& 1 <= self.month <= 12
        &&& 1 <= self.day <= 31
        &&& self.hour <= 23
        &&& self.minute <= 59
        &&& self.second <= 59
        &&& self.nanosecond < 2_000_000_000
    }
}

/// A wall-clock reading together with the offset of its clock from UTC, in
/// seconds east.
#[derive(Clone, Copy, Debug, PartialEq, Eq)]
pub struct Timestamp {
    pub local: WallClock,
    pub offset_seconds: i32,
}

impl Timestamp {
    /// The reading is in range and the offset is less than a day either way.
    pub open spec fn well_formed(self) -> bool {
        &&& self.local.in_range()
        &&& -86_400 < self.offset_seconds < 86_400
    }
}

/// Why a text gave no timestamp.
#[derive(Clone, Copy, Debug, PartialEq, Eq)]
pub enum TimestampError {
    /// The text does not follow the format, or names no real date or time.
    Format,
    /// The offset is a day or more.
    Offset,
}

/// What `chrono::NaiveDateTime::parse_from_str` makes of `text` under
/// `format`: the reading it parsed, or `None` where it reports an error.
pub uninterp spec fn naive_datetime_parsed(text: Seq<char>, format: Seq<char>) -> Option<WallClock>;

/// Calls `chrono::NaiveDateTime::parse_from_str` and reads the fields of the
/// result through `Datelike` and `Timelike`.
///
/// The parse depends on the two texts alone, so its outcome has a name. The
/// ranges are those that `chrono` documents for the getters: month 1 to 12,
/// day 1 to 31, hour 0 to 23, minute and second 0 to 59, and a nanosecond
/// count below two billion.
#[verifier::external_body]
fn naive_parse_from_str(text: &str, format: &str) -> (res: Option<WallClock>)
    ensures
        res == naive_datetime_parsed(text@, format@),
        res matches Some(clock) ==> clock.in_range(),
{
    match NaiveDateTime::parse_from_str(text, format) {
        Ok(t) => Some(
            WallClock {
                year: t.year(),
                month: t.month(),
                day: t.day(),
                hour: t.hour(),
                minute: t.minute(),
                second: t.second(),
                nanosecond: t.nanosecond(),
            },
        ),
        Err(_) => None,
    }
}

/// Calls `chrono::FixedOffset::east_opt` and reads the offset back with
/// `local_minus_utc`. `east_opt` accepts exactly the offsets of less than a
/// day either way, and the offset it builds holds the seconds it was given.
#[verifier::external_body]
fn fixed_offset_east(seconds: i32) -> (res: Option<i32>)
    ensures
        res == (if -86_400 < seconds < 86_400 {
            Some(seconds)
        } else {
            None::<i32>
        }),
{
    match FixedOffset::east_opt(seconds) {
        Some(offset) => Some(offset.local_minus_utc()),
        None => None,
    }
}

/// The timestamp that a parse outcome and an offset give: a failed parse is a
/// format error, and an offset of a day or more an offset error.
pub open spec fn timestamp_at(parsed: Option<WallClock>, offset_seconds: i32) -> Result<
    Timestamp,
    TimestampError,
> {
    match parsed {
        None => Err(TimestampError::Format),
        Some(local) => if -86_400 < offset_seconds < 86_400 {
            Ok(Timestamp { local, offset_seconds })
        } else {
            Err(TimestampError::Offset)
        },
    }
}

/// The timestamp that `text` stands for: its reading under
/// [`TIMESTAMP_FORMAT`], taken at [`UTC_OFFSET_SECONDS`].
pub open spec fn datetime_parsed(text: Seq<char>) -> Result<Timestamp, TimestampError> {
    timestamp_at(naive_datetime_parsed(text, TIMESTAMP_FORMAT@), UTC_OFFSET_SECONDS)
}

/// Places a parsed reading at an offset from UTC.
pub fn timestamp_from(parsed: Option<WallClock>, offset_seconds: i32) -> (res: Result<
    Timestamp,
    TimestampError,
>)
    ensures
        res == timestamp_at(parsed, offset_seconds),
        res matches Ok(timestamp) ==> (timestamp.well_formed() <==> timestamp.local.in_range()),
{
    match parsed {
        None => Err(TimestampError::Format),
        Some(local) => match fixed_offset_east(offset_seconds) {
            Some(seconds) => Ok(Timestamp { local, offset_seconds: seconds }),
            None => Err(TimestampError::Offset),
        },
    }
}

/// Parses the timestamp text of a document. The only error is
/// [`TimestampError::Format`]: the fixed offset is always in range.
pub fn parse_datetime(text: &str) -> (res: Result<Timestamp, TimestampError>)
    ensures
        res == datetime_parsed(text@),
        res is Ok <==> naive_datetime_parsed(text@, TIMESTAMP_FORMAT@) is Some,
        res matches Ok(timestamp) ==> timestamp.well_formed() && timestamp.offset_seconds
            == UTC_OFFSET_SECONDS && Some(timestamp.local) == naive_datetime_parsed(
            text@,
            TIMESTAMP_FORMAT@,
        ),
        res matches Err(error) ==> error == TimestampError::Format,
{
    let parsed = naive_parse_from_str(text, TIMESTAMP_FORMAT);
    timestamp_from(parsed, UTC_OFFSET_SECONDS)
}

} // verus!
