//! Moments as dates and times of day.
use vstd::prelude::*;

verus! {

/// The first second of the year zero, a day before it for the sake of all offsets.
pub const FIRST_DATED_SECOND: i64 = -62_167_305_600;

/// The largest number of seconds since the epoch that a date is shown for.
pub const LAST_DATED_SECOND: u64 = 8_210_266_700_000;

/// The last second that lies in a year of four digits at every offset.
pub const LAST_FOUR_DIGIT_SECOND: u64 = 253_402_128_000;

/// Whether seconds since the epoch, and nanoseconds on top of them, are a moment
/// that can be shown. A leap second has twice the nanoseconds, and is the last of
/// its minute.
pub open spec fn is_moment(secs: i64, nanos: u32) -> bool {
    &&& FIRST_DATED_SECOND <= secs <= LAST_DATED_SECOND
    &&& nanos < 1_000_000_000 || (nanos < 2_000_000_000 && secs as int % 60 == 59)
}

/// Whether a local time can be so many seconds ahead of UTC: less than a day, either
/// way.
pub open spec fn is_offset(offset: i32) -> bool {
    -86_400 < offset < 86_400
}

/// Month, day, hour and minute.
pub open spec fn short_format() -> Seq<char> {
    "%b %d %H:%M"@
}

/// Month, day and the time of day to the second.
pub open spec fn detailed_format() -> Seq<char> {
    "%b %d %I:%M:%S %p"@
}

/// Year, month and day.
pub open spec fn date_format() -> Seq<char> {
    "%Y-%m-%d"@
}

/// The moment that a text in the format of RFC 3339 names, if it is one.
pub uninterp spec fn rfc3339_moment(text: Seq<char>) -> Option<(i64, u32)>;

/// `DateTime::parse_from_rfc3339` of `chrono`: the moment that a text names, in
/// seconds since the epoch and the nanoseconds on top of them. A function of the
/// text alone. Its years have four digits and its offsets whole minutes.
#[verifier::external_body]
pub(crate) fn parse_rfc3339(text: &str) -> (moment: Option<(i64, u32)>)
    ensures
        moment == rfc3339_moment(text@),
        moment matches Some((secs, nanos)) ==> is_moment(secs, nanos),
{
    chrono::DateTime::parse_from_rfc3339(text).ok().map(
        |moment| (moment.timestamp(), moment.timestamp_subsec_nanos()),
    )
}

/// How a moment is written, so many seconds ahead of UTC, in a format.
pub uninterp spec fn moment_text(
    secs: i64,
    nanos: u32,
    offset: i32,
    format: Seq<char>,
) -> Seq<char>;

/// `DateTime::with_timezone` of `chrono` with the machine's `Local`: how many
/// seconds the local time is ahead of UTC at a moment. That rests on the machine;
/// a `FixedOffset` is always less than a day.
#[verifier::external_body]
pub(crate) fn local_offset(secs: i64) -> (offset: i32)
    requires
        is_moment(secs, 0),
    ensures
        is_offset(offset),
{
    let moment = chrono::DateTime::from_timestamp(secs, 0).unwrap();
    moment.with_timezone(&chrono::Local).offset().local_minus_utc()
}

/// `DateTime::format` of `chrono` at a `FixedOffset`: a function of its arguments
/// alone. Of the formats only the three that are shown are asked for: `chrono` panics
/// on one that it does not know. A date in a year of four digits is these digits, a
/// dash, two digits, a dash and two digits.
#[verifier::external_body]
pub(crate) fn format_moment(secs: i64, nanos: u32, offset: i32, format: &str) -> (text: String)
    requires
        is_moment(secs, nanos),
        is_offset(offset),
        format@ == short_format() || format@ == detailed_format() || format@ == date_format(),
    ensures
        text@ == moment_text(secs, nanos, offset, format@),
        format@ == date_format() && 0 <= secs <= LAST_FOUR_DIGIT_SECOND ==> text@.len() == 10
            && text@[4] == '-' && text@[7] == '-',
{
    let zone = chrono::FixedOffset::east_opt(offset).unwrap();
    let moment = chrono::DateTime::from_timestamp(secs, nanos).unwrap();
    moment.with_timezone(&zone).format(format).to_string()
}

/// Whether a text shows a moment in a format, at the offset of some place.
pub open spec fn shows_moment(text: Seq<char>, secs: i64, nanos: u32, format: Seq<char>) -> bool {
    exists|offset: i32|
        is_offset(offset) && text == #[trigger] moment_text(secs, nanos, offset, format)
}

/// What is shown of a text at an offset: the moment that it names, or the text.
pub open spec fn stamp_at(text: Seq<char>, offset: i32, format: Seq<char>) -> Seq<char> {
    match rfc3339_moment(text) {
        Some((secs, nanos)) => moment_text(secs, nanos, offset, format),
        None => text,
    }
}

/// Whether one text is what is shown of another where the machine is: the moment
/// that it names, at some offset, or the text itself.
pub open spec fn stamp_of(shown: Seq<char>, text: Seq<char>, format: Seq<char>) -> bool {
    match rfc3339_moment(text) {
        Some((secs, nanos)) => shows_moment(shown, secs, nanos, format),
        None => shown == text,
    }
}

} // verus!
