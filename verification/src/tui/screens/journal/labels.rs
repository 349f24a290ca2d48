//! What the journal shows of an event.
use crate::app::{text_view, JournalFilter};
use crate::event_journal::{EventDetails, EventJournalEntry, EventType};
use crate::geometry::Constraint;
use crate::moments::{
    detailed_format, format_moment, is_offset, local_offset, parse_rfc3339, rfc3339_moment,
    short_format, stamp_at, stamp_of,
};
use crate::paths::{compact_path_label, short_path, FilePath};
use crate::text::{
    decimal, format_number, join, join3, owned, replace_text, replaced, sanitize_text, sanitized,
};
use vstd::prelude::*;
use vstd::string::StringExecFns;

verus! {

// ------------------------------------------------------------------ the event

pub open spec fn type_text(event_type: EventType) -> Seq<char> {
    match event_type {
        EventType::IngestQueued => "Queued"@,
        EventType::IngestAdded => "Added"@,
        EventType::IngestDuplicate => "Duplicate"@,
        EventType::IngestInvalid => "Invalid"@,
        EventType::IngestFailed => "Failed"@,
        EventType::TorrentCompleted => "Complete"@,
        EventType::DataUnavailable => "Missing"@,
        EventType::DataRecovered => "Found"@,
        EventType::ControlQueued => "Queued"@,
        EventType::ControlApplied => "Applied"@,
        EventType::ControlFailed => "Error"@,
    }
}

/// What kind of event it is.
pub fn event_type_label(entry: &EventJournalEntry) -> (label: &'static str)
    ensures
        label@ == type_text(entry.event_type),
{
    match entry.event_type {
        EventType::IngestQueued => "Queued",
        EventType::IngestAdded => "Added",
        EventType::IngestDuplicate => "Duplicate",
        EventType::IngestInvalid => "Invalid",
        EventType::IngestFailed => "Failed",
        EventType::TorrentCompleted => "Complete",
        EventType::DataUnavailable => "Missing",
        EventType::DataRecovered => "Found",
        EventType::ControlQueued => "Queued",
        EventType::ControlApplied => "Applied",
        EventType::ControlFailed => "Error",
    }
}

/// The action of a command, or what kind of event it is.
pub open spec fn action_text(entry: EventJournalEntry) -> Seq<char> {
    match entry.details {
        EventDetails::Control { action } => sanitized(action@),
        EventDetails::Other => type_text(entry.event_type),
    }
}

/// The action of a command, or what kind of event it is.
pub fn command_action_label(entry: &EventJournalEntry) -> (label: String)
    ensures
        label@ == action_text(*entry),
{
    match &entry.details {
        EventDetails::Control { action } => sanitize_text(action.as_str()),
        EventDetails::Other => owned(event_type_label(entry)),
    }
}

/// Where an event came from: a path of its own, or else the folder that was
/// watched.
pub open spec fn source_of(entry: EventJournalEntry) -> Option<FilePath> {
    match entry.source_path {
        Some(path) => Some(path),
        None => entry.source_watch_folder,
    }
}

fn source<'a>(entry: &'a EventJournalEntry) -> (source: Option<&'a FilePath>)
    ensures
        source is Some == (source_of(*entry) is Some),
        source matches Some(path) ==> Some(*path) == source_of(*entry),
{
    match &entry.source_path {
        Some(path) => Some(path),
        None => match &entry.source_watch_folder {
            Some(path) => Some(path),
            None => None,
        },
    }
}

/// Where an event came from, in short.
pub open spec fn source_text(entry: EventJournalEntry, anonymize: bool) -> Seq<char> {
    if anonymize {
        "/path/to/source"@
    } else {
        match source_of(entry) {
            Some(path) => short_path(path, 1),
            None => "-"@,
        }
    }
}

/// Where an event came from, in short.
pub fn source_label(entry: &EventJournalEntry, anonymize: bool) -> (label: String)
    ensures
        label@ == source_text(*entry, anonymize),
{
    if anonymize {
        return owned("/path/to/source");
    }
    match source(entry) {
        Some(path) => compact_path_label(path, 1),
        None => owned("-"),
    }
}

/// The torrent of an event.
pub open spec fn torrent_text(entry: EventJournalEntry, anonymize: bool) -> Seq<char> {
    if anonymize {
        "Torrent"@
    } else {
        match entry.torrent_name {
            Some(name) => sanitized(name@),
            None => "-"@,
        }
    }
}

/// The torrent of an event.
pub fn torrent_label(entry: &EventJournalEntry, anonymize: bool) -> (label: String)
    ensures
        label@ == torrent_text(*entry, anonymize),
{
    if anonymize {
        return owned("Torrent");
    }
    match &entry.torrent_name {
        Some(name) => sanitize_text(name.as_str()),
        None => owned("-"),
    }
}

/// Where an event came from, in full and as it was recorded.
pub fn preferred_source_text(entry: &EventJournalEntry) -> (text: Option<String>)
    ensures
        match source_of(*entry) {
            Some(path) => text is Some && text->0@ == path.text@,
            None => text is None,
        },
{
    match source(entry) {
        Some(path) => Some(path.text.clone()),
        None => None,
    }
}

/// A text with something else in place of a part that may be absent.
pub open spec fn hidden(text: Seq<char>, part: Option<Seq<char>>, with: Seq<char>) -> Seq<char> {
    match part {
        Some(part) => replaced(text, part, with),
        None => text,
    }
}

fn cover_up(text: String, part: &Option<String>, with: &str) -> (result: String)
    ensures
        result@ == hidden(text@, text_view(*part), with@),
{
    match part {
        Some(part) => replace_text(text.as_str(), part.as_str(), with),
        None => text,
    }
}

pub open spec fn path_text(path: Option<FilePath>) -> Option<Seq<char>> {
    match path {
        Some(path) => Some(path.text@),
        None => None,
    }
}

fn cover_path(text: String, path: &Option<FilePath>) -> (result: String)
    ensures
        result@ == hidden(text@, path_text(*path), "/path/to/source"@),
{
    match path {
        Some(path) => replace_text(text.as_str(), path.text.as_str(), "/path/to/source"),
        None => text,
    }
}

/// The message of an event. With names hidden, other words stand for the torrent
/// and the paths of the event.
pub open spec fn message_text(entry: EventJournalEntry, anonymize: bool) -> Seq<char> {
    let message = match entry.message {
        Some(message) => message@,
        None => "No details recorded."@,
    };
    sanitized(
        if anonymize {
            hidden(
                hidden(
                    hidden(message, text_view(entry.torrent_name), "Torrent"@),
                    path_text(entry.source_path),
                    "/path/to/source"@,
                ),
                path_text(entry.source_watch_folder),
                "/path/to/source"@,
            )
        } else {
            message
        },
    )
}

/// The message of an event, if there is one.
pub fn detail_text(entry: Option<&EventJournalEntry>, anonymize: bool) -> (text: String)
    ensures
        text@ == match entry {
            Some(entry) => message_text(*entry, anonymize),
            None => "No journal entries yet."@,
        },
{
    let entry = match entry {
        Some(entry) => entry,
        None => {
            return owned("No journal entries yet.");
        },
    };
    let message = match &entry.message {
        Some(message) => message.clone(),
        None => owned("No details recorded."),
    };
    if !anonymize {
        return sanitize_text(message.as_str());
    }
    let message = cover_up(message, &entry.torrent_name, "Torrent");
    let message = cover_path(message, &entry.source_path);
    let message = cover_path(message, &entry.source_watch_folder);
    sanitize_text(message.as_str())
}

// ---------------------------------------------------------------- the columns

#[derive(Clone, Copy, Debug, PartialEq, Eq, Structural)]
pub enum JournalColumn {
    Time,
    TimeSince,
    Status,
    Subject,
}

/// The columns of the table, whatever the filter.
pub open spec fn journal_columns() -> Seq<JournalColumn> {
    seq![
        JournalColumn::Time,
        JournalColumn::TimeSince,
        JournalColumn::Status,
        JournalColumn::Subject,
    ]
}

/// The columns of the table.
pub fn columns_for_filter(_filter: JournalFilter) -> (columns: Vec<JournalColumn>)
    ensures
        columns@ == journal_columns(),
{
    let mut columns: Vec<JournalColumn> = Vec::new();
    columns.push(JournalColumn::Time);
    columns.push(JournalColumn::TimeSince);
    columns.push(JournalColumn::Status);
    columns.push(JournalColumn::Subject);
    assert(columns@ =~= journal_columns());
    columns
}

/// The head of a column.
pub fn column_header(column: JournalColumn, filter: JournalFilter) -> (header: &'static str)
    ensures
        header@ == match column {
            JournalColumn::Subject => if filter == JournalFilter::Commands {
                "Action"@
            } else {
                "Torrent"@
            },
            JournalColumn::Time => "Time"@,
            JournalColumn::TimeSince => "Time Since"@,
            JournalColumn::Status => "Status"@,
        },
{
    match column {
        JournalColumn::Subject => if filter == JournalFilter::Commands {
            "Action"
        } else {
            "Torrent"
        },
        JournalColumn::Time => "Time",
        JournalColumn::TimeSince => "Time Since",
        JournalColumn::Status => "Status",
    }
}

/// The width of a column.
pub fn column_constraint(column: JournalColumn, _filter: JournalFilter) -> (width: Constraint)
    ensures
        width == match column {
            JournalColumn::Time => Constraint::Length(13),
            JournalColumn::TimeSince => Constraint::Length(15),
            JournalColumn::Status => Constraint::Length(22),
            JournalColumn::Subject => Constraint::Fill(1),
        },
{
    match column {
        JournalColumn::Time => Constraint::Length(13),
        JournalColumn::TimeSince => Constraint::Length(15),
        JournalColumn::Status => Constraint::Length(22),
        JournalColumn::Subject => Constraint::Fill(1),
    }
}

// ------------------------------------------------------------------ the times

/// A moment: seconds since the epoch, and nanoseconds on top of them. In a leap
/// second there are more than a thousand million of these.
#[derive(Clone, Copy, Debug, PartialEq, Eq, Structural)]
pub struct Moment {
    pub secs: i64,
    pub nanos: u32,
}

/// When an event happened, in short, for a place whose time is so many seconds
/// ahead of UTC. A text that names no moment is shown as it is.
pub fn pretty_timestamp_at(ts_iso: &str, offset: i32) -> (text: String)
    requires
        is_offset(offset),
    ensures
        text@ == stamp_at(ts_iso@, offset, short_format()),
{
    match parse_rfc3339(ts_iso) {
        Some((secs, nanos)) => format_moment(secs, nanos, offset, "%b %d %H:%M"),
        None => owned(ts_iso),
    }
}

/// When an event happened, in short, where the machine is: at which offset rests
/// on its time zone.
pub fn pretty_timestamp(ts_iso: &str) -> (text: String)
    ensures
        stamp_of(text@, ts_iso@, short_format()),
{
    let offset = match parse_rfc3339(ts_iso) {
        Some((secs, _)) => local_offset(secs),
        None => 0,
    };
    pretty_timestamp_at(ts_iso, offset)
}

/// When an event happened, to the second, for a place whose time is so many seconds
/// ahead of UTC. A text that names no moment is shown as it is.
pub fn detailed_timestamp_at(ts_iso: &str, offset: i32) -> (text: String)
    requires
        is_offset(offset),
    ensures
        text@ == stamp_at(ts_iso@, offset, detailed_format()),
{
    match parse_rfc3339(ts_iso) {
        Some((secs, nanos)) => format_moment(secs, nanos, offset, "%b %d %I:%M:%S %p"),
        None => owned(ts_iso),
    }
}

/// When an event happened, to the second, where the machine is: at which offset rests
/// on its time zone.
pub fn detailed_timestamp(ts_iso: &str) -> (text: String)
    ensures
        stamp_of(text@, ts_iso@, detailed_format()),
{
    let offset = match parse_rfc3339(ts_iso) {
        Some((secs, _)) => local_offset(secs),
        None => 0,
    };
    detailed_timestamp_at(ts_iso, offset)
}

/// The second of the day of a moment.
pub open spec fn second_of_day(m: Moment) -> int {
    m.secs as int % 86_400
}

/// Whether a moment lies in a leap second.
pub open spec fn in_leap_second(m: Moment) -> bool {
    m.nanos >= 1_000_000_000
}

/// The nanoseconds between two moments. A leap second counts between moments at
/// different times of the day.
pub open spec fn nanos_between(then: Moment, now: Moment) -> int {
    let leap = if second_of_day(now) > second_of_day(then) && in_leap_second(then) {
        1int
    } else if second_of_day(now) < second_of_day(then) && in_leap_second(now) {
        -1
    } else {
        0
    };
    (now.secs - then.secs + leap) * 1_000_000_000 + now.nanos - then.nanos
}

/// The time that has passed, in whole seconds: the two highest units. What has not
/// passed is now.
pub open spec fn passed_text(seconds: int) -> Seq<char> {
    let days = seconds / 86_400;
    let hours = seconds % 86_400 / 3_600;
    let minutes = seconds % 3_600 / 60;
    if seconds <= 0 {
        "now"@
    } else if days > 0 {
        decimal(days as nat) + "d "@ + decimal(hours as nat) + "h ago"@
    } else if hours > 0 {
        decimal(hours as nat) + "h "@ + (decimal(minutes as nat) + if minutes == 1 {
            "min ago"@
        } else {
            "mins ago"@
        })
    } else if minutes > 0 {
        decimal(minutes as nat) + if minutes == 1 {
            "min "@
        } else {
            "mins "@
        } + (decimal((seconds % 60) as nat) + "s ago"@)
    } else {
        decimal(seconds as nat) + "s ago"@
    }
}

fn elapsed_label(seconds: u128) -> (text: String)
    requires
        seconds <= 0x2_0000_0000_0000_0000,
    ensures
        text@ == passed_text(seconds as int),
{
    let days: u64 = (seconds / 86_400) as u64;
    let hours: u64 = (seconds % 86_400 / 3_600) as u64;
    let minutes: u64 = (seconds % 3_600 / 60) as u64;
    if seconds == 0 {
        owned("now")
    } else if days > 0 {
        let mut text = join3(format_number(days).as_str(), "d ", format_number(hours).as_str());
        text.append("h ago");
        text
    } else if hours > 0 {
        let unit = if minutes == 1 {
            "min ago"
        } else {
            "mins ago"
        };
        let rest = join(format_number(minutes).as_str(), unit);
        join3(format_number(hours).as_str(), "h ", rest.as_str())
    } else if minutes > 0 {
        let unit = if minutes == 1 {
            "min "
        } else {
            "mins "
        };
        let rest = join(format_number((seconds % 60) as u64).as_str(), "s ago");
        join3(format_number(minutes).as_str(), unit, rest.as_str())
    } else {
        join(format_number(seconds as u64).as_str(), "s ago")
    }
}

/// The time since a moment, in words. What lies ahead counts as now.
pub open spec fn since_text(then: Option<(i64, u32)>, now: Moment) -> Seq<char> {
    match then {
        Some((secs, nanos)) => {
            let passed = nanos_between(Moment { secs, nanos }, now);
            passed_text(
                if passed <= 0 {
                    0
                } else {
                    passed / 1_000_000_000
                },
            )
        },
        None => "-"@,
    }
}

/// The time since a moment, in words.
pub fn time_since_moment(then: Option<(i64, u32)>, now: Moment) -> (text: String)
    ensures
        text@ == since_text(then, now),
{
    let (secs, nanos) = match then {
        Some(then) => then,
        None => {
            return owned("-");
        },
    };
    let at_then: i128 = euclid(secs);
    let at_now: i128 = euclid(now.secs);
    let leap: i128 = if at_now > at_then && nanos >= 1_000_000_000 {
        1
    } else if at_now < at_then && now.nanos >= 1_000_000_000 {
        -1
    } else {
        0
    };
    let passed: i128 = (now.secs as i128 - secs as i128 + leap) * 1_000_000_000 + now.nanos as i128
        - nanos as i128;
    if passed <= 0 {
        return elapsed_label(0);
    }
    let seconds: i128 = passed / 1_000_000_000;
    elapsed_label(seconds as u128)
}

fn euclid(secs: i64) -> (second: i128)
    ensures
        second == secs as int % 86_400,
{
    if secs >= 0 {
        (secs % 86_400) as i128
    } else {
        let back: i128 = -(secs as i128) % 86_400;
        if back == 0 {
            0
        } else {
            86_400 - back
        }
    }
}

/// The time since an event, in words.
pub fn time_since_label(ts_iso: &str, now: Moment) -> (text: String)
    ensures
        text@ == since_text(rfc3339_moment(ts_iso@), now),
{
    time_since_moment(parse_rfc3339(ts_iso), now)
}

// ----------------------------------------------------------------- the status

/// How an event went.
#[derive(Clone, Copy, Debug, PartialEq, Eq, Structural)]
pub enum EventTone {
    Waiting,
    Success,
    Complete,
    Info,
    Error,
}

pub open spec fn tone_of(event_type: EventType) -> EventTone {
    match event_type {
        EventType::IngestQueued | EventType::ControlQueued => EventTone::Waiting,
        EventType::IngestAdded | EventType::DataRecovered
        | EventType::ControlApplied => EventTone::Success,
        EventType::TorrentCompleted => EventTone::Complete,
        EventType::IngestDuplicate => EventTone::Info,
        EventType::IngestInvalid | EventType::IngestFailed | EventType::DataUnavailable
        | EventType::ControlFailed => EventTone::Error,
    }
}

/// How an event went, which decides its colour.
pub fn event_status_color(entry: &EventJournalEntry) -> (tone: EventTone)
    ensures
        tone == tone_of(entry.event_type),
{
    match entry.event_type {
        EventType::IngestQueued | EventType::ControlQueued => EventTone::Waiting,
        EventType::IngestAdded | EventType::DataRecovered
        | EventType::ControlApplied => EventTone::Success,
        EventType::TorrentCompleted => EventTone::Complete,
        EventType::IngestDuplicate => EventTone::Info,
        EventType::IngestInvalid | EventType::IngestFailed | EventType::DataUnavailable
        | EventType::ControlFailed => EventTone::Error,
    }
}

} // verus!
