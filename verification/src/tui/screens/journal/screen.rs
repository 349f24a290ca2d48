//! What the journal screen shows.
use crate::app::{AppState, JournalScreenView};
use crate::event_journal::{EventJournalEntry, EventType};
use crate::geometry::{max_int, min_int, monus};
use crate::moments::{detailed_format, rfc3339_moment, short_format, stamp_of};
use crate::text::{
    cut_off, decimal, format_number, join, join3, owned, sanitize_text, sanitized,
    truncate_with_ellipsis,
};
use crate::tui::action_style::{hint, hint_views, push_hint, ActionTone, HintView, KeyHint};
use crate::tui::screens::journal::activities::{
    activity_phase, activity_subject_label, phase_of, source_event, subject_text, ActivityPhase,
    JournalActivity,
};
use crate::tui::screens::journal::labels::{
    detail_text, detailed_timestamp, event_status_color, event_type_label, message_text, preferred_source_text,
    pretty_timestamp, since_text, source_of, time_since_label, tone_of, type_text,
    EventTone, JournalColumn, Moment,
};
use crate::tui::screens::journal::{journal_search_panel, journal_search_panel_active};
use vstd::prelude::*;
use vstd::string::StrSliceExecFns;

verus! {

// ----------------------------------------------------------------- the status

/// One event in the status of an activity.
#[derive(Clone, Copy, Debug, PartialEq, Eq)]
pub struct StatusPart {
    pub label: &'static str,
    pub tone: EventTone,
    pub bold: bool,
}

#[verifier::ext_equal]
pub struct StatusView {
    pub label: Seq<char>,
    pub tone: EventTone,
    pub bold: bool,
}

impl View for StatusPart {
    type V = StatusView;

    open spec fn view(&self) -> StatusView {
        StatusView { label: self.label@, tone: self.tone, bold: self.bold }
    }
}

pub open spec fn status_views(parts: Seq<StatusPart>) -> Seq<StatusView> {
    parts.map_values(|part: StatusPart| part@)
}

/// One event in the status of an activity. What is settled stands out.
pub open spec fn status_of(entry: EventJournalEntry) -> StatusView {
    StatusView {
        label: type_text(entry.event_type),
        tone: tone_of(entry.event_type),
        bold: phase_of(entry) == ActivityPhase::Terminal || entry.event_type
            == EventType::TorrentCompleted || entry.event_type == EventType::DataUnavailable
            || entry.event_type == EventType::DataRecovered,
    }
}

/// Whether an event stands out in the status of an activity.
pub fn event_status_style(entry: &EventJournalEntry) -> (part: StatusPart)
    ensures
        part@ == status_of(*entry),
{
    StatusPart {
        label: event_type_label(entry),
        tone: event_status_color(entry),
        bold: activity_phase(entry) == ActivityPhase::Terminal || entry.event_type
            == EventType::TorrentCompleted || entry.event_type == EventType::DataUnavailable
            || entry.event_type == EventType::DataRecovered,
    }
}

/// The status of an activity, event by event.
pub open spec fn statuses(entries: Seq<EventJournalEntry>, activity: Seq<usize>) -> Seq<StatusView> {
    activity.map_values(|i: usize| status_of(entries[i as int]))
}

/// The status of an activity, event by event.
pub fn activity_status_parts(entries: &Vec<EventJournalEntry>, activity: &JournalActivity) -> (parts:
    Vec<StatusPart>)
    requires
        forall|k: int|
            0 <= k < activity.entries@.len() ==> #[trigger] activity.entries@[k] < entries@.len(),
    ensures
        status_views(parts@) == statuses(entries@, activity.entries@),
{
    let ghost all = activity.entries@;
    let mut parts: Vec<StatusPart> = Vec::new();
    let mut k: usize = 0;
    assert(status_views(parts@) =~= statuses(entries@, all.take(0)));
    while k < activity.entries.len()
        invariant
            k <= all.len(),
            all == activity.entries@,
            forall|k: int| 0 <= k < all.len() ==> #[trigger] all[k] < entries@.len(),
            status_views(parts@) == statuses(entries@, all.take(k as int)),
        decreases all.len() - k,
    {
        assert(all[k as int] < entries@.len());
        let part = event_status_style(&entries[activity.entries[k]]);
        let ghost was = status_views(parts@);
        parts.push(part);
        assert(status_views(parts@) =~= was.push(part@));
        assert(statuses(entries@, all.take(k + 1)) =~= statuses(
            entries@,
            all.take(k as int),
        ).push(status_of(entries@[all[k as int] as int])));
        k = k + 1;
    }
    assert(all.take(k as int) =~= all);
    parts
}

/// The columns that a status takes up: a dot in front of every event, and an arrow
/// between two.
pub open spec fn status_width(parts: Seq<StatusView>) -> int
    decreases parts.len(),
{
    if parts.len() == 0 {
        0
    } else {
        status_width(parts.drop_last()) + (if parts.len() > 1 {
            3int
        } else {
            0
        }) + 2 + parts.last().label.len()
    }
}

fn count_status_width(parts: &Vec<StatusPart>) -> (width: u64)
    ensures
        width == min_int(status_width(status_views(parts@)), u64::MAX as int),
{
    let ghost all = status_views(parts@);
    let mut width: u64 = 0;
    let mut k: usize = 0;
    assert(all.take(0) =~= Seq::<StatusView>::empty());
    while k < parts.len()
        invariant
            k <= parts@.len(),
            all == status_views(parts@),
            width == min_int(status_width(all.take(k as int)), u64::MAX as int),
        decreases parts@.len() - k,
    {
        assert(all.take(k + 1).drop_last() =~= all.take(k as int));
        assert(all.take(k + 1).last() == parts@[k as int]@);
        let dot: u64 = if k > 0 {
            5
        } else {
            2
        };
        width =
        width.saturating_add(dot).saturating_add(parts[k].label.unicode_len() as u64);
        k = k + 1;
    }
    assert(all.take(k as int) =~= all);
    width
}

// ------------------------------------------------------------------- the cells

/// The cell of an activity in a column other than that of its status. At which
/// offset a moment is shown rests on the machine's time zone.
pub fn column_cell(
    column: JournalColumn,
    activity: &JournalActivity,
    app_state: &AppState,
    now: Moment,
) -> (cell: String)
    requires
        activity.entries@.len() > 0,
        forall|k: int|
            0 <= k < activity.entries@.len() ==> #[trigger] activity.entries@[k]
                < app_state.event_journal_state.entries@.len(),
        column != JournalColumn::Status,
    ensures
        ({
            let entries = app_state.event_journal_state.entries@;
            let latest = entries[activity.entries@.last() as int];
            match column {
                JournalColumn::Time => stamp_of(cell@, latest.ts_iso@, short_format()),
                JournalColumn::TimeSince => cell@ == since_text(
                    rfc3339_moment(latest.ts_iso@),
                    now,
                ),
                _ => cell@ == subject_text(
                    entries,
                    activity.entries@,
                    app_state.anonymize_torrent_names,
                ),
            }
        }),
{
    let entries = &app_state.event_journal_state.entries;
    assert(activity.entries@[activity.entries@.len() - 1] < entries@.len());
    let latest = activity.latest();
    match column {
        JournalColumn::Time => pretty_timestamp(entries[latest].ts_iso.as_str()),
        JournalColumn::TimeSince => time_since_label(entries[latest].ts_iso.as_str(), now),
        _ => activity_subject_label(entries, activity, app_state.anonymize_torrent_names),
    }
}

/// The line that tells more of an activity.
pub struct DetailLine {
    pub status: Vec<StatusPart>,
    pub timestamp: String,
    pub message: String,
    pub source: Option<String>,
}

/// The source in the line that tells more of an activity: only where the line is
/// long, and cut to a fifth of it.
pub open spec fn line_source(
    entries: Seq<EventJournalEntry>,
    activity: Seq<usize>,
    anonymize: bool,
    width: int,
) -> Option<Seq<char>> {
    match source_of(entries[source_event(entries, activity) as int]) {
        Some(path) => if width >= 84 {
            Some(
                cut_off(
                    if anonymize {
                        "/path/to/source"@
                    } else {
                        sanitized(path.text@)
                    },
                    max_int(width / 5, 16),
                ),
            )
        } else {
            None
        },
        None => None,
    }
}

/// The columns left for the message in the line that tells more of an activity.
pub open spec fn message_room(
    width: int,
    status: Seq<StatusView>,
    timestamp: Seq<char>,
    source: Option<Seq<char>>,
) -> int {
    monus(
        monus(monus(width, status_width(status)), timestamp.len() as int + 4),
        match source {
            Some(source) => 10 + source.len() as int,
            None => 0,
        },
    )
}

/// The line that tells more of an activity whose newest event happened at the
/// moment that the given text shows.
pub fn activity_detail_line_at(
    entries: &Vec<EventJournalEntry>,
    activity: &JournalActivity,
    anonymize: bool,
    timestamp: String,
    width: u16,
) -> (line: DetailLine)
    requires
        activity.entries@.len() > 0,
        forall|k: int|
            0 <= k < activity.entries@.len() ==> #[trigger] activity.entries@[k] < entries@.len(),
    ensures
        status_views(line.status@) == statuses(entries@, activity.entries@),
        line.timestamp@ == timestamp@,
        crate::app::text_view(line.source) == line_source(
            entries@,
            activity.entries@,
            anonymize,
            width as int,
        ),
        line.message@ == cut_off(
            message_text(entries@[activity.entries@.last() as int], anonymize),
            message_room(
                width as int,
                statuses(entries@, activity.entries@),
                timestamp@,
                line_source(entries@, activity.entries@, anonymize, width as int),
            ),
        ),
{
    assert(activity.entries@[activity.entries@.len() - 1] < entries@.len());
    let latest = activity.latest();
    let status = activity_status_parts(entries, activity);
    let status_columns = count_status_width(&status);
    let fifth: usize = (width / 5) as usize;
    let longest: usize = if fifth >= 16 {
        fifth
    } else {
        16
    };
    let source: Option<String> = if width >= 84 {
        match preferred_source_text(&entries[activity.source_entry(entries)]) {
            Some(path) => {
                let text = if anonymize {
                    owned("/path/to/source")
                } else {
                    sanitize_text(path.as_str())
                };
                Some(truncate_with_ellipsis(text.as_str(), longest))
            },
            None => None,
        }
    } else {
        None
    };
    proof {
        reveal_strlit("...");
    }
    let source_columns: u64 = match &source {
        Some(text) => 10 + text.as_str().unicode_len() as u64,
        None => 0,
    };
    let time_columns: u64 = (timestamp.as_str().unicode_len() as u64).saturating_add(4);
    let room: u64 = (width as u64).saturating_sub(status_columns).saturating_sub(
        time_columns,
    ).saturating_sub(source_columns);
    let text = detail_text(Some(&entries[latest]), anonymize);
    let message = truncate_with_ellipsis(text.as_str(), room as usize);
    DetailLine { status, timestamp, message, source }
}

/// Whether a line tells more of an activity: it shows the moment of the newest event
/// where the machine is, and gives the message the room that is left.
pub open spec fn tells_of(
    line: DetailLine,
    entries: Seq<EventJournalEntry>,
    activity: Seq<usize>,
    anonymize: bool,
    width: int,
) -> bool {
    let latest = entries[activity.last() as int];
    let source = line_source(entries, activity, anonymize, width);
    &&& status_views(line.status@) == statuses(entries, activity)
    &&& stamp_of(line.timestamp@, latest.ts_iso@, detailed_format())
    &&& crate::app::text_view(line.source) == source
    &&& line.message@ == cut_off(
        message_text(latest, anonymize),
        message_room(width, statuses(entries, activity), line.timestamp@, source),
    )
}

/// The line that tells more of an activity, or that there is none.
pub fn activity_detail_line(
    activity: Option<&JournalActivity>,
    app_state: &AppState,
    width: u16,
) -> (line: Result<DetailLine, &'static str>)
    requires
        activity matches Some(activity) ==> activity.entries@.len() > 0 && forall|k: int|
            0 <= k < activity.entries@.len() ==> #[trigger] activity.entries@[k]
                < app_state.event_journal_state.entries@.len(),
    ensures
        match activity {
            Some(activity) => line is Ok && tells_of(
                line->Ok_0,
                app_state.event_journal_state.entries@,
                activity.entries@,
                app_state.anonymize_torrent_names,
                width as int,
            ),
            None => line is Err && line->Err_0@ == "No journal activities yet."@,
        },
{
    let activity = match activity {
        Some(activity) => activity,
        None => {
            return Err("No journal activities yet.");
        },
    };
    let entries = &app_state.event_journal_state.entries;
    assert(activity.entries@[activity.entries@.len() - 1] < entries@.len());
    let timestamp = detailed_timestamp(entries[activity.latest()].ts_iso.as_str());
    Ok(
        activity_detail_line_at(
            entries,
            activity,
            app_state.anonymize_torrent_names,
            timestamp,
            width,
        ),
    )
}

// ------------------------------------------------------------------ the header

/// How many activities are on view, and of how many events if that is not the same.
pub open spec fn count_text(activities: int, entries: int) -> Seq<char> {
    let label = if activities == 1 {
        "1 activity"@
    } else {
        decimal(activities as nat) + " activities"@
    };
    if activities == entries {
        label
    } else {
        label + " · "@ + (decimal(entries as nat) + " records"@)
    }
}

/// How many activities are on view, and of how many events if that is not the same.
pub fn journal_count_label(activities: usize, entries: usize) -> (label: String)
    ensures
        label@ == count_text(activities as int, entries as int),
{
    let label = if activities == 1 {
        owned("1 activity")
    } else {
        join(format_number(activities as u64).as_str(), " activities")
    };
    if activities == entries {
        return label;
    }
    let records = join(format_number(entries as u64).as_str(), " records");
    join3(label.as_str(), " · ", records.as_str())
}

// ------------------------------------------------------------------ the footer

/// The keys of the footer.
pub open spec fn journal_footer_keys(jm: JournalScreenView) -> Seq<HintView> {
    if journal_search_panel(jm) {
        seq![
            hint("type"@, "query"@, ActionTone::Edit),
            hint("Tab"@, "mode"@, ActionTone::Mode),
            hint("Enter"@, "keep"@, ActionTone::Confirm),
            hint("Esc"@, "clear"@, ActionTone::Cancel),
            hint("↑/↓ PgUp/PgDn"@, "nav"@, ActionTone::Navigate),
        ]
    } else {
        seq![
            hint("Esc"@, "back"@, ActionTone::Cancel),
            hint("Tab"@, "filter"@, ActionTone::Mode),
            hint("/"@, "search"@, ActionTone::Search),
            hint("↑/↓ PgUp/PgDn"@, "nav"@, ActionTone::Navigate),
            hint("Shift+Y"@, "replay"@, ActionTone::Replay),
        ]
    }
}

/// The keys of the footer.
pub fn journal_footer(app_state: &AppState) -> (hints: Vec<KeyHint>)
    ensures
        hint_views(hints@) == journal_footer_keys(app_state.ui.journal@),
{
    let mut hints: Vec<KeyHint> = Vec::new();
    assert(hint_views(hints@) =~= Seq::<HintView>::empty());
    if journal_search_panel_active(app_state) {
        push_hint(&mut hints, "type", "query", ActionTone::Edit);
        push_hint(&mut hints, "Tab", "mode", ActionTone::Mode);
        push_hint(&mut hints, "Enter", "keep", ActionTone::Confirm);
        push_hint(&mut hints, "Esc", "clear", ActionTone::Cancel);
        push_hint(&mut hints, "↑/↓ PgUp/PgDn", "nav", ActionTone::Navigate);
    } else {
        push_hint(&mut hints, "Esc", "back", ActionTone::Cancel);
        push_hint(&mut hints, "Tab", "filter", ActionTone::Mode);
        push_hint(&mut hints, "/", "search", ActionTone::Search);
        push_hint(&mut hints, "↑/↓ PgUp/PgDn", "nav", ActionTone::Navigate);
        push_hint(&mut hints, "Shift+Y", "replay", ActionTone::Replay);
    }
    assert(hint_views(hints@) =~= journal_footer_keys(app_state.ui.journal@));
    hints
}

} // verus!
