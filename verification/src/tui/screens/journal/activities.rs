//! Events that belong together, and which of them are on view.
use crate::app::{AppState, JournalFilter, JournalScreenView};
use crate::event_journal::{EventCategory, EventJournalEntry, EventScope, EventType};
use crate::lists::{kept, texts};
use crate::paths::{file_name, last_name};
use crate::search::{matches_query, query_matches};
use crate::text::{
    join_with, owned, same_text, sanitize_text, sanitized, separated, trim, trimmed,
};
use crate::tui::screens::journal::labels::{
    action_text, command_action_label, detail_text, event_type_label, message_text, source_label,
    source_text, torrent_label, torrent_text, type_text,
};
use vstd::prelude::*;

verus! {

// ------------------------------------------------------------------ the events

/// Whether an event is one of those that a filter shows.
pub open spec fn passes(entry: EventJournalEntry, filter: JournalFilter) -> bool {
    match filter {
        JournalFilter::All => true,
        JournalFilter::Queue => entry.category == EventCategory::Ingest,
        JournalFilter::Commands => entry.category == EventCategory::Control,
        JournalFilter::Health => entry.category == EventCategory::DataHealth,
    }
}

/// Whether an event is one of those that a filter shows.
pub fn entry_matches_filter(entry: &EventJournalEntry, filter: JournalFilter) -> (matches: bool)
    ensures
        matches == passes(*entry, filter),
{
    match filter {
        JournalFilter::All => true,
        JournalFilter::Queue => entry.category == EventCategory::Ingest,
        JournalFilter::Commands => entry.category == EventCategory::Control,
        JournalFilter::Health => entry.category == EventCategory::DataHealth,
    }
}

/// Which end of an activity an event is.
#[derive(Clone, Copy, Debug, PartialEq, Eq, Structural)]
pub enum ActivityPhase {
    Queued,
    Terminal,
    Standalone,
}

pub open spec fn phase_of(entry: EventJournalEntry) -> ActivityPhase {
    match (entry.category, entry.event_type) {
        (EventCategory::Ingest, EventType::IngestQueued)
        | (EventCategory::Control, EventType::ControlQueued) => ActivityPhase::Queued,
        (EventCategory::Ingest, EventType::IngestAdded)
        | (EventCategory::Ingest, EventType::IngestDuplicate)
        | (EventCategory::Ingest, EventType::IngestInvalid)
        | (EventCategory::Ingest, EventType::IngestFailed)
        | (EventCategory::Control, EventType::ControlApplied)
        | (EventCategory::Control, EventType::ControlFailed) => ActivityPhase::Terminal,
        _ => ActivityPhase::Standalone,
    }
}

/// Which end of an activity an event is.
pub fn activity_phase(entry: &EventJournalEntry) -> (phase: ActivityPhase)
    ensures
        phase == phase_of(*entry),
{
    match entry.category {
        EventCategory::Ingest => match entry.event_type {
            EventType::IngestQueued => ActivityPhase::Queued,
            EventType::IngestAdded | EventType::IngestDuplicate | EventType::IngestInvalid
            | EventType::IngestFailed => ActivityPhase::Terminal,
            _ => ActivityPhase::Standalone,
        },
        EventCategory::Control => match entry.event_type {
            EventType::ControlQueued => ActivityPhase::Queued,
            EventType::ControlApplied | EventType::ControlFailed => ActivityPhase::Terminal,
            _ => ActivityPhase::Standalone,
        },
        _ => ActivityPhase::Standalone,
    }
}

/// What the events of one activity share.
#[verifier::ext_equal]
pub struct ActivityKey {
    pub category: EventCategory,
    pub scope: EventScope,
    pub host_id: Option<Seq<char>>,
    pub correlation_id: Seq<char>,
}

/// What an event shares with others of its activity, if it can have one.
pub open spec fn key_of(entry: EventJournalEntry) -> Option<ActivityKey> {
    if entry.category == EventCategory::Ingest || entry.category == EventCategory::Control {
        match entry.correlation_id {
            Some(correlation_id) => Some(
                ActivityKey {
                    category: entry.category,
                    scope: entry.scope,
                    host_id: crate::app::text_view(entry.host_id),
                    correlation_id: correlation_id@,
                },
            ),
            None => None,
        }
    } else {
        None
    }
}

fn same_host(a: &Option<String>, b: &Option<String>) -> (same: bool)
    ensures
        same == (crate::app::text_view(*a) == crate::app::text_view(*b)),
{
    match (a, b) {
        (Some(a), Some(b)) => same_text(a.as_str(), b.as_str()),
        (None, None) => true,
        _ => false,
    }
}

/// Whether two events can belong to one activity.
pub fn same_activity_key(a: &EventJournalEntry, b: &EventJournalEntry) -> (same: bool)
    ensures
        same == (key_of(*a) is Some && key_of(*a) == key_of(*b)),
{
    if !(a.category == EventCategory::Ingest || a.category == EventCategory::Control) {
        return false;
    }
    if a.category != b.category || a.scope != b.scope || !same_host(&a.host_id, &b.host_id) {
        return false;
    }
    match (&a.correlation_id, &b.correlation_id) {
        (Some(x), Some(y)) => same_text(x.as_str(), y.as_str()),
        _ => false,
    }
}

// -------------------------------------------------------------- the activities

/// The events of one activity, by their positions in the journal, the oldest
/// first.
#[derive(Debug, PartialEq, Eq)]
pub struct JournalActivity {
    pub entries: Vec<usize>,
}

pub open spec fn activity_views(activities: Seq<JournalActivity>) -> Seq<Seq<usize>> {
    activities.map_values(|activity: JournalActivity| activity.entries@)
}

/// Whether an activity has an end and waits for its beginning, and a queued event
/// is one that can be it.
pub open spec fn awaits(
    entries: Seq<EventJournalEntry>,
    activity: Seq<usize>,
    queued: EventJournalEntry,
) -> bool {
    &&& activity.len() == 1
    &&& phase_of(entries[activity[0] as int]) == ActivityPhase::Terminal
    &&& key_of(queued) is Some
    &&& key_of(queued) == key_of(entries[activity[0] as int])
}

/// The last activity that waits for a queued event.
pub open spec fn waiting(
    entries: Seq<EventJournalEntry>,
    activities: Seq<Seq<usize>>,
    queued: EventJournalEntry,
) -> Option<int>
    decreases activities.len(),
{
    if activities.len() == 0 {
        None
    } else if awaits(entries, activities.last(), queued) {
        Some(activities.len() - 1)
    } else {
        waiting(entries, activities.drop_last(), queued)
    }
}

/// The activities with one more event: a queued event joins the activity that
/// waits for it, and any other event is an activity of its own.
pub open spec fn with_event(
    entries: Seq<EventJournalEntry>,
    activities: Seq<Seq<usize>>,
    position: usize,
) -> Seq<Seq<usize>> {
    let entry = entries[position as int];
    match (phase_of(entry), waiting(entries, activities, entry)) {
        (ActivityPhase::Queued, Some(k)) => activities.update(
            k,
            seq![position] + activities[k],
        ),
        _ => activities.push(seq![position]),
    }
}

/// The activities of the events from a position on, the newest first.
pub open spec fn grouped_from(
    entries: Seq<EventJournalEntry>,
    filter: JournalFilter,
    from: int,
) -> Seq<Seq<usize>>
    decreases entries.len() - from,
{
    if from < 0 || from >= entries.len() {
        Seq::empty()
    } else {
        let newer = grouped_from(entries, filter, from + 1);
        if passes(entries[from], filter) {
            with_event(entries, newer, from as usize)
        } else {
            newer
        }
    }
}

/// The activities of all events that a filter shows, the newest first.
pub open spec fn grouped(entries: Seq<EventJournalEntry>, filter: JournalFilter) -> Seq<
    Seq<usize>,
> {
    grouped_from(entries, filter, 0)
}

/// An activity that waits for an event is one of the activities.
pub proof fn waiting_is_an_activity(
    entries: Seq<EventJournalEntry>,
    activities: Seq<Seq<usize>>,
    queued: EventJournalEntry,
)
    ensures
        waiting(entries, activities, queued) matches Some(k) ==> 0 <= k < activities.len()
            && awaits(entries, activities[k], queued),
    decreases activities.len(),
{
    if activities.len() > 0 && !awaits(entries, activities.last(), queued) {
        waiting_is_an_activity(entries, activities.drop_last(), queued);
    }
}

/// Whether every activity has events, and they all are in the journal.
pub open spec fn are_known(activities: Seq<Seq<usize>>, count: int) -> bool {
    forall|a: int|
        0 <= a < activities.len() ==> (#[trigger] activities[a]).len() > 0 && forall|k: int|
            0 <= k < activities[a].len() ==> (#[trigger] activities[a][k]) < count
}

proof fn joining_keeps_events_known(
    entries: Seq<EventJournalEntry>,
    activities: Seq<Seq<usize>>,
    position: usize,
)
    requires
        are_known(activities, entries.len() as int),
        position < entries.len(),
    ensures
        are_known(with_event(entries, activities, position), entries.len() as int),
{
    let entry = entries[position as int];
    waiting_is_an_activity(entries, activities, entry);
    let after = with_event(entries, activities, position);
    assert forall|a: int| 0 <= a < after.len() implies (#[trigger] after[a]).len() > 0 && forall|
        k: int,
    |
        0 <= k < after[a].len() ==> (#[trigger] after[a][k]) < entries.len() by {
        if a < activities.len() && after[a] == activities[a] {
            assert(activities[a].len() > 0);
        } else if a < activities.len() {
            assert(after[a] == seq![position] + activities[a]);
            assert(activities[a].len() > 0);
            assert forall|k: int| 0 <= k < after[a].len() implies (#[trigger] after[a][k])
                < entries.len() by {
                if k > 0 {
                    assert(after[a][k] == activities[a][k - 1]);
                }
            }
        }
    }
}

proof fn grouped_events_are_known(
    entries: Seq<EventJournalEntry>,
    filter: JournalFilter,
    from: int,
)
    requires
        entries.len() <= usize::MAX,
        0 <= from,
    ensures
        are_known(grouped_from(entries, filter, from), entries.len() as int),
    decreases entries.len() - from,
{
    if from < entries.len() {
        grouped_events_are_known(entries, filter, from + 1);
        if passes(entries[from], filter) {
            joining_keeps_events_known(
                entries,
                grouped_from(entries, filter, from + 1),
                from as usize,
            );
        }
    }
}

fn find_waiting(
    entries: &Vec<EventJournalEntry>,
    activities: &Vec<JournalActivity>,
    queued: &EventJournalEntry,
) -> (place: Option<usize>)
    requires
        are_known(activity_views(activities@), entries@.len() as int),
    ensures
        crate::lists::index_of(place) == waiting(entries@, activity_views(activities@), *queued),
        place matches Some(k) ==> k < activities@.len(),
{
    let ghost all = activity_views(activities@);
    let mut k: usize = activities.len();
    assert(all.take(k as int) =~= all);
    while k > 0
        invariant
            k <= activities@.len(),
            all == activity_views(activities@),
            are_known(all, entries@.len() as int),
            waiting(entries@, all, *queued) == waiting(entries@, all.take(k as int), *queued),
        decreases k,
    {
        let ghost now = all.take(k as int);
        assert(now.last() == all[k - 1]);
        assert(now.drop_last() =~= all.take(k - 1));
        let activity = &activities[k - 1];
        assert(all[k - 1] == activity.entries@);
        if activity.entries.len() == 1 {
            assert(all[k - 1][0] < entries@.len());
            let end = &entries[activity.entries[0]];
            if activity_phase(end) == ActivityPhase::Terminal && same_activity_key(queued, end) {
                return Some(k - 1);
            }
        }
        k = k - 1;
    }
    None
}

/// Puts the events that a filter shows together into activities, the newest first.
pub fn group_events(entries: &Vec<EventJournalEntry>, filter: JournalFilter) -> (activities: Vec<
    JournalActivity,
>)
    ensures
        activity_views(activities@) == grouped(entries@, filter),
        are_known(activity_views(activities@), entries@.len() as int),
{
    let mut activities: Vec<JournalActivity> = Vec::new();
    let mut from: usize = entries.len();
    assert(activity_views(activities@) =~= Seq::<Seq<usize>>::empty());
    while from > 0
        invariant
            from <= entries@.len(),
            activity_views(activities@) == grouped_from(entries@, filter, from as int),
            are_known(activity_views(activities@), entries@.len() as int),
        decreases from,
    {
        from = from - 1;
        let entry = &entries[from];
        let ghost newer = activity_views(activities@);
        if entry_matches_filter(entry, filter) {
            proof {
                joining_keeps_events_known(entries@, newer, from);
                waiting_is_an_activity(entries@, newer, *entry);
            }
            let place = if activity_phase(entry) == ActivityPhase::Queued {
                find_waiting(entries, &activities, entry)
            } else {
                None
            };
            match place {
                Some(k) => {
                    let mut joined: Vec<usize> = Vec::new();
                    joined.push(from);
                    let end: usize = activities[k].entries[0];
                    joined.push(end);
                    assert(newer[k as int].len() == 1);
                    assert(joined@ =~= seq![from] + newer[k as int]);
                    activities.set(k, JournalActivity { entries: joined });
                    assert(activity_views(activities@) =~= newer.update(
                        k as int,
                        seq![from] + newer[k as int],
                    ));
                },
                None => {
                    let mut single: Vec<usize> = Vec::new();
                    single.push(from);
                    assert(single@ =~= seq![from]);
                    activities.push(JournalActivity { entries: single });
                    assert(activity_views(activities@) =~= newer.push(seq![from]));
                },
            }
        }
    }
    activities
}

// ------------------------------------------------------------------ the search

/// The texts of an event that a search looks through.
pub open spec fn searched_fields(entry: EventJournalEntry) -> Seq<Seq<char>> {
    seq![
        type_text(entry.event_type),
        action_text(entry),
        torrent_text(entry, false),
        source_text(entry, false),
        message_text(entry, false),
        or_nothing(entry.host_id),
        or_nothing(entry.info_hash_hex),
    ]
}

pub open spec fn or_nothing(text: Option<String>) -> Seq<char> {
    match text {
        Some(text) => text@,
        None => Seq::empty(),
    }
}

pub open spec fn all_searched_fields(
    entries: Seq<EventJournalEntry>,
    activity: Seq<usize>,
) -> Seq<Seq<char>>
    decreases activity.len(),
{
    if activity.len() == 0 {
        Seq::empty()
    } else {
        all_searched_fields(entries, activity.drop_last()) + searched_fields(
            entries[activity.last() as int],
        )
    }
}

/// The text of an activity that a search looks through.
pub open spec fn searched_text(entries: Seq<EventJournalEntry>, activity: Seq<usize>) -> Seq<char> {
    separated(all_searched_fields(entries, activity), " "@)
}

fn push_field(fields: &mut Vec<String>, field: String)
    ensures
        texts(final(fields)@) == texts(old(fields)@).push(field@),
{
    let ghost was = texts(fields@);
    fields.push(field);
    assert(texts(fields@) =~= was.push(field@));
}

fn text_or_nothing(text: &Option<String>) -> (result: String)
    ensures
        result@ == or_nothing(*text),
{
    match text {
        Some(text) => text.clone(),
        None => {
            let nothing = String::new();
            assert(nothing@ =~= Seq::<char>::empty());
            nothing
        },
    }
}

/// The text of an activity that a search looks through.
pub fn activity_search_haystack(entries: &Vec<EventJournalEntry>, activity: &JournalActivity) -> (text:
    String)
    requires
        forall|k: int|
            0 <= k < activity.entries@.len() ==> #[trigger] activity.entries@[k] < entries@.len(),
    ensures
        text@ == searched_text(entries@, activity.entries@),
{
    let ghost all = activity.entries@;
    let mut fields: Vec<String> = Vec::new();
    let mut k: usize = 0;
    assert(all.take(0) =~= Seq::<usize>::empty());
    assert(texts(fields@) =~= Seq::<Seq<char>>::empty());
    while k < activity.entries.len()
        invariant
            k <= all.len(),
            all == activity.entries@,
            forall|k: int| 0 <= k < all.len() ==> #[trigger] all[k] < entries@.len(),
            texts(fields@) == all_searched_fields(entries@, all.take(k as int)),
        decreases all.len() - k,
    {
        assert(all.take(k + 1).drop_last() =~= all.take(k as int));
        assert(all[k as int] < entries@.len());
        let entry = &entries[activity.entries[k]];
        let ghost was = texts(fields@);
        push_field(&mut fields, owned(event_type_label(entry)));
        push_field(&mut fields, command_action_label(entry));
        push_field(&mut fields, torrent_label(entry, false));
        push_field(&mut fields, source_label(entry, false));
        push_field(&mut fields, detail_text(Some(entry), false));
        push_field(&mut fields, text_or_nothing(&entry.host_id));
        push_field(&mut fields, text_or_nothing(&entry.info_hash_hex));
        assert(texts(fields@) =~= was + searched_fields(*entry));
        k = k + 1;
    }
    assert(all.take(k as int) =~= all);
    join_with(&fields, " ")
}

/// The activities on view, the newest first.
pub open spec fn activities_on_view(
    entries: Seq<EventJournalEntry>,
    jm: JournalScreenView,
) -> Seq<Seq<usize>> {
    kept(
        grouped(entries, jm.filter),
        |activity: Seq<usize>|
            query_matches(
                searched_text(entries, activity),
                trimmed(jm.search_query),
                jm.search_mode,
            ),
    )
}

/// The activities on view, the newest first.
pub fn journal_activities(app_state: &AppState) -> (activities: Vec<JournalActivity>)
    ensures
        activity_views(activities@) == activities_on_view(
            app_state.event_journal_state.entries@,
            app_state.ui.journal@,
        ),
        are_known(
            activity_views(activities@),
            app_state.event_journal_state.entries@.len() as int,
        ),
{
    let entries = &app_state.event_journal_state.entries;
    let ghost jm = app_state.ui.journal@;
    let ghost test = |activity: Seq<usize>|
        query_matches(
            searched_text(entries@, activity),
            trimmed(jm.search_query),
            jm.search_mode,
        );
    let query = trim(app_state.ui.journal.search_query.as_str());
    let mut all = group_events(entries, app_state.ui.journal.filter);
    let ghost views = activity_views(all@);
    let mut some: Vec<JournalActivity> = Vec::new();
    let ghost mut done: int = 0;
    assert(views.skip(0) =~= views);
    assert(views.take(0) =~= Seq::<Seq<usize>>::empty());
    assert(activity_views(some@) =~= Seq::<Seq<usize>>::empty());
    while all.len() > 0
        invariant
            0 <= done <= views.len(),
            activity_views(all@) == views.skip(done),
            are_known(views, entries@.len() as int),
            are_known(activity_views(some@), entries@.len() as int),
            jm == app_state.ui.journal@,
            query@ == trimmed(jm.search_query),
            test == (|activity: Seq<usize>|
                query_matches(
                    searched_text(entries@, activity),
                    trimmed(jm.search_query),
                    jm.search_mode,
                )),
            activity_views(some@) == kept(views.take(done), test),
        decreases all@.len(),
    {
        let ghost was = all@;
        assert(activity_views(was).len() == was.len());
        let activity = all.remove(0);
        proof {
            assert(activity_views(was)[0] == views.skip(done)[0]);
            assert(views[done] == activity.entries@);
            assert forall|k: int| 0 <= k < all@.len() implies activity_views(all@)[k]
                == #[trigger] views.skip(done + 1)[k] by {
                assert(activity_views(was)[k + 1] == views.skip(done)[k + 1]);
            }
            assert(activity_views(all@) =~= views.skip(done + 1));
            assert(views.take(done + 1).drop_last() =~= views.take(done));
            assert(views.take(done + 1).last() == activity.entries@);
            done = done + 1;
        }
        let text = activity_search_haystack(entries, &activity);
        if matches_query(text.as_str(), query.as_str(), app_state.ui.journal.search_mode) {
            let ghost before = activity_views(some@);
            let ghost view = activity.entries@;
            some.push(activity);
            assert(activity_views(some@) =~= before.push(view));
        }
    }
    assert(activity_views(all@).len() == 0);
    assert(views.take(done) =~= views);
    some
}

// ------------------------------------------------------------------ the labels

/// The newest of the events of an activity that names a source, or else the newest
/// of all.
pub open spec fn source_event(entries: Seq<EventJournalEntry>, activity: Seq<usize>) -> usize {
    match last_with(
        activity,
        |i: usize|
            entries[i as int].source_path is Some || entries[i as int].source_watch_folder is Some,
    ) {
        Some(i) => i,
        None => activity.last(),
    }
}

/// The last of some numbers that pass a test.
pub open spec fn last_with(list: Seq<usize>, test: spec_fn(usize) -> bool) -> Option<usize>
    decreases list.len(),
{
    if list.len() == 0 {
        None
    } else if test(list.last()) {
        Some(list.last())
    } else {
        last_with(list.drop_last(), test)
    }
}

impl JournalActivity {
    /// The newest event of the activity.
    pub fn latest(&self) -> (position: usize)
        requires
            self.entries@.len() > 0,
        ensures
            position == self.entries@.last(),
    {
        self.entries[self.entries.len() - 1]
    }

    /// The newest event of the activity that names a source, or else the newest of
    /// all.
    pub fn source_entry(&self, entries: &Vec<EventJournalEntry>) -> (position: usize)
        requires
            self.entries@.len() > 0,
            forall|k: int|
                0 <= k < self.entries@.len() ==> #[trigger] self.entries@[k] < entries@.len(),
        ensures
            position == source_event(entries@, self.entries@),
            position < entries@.len(),
    {
        let ghost all = self.entries@;
        let ghost test = |i: usize|
            entries@[i as int].source_path is Some || entries@[i as int].source_watch_folder
                is Some;
        let mut k: usize = self.entries.len();
        assert(all.take(k as int) =~= all);
        while k > 0
            invariant
                k <= all.len(),
                all == self.entries@,
                all.len() > 0,
                forall|k: int| 0 <= k < all.len() ==> #[trigger] all[k] < entries@.len(),
                test == (|i: usize|
                    entries@[i as int].source_path is Some
                        || entries@[i as int].source_watch_folder is Some),
                last_with(all, test) == last_with(all.take(k as int), test),
            decreases k,
        {
            assert(all.take(k as int).last() == all[k - 1]);
            assert(all.take(k as int).drop_last() =~= all.take(k - 1));
            let position = self.entries[k - 1];
            if entries[position].source_path.is_some()
                || entries[position].source_watch_folder.is_some() {
                return position;
            }
            k = k - 1;
        }
        self.latest()
    }
}

/// Whether a text has anything but white space.
pub open spec fn is_blank(text: Seq<char>) -> bool {
    trimmed(text).len() == 0
}

/// What an activity is about: the action of a command, the last torrent named, the
/// name of the file it came from, or else that nothing is known yet.
pub open spec fn subject_text(
    entries: Seq<EventJournalEntry>,
    activity: Seq<usize>,
    anonymize: bool,
) -> Seq<char> {
    let latest = entries[activity.last() as int];
    if latest.category == EventCategory::Control {
        action_text(latest)
    } else if anonymize {
        "Torrent"@
    } else {
        let named = last_with(
            activity,
            |i: usize| names_a_torrent(entries[i as int]),
        );
        let label = match named {
            Some(i) => Some(sanitized(entries[i as int].torrent_name->0@)),
            None => source_name(entries[source_event(entries, activity) as int]),
        };
        match label {
            Some(label) => if is_blank(label) {
                "Pending metadata"@
            } else {
                label
            },
            None => "Pending metadata"@,
        }
    }
}

/// Whether an event names its torrent.
pub open spec fn names_a_torrent(entry: EventJournalEntry) -> bool {
    match entry.torrent_name {
        Some(name) => !is_blank(name@),
        None => false,
    }
}

pub open spec fn shown_name(name: Option<Seq<char>>) -> Option<Seq<char>> {
    match name {
        Some(name) => Some(sanitized(name)),
        None => None,
    }
}

/// The name of the file that an event came from.
pub open spec fn source_name(entry: EventJournalEntry) -> Option<Seq<char>> {
    match (entry.source_path, entry.source_watch_folder) {
        (Some(path), _) => shown_name(last_name(path.step_list())),
        (None, Some(path)) => shown_name(last_name(path.step_list())),
        (None, None) => None,
    }
}

fn file_of(entry: &EventJournalEntry) -> (name: Option<String>)
    ensures
        crate::app::text_view(name) == source_name(*entry),
{
    let name = match (&entry.source_path, &entry.source_watch_folder) {
        (Some(path), _) => file_name(path),
        (None, Some(path)) => file_name(path),
        (None, None) => None,
    };
    match name {
        Some(name) => Some(sanitize_text(name.as_str())),
        None => None,
    }
}

fn find_named(entries: &Vec<EventJournalEntry>, activity: &JournalActivity) -> (named: Option<usize>)
    requires
        forall|k: int|
            0 <= k < activity.entries@.len() ==> #[trigger] activity.entries@[k] < entries@.len(),
    ensures
        named == last_with(
            activity.entries@,
            |i: usize| names_a_torrent(entries@[i as int]),
        ),
        named matches Some(i) ==> i < entries@.len() && entries@[i as int].torrent_name is Some,
{
    let ghost all = activity.entries@;
    let ghost test = |i: usize| names_a_torrent(entries@[i as int]);
    let mut k: usize = activity.entries.len();
    assert(all.take(k as int) =~= all);
    while k > 0
        invariant
            k <= all.len(),
            all == activity.entries@,
            forall|k: int| 0 <= k < all.len() ==> #[trigger] all[k] < entries@.len(),
            test == (|i: usize| names_a_torrent(entries@[i as int])),
            last_with(all, test) == last_with(all.take(k as int), test),
        decreases k,
    {
        assert(all.take(k as int).last() == all[k - 1]);
        assert(all.take(k as int).drop_last() =~= all.take(k - 1));
        let position = activity.entries[k - 1];
        if let Some(name) = &entries[position].torrent_name {
            if !trim(name.as_str()).as_str().is_empty() {
                return Some(position);
            }
        }
        k = k - 1;
    }
    None
}

/// What an activity is about.
pub fn activity_subject_label(
    entries: &Vec<EventJournalEntry>,
    activity: &JournalActivity,
    anonymize: bool,
) -> (label: String)
    requires
        activity.entries@.len() > 0,
        forall|k: int|
            0 <= k < activity.entries@.len() ==> #[trigger] activity.entries@[k] < entries@.len(),
    ensures
        label@ == subject_text(entries@, activity.entries@, anonymize),
{
    let latest = activity.latest();
    assert(activity.entries@[activity.entries@.len() - 1] < entries@.len());
    if entries[latest].category == EventCategory::Control {
        return command_action_label(&entries[latest]);
    }
    if anonymize {
        return owned("Torrent");
    }
    let label: Option<String> = match find_named(entries, activity) {
        Some(position) => match &entries[position].torrent_name {
            Some(name) => Some(sanitize_text(name.as_str())),
            None => None,
        },
        None => {
            let position = activity.source_entry(entries);
            file_of(&entries[position])
        },
    };
    match label {
        Some(label) => if trim(label.as_str()).as_str().is_empty() {
            owned("Pending metadata")
        } else {
            label
        },
        None => owned("Pending metadata"),
    }
}

} // verus!
