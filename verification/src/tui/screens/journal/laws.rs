//! What holds of the journal as a whole.
use crate::app::{text_view, JournalFilter, JournalScreenView};
use crate::event_journal::{EventCategory, EventJournalEntry, EventType};
use crate::lists::{kept, kept_all, kept_contains};
use crate::search::query_matches;
use crate::text::trimmed;
use crate::tui::screens::journal::activities::{
    activities_on_view, awaits, grouped, grouped_from, key_of, passes, phase_of, searched_text,
    subject_text, waiting, waiting_is_an_activity, ActivityPhase,
};
use crate::tui::screens::journal::labels::{source_text, torrent_text};
use crate::tui::screens::journal::{
    journal_asked, journal_page, journal_reduced, JournalAction, JournalModel,
};
use vstd::prelude::*;

verus! {

// -------------------------------------------------------------- the activities

/// An event stands at a place in some activities.
pub open spec fn stands_at(activities: Seq<Seq<usize>>, a: int, k: int, position: int) -> bool {
    0 <= a < activities.len() && 0 <= k < activities[a].len() && activities[a][k] == position
}

/// Whether an activity is a single event, or a queued event and the end that came
/// after it.
pub open spec fn is_activity(entries: Seq<EventJournalEntry>, activity: Seq<usize>) -> bool {
    ||| activity.len() == 1
    ||| {
        &&& activity.len() == 2
        &&& activity[0] < activity[1] < entries.len()
        &&& phase_of(entries[activity[0] as int]) == ActivityPhase::Queued
        &&& phase_of(entries[activity[1] as int]) == ActivityPhase::Terminal
        &&& key_of(entries[activity[0] as int]) is Some
        &&& key_of(entries[activity[0] as int]) == key_of(entries[activity[1] as int])
    }
}

/// What holds of the activities of the events from a position on.
pub open spec fn well_grouped(
    entries: Seq<EventJournalEntry>,
    filter: JournalFilter,
    from: int,
    activities: Seq<Seq<usize>>,
) -> bool {
    &&& forall|a: int|
        0 <= a < activities.len() ==> is_activity(entries, #[trigger] activities[a])
    &&& forall|a: int, k: int, p: int| #[trigger]
        stands_at(activities, a, k, p) ==> from <= p < entries.len() && passes(entries[p], filter)
    &&& forall|p: int|
        from <= p < entries.len() && #[trigger] passes(entries[p], filter) ==> exists|a: int, k: int|
            stands_at(activities, a, k, p)
    &&& forall|a: int, k: int, b: int, j: int, p: int| #[trigger]
        stands_at(activities, a, k, p) && #[trigger] stands_at(activities, b, j, p) ==> a == b && k
            == j
    &&& forall|a: int, b: int|
        0 <= a < b < activities.len() ==> (#[trigger] activities[a]).last() > (
        #[trigger] activities[b]).last()
}

proof fn one_more_event_alone(
    entries: Seq<EventJournalEntry>,
    filter: JournalFilter,
    from: int,
    before: Seq<Seq<usize>>,
)
    requires
        0 <= from < entries.len() <= usize::MAX,
        passes(entries[from], filter),
        well_grouped(entries, filter, from + 1, before),
    ensures
        well_grouped(entries, filter, from, before.push(seq![from as usize])),
{
    let single = seq![from as usize];
    let after = before.push(single);
    let n = before.len() as int;
    assert(stands_at(after, n, 0, from));
    assert forall|a: int| 0 <= a < after.len() implies is_activity(entries, #[trigger] after[a]) by {
        if a < n {
            assert(is_activity(entries, before[a]));
        }
    }
    assert forall|a: int, k: int, p: int| #[trigger]
        stands_at(after, a, k, p) implies from <= p < entries.len() && passes(
        entries[p],
        filter,
    ) by {
        if a < n {
            assert(stands_at(before, a, k, p));
        }
    }
    assert forall|p: int|
        from <= p < entries.len() && #[trigger] passes(entries[p], filter) implies exists|
        a: int,
        k: int,
    |
        stands_at(after, a, k, p) by {
        if p > from {
            let (a, k) = choose|a: int, k: int| stands_at(before, a, k, p);
            assert(stands_at(after, a, k, p));
        }
    }
    assert forall|a: int, k: int, b: int, j: int, p: int| #[trigger]
        stands_at(after, a, k, p) && #[trigger] stands_at(after, b, j, p) implies a == b && k
        == j by {
        if a < n {
            assert(stands_at(before, a, k, p));
        }
        if b < n {
            assert(stands_at(before, b, j, p));
        }
    }
    assert forall|a: int, b: int| 0 <= a < b < after.len() implies (#[trigger] after[a]).last() > (
    #[trigger] after[b]).last() by {
        if b == n {
            assert(is_activity(entries, before[a]));
            assert(stands_at(before, a, before[a].len() - 1, before[a].last() as int));
        } else {
            assert(before[a].last() > before[b].last());
        }
    }
}

proof fn one_more_event_joined(
    entries: Seq<EventJournalEntry>,
    filter: JournalFilter,
    from: int,
    before: Seq<Seq<usize>>,
    at: int,
)
    requires
        0 <= from < entries.len() <= usize::MAX,
        passes(entries[from], filter),
        well_grouped(entries, filter, from + 1, before),
        phase_of(entries[from]) == ActivityPhase::Queued,
        0 <= at < before.len(),
        awaits(entries, before[at], entries[from]),
    ensures
        well_grouped(
            entries,
            filter,
            from,
            before.update(at, seq![from as usize] + before[at]),
        ),
{
    let end = before[at][0];
    let joined = seq![from as usize] + before[at];
    let after = before.update(at, joined);
    assert(stands_at(before, at, 0, end as int));
    assert(joined.len() == 2 && joined[0] == from && joined[1] == end);
    assert(stands_at(after, at, 0, from));
    assert(stands_at(after, at, 1, end as int));
    assert(is_activity(entries, joined));
    assert forall|a: int| 0 <= a < after.len() implies is_activity(entries, #[trigger] after[a]) by {
        if a != at {
            assert(is_activity(entries, before[a]));
        }
    }
    assert forall|a: int, k: int, p: int| #[trigger]
        stands_at(after, a, k, p) implies from <= p < entries.len() && passes(
        entries[p],
        filter,
    ) by {
        if a != at {
            assert(stands_at(before, a, k, p));
        } else if k == 1 {
            assert(stands_at(before, a, 0, p));
        }
    }
    assert forall|p: int|
        from <= p < entries.len() && #[trigger] passes(entries[p], filter) implies exists|
        a: int,
        k: int,
    |
        stands_at(after, a, k, p) by {
        if p > from {
            let (a, k) = choose|a: int, k: int| stands_at(before, a, k, p);
            if a == at {
                assert(stands_at(after, a, 1, p));
            } else {
                assert(stands_at(after, a, k, p));
            }
        }
    }
    assert forall|a: int, k: int, b: int, j: int, p: int| #[trigger]
        stands_at(after, a, k, p) && #[trigger] stands_at(after, b, j, p) implies a == b && k
        == j by {
        let k0 = if a == at {
            k - 1
        } else {
            k
        };
        let j0 = if b == at {
            j - 1
        } else {
            j
        };
        if p > from {
            assert(stands_at(before, a, k0, p));
            assert(stands_at(before, b, j0, p));
        } else {
            if a != at {
                assert(stands_at(before, a, k, p));
            }
            if b != at {
                assert(stands_at(before, b, j, p));
            }
            if a == at && k == 1 {
                assert(stands_at(before, a, 0, p));
            }
            if b == at && j == 1 {
                assert(stands_at(before, b, 0, p));
            }
        }
    }
    assert forall|a: int, b: int| 0 <= a < b < after.len() implies (#[trigger] after[a]).last() > (
    #[trigger] after[b]).last() by {
        assert(before[a].last() > before[b].last());
        assert(after[a].last() == before[a].last());
        assert(after[b].last() == before[b].last());
    }
}

proof fn events_from_a_position_are_grouped(
    entries: Seq<EventJournalEntry>,
    filter: JournalFilter,
    from: int,
)
    requires
        0 <= from <= entries.len() <= usize::MAX,
    ensures
        well_grouped(entries, filter, from, grouped_from(entries, filter, from)),
    decreases entries.len() - from,
{
    if from < entries.len() {
        events_from_a_position_are_grouped(entries, filter, from + 1);
        let newer = grouped_from(entries, filter, from + 1);
        if passes(entries[from], filter) {
            waiting_is_an_activity(entries, newer, entries[from]);
            match (phase_of(entries[from]), waiting(entries, newer, entries[from])) {
                (ActivityPhase::Queued, Some(at)) => {
                    one_more_event_joined(entries, filter, from, newer, at);
                },
                _ => {
                    one_more_event_alone(entries, filter, from, newer);
                },
            }
        } else {
            assert forall|p: int|
                from <= p < entries.len() && #[trigger] passes(entries[p], filter) implies exists|
                a: int,
                k: int,
            |
                stands_at(newer, a, k, p) by {
                assert(p != from);
            }
        }
    }
}

/// Every event that the filter shows stands in one activity, at one place. An
/// activity is a single event, or a queued event and the end that came after it
/// with the same correlation, host and scope. The activity with the newest end
/// comes first.
pub proof fn every_event_is_in_one_activity(
    entries: Seq<EventJournalEntry>,
    filter: JournalFilter,
)
    requires
        entries.len() <= usize::MAX,
    ensures
        well_grouped(entries, filter, 0, grouped(entries, filter)),
{
    events_from_a_position_are_grouped(entries, filter, 0);
}

/// An activity is on view if and only if it is one of the filter's and the search
/// finds it.
pub proof fn activities_on_view_are_those_found(
    entries: Seq<EventJournalEntry>,
    jm: JournalScreenView,
    activity: Seq<usize>,
)
    ensures
        activities_on_view(entries, jm).contains(activity) <==> grouped(
            entries,
            jm.filter,
        ).contains(activity) && query_matches(
            searched_text(entries, activity),
            trimmed(jm.search_query),
            jm.search_mode,
        ),
{
    let test = |activity: Seq<usize>|
        query_matches(
            searched_text(entries, activity),
            trimmed(jm.search_query),
            jm.search_mode,
        );
    kept_contains(grouped(entries, jm.filter), test);
    assert(kept(grouped(entries, jm.filter), test).contains(activity) <==> grouped(
        entries,
        jm.filter,
    ).contains(activity) && test(activity));
}

// ------------------------------------------------------- what belongs together

/// Whether an event says that something was queued: a file to take in, or a command.
pub open spec fn is_beginning(entry: EventJournalEntry) -> bool {
    ||| entry.category == EventCategory::Ingest && entry.event_type == EventType::IngestQueued
    ||| entry.category == EventCategory::Control && entry.event_type == EventType::ControlQueued
}

/// Whether an event says what became of something that was queued.
pub open spec fn is_outcome(entry: EventJournalEntry) -> bool {
    ||| {
        &&& entry.category == EventCategory::Ingest
        &&& entry.event_type == EventType::IngestAdded || entry.event_type
            == EventType::IngestDuplicate || entry.event_type == EventType::IngestInvalid
            || entry.event_type == EventType::IngestFailed
    }
    ||| {
        &&& entry.category == EventCategory::Control
        &&& entry.event_type == EventType::ControlApplied || entry.event_type
            == EventType::ControlFailed
    }
}

/// Whether one event can be the outcome of what another one queued: they are of the same
/// category and scope and host, and have the same correlation.
pub open spec fn belong_together(begin: EventJournalEntry, end: EventJournalEntry) -> bool {
    &&& is_beginning(begin)
    &&& is_outcome(end)
    &&& begin.category == end.category
    &&& begin.scope == end.scope
    &&& text_view(begin.host_id) == text_view(end.host_id)
    &&& begin.correlation_id is Some
    &&& end.correlation_id is Some
    &&& begin.correlation_id->0@ == end.correlation_id->0@
}

/// Whether a filter shows the events of a category.
pub open spec fn shows_category(filter: JournalFilter, category: EventCategory) -> bool {
    ||| filter == JournalFilter::All
    ||| filter == JournalFilter::Queue && category == EventCategory::Ingest
    ||| filter == JournalFilter::Commands && category == EventCategory::Control
    ||| filter == JournalFilter::Health && category == EventCategory::DataHealth
}

/// An activity of one event.
pub open spec fn one(p: usize) -> Seq<usize> {
    seq![p]
}

/// An activity of two events.
pub open spec fn two(p: usize, q: usize) -> Seq<usize> {
    seq![p, q]
}

proof fn waiting_is_the_last(
    entries: Seq<EventJournalEntry>,
    activities: Seq<Seq<usize>>,
    queued: EventJournalEntry,
)
    ensures
        match waiting(entries, activities, queued) {
            Some(k) => forall|a: int|
                k < a < activities.len() ==> !awaits(entries, #[trigger] activities[a], queued),
            None => forall|a: int|
                0 <= a < activities.len() ==> !awaits(entries, #[trigger] activities[a], queued),
        },
    decreases activities.len(),
{
    if activities.len() > 0 && !awaits(entries, activities.last(), queued) {
        let head = activities.drop_last();
        waiting_is_the_last(entries, head, queued);
        waiting_is_an_activity(entries, head, queued);
        let from = match waiting(entries, activities, queued) {
            Some(k) => k + 1,
            None => 0,
        };
        assert forall|a: int| from <= a < activities.len() implies !awaits(
            entries,
            #[trigger] activities[a],
            queued,
        ) by {
            if a < head.len() {
                assert(head[a] == activities[a]);
            }
        }
    }
}

/// What can be joined is not left alone.
spec fn none_left_alone(
    entries: Seq<EventJournalEntry>,
    filter: JournalFilter,
    from: int,
    activities: Seq<Seq<usize>>,
) -> bool {
    forall|i: usize, j: usize|
        from <= i < j < entries.len() && passes(entries[i as int], filter) && phase_of(
            entries[i as int],
        ) == ActivityPhase::Queued && phase_of(entries[j as int]) == ActivityPhase::Terminal
            && key_of(entries[i as int]) is Some && key_of(entries[i as int]) == key_of(
            entries[j as int],
        ) ==> !(#[trigger] activities.contains(one(i)) && #[trigger] activities.contains(one(j)))
}

/// Between two joined events every other outcome is joined to an event between them.
spec fn joined_inside(entries: Seq<EventJournalEntry>, activities: Seq<Seq<usize>>) -> bool {
    forall|a: int, p: usize|
        0 <= a < activities.len() && (#[trigger] activities[a]).len() == 2 && activities[a][0] < p
            < activities[a][1] && (#[trigger] phase_of(entries[p as int]))
            == ActivityPhase::Terminal && key_of(entries[p as int]) == key_of(
            entries[activities[a][0] as int],
        ) ==> exists|q: usize|
            activities[a][0] < q < p && #[trigger] activities.contains(two(q, p))
}

proof fn singles_stay(before: Seq<Seq<usize>>, after: Seq<Seq<usize>>, p: usize)
    requires
        after.contains(one(p)),
        forall|a: int|
            0 <= a < after.len() ==> (#[trigger] after[a]).len() == 2 || before.contains(after[a]),
    ensures
        before.contains(one(p)),
{
    let a = choose|a: int| 0 <= a < after.len() && after[a] == one(p);
    assert(after[a].len() == 1);
}

proof fn nothing_is_left_alone(
    entries: Seq<EventJournalEntry>,
    filter: JournalFilter,
    from: int,
)
    requires
        0 <= from <= entries.len() <= usize::MAX,
    ensures
        none_left_alone(entries, filter, from, grouped_from(entries, filter, from)),
        joined_inside(entries, grouped_from(entries, filter, from)),
    decreases entries.len() - from,
{
    let after = grouped_from(entries, filter, from);
    if from < entries.len() {
        nothing_is_left_alone(entries, filter, from + 1);
        events_from_a_position_are_grouped(entries, filter, from + 1);
        let newer = grouped_from(entries, filter, from + 1);
        let entry = entries[from];
        let position = from as usize;
        if passes(entry, filter) {
            waiting_is_an_activity(entries, newer, entry);
            waiting_is_the_last(entries, newer, entry);
            match (phase_of(entry), waiting(entries, newer, entry)) {
                (ActivityPhase::Queued, Some(k)) => {
                    joining_leaves_nothing_alone(entries, filter, from, newer, k);
                },
                _ => {
                    assert(after == newer.push(seq![position]));
                    assert forall|i: usize, j: usize|
                        from <= i < j < entries.len() && passes(entries[i as int], filter)
                            && phase_of(entries[i as int]) == ActivityPhase::Queued && phase_of(
                            entries[j as int],
                        ) == ActivityPhase::Terminal && key_of(entries[i as int]) is Some && key_of(
                            entries[i as int],
                        ) == key_of(entries[j as int]) implies !(#[trigger] after.contains(one(i))
                        && #[trigger] after.contains(one(j))) by {
                        if after.contains(one(i)) && after.contains(one(j)) {
                            let b = choose|b: int| 0 <= b < after.len() && after[b] == one(j);
                            assert(one(j)[0] == j && seq![position][0] == position);
                            assert(b < newer.len() && newer[b] == one(j));
                            assert(newer.contains(one(j)));
                            if i == position {
                                assert(awaits(entries, newer[b], entry));
                            } else {
                                let a = choose|a: int| 0 <= a < after.len() && after[a] == one(i);
                                assert(one(i)[0] == i);
                                assert(a < newer.len() && newer[a] == one(i));
                                assert(newer.contains(one(i)));
                            }
                        }
                    }
                    assert forall|a: int, p: usize|
                        0 <= a < after.len() && (#[trigger] after[a]).len() == 2 && after[a][0] < p
                            < after[a][1] && (#[trigger] phase_of(entries[p as int]))
                            == ActivityPhase::Terminal && key_of(entries[p as int]) == key_of(
                            entries[after[a][0] as int],
                        ) implies exists|q: usize|
                        after[a][0] < q < p && #[trigger] after.contains(two(q, p)) by {
                        assert(after[a] == newer[a]);
                        let q = choose|q: usize|
                            newer[a][0] < q < p && #[trigger] newer.contains(two(q, p));
                        let b = choose|b: int| 0 <= b < newer.len() && newer[b] == two(q, p);
                        assert(after[b] == two(q, p));
            assert(after.contains(two(q, p)));
                        assert(after.contains(two(q, p)));
                    }
                },
            }
        } else {
            assert(after == newer);
        }
    }
}

proof fn joining_leaves_nothing_alone(
    entries: Seq<EventJournalEntry>,
    filter: JournalFilter,
    from: int,
    newer: Seq<Seq<usize>>,
    k: int,
)
    requires
        0 <= from < entries.len() <= usize::MAX,
        well_grouped(entries, filter, from + 1, newer),
        none_left_alone(entries, filter, from + 1, newer),
        joined_inside(entries, newer),
        passes(entries[from], filter),
        0 <= k < newer.len(),
        awaits(entries, newer[k], entries[from]),
        forall|a: int|
            k < a < newer.len() ==> !awaits(entries, #[trigger] newer[a], entries[from]),
    ensures
        none_left_alone(
            entries,
            filter,
            from,
            newer.update(k, seq![from as usize] + newer[k]),
        ),
        joined_inside(entries, newer.update(k, seq![from as usize] + newer[k])),
{
    let position = from as usize;
    let end = newer[k][0];
    let pair = seq![position] + newer[k];
    let after = newer.update(k, pair);
    assert(pair.len() == 2 && pair[0] == position && pair[1] == end);
    assert(stands_at(newer, k, 0, end as int));
    assert forall|a: int| 0 <= a < after.len() implies (#[trigger] after[a]).len() == 2
        || newer.contains(after[a]) by {
        if a != k {
            assert(newer[a] == after[a]);
        }
    }
    assert forall|i: usize, j: usize|
        from <= i < j < entries.len() && passes(entries[i as int], filter) && phase_of(
            entries[i as int],
        ) == ActivityPhase::Queued && phase_of(entries[j as int]) == ActivityPhase::Terminal
            && key_of(entries[i as int]) is Some && key_of(entries[i as int]) == key_of(
            entries[j as int],
        ) implies !(#[trigger] after.contains(one(i)) && #[trigger] after.contains(one(j))) by {
        if after.contains(one(i)) && after.contains(one(j)) {
            singles_stay(newer, after, i);
            singles_stay(newer, after, j);
            if i == position {
                let a = choose|a: int| 0 <= a < newer.len() && newer[a] == one(i);
                assert(stands_at(newer, a, 0, from));
            }
        }
    }
    assert forall|a: int, p: usize|
        0 <= a < after.len() && (#[trigger] after[a]).len() == 2 && after[a][0] < p < after[a][1]
            && (#[trigger] phase_of(entries[p as int])) == ActivityPhase::Terminal && key_of(
            entries[p as int],
        ) == key_of(entries[after[a][0] as int]) implies exists|q: usize|
        after[a][0] < q < p && #[trigger] after.contains(two(q, p)) by {
        if a == k {
            assert(passes(entries[p as int], filter));
            let (b, n) = choose|b: int, n: int| stands_at(newer, b, n, p as int);
            assert(is_activity(entries, newer[b]));
            assert(newer[b].last() == p);
            assert(newer[k].last() == end);
            if b <= k {
                if b < k {
                    assert(newer[b].last() > newer[k].last());
                }
                assert(false);
            }
            assert(!awaits(entries, newer[b], entries[from]));
            assert(newer[b].len() == 2);
            let q = newer[b][0];
            assert(stands_at(newer, b, 0, q as int));
            assert(newer[b] =~= two(q, p));
            assert(after[b] == two(q, p));
            assert(after.contains(two(q, p)));
        } else {
            assert(after[a] == newer[a]);
            let q = choose|q: usize|
                newer[a][0] < q < p && #[trigger] newer.contains(two(q, p));
            let b = choose|b: int| 0 <= b < newer.len() && newer[b] == two(q, p);
            assert(b != k);
            assert(after[b] == two(q, p));
            assert(after.contains(two(q, p)));
        }
    }
}

proof fn on_view_are_grouped(
    entries: Seq<EventJournalEntry>,
    jm: JournalScreenView,
    activity: Seq<usize>,
)
    ensures
        activities_on_view(entries, jm).contains(activity) ==> grouped(
            entries,
            jm.filter,
        ).contains(activity),
{
    activities_on_view_are_those_found(entries, jm, activity);
}

/// What was queued and a later outcome of it never both stand alone in the journal: a
/// queued file or command is joined with an outcome as long as there is one left.
pub proof fn a_queued_event_finds_its_outcome(
    entries: Seq<EventJournalEntry>,
    jm: JournalScreenView,
    i: usize,
    j: usize,
)
    requires
        i < j < entries.len() <= usize::MAX,
        belong_together(entries[i as int], entries[j as int]),
        shows_category(jm.filter, entries[i as int].category),
    ensures
        !(activities_on_view(entries, jm).contains(one(i)) && activities_on_view(
            entries,
            jm,
        ).contains(one(j))),
        !(grouped(entries, jm.filter).contains(one(i)) && grouped(entries, jm.filter).contains(one(j))),
{
    nothing_is_left_alone(entries, jm.filter, 0);
    on_view_are_grouped(entries, jm, one(i));
    on_view_are_grouped(entries, jm, one(j));
    assert(passes(entries[i as int], jm.filter));
}

/// Two events are joined only if the first was queued and the second is its outcome. An
/// outcome between them is joined to an event between them: the nearest ones go together.
pub proof fn joined_events_belong_together(
    entries: Seq<EventJournalEntry>,
    filter: JournalFilter,
    activity: Seq<usize>,
)
    requires
        entries.len() <= usize::MAX,
        grouped(entries, filter).contains(activity),
    ensures
        activity.len() == 1 || activity.len() == 2,
        forall|k: int| 0 <= k < activity.len() ==> (#[trigger] activity[k]) < entries.len(),
        activity.len() == 2 ==> {
            &&& activity[0] < activity[1]
            &&& belong_together(entries[activity[0] as int], entries[activity[1] as int])
            &&& forall|p: usize|
                activity[0] < p < activity[1] && belong_together(
                    entries[activity[0] as int],
                    #[trigger] entries[p as int],
                ) ==> exists|q: usize|
                    activity[0] < q < p && #[trigger] grouped(entries, filter).contains(two(q, p))
        },
{
    let all = grouped(entries, filter);
    every_event_is_in_one_activity(entries, filter);
    nothing_is_left_alone(entries, filter, 0);
    let a = choose|a: int| 0 <= a < all.len() && all[a] == activity;
    assert(is_activity(entries, all[a]));
    assert forall|k: int| 0 <= k < activity.len() implies (#[trigger] activity[k])
        < entries.len() by {
        assert(stands_at(all, a, k, activity[k] as int));
    }
    if activity.len() == 2 {
        let begin = entries[activity[0] as int];
        assert forall|p: usize|
            activity[0] < p < activity[1] && belong_together(
                begin,
                #[trigger] entries[p as int],
            ) implies exists|q: usize|
            activity[0] < q < p && #[trigger] all.contains(two(q, p)) by {
            assert(phase_of(entries[p as int]) == ActivityPhase::Terminal);
            assert(all[a][0] == activity[0]);
        }
    }
}

/// A filter shows the events of its category and no others, and all shows every event.
pub proof fn filters_show_their_category(
    entries: Seq<EventJournalEntry>,
    filter: JournalFilter,
    p: int,
)
    requires
        0 <= p < entries.len() <= usize::MAX,
    ensures
        (exists|a: int, k: int| stands_at(grouped(entries, filter), a, k, p)) <==> shows_category(
            filter,
            entries[p].category,
        ),
{
    let all = grouped(entries, filter);
    every_event_is_in_one_activity(entries, filter);
    if shows_category(filter, entries[p].category) {
        assert(passes(entries[p], filter));
    }
    if exists|a: int, k: int| stands_at(all, a, k, p) {
        let (a, k) = choose|a: int, k: int| stands_at(all, a, k, p);
        assert(stands_at(all, a, k, p));
    }
}

/// Without a search every activity of the filter is on view, the newest first.
pub proof fn no_search_hides_nothing(entries: Seq<EventJournalEntry>, jm: JournalScreenView)
    requires
        trimmed(jm.search_query).len() == 0,
    ensures
        activities_on_view(entries, jm) == grouped(entries, jm.filter),
{
    kept_all(
        grouped(entries, jm.filter),
        |activity: Seq<usize>|
            query_matches(
                searched_text(entries, activity),
                trimmed(jm.search_query),
                jm.search_mode,
            ),
    );
}

// --------------------------------------------------------------- the selection

/// The selection is on an activity on view, or at the top.
pub open spec fn selection_is_on_an_activity(m: JournalModel) -> bool {
    0 <= m.jm.selected_index < m.count() || m.jm.selected_index == 0
}

/// Every action leaves the selection on an activity on view, or at the top.
pub proof fn every_action_leaves_the_selection_on_an_activity(
    m: JournalModel,
    action: JournalAction,
)
    requires
        selection_is_on_an_activity(m),
    ensures
        selection_is_on_an_activity(journal_reduced(m, action)),
{
    let after = journal_reduced(m, action);
    if after.jm.filter == m.jm.filter && after.jm.search_query == m.jm.search_query
        && after.jm.search_mode == m.jm.search_mode {
        same_view(m.entries, m.jm, after.jm);
        same_view(m.entries, m.jm, (JournalScreenView { status_message: None, ..m.jm }));
    }
}

proof fn same_view(entries: Seq<EventJournalEntry>, a: JournalScreenView, b: JournalScreenView)
    requires
        a.filter == b.filter,
        a.search_query == b.search_query,
        a.search_mode == b.search_mode,
    ensures
        activities_on_view(entries, a) == activities_on_view(entries, b),
{
}

/// A page down and a page up again ends where it began, unless the list was too
/// short for a whole page.
pub proof fn paging_back_undoes_paging(m: JournalModel)
    requires
        0 <= m.jm.selected_index,
        m.jm.selected_index + journal_page(m.screen, m.jm) < m.count(),
    ensures
        ({
            let down = journal_reduced(m, JournalAction::MovePageDown);
            journal_reduced(down, JournalAction::MovePageUp).jm.selected_index
                == m.jm.selected_index
        }),
{
    let clean = JournalScreenView { status_message: None, ..m.jm };
    same_view(m.entries, m.jm, clean);
    let down = journal_reduced(m, JournalAction::MovePageDown);
    assert(journal_page(m.screen, clean) == journal_page(m.screen, m.jm));
    assert(journal_page(m.screen, (JournalScreenView { status_message: None, ..down.jm }))
        == journal_page(m.screen, m.jm));
}

/// Only a replay makes a request, and no action changes the events.
pub proof fn only_a_replay_asks(m: JournalModel, action: JournalAction)
    ensures
        journal_asked(m, action) is Some ==> action == JournalAction::ReplaySelected,
        journal_reduced(m, action).entries == m.entries,
{
}

// ------------------------------------------------------------------ the privacy

/// With names hidden, what the journal shows of an activity that is no command
/// tells nothing of its torrent or its source.
pub proof fn hidden_names_are_not_shown(
    a: Seq<EventJournalEntry>,
    x: Seq<usize>,
    b: Seq<EventJournalEntry>,
    y: Seq<usize>,
)
    requires
        x.len() > 0,
        y.len() > 0,
        a[x.last() as int].category != crate::event_journal::EventCategory::Control,
        b[y.last() as int].category != crate::event_journal::EventCategory::Control,
    ensures
        subject_text(a, x, true) == subject_text(b, y, true),
        torrent_text(a[x.last() as int], true) == torrent_text(b[y.last() as int], true),
        source_text(a[x.last() as int], true) == source_text(b[y.last() as int], true),
{
}

} // verus!
