//! What holds of torrent management as a whole.
use crate::app::{CommandView, ManagementView};
use crate::lists::{
    added, contains_push, kept, kept_all, kept_contains, kept_each, kept_no_duplicates,
    position_of_is_first,
};
use crate::order::{
    by_number, by_text, directed, in_order, is_weak_order, or_by, reversed,
    stably_sorted_is_in_order, Comparison, SortDirection,
};
use crate::text::{text_before, text_before_irreflexive, text_before_total, text_before_transitive};
use crate::tui::screens::torrents::columns::{sort_column, ManagementColumnId};
use crate::tui::screens::torrents::drafts::{
    clear_targets, command_hashes, cursor_index, cursor_normalized, draft_for, draft_toggled,
    is_drafted, pruned, row_target, selected_visible, targets, without_draft,
};
use crate::tui::screens::torrents::model::ManagementModel;
use crate::tui::screens::torrents::review::max_review_scroll;
use crate::tui::screens::torrents::rows::{
    by_column, by_sort, label, list_precedes, listed, listed_hashes, listed_positions_are_known,
    or_zero, or_zero_wide, peers, row_hashes, row_order, row_order_is_visible, selection_rank,
    shown, state_name, time_left, visible,
};
use crate::tui::screens::torrents::{
    acted, deletes_toggled, delete_draft, effects_of, finished, pause_draft, pauses_toggled,
    reduced, started, submit_effects, EffectView, TorrentManagementAction,
};
use vstd::prelude::*;

verus! {

// ------------------------------------------------------------------ the rows

/// The two states have the same rows as far as the screen's own state decides.
pub open spec fn same_rows_input(a: ManagementModel, b: ManagementModel) -> bool {
    &&& a.torrents == b.torrents
    &&& a.list_order == b.list_order
    &&& a.anonymize == b.anonymize
    &&& a.tm.search_query == b.tm.search_query
    &&& a.tm.search_mode == b.tm.search_mode
    &&& sort_column(a.tm.sort_column_index) == sort_column(b.tm.sort_column_index)
    &&& a.tm.sort_direction == b.tm.sort_direction
    &&& a.tm.selected_hashes == b.tm.selected_hashes
}

/// The rows depend on nothing but the torrents, the list's order, whether names
/// are hidden, the query, the sort, and the selection.
pub proof fn rows_depend_on_query_sort_and_selection(a: ManagementModel, b: ManagementModel)
    requires
        same_rows_input(a, b),
    ensures
        row_order(a) == row_order(b),
        row_hashes(a) == row_hashes(b),
        visible(a) == visible(b),
{
    visible_depends_on_query(a, b);
    if let Some(column) = sort_column(a.tm.sort_column_index) {
        let f = |i: usize, j: usize| by_sort(a, column, i as int, j as int) == Comparison::Less;
        let g = |i: usize, j: usize| by_sort(b, column, i as int, j as int) == Comparison::Less;
        assert(f =~= g);
    }
    assert(row_hashes(a) =~= row_hashes(b));
}

/// Which torrents are on view, and their order in the list, depend on nothing but
/// the torrents, the list's order and the query.
pub proof fn visible_depends_on_query(a: ManagementModel, b: ManagementModel)
    requires
        a.torrents == b.torrents,
        a.list_order == b.list_order,
        a.tm.search_query == b.tm.search_query,
        a.tm.search_mode == b.tm.search_mode,
    ensures
        listed(a) == listed(b),
        visible(a) == visible(b),
{
    let f = |i: usize, j: usize| list_precedes(a, i as int, j as int);
    let g = |i: usize, j: usize| list_precedes(b, i as int, j as int);
    assert(f =~= g);
    let p = |i: usize| shown(a, i as int);
    let q = |i: usize| shown(b, i as int);
    assert(p =~= q);
}

/// A torrent has a row if and only if the query shows it.
pub proof fn rows_are_the_torrents_that_match(m: ManagementModel, i: usize)
    requires
        m.well_formed(),
        (i as int) < m.torrents.len(),
    ensures
        row_order(m).contains(i) <==> shown(m, i as int),
        shown(m, i as int) ==> row_hashes(m).contains(m.torrents[i as int].info_hash@),
{
    broadcast use vstd::seq_lib::group_to_multiset_ensures;

    row_order_is_visible(m);
    listed_positions_are_known(m);
    kept_contains(listed(m), |k: usize| shown(m, k as int));
    assert(row_order(m).contains(i) <==> row_order(m).to_multiset().count(i) > 0);
    assert(visible(m).contains(i) <==> visible(m).to_multiset().count(i) > 0);
    assert(listed(m).contains(i));
    if shown(m, i as int) {
        let k = choose|k: int| 0 <= k < row_order(m).len() && row_order(m)[k] == i;
        assert(row_hashes(m)[k] == m.torrents[i as int].info_hash@);
    }
}

/// Every row is that of a torrent that is there and that the query shows.
pub proof fn rows_are_live(m: ManagementModel, k: int)
    requires
        m.well_formed(),
        0 <= k < row_hashes(m).len(),
    ensures
        m.is_live(row_hashes(m)[k]),
        shown(m, row_order(m)[k] as int),
{
    row_order_is_visible(m);
    let i = row_order(m)[k];
    assert((i as int) < m.torrents.len());
    assert(row_order(m).contains(i));
    rows_are_the_torrents_that_match(m, i);
    assert(m.hashes()[i as int] == m.torrents[i as int].info_hash@);
}

proof fn text_order_facts(a: Seq<char>, b: Seq<char>, c: Seq<char>)
    ensures
        by_text(a, a) == Comparison::Equal,
        by_text(b, a) == reversed(by_text(a, b)),
        by_text(a, b) == Comparison::Less && by_text(b, c) == Comparison::Less ==> by_text(a, c)
            == Comparison::Less,
        by_text(a, b) == Comparison::Equal ==> a == b,
{
    text_before_irreflexive(a);
    text_before_total(a, b);
    if text_before(a, b) && text_before(b, a) {
        text_before_transitive(a, b, a);
    }
    if text_before(a, b) && text_before(b, c) {
        text_before_transitive(a, b, c);
    }
}

/// What is needed of a comparison to sort by it.
pub open spec fn is_comparison(c: spec_fn(int, int) -> Comparison) -> bool {
    &&& forall|i: int| #[trigger] c(i, i) == Comparison::Equal
    &&& forall|i: int, j: int| #[trigger] c(j, i) == reversed(c(i, j))
    &&& forall|i: int, j: int, k: int|
        #[trigger] c(i, j) == Comparison::Less && #[trigger] c(j, k) == Comparison::Less ==> c(i, k)
            == Comparison::Less
    &&& forall|i: int, j: int, k: int|
        #[trigger] c(i, j) == Comparison::Equal ==> #[trigger] c(j, k) == c(i, k)
}

proof fn numbers_are_a_comparison(key: spec_fn(int) -> int)
    ensures
        is_comparison(|i: int, j: int| by_number(key(i), key(j))),
{
}

proof fn texts_are_a_comparison(key: spec_fn(int) -> Seq<char>)
    ensures
        is_comparison(|i: int, j: int| by_text(key(i), key(j))),
{
    let c = |i: int, j: int| by_text(key(i), key(j));
    assert forall|i: int| #[trigger] c(i, i) == Comparison::Equal by {
        text_order_facts(key(i), key(i), key(i));
    }
    assert forall|i: int, j: int| #[trigger] c(j, i) == reversed(c(i, j)) by {
        text_order_facts(key(i), key(j), key(i));
    }
    assert forall|i: int, j: int, k: int| #[trigger]
        c(i, j) == Comparison::Less && #[trigger] c(j, k) == Comparison::Less implies c(i, k)
        == Comparison::Less by {
        text_order_facts(key(i), key(j), key(k));
    }
    assert forall|i: int, j: int, k: int| #[trigger]
        c(i, j) == Comparison::Equal implies #[trigger] c(j, k) == c(i, k) by {
        text_order_facts(key(i), key(j), key(k));
    }
}

/// The number that a column is sorted by, where it is sorted by one.
spec fn column_number(m: ManagementModel, column: ManagementColumnId, i: int) -> int {
    let t = m.torrents[i];
    match column {
        ManagementColumnId::Selection => selection_rank(m, i),
        ManagementColumnId::Completed => t.completion.rank as int,
        ManagementColumnId::DateAdded => or_zero(t.added_at_unix_secs),
        ManagementColumnId::Peers => peers(t),
        ManagementColumnId::DownSpeed => t.smoothed_download_speed_bps as int,
        ManagementColumnId::UpSpeed => t.smoothed_upload_speed_bps as int,
        ManagementColumnId::Eta => or_zero_wide(time_left(t)),
        _ => t.total_size as int,
    }
}

proof fn column_is_comparison(m: ManagementModel, column: ManagementColumnId)
    ensures
        is_comparison(|i: int, j: int| by_column(m, column, i, j)),
        is_comparison(|i: int, j: int| by_text(label(m, i), label(m, j))),
{
    let c = |i: int, j: int| by_column(m, column, i, j);
    let names = |i: int| label(m, i);
    texts_are_a_comparison(names);
    let by_name = |i: int, j: int| by_text(names(i), names(j));
    assert(by_name =~= (|i: int, j: int| by_text(label(m, i), label(m, j))));
    match column {
        ManagementColumnId::Name => {
            assert(c =~= by_name);
        },
        ManagementColumnId::State => {
            let states = |i: int| state_name(m.torrents[i].torrent_control_state);
            texts_are_a_comparison(states);
            assert(c =~= (|i: int, j: int| by_text(states(i), states(j))));
        },
        _ => {
            let key = |i: int| column_number(m, column, i);
            numbers_are_a_comparison(key);
            assert(c =~= (|i: int, j: int| by_number(key(i), key(j))));
        },
    }
}

/// Sorting by a column orders the torrents by rank: nothing precedes itself, and
/// preceding and not preceding both chain.
pub proof fn table_order_is_an_order(m: ManagementModel, column: ManagementColumnId)
    ensures
        is_weak_order(
            |a: usize, b: usize| by_sort(m, column, a as int, b as int) == Comparison::Less,
        ),
{
    column_is_comparison(m, column);
    let c = |i: int, j: int| by_column(m, column, i, j);
    let d = |i: int, j: int| by_text(label(m, i), label(m, j));
    let before = |a: usize, b: usize|
        by_sort(m, column, a as int, b as int) == Comparison::Less;
    assert(is_comparison(c) && is_comparison(d));
    assert forall|i: int, j: int| #[trigger]
        by_sort(m, column, i, j) == or_by(directed(c(i, j), m.tm.sort_direction), d(i, j)) by {}
    assert forall|a: usize| !#[trigger] before(a, a) by {
        assert(c(a as int, a as int) == Comparison::Equal);
        assert(d(a as int, a as int) == Comparison::Equal);
    }
    assert forall|x: usize, y: usize, z: usize| #[trigger]
        before(x, y) && #[trigger] before(y, z) implies before(x, z) by {
        sort_chains(c, d, m.tm.sort_direction, x as int, y as int, z as int);
    }
    assert forall|x: usize, y: usize, z: usize| !#[trigger]
        before(x, y) && !#[trigger] before(y, z) implies !before(x, z) by {
        sort_chains(c, d, m.tm.sort_direction, z as int, y as int, x as int);
        sort_chains(c, d, m.tm.sort_direction, x as int, y as int, z as int);
    }
}

proof fn sort_chains(
    c: spec_fn(int, int) -> Comparison,
    d: spec_fn(int, int) -> Comparison,
    direction: SortDirection,
    x: int,
    y: int,
    z: int,
)
    requires
        is_comparison(c),
        is_comparison(d),
    ensures
        ({
            let s = |i: int, j: int| or_by(directed(c(i, j), direction), d(i, j));
            &&& s(x, y) == Comparison::Less && s(y, z) == Comparison::Less ==> s(x, z)
                == Comparison::Less
            &&& s(x, y) != Comparison::Less && s(y, z) != Comparison::Less ==> s(x, z)
                != Comparison::Less
        }),
{
    assert(c(y, x) == reversed(c(x, y)));
    assert(c(z, y) == reversed(c(y, z)));
    assert(c(z, x) == reversed(c(x, z)));
    assert(d(y, x) == reversed(d(x, y)));
    assert(d(z, y) == reversed(d(y, z)));
    assert(d(z, x) == reversed(d(x, z)));
    assert(c(x, y) == Comparison::Equal ==> c(y, z) == c(x, z));
    assert(c(z, y) == Comparison::Equal ==> c(y, x) == c(z, x));
    assert(d(x, y) == Comparison::Equal ==> d(y, z) == d(x, z));
    assert(d(z, y) == Comparison::Equal ==> d(y, x) == d(z, x));
    assert(c(x, y) == Comparison::Less && c(y, z) == Comparison::Less ==> c(x, z)
        == Comparison::Less);
    assert(c(z, y) == Comparison::Less && c(y, x) == Comparison::Less ==> c(z, x)
        == Comparison::Less);
    assert(d(x, y) == Comparison::Less && d(y, z) == Comparison::Less ==> d(x, z)
        == Comparison::Less);
    assert(d(z, y) == Comparison::Less && d(y, x) == Comparison::Less ==> d(z, x)
        == Comparison::Less);
}

/// The rows of a sorted table are in order: no row stands below one that it
/// precedes.
pub proof fn sorted_rows_are_in_order(m: ManagementModel, column: ManagementColumnId)
    requires
        sort_column(m.tm.sort_column_index) == Some(column),
    ensures
        in_order(
            row_order(m),
            |a: usize, b: usize| by_sort(m, column, a as int, b as int) == Comparison::Less,
        ),
{
    table_order_is_an_order(m, column);
    stably_sorted_is_in_order(
        visible(m),
        |a: usize, b: usize| by_sort(m, column, a as int, b as int) == Comparison::Less,
    );
}

// ---------------------------------------------------------------- the cursor

/// The cursor is on a row, or there is none.
pub open spec fn cursor_is_on_a_row(m: ManagementModel) -> bool {
    let rows = row_hashes(m);
    if rows.len() == 0 {
        m.tm.selected_index == 0 && m.tm.cursor_hash is None
    } else {
        &&& 0 <= m.tm.selected_index < rows.len()
        &&& m.tm.cursor_hash == Some(rows[m.tm.selected_index])
    }
}

pub(crate) proof fn normalized_cursor_is_on_a_row(m: ManagementModel)
    requires
        m.tm.selected_index >= 0,
    ensures
        cursor_is_on_a_row(cursor_normalized(m)),
{
    let n = cursor_normalized(m);
    rows_depend_on_query_sort_and_selection(m, n);
    if let Some(hash) = m.tm.cursor_hash {
        position_of_is_first(row_hashes(m), hash);
    }
}

proof fn acted_index_is_a_position(m: ManagementModel, action: TorrentManagementAction)
    requires
        m.tm.selected_index >= 0,
    ensures
        acted(m, action).tm.selected_index >= 0,
{
    match action {
        TorrentManagementAction::MoveUp => {},
        TorrentManagementAction::MoveDown => {},
        _ => {},
    }
}

/// After every action the cursor is on a row, and knows the torrent of that row;
/// without rows it is nowhere.
#[verifier::spinoff_prover]
#[verifier::rlimit(80)]
pub proof fn every_action_leaves_the_cursor_on_a_row(
    m: ManagementModel,
    action: TorrentManagementAction,
)
    requires
        m.tm.selected_index >= 0,
    ensures
        cursor_is_on_a_row(reduced(m, action)),
{
    let clean = m.with_tm(ManagementView { status_message: None, ..m.tm });
    normalized_cursor_is_on_a_row(pruned(clean));
    let s = started(m);
    assert(s.tm.selected_index == cursor_normalized(pruned(clean)).tm.selected_index);
    acted_index_is_a_position(s, action);
    let a = acted(s, action);
    let n = cursor_normalized(pruned(a));
    normalized_cursor_is_on_a_row(pruned(a));
    rows_depend_on_query_sort_and_selection(n, reduced(m, action));
}

/// Sorting moves the rows under the cursor, and the cursor with its torrent.
pub proof fn sorting_keeps_the_highlighted_torrent(m: ManagementModel)
    requires
        m.well_formed(),
        m.tm.selected_index >= 0,
    ensures
        reduced(m, TorrentManagementAction::SortBySelectedColumn).tm.cursor_hash == started(
            m,
        ).tm.cursor_hash,
{
    let action = TorrentManagementAction::SortBySelectedColumn;
    let clean = m.with_tm(ManagementView { status_message: None, ..m.tm });
    normalized_cursor_is_on_a_row(pruned(clean));
    let s = started(m);
    rows_depend_on_query_sort_and_selection(cursor_normalized(pruned(clean)), s);
    let a = acted(s, action);
    let p = pruned(a);
    visible_depends_on_query(s, p);
    row_order_is_visible(s);
    row_order_is_visible(p);
    assert(row_hashes(s).len() == row_hashes(p).len());
    if row_hashes(s).len() > 0 {
        let hash = row_hashes(s)[s.tm.selected_index];
        rows_are_live(s, s.tm.selected_index);
        let i = row_order(s)[s.tm.selected_index];
        assert((i as int) < s.torrents.len());
        assert(shown(p, i as int));
        rows_are_the_torrents_that_match(p, i);
        position_of_is_first(row_hashes(p), hash);
    }
}

// ------------------------------------------------- the selection and the drafts

/// No torrent has two drafts.
pub open spec fn one_draft_each(pending: Seq<CommandView>) -> bool {
    command_hashes(pending).no_duplicates()
}

proof fn kept_drafts_are_single(pending: Seq<CommandView>, test: spec_fn(CommandView) -> bool)
    requires
        one_draft_each(pending),
    ensures
        one_draft_each(kept(pending, test)),
        forall|h: Seq<u8>| #[trigger]
            command_hashes(kept(pending, test)).contains(h) ==> command_hashes(pending).contains(h),
    decreases pending.len(),
{
    if pending.len() > 0 {
        let head = pending.drop_last();
        let last = pending.last();
        assert(command_hashes(pending) =~= command_hashes(head).push(last.info_hash));
        assert(one_draft_each(head)) by {
            assert forall|i: int, j: int|
                0 <= i < command_hashes(head).len() && 0 <= j < command_hashes(head).len() && i
                    != j implies command_hashes(head)[i] != command_hashes(head)[j] by {
                assert(command_hashes(head)[i] == command_hashes(pending)[i]);
                assert(command_hashes(head)[j] == command_hashes(pending)[j]);
            }
        }
        kept_drafts_are_single(head, test);
        let rest = kept(head, test);
        assert(!command_hashes(head).contains(last.info_hash)) by {
            if command_hashes(head).contains(last.info_hash) {
                let i = choose|i: int|
                    0 <= i < command_hashes(head).len() && command_hashes(head)[i]
                        == last.info_hash;
                assert(command_hashes(pending)[i] == last.info_hash);
                assert(command_hashes(pending)[pending.len() - 1] == last.info_hash);
            }
        }
        assert forall|h: Seq<u8>| #[trigger]
            command_hashes(kept(pending, test)).contains(h) implies command_hashes(
            pending,
        ).contains(h) by {
            contains_push(command_hashes(head), last.info_hash, h);
            if test(last) {
                assert(command_hashes(rest.push(last)) =~= command_hashes(rest).push(
                    last.info_hash,
                ));
                contains_push(command_hashes(rest), last.info_hash, h);
            }
        }
        if test(last) {
            assert(command_hashes(rest.push(last)) =~= command_hashes(rest).push(last.info_hash));
            assert(!command_hashes(rest).contains(last.info_hash));
            pushing_a_new_one(command_hashes(rest), last.info_hash);
        }
    }
}

proof fn pushing_a_new_one(list: Seq<Seq<u8>>, h: Seq<u8>)
    requires
        list.no_duplicates(),
        !list.contains(h),
    ensures
        list.push(h).no_duplicates(),
{
    assert forall|i: int, j: int|
        0 <= i < list.push(h).len() && 0 <= j < list.push(h).len() && i != j implies list.push(
        h,
    )[i] != list.push(h)[j] by {
        if i < list.len() {
            assert(list.contains(list[i]));
        }
        if j < list.len() {
            assert(list.contains(list[j]));
        }
    }
}

proof fn no_draft_left(pending: Seq<CommandView>, hash: Seq<u8>)
    ensures
        !command_hashes(without_draft(pending, hash)).contains(hash),
{
    let test = |c: CommandView| c.info_hash != hash;
    let rest = without_draft(pending, hash);
    kept_each(pending, test);
    if command_hashes(rest).contains(hash) {
        let k = choose|k: int|
            0 <= k < command_hashes(rest).len() && command_hashes(rest)[k] == hash;
        assert(test(rest[k]));
    }
}

/// Drafting keeps to one draft for each torrent.
pub proof fn drafting_keeps_one_draft_each(pending: Seq<CommandView>, command: CommandView)
    requires
        one_draft_each(pending),
    ensures
        one_draft_each(draft_toggled(pending, command)),
        forall|h: Seq<u8>| #[trigger]
            command_hashes(draft_toggled(pending, command)).contains(h) ==> command_hashes(
                pending,
            ).contains(h) || h == command.info_hash,
{
    let test = |c: CommandView| c.info_hash != command.info_hash;
    let rest = without_draft(pending, command.info_hash);
    kept_drafts_are_single(pending, test);
    no_draft_left(pending, command.info_hash);
    if !is_drafted(pending, command) {
        assert(command_hashes(rest.push(command)) =~= command_hashes(rest).push(
            command.info_hash,
        ));
        pushing_a_new_one(command_hashes(rest), command.info_hash);
        assert forall|h: Seq<u8>| #[trigger]
            command_hashes(rest.push(command)).contains(h) implies command_hashes(pending).contains(
            h,
        ) || h == command.info_hash by {
            contains_push(command_hashes(rest), command.info_hash, h);
        }
    }
}

/// Drafting the same thing twice leaves no draft for the torrent, and drafting
/// something else leaves only that.
pub proof fn drafting_twice_takes_the_draft_back(pending: Seq<CommandView>, command: CommandView)
    requires
        !is_drafted(pending, command),
    ensures
        draft_toggled(pending, command) == without_draft(pending, command.info_hash).push(command),
        draft_toggled(draft_toggled(pending, command), command) == without_draft(
            pending,
            command.info_hash,
        ),
        draft_for(draft_toggled(draft_toggled(pending, command), command), command.info_hash)
            is None,
{
    let test = |c: CommandView| c.info_hash != command.info_hash;
    let rest = without_draft(pending, command.info_hash);
    let once = rest.push(command);
    assert(once[rest.len() as int] == command);
    assert(is_drafted(once, command));
    assert(once.drop_last() =~= rest);
    kept_each(pending, test);
    kept_all(rest, test);
    assert(without_draft(once, command.info_hash) == rest);
    no_draft_left(pending, command.info_hash);
    position_of_is_first(command_hashes(rest), command.info_hash);
}

/// Drafting for one torrent leaves the drafts for all others as they are.
pub proof fn drafting_leaves_other_torrents_alone(pending: Seq<CommandView>, command: CommandView)
    ensures
        without_draft(draft_toggled(pending, command), command.info_hash) == without_draft(
            pending,
            command.info_hash,
        ),
{
    let test = |c: CommandView| c.info_hash != command.info_hash;
    let rest = without_draft(pending, command.info_hash);
    kept_each(pending, test);
    kept_all(rest, test);
    if !is_drafted(pending, command) {
        assert(rest.push(command).drop_last() =~= rest);
    }
}

proof fn pauses_keep_one_draft_each(
    pending: Seq<CommandView>,
    torrents: Seq<crate::app::TorrentDisplayState>,
    hashes: Seq<Seq<u8>>,
)
    requires
        one_draft_each(pending),
    ensures
        one_draft_each(pauses_toggled(pending, torrents, hashes)),
    decreases hashes.len(),
{
    if hashes.len() > 0 {
        pauses_keep_one_draft_each(pending, torrents, hashes.drop_last());
        drafting_keeps_one_draft_each(
            pauses_toggled(pending, torrents, hashes.drop_last()),
            pause_draft(torrents, hashes.last()),
        );
    }
}

proof fn deletes_keep_one_draft_each(
    pending: Seq<CommandView>,
    hashes: Seq<Seq<u8>>,
    delete_files: bool,
)
    requires
        one_draft_each(pending),
    ensures
        one_draft_each(deletes_toggled(pending, hashes, delete_files)),
    decreases hashes.len(),
{
    if hashes.len() > 0 {
        deletes_keep_one_draft_each(pending, hashes.drop_last(), delete_files);
        drafting_keeps_one_draft_each(
            deletes_toggled(pending, hashes.drop_last(), delete_files),
            delete_draft(hashes.last(), delete_files),
        );
    }
}

proof fn pruning_leaves_what_is_live(m: ManagementModel)
    ensures
        forall|k: int|
            0 <= k < pruned(m).tm.pending_commands.len() ==> m.is_live(
                (#[trigger] pruned(m).tm.pending_commands[k]).info_hash,
            ),
        forall|k: int|
            0 <= k < pruned(m).tm.selected_hashes.len() ==> m.is_live(
                #[trigger] pruned(m).tm.selected_hashes[k],
            ),
        one_draft_each(m.tm.pending_commands) ==> one_draft_each(pruned(m).tm.pending_commands),
{
    let test = |c: CommandView| m.is_live(c.info_hash);
    let live = |h: Seq<u8>| m.is_live(h);
    kept_each(m.tm.pending_commands, test);
    kept_each(m.tm.selected_hashes, live);
    if one_draft_each(m.tm.pending_commands) {
        kept_drafts_are_single(m.tm.pending_commands, test);
    }
}

pub(crate) proof fn finishing_keeps_the_pruned(m: ManagementModel)
    ensures
        finished(m).tm.pending_commands == pruned(m).tm.pending_commands,
        finished(m).tm.selected_hashes == pruned(m).tm.selected_hashes,
{
}

pub(crate) proof fn starting_keeps_the_pruned(m: ManagementModel)
    ensures
        started(m).tm.pending_commands == kept(
            m.tm.pending_commands,
            |c: CommandView| m.is_live(c.info_hash),
        ),
        started(m).tm.selected_hashes == kept(m.tm.selected_hashes, |h: Seq<u8>| m.is_live(h)),
        started(m).torrents == m.torrents,
{
    let clean = m.with_tm(ManagementView { status_message: None, ..m.tm });
    assert((|c: CommandView| m.is_live(c.info_hash)) =~= (|c: CommandView|
        clean.is_live(c.info_hash)));
    assert((|h: Seq<u8>| m.is_live(h)) =~= (|h: Seq<u8>| clean.is_live(h)));
}

#[verifier::spinoff_prover]
#[verifier::rlimit(80)]
proof fn acting_keeps_one_draft_each(m: ManagementModel, action: TorrentManagementAction)
    requires
        one_draft_each(m.tm.pending_commands),
    ensures
        one_draft_each(acted(m, action).tm.pending_commands),
{
    match action {
        TorrentManagementAction::TogglePauseTargets => {
            pauses_keep_one_draft_each(m.tm.pending_commands, m.torrents, targets(m));
        },
        TorrentManagementAction::StartDelete { delete_files } => {
            deletes_keep_one_draft_each(m.tm.pending_commands, targets(m), delete_files);
        },
        TorrentManagementAction::ClearPendingForTargets => {
            let hashes = clear_targets(m);
            kept_drafts_are_single(
                m.tm.pending_commands,
                |c: CommandView| !hashes.contains(c.info_hash),
            );
        },
        _ => {},
    }
}

pub(crate) proof fn acting_leaves_the_torrents_alone(m: ManagementModel, action: TorrentManagementAction)
    ensures
        acted(m, action).torrents == m.torrents,
{
}

/// After every action each torrent has one draft at most, if that held before.
#[verifier::spinoff_prover]
#[verifier::rlimit(80)]
pub proof fn every_action_keeps_one_draft_each(m: ManagementModel, action: TorrentManagementAction)
    requires
        one_draft_each(m.tm.pending_commands),
    ensures
        one_draft_each(reduced(m, action).tm.pending_commands),
{
    starting_keeps_the_pruned(m);
    kept_drafts_are_single(m.tm.pending_commands, |c: CommandView| m.is_live(c.info_hash));
    acting_keeps_one_draft_each(started(m), action);
    pruning_leaves_what_is_live(acted(started(m), action));
    finishing_keeps_the_pruned(acted(started(m), action));
}

proof fn adding_keeps_hashes_apart(list: Seq<Seq<u8>>, more: Seq<Seq<u8>>)
    requires
        list.no_duplicates(),
    ensures
        added(list, more).no_duplicates(),
    decreases more.len(),
{
    if more.len() > 0 {
        adding_keeps_hashes_apart(list, more.drop_last());
    }
}

#[verifier::spinoff_prover]
#[verifier::rlimit(80)]
proof fn acting_keeps_the_selection_apart(m: ManagementModel, action: TorrentManagementAction)
    requires
        m.tm.selected_hashes.no_duplicates(),
    ensures
        acted(m, action).tm.selected_hashes.no_duplicates(),
{
    let selected = m.tm.selected_hashes;
    match action {
        TorrentManagementAction::ToggleCurrentSelection => {
            let hashes = row_target(m);
            kept_no_duplicates(selected, |hash: Seq<u8>| !hashes.contains(hash));
            adding_keeps_hashes_apart(selected, hashes);
        },
        TorrentManagementAction::SelectAllVisible => {
            adding_keeps_hashes_apart(Seq::empty(), listed_hashes(m, visible(m)));
        },
        TorrentManagementAction::ClearPendingForTargets => {
            let hashes = clear_targets(m);
            kept_no_duplicates(selected, |hash: Seq<u8>| !hashes.contains(hash));
        },
        _ => {},
    }
}

/// The selection is a set: after every action no torrent is selected twice, if that
/// held before.
pub proof fn every_action_selects_a_torrent_once(m: ManagementModel, action: TorrentManagementAction)
    requires
        m.tm.selected_hashes.no_duplicates(),
    ensures
        reduced(m, action).tm.selected_hashes.no_duplicates(),
{
    starting_keeps_the_pruned(m);
    kept_no_duplicates(m.tm.selected_hashes, |hash: Seq<u8>| m.is_live(hash));
    let after = acted(started(m), action);
    acting_keeps_the_selection_apart(started(m), action);
    finishing_keeps_the_pruned(after);
    kept_no_duplicates(after.tm.selected_hashes, |hash: Seq<u8>| after.is_live(hash));
}

/// After every action the selection and the drafts are of torrents that are there.
pub proof fn every_action_forgets_torrents_that_are_gone(
    m: ManagementModel,
    action: TorrentManagementAction,
)
    ensures
        forall|k: int|
            0 <= k < reduced(m, action).tm.pending_commands.len() ==> m.is_live(
                (#[trigger] reduced(m, action).tm.pending_commands[k]).info_hash,
            ),
        forall|k: int|
            0 <= k < reduced(m, action).tm.selected_hashes.len() ==> m.is_live(
                #[trigger] reduced(m, action).tm.selected_hashes[k],
            ),
{
    starting_keeps_the_pruned(m);
    acting_leaves_the_torrents_alone(started(m), action);
    pruning_leaves_what_is_live(acted(started(m), action));
    finishing_keeps_the_pruned(acted(started(m), action));
}

/// What commands are for are torrents that are there and on view.
pub proof fn targets_are_visible(m: ManagementModel, k: int)
    requires
        m.well_formed(),
        m.tm.selected_index >= 0,
        0 <= k < targets(m).len(),
    ensures
        m.is_live(targets(m)[k]),
        row_hashes(m).contains(targets(m)[k]),
{
    if selected_visible(m).len() > 0 {
        let all = listed_hashes(m, visible(m));
        let test = |hash: Seq<u8>| m.tm.selected_hashes.contains(hash);
        kept_each(all, test);
        assert(all.contains(targets(m)[k]));
        let j = choose|j: int| 0 <= j < all.len() && all[j] == targets(m)[k];
        let i = visible(m)[j];
        listed_positions_are_known(m);
        kept_each(listed(m), |i: usize| shown(m, i as int));
        assert(listed(m).contains(i) && shown(m, i as int));
        let n = choose|n: int| 0 <= n < listed(m).len() && listed(m)[n] == i;
        assert((i as int) < m.torrents.len());
        rows_are_the_torrents_that_match(m, i);
        assert(m.hashes()[i as int] == m.torrents[i as int].info_hash@);
    } else {
        if let Some(hash) = m.tm.cursor_hash {
            position_of_is_first(row_hashes(m), hash);
        }
        let i = cursor_index(m).unwrap();
        assert(0 <= i < row_hashes(m).len());
        rows_are_live(m, i);
        assert(row_hashes(m).contains(row_hashes(m)[i]));
    }
}

// ---------------------------------------------------------------- the review

/// A review is open only over drafts, with its names at hand and scrolled no
/// further than it goes; a closed one leaves nothing behind.
pub open spec fn review_is_in_order(m: ManagementModel) -> bool {
    if m.tm.confirm_submit {
        &&& m.tm.pending_commands.len() > 0
        &&& m.tm.review_cache is Some
        &&& m.tm.review_scroll_offset <= max_review_scroll(m)
    } else {
        m.tm.review_cache is None && m.tm.review_scroll_offset == 0
    }
}

/// After every action the review is in order.
pub proof fn every_action_leaves_the_review_in_order(
    m: ManagementModel,
    action: TorrentManagementAction,
)
    ensures
        review_is_in_order(reduced(m, action)),
{
}

/// Leaving the screen leaves no query, no selection, no draft and no review
/// behind, and asks for nothing but to leave.
pub proof fn leaving_clears_the_screen(m: ManagementModel)
    ensures
        ({
            let left = reduced(m, TorrentManagementAction::ToNormal).tm;
            &&& !left.is_searching && left.search_query.len() == 0
            &&& left.selected_hashes.len() == 0
            &&& left.pending_commands.len() == 0
            &&& !left.confirm_submit
            &&& left.input_latch is None
            &&& left.status_message is None
        }),
        effects_of(started(m), TorrentManagementAction::ToNormal) == seq![EffectView::ToNormal],
{
    let a = acted(started(m), TorrentManagementAction::ToNormal);
    assert(kept(a.tm.pending_commands, |c: CommandView| a.is_live(c.info_hash)).len() == 0);
    assert(kept(a.tm.selected_hashes, |h: Seq<u8>| a.is_live(h)).len() == 0);
}

/// Sending asks for two things per draft and leaves none.
pub proof fn submitting_sends_every_draft(m: ManagementModel)
    ensures
        ({
            let action = TorrentManagementAction::SubmitPendingCommands;
            &&& effects_of(started(m), action).len() == 2 * started(m).tm.pending_commands.len()
            &&& reduced(m, action).tm.pending_commands.len() == 0
            &&& !reduced(m, action).tm.confirm_submit
        }),
{
    submit_effects_come_in_pairs(started(m).tm.pending_commands);
    let a = acted(started(m), TorrentManagementAction::SubmitPendingCommands);
    assert(kept(a.tm.pending_commands, |c: CommandView| a.is_live(c.info_hash)).len() == 0);
}

/// For each draft, in turn, its request is sent and then its state is shown.
pub proof fn submit_effects_come_in_pairs(pending: Seq<CommandView>)
    ensures
        submit_effects(pending).len() == 2 * pending.len(),
        forall|k: int|
            0 <= k < pending.len() ==> submit_effects(pending)[2 * k] == EffectView::Submit(
                (#[trigger] pending[k]).request,
            ) && submit_effects(pending)[2 * k + 1] == EffectView::Mark(
                pending[k].info_hash,
                pending[k].state,
                pending[k].delete_files,
            ),
    decreases pending.len(),
{
    if pending.len() > 0 {
        submit_effects_come_in_pairs(pending.drop_last());
        assert forall|k: int| 0 <= k < pending.len() implies submit_effects(pending)[2 * k]
            == EffectView::Submit((#[trigger] pending[k]).request) && submit_effects(pending)[2 * k
            + 1] == EffectView::Mark(
            pending[k].info_hash,
            pending[k].state,
            pending[k].delete_files,
        ) by {
            if k < pending.len() - 1 {
                assert(pending.drop_last()[k] == pending[k]);
            }
        }
    }
}

proof fn acting_on_the_search_keeps_the_selection(
    m: ManagementModel,
    action: TorrentManagementAction,
)
    requires
        action is StartSearch || action is SearchInsert || action is SearchBackspace
            || action is SearchCommit || action is SearchCancel || action is ToggleSearchMode,
    ensures
        acted(m, action).tm.selected_hashes == m.tm.selected_hashes,
{
}

/// Typing, ending and dropping a search never change the selection, whatever the
/// query matches.
pub proof fn searching_keeps_the_selection(m: ManagementModel, action: TorrentManagementAction)
    requires
        action is StartSearch || action is SearchInsert || action is SearchBackspace
            || action is SearchCommit || action is SearchCancel || action is ToggleSearchMode,
    ensures
        reduced(m, action).tm.selected_hashes == started(m).tm.selected_hashes,
{
    let s = started(m);
    let a = acted(s, action);
    starting_keeps_the_pruned(m);
    acting_leaves_the_torrents_alone(s, action);
    acting_on_the_search_keeps_the_selection(s, action);
    finishing_keeps_the_pruned(a);
    let live = |h: Seq<u8>| m.is_live(h);
    let live_after = |h: Seq<u8>| a.is_live(h);
    assert(live =~= live_after);
    kept_each(m.tm.selected_hashes, live);
    kept_all(s.tm.selected_hashes, live);
}

} // verus!
