//! What the keys of the torrent management screen do.
use crate::app::{
    torrent_hashes, AppMode, CommandView, ManagementView, RequestView, TorrentControlState, TorrentDisplayState,
};
use crate::geometry::{min_int, monus};
use crate::keys::{press, KeyCode, KeyEvent, KeyEventKind, TerminalEvent};
use crate::lists::{
    added, contains_push, kept, kept_all, kept_contains, kept_each, kept_no_duplicates,
    position_of_unique,
};
use crate::order::{positions, stably_sorted_keeps_items};
use crate::text::hex_text;
use crate::tui::screens::peers::row_laws::distinct_hashes;
use crate::tui::screens::torrents::drafts::{
    clear_targets, command_hashes, cursor_index, cursor_normalized, draft_toggled, is_drafted, pruned, row_target,
    selected_visible, targets, without_draft,
};
use crate::tui::screens::torrents::laws::{
    acting_leaves_the_torrents_alone, cursor_is_on_a_row, finishing_keeps_the_pruned,
    review_is_in_order, rows_are_live, rows_depend_on_query_sort_and_selection,
    starting_keeps_the_pruned, targets_are_visible,
};
use crate::tui::screens::torrents::model::ManagementModel;
use crate::tui::screens::torrents::review::review_normalized;
use crate::tui::screens::torrents::rows::{
    find, list_precedes, listed, listed_hashes, listed_positions_are_known, row_hashes, row_order,
    row_order_is_visible, shown, visible,
};
use crate::tui::screens::torrents::{
    acted, acted_on, delete_draft, deletes_toggled, effects_of, finished, key_action, latched, marked_by,
    marked_by_all, marking_keeps_the_hashes, moved_to, page_rows, pause_draft, pauses_toggled, reduced,
    requests_in, started, submit_effects, EffectView, TorrentManagementAction,
};
use vstd::prelude::*;

verus! {

/// The screen after a key went down.
#[verifier::opaque]
pub open spec fn after(m: ManagementModel, code: KeyCode) -> ManagementModel {
    let event = press(code);
    let seen = latched(event, AppMode::TorrentManagement, m);
    match acted_on(event, AppMode::TorrentManagement, m.tm) {
        Some(action) => reduced(seen, action),
        None => seen,
    }
}

/// What a key asks of the program.
#[verifier::opaque]
pub open spec fn asked(m: ManagementModel, code: KeyCode) -> Seq<EffectView> {
    let event = press(code);
    match acted_on(event, AppMode::TorrentManagement, m.tm) {
        Some(action) => effects_of(
            started(latched(event, AppMode::TorrentManagement, m)),
            action,
        ),
        None => Seq::empty(),
    }
}

/// The table takes the keys: no review is open, no query is typed, and the key is not the
/// one that is held back.
pub open spec fn in_table(m: ManagementModel, code: KeyCode) -> bool {
    &&& !m.tm.confirm_submit
    &&& !m.tm.is_searching
    &&& m.tm.input_latch != Some(code)
}

// ------------------------------------------------------------------ the drafts

/// A draft that removes a torrent, with its files or without.
pub open spec fn removes(command: CommandView, with_files: bool) -> bool {
    &&& command.delete_files == with_files
    &&& command.state == TorrentControlState::Deleting
    &&& command.request == RequestView::Delete(hex_text(command.info_hash), with_files)
}

/// A draft that pauses a torrent, or lets one go on that is paused.
pub open spec fn pauses_or_resumes(
    command: CommandView,
    torrents: Seq<TorrentDisplayState>,
) -> bool {
    &&& !command.delete_files
    &&& exists|i: int|
        0 <= i < torrents.len() && (#[trigger] torrents[i]).info_hash@ == command.info_hash && if
        torrents[i].torrent_control_state == TorrentControlState::Paused {
            command.request == RequestView::Resume(hex_text(command.info_hash)) && command.state
                == TorrentControlState::Running
        } else {
            command.request == RequestView::Pause(hex_text(command.info_hash)) && command.state
                == TorrentControlState::Paused
        }
}

proof fn toggling_adds_one_at_most(pending: Seq<CommandView>, command: CommandView)
    ensures
        forall|c: CommandView| #[trigger]
            draft_toggled(pending, command).contains(c) ==> pending.contains(c) || c == command,
{
    let rest = without_draft(pending, command.info_hash);
    kept_contains(pending, |c: CommandView| c.info_hash != command.info_hash);
    assert forall|c: CommandView| #[trigger]
        draft_toggled(pending, command).contains(c) implies pending.contains(c) || c == command by {
        contains_push(rest, command, c);
    }
}

proof fn deletes_add_removals(
    pending: Seq<CommandView>,
    hashes: Seq<Seq<u8>>,
    with_files: bool,
)
    ensures
        forall|c: CommandView| #[trigger]
            deletes_toggled(pending, hashes, with_files).contains(c) ==> pending.contains(c)
                || removes(c, with_files),
    decreases hashes.len(),
{
    if hashes.len() > 0 {
        deletes_add_removals(pending, hashes.drop_last(), with_files);
        toggling_adds_one_at_most(
            deletes_toggled(pending, hashes.drop_last(), with_files),
            delete_draft(hashes.last(), with_files),
        );
    }
}

/// What a pause draft looks like, where the torrent may be gone.
spec fn is_pause_draft(c: CommandView, torrents: Seq<TorrentDisplayState>) -> bool {
    c == pause_draft(torrents, c.info_hash)
}

proof fn pauses_add_pauses(
    pending: Seq<CommandView>,
    torrents: Seq<TorrentDisplayState>,
    hashes: Seq<Seq<u8>>,
)
    ensures
        forall|c: CommandView| #[trigger]
            pauses_toggled(pending, torrents, hashes).contains(c) ==> pending.contains(c)
                || is_pause_draft(c, torrents),
    decreases hashes.len(),
{
    if hashes.len() > 0 {
        pauses_add_pauses(pending, torrents, hashes.drop_last());
        toggling_adds_one_at_most(
            pauses_toggled(pending, torrents, hashes.drop_last()),
            pause_draft(torrents, hashes.last()),
        );
    }
}

#[verifier::spinoff_prover]
#[verifier::rlimit(80)]
proof fn acting_adds_its_drafts(m: ManagementModel, action: TorrentManagementAction)
    ensures
        forall|c: CommandView| #[trigger]
            acted(m, action).tm.pending_commands.contains(c) ==> m.tm.pending_commands.contains(c)
                || match action {
                TorrentManagementAction::StartDelete { delete_files } => removes(c, delete_files),
                TorrentManagementAction::TogglePauseTargets => is_pause_draft(c, m.torrents),
                _ => false,
            },
{
    let pending = m.tm.pending_commands;
    match action {
        TorrentManagementAction::StartDelete { delete_files } => {
            deletes_add_removals(pending, targets(m), delete_files);
        },
        TorrentManagementAction::TogglePauseTargets => {
            pauses_add_pauses(pending, m.torrents, targets(m));
        },
        TorrentManagementAction::ClearPendingForTargets => {
            let hashes = clear_targets(m);
            kept_contains(pending, |c: CommandView| !hashes.contains(c.info_hash));
        },
        _ => {},
    }
}

#[verifier::spinoff_prover]
#[verifier::rlimit(80)]
proof fn reducing_adds_its_drafts(m: ManagementModel, action: TorrentManagementAction)
    ensures
        forall|c: CommandView| #[trigger]
            reduced(m, action).tm.pending_commands.contains(c) ==> m.is_live(c.info_hash) && (
            m.tm.pending_commands.contains(c) || match action {
                TorrentManagementAction::StartDelete { delete_files } => removes(c, delete_files),
                TorrentManagementAction::TogglePauseTargets => is_pause_draft(c, m.torrents),
                _ => false,
            }),
{
    let s = started(m);
    let a = acted(s, action);
    starting_keeps_the_pruned(m);
    kept_contains(m.tm.pending_commands, |c: CommandView| m.is_live(c.info_hash));
    acting_adds_its_drafts(s, action);
    acting_leaves_the_torrents_alone(s, action);
    finishing_keeps_the_pruned(a);
    kept_contains(a.tm.pending_commands, |c: CommandView| a.is_live(c.info_hash));
    assert forall|c: CommandView| #[trigger]
        reduced(m, action).tm.pending_commands.contains(c) implies m.is_live(c.info_hash) && (
    m.tm.pending_commands.contains(c) || match action {
        TorrentManagementAction::StartDelete { delete_files } => removes(c, delete_files),
        TorrentManagementAction::TogglePauseTargets => is_pause_draft(c, m.torrents),
        _ => false,
    }) by {
        assert(a.tm.pending_commands.contains(c));
        assert(a.is_live(c.info_hash));
    }
}

proof fn live_torrents_are_found(torrents: Seq<TorrentDisplayState>, hash: Seq<u8>)
    requires
        crate::app::torrent_hashes(torrents).contains(hash),
    ensures
        find(torrents, hash) matches Some(i) && 0 <= i < torrents.len() && torrents[i].info_hash@
            == hash,
    decreases torrents.len(),
{
    let hashes = crate::app::torrent_hashes(torrents);
    let k = choose|k: int| 0 <= k < hashes.len() && hashes[k] == hash;
    crate::lists::position_of_is_first(hashes, hash);
    assert(hashes[k] == torrents[k].info_hash@);
}

/// In the table d drafts removals that keep the files, D removals that take them along,
/// and p pauses, or lets go on what is paused. No other key drafts anything, in the table
/// or elsewhere.
#[verifier::spinoff_prover]
#[verifier::rlimit(80)]
pub proof fn each_key_drafts_its_own(m: ManagementModel, code: KeyCode, c: CommandView)
    requires
        after(m, code).tm.pending_commands.contains(c),
        !m.tm.pending_commands.contains(c),
    ensures
        in_table(m, code),
        m.is_live(c.info_hash),
        code == KeyCode::Char('d') || code == KeyCode::Char('D') || code == KeyCode::Char('p'),
        code == KeyCode::Char('d') ==> removes(c, false),
        code == KeyCode::Char('D') ==> removes(c, true),
        code == KeyCode::Char('p') ==> pauses_or_resumes(c, m.torrents),
        c.delete_files ==> code == KeyCode::Char('D'),
{
    reveal(after);
    let event = press(code);
    let seen = latched(event, AppMode::TorrentManagement, m);
    let action = acted_on(event, AppMode::TorrentManagement, m.tm);
    assert(action is Some);
    reducing_adds_its_drafts(seen, action->0);
    if action->0 == TorrentManagementAction::TogglePauseTargets {
        live_torrents_are_found(m.torrents, c.info_hash);
        assert(c == pause_draft(m.torrents, c.info_hash));
    }
}

// ------------------------------------------- what every target gets, and no other

proof fn toggling_one(pending: Seq<CommandView>, command: CommandView, c: CommandView)
    ensures
        c.info_hash != command.info_hash ==> (draft_toggled(pending, command).contains(c)
            <==> pending.contains(c)),
        c.info_hash == command.info_hash ==> (draft_toggled(pending, command).contains(c) <==> c
            == command && !is_drafted(pending, command)),
{
    let test = |x: CommandView| x.info_hash != command.info_hash;
    let rest = without_draft(pending, command.info_hash);
    kept_contains(pending, test);
    assert(rest.contains(c) <==> pending.contains(c) && test(c));
    contains_push(rest, command, c);
}

proof fn drafted_or_not(a: Seq<CommandView>, b: Seq<CommandView>, command: CommandView)
    requires
        forall|c: CommandView|
            c.info_hash == command.info_hash ==> (#[trigger] a.contains(c) <==> b.contains(c)),
    ensures
        is_drafted(a, command) == is_drafted(b, command),
{
    if is_drafted(a, command) {
        let k = choose|k: int|
            0 <= k < a.len() && (#[trigger] a[k]).info_hash == command.info_hash && a[k].request
                == command.request;
        assert(a.contains(a[k]));
        assert(b.contains(a[k]));
        let j = choose|j: int| 0 <= j < b.len() && b[j] == a[k];
        assert(b[j].info_hash == command.info_hash);
    }
    if is_drafted(b, command) {
        let k = choose|k: int|
            0 <= k < b.len() && (#[trigger] b[k]).info_hash == command.info_hash && b[k].request
                == command.request;
        assert(b.contains(b[k]));
        assert(a.contains(b[k]));
        let j = choose|j: int| 0 <= j < a.len() && a[j] == b[k];
        assert(a[j].info_hash == command.info_hash);
    }
}

proof fn deletes_reach_every_target(
    pending: Seq<CommandView>,
    hashes: Seq<Seq<u8>>,
    with_files: bool,
    c: CommandView,
)
    requires
        hashes.no_duplicates(),
    ensures
        !hashes.contains(c.info_hash) ==> (deletes_toggled(pending, hashes, with_files).contains(c)
            <==> pending.contains(c)),
        hashes.contains(c.info_hash) ==> (deletes_toggled(pending, hashes, with_files).contains(c)
            <==> c == delete_draft(c.info_hash, with_files) && !is_drafted(
            pending,
            delete_draft(c.info_hash, with_files),
        )),
    decreases hashes.len(),
{
    if hashes.len() > 0 {
        let head = hashes.drop_last();
        let last = hashes.last();
        assert(hashes =~= head.push(last));
        assert(head.no_duplicates()) by {
            assert forall|i: int, j: int| 0 <= i < head.len() && 0 <= j < head.len() && i
                != j implies head[i] != head[j] by {
                assert(head[i] == hashes[i] && head[j] == hashes[j]);
            }
        }
        assert(!head.contains(last)) by {
            if head.contains(last) {
                let i = choose|i: int| 0 <= i < head.len() && head[i] == last;
                assert(hashes[i] == hashes[hashes.len() - 1]);
            }
        }
        contains_push(head, last, c.info_hash);
        let before = deletes_toggled(pending, head, with_files);
        let command = delete_draft(last, with_files);
        deletes_reach_every_target(pending, head, with_files, c);
        toggling_one(before, command, c);
        if c.info_hash == last {
            assert forall|x: CommandView|
                x.info_hash == command.info_hash implies (#[trigger] before.contains(x)
                <==> pending.contains(x)) by {
                deletes_reach_every_target(pending, head, with_files, x);
            }
            drafted_or_not(before, pending, command);
        }
    }
}

proof fn pauses_reach_every_target(
    pending: Seq<CommandView>,
    torrents: Seq<TorrentDisplayState>,
    hashes: Seq<Seq<u8>>,
    c: CommandView,
)
    requires
        hashes.no_duplicates(),
    ensures
        !hashes.contains(c.info_hash) ==> (pauses_toggled(pending, torrents, hashes).contains(c)
            <==> pending.contains(c)),
        hashes.contains(c.info_hash) ==> (pauses_toggled(pending, torrents, hashes).contains(c)
            <==> c == pause_draft(torrents, c.info_hash) && !is_drafted(
            pending,
            pause_draft(torrents, c.info_hash),
        )),
    decreases hashes.len(),
{
    if hashes.len() > 0 {
        let head = hashes.drop_last();
        let last = hashes.last();
        assert(hashes =~= head.push(last));
        assert(head.no_duplicates()) by {
            assert forall|i: int, j: int| 0 <= i < head.len() && 0 <= j < head.len() && i
                != j implies head[i] != head[j] by {
                assert(head[i] == hashes[i] && head[j] == hashes[j]);
            }
        }
        assert(!head.contains(last)) by {
            if head.contains(last) {
                let i = choose|i: int| 0 <= i < head.len() && head[i] == last;
                assert(hashes[i] == hashes[hashes.len() - 1]);
            }
        }
        contains_push(head, last, c.info_hash);
        let before = pauses_toggled(pending, torrents, head);
        let command = pause_draft(torrents, last);
        pauses_reach_every_target(pending, torrents, head, c);
        toggling_one(before, command, c);
        if c.info_hash == last {
            assert forall|x: CommandView|
                x.info_hash == command.info_hash implies (#[trigger] before.contains(x)
                <==> pending.contains(x)) by {
                pauses_reach_every_target(pending, torrents, head, x);
            }
            drafted_or_not(before, pending, command);
        }
    }
}

// ------------------------------------------------------------ the state at rest

/// What holds after every action: the cursor is on a row, selection and drafts are of
/// torrents that are there, and the review is in order.
pub open spec fn at_rest(m: ManagementModel) -> bool {
    &&& m.well_formed()
    &&& cursor_is_on_a_row(m)
    &&& review_is_in_order(m)
    &&& forall|k: int|
        0 <= k < m.tm.pending_commands.len() ==> m.is_live(
            (#[trigger] m.tm.pending_commands[k]).info_hash,
        )
    &&& forall|k: int|
        0 <= k < m.tm.selected_hashes.len() ==> m.is_live(#[trigger] m.tm.selected_hashes[k])
}

#[verifier::spinoff_prover]
#[verifier::rlimit(80)]
proof fn rows_are_apart(m: ManagementModel)
    requires
        m.well_formed(),
    ensures
        row_order(m).no_duplicates(),
        row_hashes(m).no_duplicates(),
        visible(m).no_duplicates(),
        listed_hashes(m, visible(m)).no_duplicates(),
        forall|h: Seq<u8>| #[trigger]
            row_hashes(m).contains(h) <==> listed_hashes(m, visible(m)).contains(h),
{
    broadcast use vstd::seq_lib::group_to_multiset_ensures;

    let all = positions(m.torrents.len());
    let before = |a: usize, b: usize| list_precedes(m, a as int, b as int);
    let test = |i: usize| shown(m, i as int);
    assert(all.no_duplicates()) by {
        assert forall|i: int, j: int| 0 <= i < all.len() && 0 <= j < all.len() && i
            != j implies all[i] != all[j] by {
            assert(all[i] == i as usize && all[j] == j as usize);
        }
    }
    stably_sorted_keeps_items(all, before);
    all.lemma_multiset_has_no_duplicates();
    assert(listed(m).to_multiset() == all.to_multiset());
    listed(m).lemma_multiset_has_no_duplicates_conv();
    kept_no_duplicates(listed(m), test);
    row_order_is_visible(m);
    visible(m).lemma_multiset_has_no_duplicates();
    row_order(m).lemma_multiset_has_no_duplicates_conv();
    listed_positions_are_known(m);
    kept_each(listed(m), test);
    let shown_rows = visible(m);
    assert forall|k: int| 0 <= k < shown_rows.len() implies #[trigger] shown_rows[k]
        < m.torrents.len() by {
        assert(listed(m).contains(shown_rows[k]));
    }
    hashes_are_apart(m, row_order(m));
    hashes_are_apart(m, shown_rows);
    assert forall|h: Seq<u8>| #[trigger] row_hashes(m).contains(h) <==> listed_hashes(
        m,
        shown_rows,
    ).contains(h) by {
        if row_hashes(m).contains(h) {
            let k = choose|k: int| 0 <= k < row_hashes(m).len() && row_hashes(m)[k] == h;
            let i = row_order(m)[k];
            assert(row_order(m).contains(i));
            assert(visible(m).to_multiset().count(i) > 0);
            assert(visible(m).contains(i));
            let j = choose|j: int| 0 <= j < shown_rows.len() && shown_rows[j] == i;
            assert(listed_hashes(m, shown_rows)[j] == h);
        }
        if listed_hashes(m, shown_rows).contains(h) {
            let k = choose|k: int|
                0 <= k < shown_rows.len() && listed_hashes(m, shown_rows)[k] == h;
            let i = shown_rows[k];
            assert(visible(m).contains(i));
            assert(row_order(m).to_multiset().count(i) > 0);
            assert(row_order(m).contains(i));
            let j = choose|j: int| 0 <= j < row_order(m).len() && row_order(m)[j] == i;
            assert(row_hashes(m)[j] == h);
        }
    }
}

proof fn hashes_are_apart(m: ManagementModel, order: Seq<usize>)
    requires
        m.well_formed(),
        order.no_duplicates(),
        forall|k: int| 0 <= k < order.len() ==> #[trigger] order[k] < m.torrents.len(),
    ensures
        listed_hashes(m, order).no_duplicates(),
{
    let hashes = listed_hashes(m, order);
    assert forall|i: int, j: int| 0 <= i < hashes.len() && 0 <= j < hashes.len() && i
        != j implies hashes[i] != hashes[j] by {
        assert(m.hashes()[order[i] as int] == hashes[i]);
        assert(m.hashes()[order[j] as int] == hashes[j]);
        assert(order[i] != order[j]);
    }
}

/// The state with the message gone.
pub open spec fn quiet(m: ManagementModel) -> ManagementModel {
    m.with_tm(ManagementView { status_message: None, ..m.tm })
}

proof fn cursor_at_rest_stays(m: ManagementModel)
    requires
        m.well_formed(),
        cursor_is_on_a_row(m),
    ensures
        cursor_normalized(m) == m,
{
    rows_are_apart(m);
    if row_hashes(m).len() > 0 {
        position_of_unique(row_hashes(m), m.tm.selected_index);
    }
    assert(cursor_normalized(m) =~= m);
}

proof fn nothing_to_prune(m: ManagementModel)
    requires
        forall|k: int|
            0 <= k < m.tm.pending_commands.len() ==> m.is_live(
                (#[trigger] m.tm.pending_commands[k]).info_hash,
            ),
        forall|k: int|
            0 <= k < m.tm.selected_hashes.len() ==> m.is_live(#[trigger] m.tm.selected_hashes[k]),
    ensures
        pruned(m) == m,
{
    kept_all(m.tm.pending_commands, |c: CommandView| m.is_live(c.info_hash));
    kept_all(m.tm.selected_hashes, |h: Seq<u8>| m.is_live(h));
    assert(pruned(m) =~= m);
}

proof fn starting_at_rest(m: ManagementModel)
    requires
        at_rest(m),
    ensures
        started(m) == quiet(m),
        at_rest(quiet(m)),
{
    let q = quiet(m);
    rows_depend_on_query_sort_and_selection(m, q);
    nothing_to_prune(q);
    cursor_at_rest_stays(q);
    assert(review_normalized(q) =~= q);
}

proof fn seeing_a_key_keeps_rest(m: ManagementModel, code: KeyCode)
    requires
        at_rest(m),
    ensures
        at_rest(latched(press(code), AppMode::TorrentManagement, m)),
        row_hashes(latched(press(code), AppMode::TorrentManagement, m)) == row_hashes(m),
{
    rows_depend_on_query_sort_and_selection(
        m,
        latched(press(code), AppMode::TorrentManagement, m),
    );
}

/// Whether a torrent is one that commands are for: the selected ones on view, or if none
/// is, the one under the cursor.
pub open spec fn is_target(m: ManagementModel, hash: Seq<u8>) -> bool {
    let rows = row_hashes(m);
    if exists|k: int| 0 <= k < rows.len() && m.tm.selected_hashes.contains(#[trigger] rows[k]) {
        rows.contains(hash) && m.tm.selected_hashes.contains(hash)
    } else {
        m.tm.cursor_hash == Some(hash)
    }
}

#[verifier::spinoff_prover]
#[verifier::rlimit(80)]
proof fn targets_at_rest(m: ManagementModel)
    requires
        at_rest(m),
    ensures
        targets(m).no_duplicates(),
        forall|h: Seq<u8>| #[trigger] targets(m).contains(h) <==> is_target(m, h),
        forall|h: Seq<u8>| #[trigger] targets(m).contains(h) ==> m.is_live(h),
{
    let rows = row_hashes(m);
    let on_view = listed_hashes(m, visible(m));
    let test = |hash: Seq<u8>| m.tm.selected_hashes.contains(hash);
    rows_are_apart(m);
    kept_no_duplicates(on_view, test);
    kept_contains(on_view, test);
    kept_each(on_view, test);
    cursor_at_rest_stays(m);
    let some = selected_visible(m);
    if some.len() > 0 {
        assert(some.contains(some[0]));
        assert(rows.contains(some[0]));
        let k = choose|k: int| 0 <= k < rows.len() && rows[k] == some[0];
        assert(m.tm.selected_hashes.contains(rows[k]));
    } else {
        if exists|k: int| 0 <= k < rows.len() && m.tm.selected_hashes.contains(
            #[trigger] rows[k],
        ) {
            let k = choose|k: int|
                0 <= k < rows.len() && m.tm.selected_hashes.contains(#[trigger] rows[k]);
            assert(rows.contains(rows[k]));
            assert(on_view.contains(rows[k]));
            assert(some.contains(rows[k]));
        }
        if rows.len() > 0 {
            position_of_unique(rows, m.tm.selected_index);
            assert(cursor_index(m) == Some(m.tm.selected_index));
            assert(row_target(m) =~= seq![rows[m.tm.selected_index]]);
        }
    }
    assert forall|h: Seq<u8>| #[trigger] targets(m).contains(h) <==> is_target(m, h) by {
        if some.len() == 0 && rows.len() > 0 {
            let one = seq![rows[m.tm.selected_index]];
            assert(one[0] == rows[m.tm.selected_index]);
            if one.contains(h) {
                let j = choose|j: int| 0 <= j < one.len() && one[j] == h;
                assert(j == 0);
            }
        }
    }
    assert forall|h: Seq<u8>| #[trigger] targets(m).contains(h) implies m.is_live(h) by {
        let k = choose|k: int| 0 <= k < targets(m).len() && targets(m)[k] == h;
        targets_are_visible(m, k);
    }
}

/// Whether a request is drafted for a torrent.
pub open spec fn has_draft(m: ManagementModel, hash: Seq<u8>, request: RequestView) -> bool {
    exists|k: int|
        0 <= k < m.tm.pending_commands.len() && (#[trigger] m.tm.pending_commands[k]).info_hash
            == hash && m.tm.pending_commands[k].request == request
}

proof fn finished_drafts(m: ManagementModel, c: CommandView)
    ensures
        finished(m).tm.pending_commands.contains(c) <==> m.tm.pending_commands.contains(c)
            && m.is_live(c.info_hash),
{
    finishing_keeps_the_pruned(m);
    kept_contains(m.tm.pending_commands, |x: CommandView| m.is_live(x.info_hash));
    let test = |x: CommandView| m.is_live(x.info_hash);
    assert(kept(m.tm.pending_commands, test).contains(c) <==> m.tm.pending_commands.contains(c)
        && test(c));
}

proof fn pause_drafts_are_those(m: ManagementModel, c: CommandView)
    requires
        m.well_formed(),
        m.is_live(c.info_hash),
    ensures
        pauses_or_resumes(c, m.torrents) <==> c == pause_draft(m.torrents, c.info_hash),
{
    live_torrents_are_found(m.torrents, c.info_hash);
    let i = find(m.torrents, c.info_hash)->0;
    let draft = pause_draft(m.torrents, c.info_hash);
    assert(m.torrents[i].info_hash@ == draft.info_hash);
    if pauses_or_resumes(c, m.torrents) {
        let j = choose|j: int|
            0 <= j < m.torrents.len() && (#[trigger] m.torrents[j]).info_hash@ == c.info_hash && if
            m.torrents[j].torrent_control_state == TorrentControlState::Paused {
                c.request == RequestView::Resume(hex_text(c.info_hash)) && c.state
                    == TorrentControlState::Running
            } else {
                c.request == RequestView::Pause(hex_text(c.info_hash)) && c.state
                    == TorrentControlState::Paused
            };
        assert(m.hashes()[i] == m.torrents[i].info_hash@);
        assert(m.hashes()[j] == m.torrents[j].info_hash@);
        assert(i == j);
        assert(c =~= draft);
    }
}

/// The targets of a state at rest once a key was seen.
spec fn hit(m: ManagementModel, code: KeyCode) -> Seq<Seq<u8>> {
    targets(quiet(latched(press(code), AppMode::TorrentManagement, m)))
}

proof fn hits_are_targets(m: ManagementModel, code: KeyCode)
    requires
        at_rest(m),
    ensures
        hit(m, code).no_duplicates(),
        forall|h: Seq<u8>| #[trigger] hit(m, code).contains(h) <==> is_target(m, h),
        forall|h: Seq<u8>| #[trigger] hit(m, code).contains(h) ==> m.is_live(h),
        started(latched(press(code), AppMode::TorrentManagement, m)) == quiet(
            latched(press(code), AppMode::TorrentManagement, m),
        ),
{
    let seen = latched(press(code), AppMode::TorrentManagement, m);
    seeing_a_key_keeps_rest(m, code);
    starting_at_rest(seen);
    let s = quiet(seen);
    rows_depend_on_query_sort_and_selection(m, s);
    targets_at_rest(s);
    assert forall|h: Seq<u8>| #[trigger] hit(m, code).contains(h) <==> is_target(m, h) by {
        assert(is_target(s, h) == is_target(m, h));
    }
}

#[verifier::spinoff_prover]
#[verifier::rlimit(80)]
proof fn drafts_after_a_key(m: ManagementModel, code: KeyCode, c: CommandView)
    requires
        at_rest(m),
        in_table(m, code),
        code == KeyCode::Char('d') || code == KeyCode::Char('D') || code == KeyCode::Char('p'),
    ensures
        after(m, code).tm.pending_commands.contains(c) <==> m.is_live(c.info_hash) && if hit(
            m,
            code,
        ).len() == 0 {
            m.tm.pending_commands.contains(c)
        } else if code == KeyCode::Char('p') {
            pauses_toggled(m.tm.pending_commands, m.torrents, hit(m, code)).contains(c)
        } else {
            deletes_toggled(
                m.tm.pending_commands,
                hit(m, code),
                code == KeyCode::Char('D'),
            ).contains(c)
        },
{
    let seen = latched(press(code), AppMode::TorrentManagement, m);
    let action = if code == KeyCode::Char('p') {
        TorrentManagementAction::TogglePauseTargets
    } else {
        TorrentManagementAction::StartDelete { delete_files: code == KeyCode::Char('D') }
    };
    one_key(m, code, action);
    hits_are_targets(m, code);
    let s = base(m);
    assert(quiet(seen) =~= s);
    finished_drafts(acted(s, action), c);
}

/// In the table d, D and p give every target its draft, in place of what was drafted for
/// it; a target that had that very draft loses it. All other torrents keep theirs.
#[verifier::spinoff_prover]
#[verifier::rlimit(80)]
pub proof fn every_target_is_drafted_and_no_other(m: ManagementModel, code: KeyCode, c: CommandView)
    requires
        at_rest(m),
        in_table(m, code),
        code == KeyCode::Char('d') || code == KeyCode::Char('D') || code == KeyCode::Char('p'),
    ensures
        !is_target(m, c.info_hash) ==> (after(m, code).tm.pending_commands.contains(c)
            <==> m.tm.pending_commands.contains(c)),
        is_target(m, c.info_hash) && code != KeyCode::Char('p') ==> {
            let with_files = code == KeyCode::Char('D');
            after(m, code).tm.pending_commands.contains(c) <==> removes(c, with_files)
                && !has_draft(
                m,
                c.info_hash,
                RequestView::Delete(hex_text(c.info_hash), with_files),
            )
        },
        is_target(m, c.info_hash) && code == KeyCode::Char('p') ==> (after(
            m,
            code,
        ).tm.pending_commands.contains(c) <==> pauses_or_resumes(c, m.torrents) && !has_draft(
            m,
            c.info_hash,
            c.request,
        )),
{
    hits_are_targets(m, code);
    drafts_after_a_key(m, code, c);
    let hashes = hit(m, code);
    if m.tm.pending_commands.contains(c) {
        let k = choose|k: int| 0 <= k < m.tm.pending_commands.len() && m.tm.pending_commands[k] == c;
        assert(m.is_live(m.tm.pending_commands[k].info_hash));
    }
    assert(hashes.contains(c.info_hash) <==> is_target(m, c.info_hash));
    if hashes.len() > 0 {
        if code == KeyCode::Char('p') {
            pauses_reach_every_target(m.tm.pending_commands, m.torrents, hashes, c);
            if hashes.contains(c.info_hash) {
                pause_drafts_are_those(m, c);
            }
        } else {
            let with_files = code == KeyCode::Char('D');
            deletes_reach_every_target(m.tm.pending_commands, hashes, with_files, c);
            assert(removes(c, with_files) <==> c == delete_draft(c.info_hash, with_files));
        }
    }
}

// ---------------------------------------------------------------- one key at rest

/// The state that an action starts from: no message, and no key held back.
pub open spec fn base(m: ManagementModel) -> ManagementModel {
    m.with_tm(ManagementView { status_message: None, input_latch: None, ..m.tm })
}

#[verifier::spinoff_prover]
#[verifier::rlimit(80)]
proof fn one_key(m: ManagementModel, code: KeyCode, action: TorrentManagementAction)
    requires
        at_rest(m),
        m.tm.input_latch != Some(code),
        key_action(code, m.tm) == Some(action),
        action != TorrentManagementAction::StartSearch,
    ensures
        after(m, code) == finished(acted(base(m), action)),
        asked(m, code) == effects_of(base(m), action),
        at_rest(base(m)),
        row_hashes(base(m)) == row_hashes(m),
{
    reveal(after);
    reveal(asked);
    let seen = latched(press(code), AppMode::TorrentManagement, m);
    seeing_a_key_keeps_rest(m, code);
    starting_at_rest(seen);
    assert(quiet(seen) =~= base(m));
    rows_depend_on_query_sort_and_selection(m, base(m));
}

// ------------------------------------------------------------------ the cursor

/// What is left as it is when an action ends with the cursor on a row.
proof fn finishing_with_the_cursor_on_a_row(a: ManagementModel)
    requires
        a.well_formed(),
        cursor_is_on_a_row(a),
        forall|k: int|
            0 <= k < a.tm.pending_commands.len() ==> a.is_live(
                (#[trigger] a.tm.pending_commands[k]).info_hash,
            ),
        forall|k: int|
            0 <= k < a.tm.selected_hashes.len() ==> a.is_live(#[trigger] a.tm.selected_hashes[k]),
    ensures
        finished(a).tm.selected_index == a.tm.selected_index,
        finished(a).tm.cursor_hash == a.tm.cursor_hash,
        finished(a).tm.selected_hashes == a.tm.selected_hashes,
        finished(a).tm.pending_commands == a.tm.pending_commands,
        finished(a).tm.search_query == a.tm.search_query,
        finished(a).torrents == a.torrents,
{
    nothing_to_prune(a);
    cursor_at_rest_stays(a);
}

/// Where a key moves the cursor from a row of a table of so many rows, of which it pages
/// so many.
pub open spec fn moved_by(code: KeyCode, row: int, rows: int, page: int) -> Option<int> {
    if code == KeyCode::Up || code == KeyCode::Char('k') {
        Some(if row > 0 { row - 1 } else { 0 })
    } else if code == KeyCode::Down || code == KeyCode::Char('j') {
        Some(if row + 1 < rows { row + 1 } else { row })
    } else if code == KeyCode::Home {
        Some(0)
    } else if code == KeyCode::End {
        Some(rows - 1)
    } else if code == KeyCode::PageUp {
        Some(if row > page { row - page } else { 0 })
    } else if code == KeyCode::PageDown {
        Some(if row + page < rows { row + page } else { rows - 1 })
    } else {
        None
    }
}

/// In the table the arrows move the cursor by a row, Page Up and Page Down by a page, and
/// Home and End to the ends, never past them. Selection, drafts and query stay.
#[verifier::spinoff_prover]
#[verifier::rlimit(80)]
pub proof fn keys_move_the_cursor(m: ManagementModel, code: KeyCode)
    requires
        at_rest(m),
        in_table(m, code),
        row_hashes(m).len() > 0,
        moved_by(code, m.tm.selected_index, row_hashes(m).len() as int, page_rows(m)) is Some,
    ensures
        ({
            let rows = row_hashes(m);
            let to = moved_by(
                code,
                m.tm.selected_index,
                rows.len() as int,
                page_rows(m),
            )->0;
            let tm = after(m, code).tm;
            &&& tm.selected_index == to
            &&& tm.cursor_hash == Some(rows[to])
            &&& tm.selected_hashes == m.tm.selected_hashes
            &&& tm.pending_commands == m.tm.pending_commands
            &&& tm.search_query == m.tm.search_query
        }),
{
    let rows = row_hashes(m);
    let (n, i, page) = (rows.len() as int, m.tm.selected_index, page_rows(m));
    let s = base(m);
    let action = key_action(code, m.tm)->0;
    one_key(m, code, action);
    assert(page_rows(s) == page);
    let raw = if code == KeyCode::Up || code == KeyCode::Char('k') {
        monus(i, 1)
    } else if code == KeyCode::Down || code == KeyCode::Char('j') {
        min_int(i + 1, n - 1)
    } else if code == KeyCode::Home {
        0
    } else if code == KeyCode::End {
        n - 1
    } else if code == KeyCode::PageUp {
        monus(i, page)
    } else {
        min_int(i + page, n - 1)
    };
    assert(acted(s, action) == moved_to(s, raw));
    moving_at_rest(s, raw);
    finishing_with_the_cursor_on_a_row(moved_to(s, raw));
}

proof fn moving_at_rest(s: ManagementModel, to: int)
    requires
        at_rest(s),
        row_hashes(s).len() > 0,
        0 <= to,
    ensures
        ({
            let a = moved_to(s, to);
            let row = min_int(to, row_hashes(s).len() - 1);
            &&& a.tm.selected_index == row
            &&& a.tm.cursor_hash == Some(row_hashes(s)[row])
            &&& cursor_is_on_a_row(a)
            &&& a.tm.selected_hashes == s.tm.selected_hashes
            &&& a.tm.pending_commands == s.tm.pending_commands
            &&& a.tm.search_query == s.tm.search_query
            &&& a.torrents == s.torrents
            &&& a.screen == s.screen
        }),
{
    rows_depend_on_query_sort_and_selection(
        s,
        s.with_tm(ManagementView { selected_index: to, ..s.tm }),
    );
    rows_depend_on_query_sort_and_selection(s, moved_to(s, to));
}

// --------------------------------------------------------------- the selection

/// In the table Space selects the torrent under the cursor, or deselects it if it was
/// selected; all others stay as they are.
#[verifier::spinoff_prover]
#[verifier::rlimit(80)]
pub proof fn space_turns_the_selection_of_one_torrent_round(m: ManagementModel, hash: Seq<u8>)
    requires
        at_rest(m),
        in_table(m, KeyCode::Char(' ')),
    ensures
        ({
            let selected = after(m, KeyCode::Char(' ')).tm.selected_hashes;
            if m.tm.cursor_hash == Some(hash) {
                selected.contains(hash) <==> !m.tm.selected_hashes.contains(hash)
            } else {
                selected.contains(hash) <==> m.tm.selected_hashes.contains(hash)
            }
        }),
        after(m, KeyCode::Char(' ')).tm.pending_commands == m.tm.pending_commands,
{
    let code = KeyCode::Char(' ');
    one_key(m, code, TorrentManagementAction::ToggleCurrentSelection);
    let s = base(m);
    cursor_at_rest_stays(s);
    let rows = row_hashes(m);
    let one = row_target(s);
    if rows.len() > 0 {
        rows_are_apart(s);
        position_of_unique(rows, s.tm.selected_index);
        assert(one =~= seq![rows[s.tm.selected_index]]);
        assert(one[0] == m.tm.cursor_hash->0);
        rows_are_live(s, s.tm.selected_index);
    }
    assert(one.contains(hash) <==> m.tm.cursor_hash == Some(hash));
    let a = acted(s, TorrentManagementAction::ToggleCurrentSelection);
    let chosen = a.tm.selected_hashes;
    kept_contains(m.tm.selected_hashes, |h: Seq<u8>| !one.contains(h));
    assert(kept(m.tm.selected_hashes, |h: Seq<u8>| !one.contains(h)).contains(hash)
        <==> m.tm.selected_hashes.contains(hash) && !one.contains(hash));
    added_contains(m.tm.selected_hashes, one, hash);
    if forall|k: int|
        0 <= k < one.len() ==> m.tm.selected_hashes.contains(#[trigger] one[k]) {
        if one.contains(hash) {
            let k = choose|k: int| 0 <= k < one.len() && one[k] == hash;
            assert(m.tm.selected_hashes.contains(one[k]));
        }
    } else {
        let k = choose|k: int|
            0 <= k < one.len() && !m.tm.selected_hashes.contains(#[trigger] one[k]);
        assert(one[k] == m.tm.cursor_hash->0);
    }
    finishing_keeps_the_pruned(a);
    kept_contains(chosen, |h: Seq<u8>| a.is_live(h));
    assert(kept(chosen, |h: Seq<u8>| a.is_live(h)).contains(hash) <==> chosen.contains(hash)
        && a.is_live(hash));
    if m.tm.selected_hashes.contains(hash) {
        let k = choose|k: int|
            0 <= k < m.tm.selected_hashes.len() && m.tm.selected_hashes[k] == hash;
        assert(m.is_live(m.tm.selected_hashes[k]));
    }
    nothing_to_prune(s);
    kept_all(m.tm.pending_commands, |c: CommandView| a.is_live(c.info_hash));
}

proof fn added_contains(list: Seq<Seq<u8>>, more: Seq<Seq<u8>>, hash: Seq<u8>)
    ensures
        added(list, more).contains(hash) <==> list.contains(hash) || more.contains(hash),
    decreases more.len(),
{
    if more.len() > 0 {
        let head = more.drop_last();
        added_contains(list, head, hash);
        assert(more =~= head.push(more.last()));
        contains_push(head, more.last(), hash);
        contains_push(added(list, head), more.last(), hash);
    }
}

/// In the table A selects the torrents on view and no others.
#[verifier::spinoff_prover]
#[verifier::rlimit(80)]
pub proof fn everything_on_view_is_selected(m: ManagementModel, hash: Seq<u8>)
    requires
        at_rest(m),
        in_table(m, KeyCode::Char('A')),
    ensures
        after(m, KeyCode::Char('A')).tm.selected_hashes.contains(hash) <==> row_hashes(
            m,
        ).contains(hash),
{
    let code = KeyCode::Char('A');
    one_key(m, code, TorrentManagementAction::SelectAllVisible);
    let s = base(m);
    rows_are_apart(s);
    let on_view = listed_hashes(s, visible(s));
    added_contains(Seq::empty(), on_view, hash);
    let a = acted(s, TorrentManagementAction::SelectAllVisible);
    finishing_keeps_the_pruned(a);
    kept_contains(a.tm.selected_hashes, |h: Seq<u8>| a.is_live(h));
    assert(kept(a.tm.selected_hashes, |h: Seq<u8>| a.is_live(h)).contains(hash)
        <==> a.tm.selected_hashes.contains(hash) && a.is_live(hash));
    if row_hashes(s).contains(hash) {
        let k = choose|k: int| 0 <= k < row_hashes(s).len() && row_hashes(s)[k] == hash;
        rows_are_live(s, k);
    }
}

/// In the table u takes the drafts and the selection of the targets back, and leaves
/// those of all other torrents.
#[verifier::spinoff_prover]
#[verifier::rlimit(80)]
pub proof fn clearing_is_for_the_targets(m: ManagementModel, c: CommandView, hash: Seq<u8>)
    requires
        at_rest(m),
        in_table(m, KeyCode::Char('u')),
    ensures
        after(m, KeyCode::Char('u')).tm.pending_commands.contains(c)
            <==> m.tm.pending_commands.contains(c) && !is_target(m, c.info_hash),
        after(m, KeyCode::Char('u')).tm.selected_hashes.contains(hash)
            <==> m.tm.selected_hashes.contains(hash) && !is_target(m, hash),
{
    let code = KeyCode::Char('u');
    one_key(m, code, TorrentManagementAction::ClearPendingForTargets);
    hits_are_targets(m, code);
    let s = base(m);
    let hashes = hit(m, code);
    assert(quiet(latched(press(code), AppMode::TorrentManagement, m)) =~= s);
    clearing_leaves_the_others(m, s, hashes, c, hash);
}

#[verifier::spinoff_prover]
#[verifier::rlimit(80)]
proof fn clearing_leaves_the_others(
    m: ManagementModel,
    s: ManagementModel,
    hashes: Seq<Seq<u8>>,
    c: CommandView,
    hash: Seq<u8>,
)
    requires
        at_rest(m),
        s.torrents == m.torrents,
        s.tm.pending_commands == m.tm.pending_commands,
        s.tm.selected_hashes == m.tm.selected_hashes,
        clear_targets(s) == hashes,
    ensures
        ({
            let done = finished(acted(s, TorrentManagementAction::ClearPendingForTargets)).tm;
            &&& done.pending_commands.contains(c) <==> m.tm.pending_commands.contains(c)
                && !hashes.contains(c.info_hash)
            &&& done.selected_hashes.contains(hash) <==> m.tm.selected_hashes.contains(hash)
                && !hashes.contains(hash)
        }),
{
    let a = acted(s, TorrentManagementAction::ClearPendingForTargets);
    let not_cleared = |x: CommandView| !hashes.contains(x.info_hash);
    let not_dropped = |h: Seq<u8>| !hashes.contains(h);
    kept_contains(m.tm.pending_commands, not_cleared);
    kept_contains(m.tm.selected_hashes, not_dropped);
    assert(kept(m.tm.pending_commands, not_cleared).contains(c) <==> m.tm.pending_commands.contains(
        c,
    ) && not_cleared(c));
    assert(kept(m.tm.selected_hashes, not_dropped).contains(hash)
        <==> m.tm.selected_hashes.contains(hash) && not_dropped(hash));
    finished_drafts(a, c);
    finishing_keeps_the_pruned(a);
    kept_contains(a.tm.selected_hashes, |h: Seq<u8>| a.is_live(h));
    assert(kept(a.tm.selected_hashes, |h: Seq<u8>| a.is_live(h)).contains(hash)
        <==> a.tm.selected_hashes.contains(hash) && a.is_live(hash));
    if m.tm.pending_commands.contains(c) {
        let k = choose|k: int| 0 <= k < m.tm.pending_commands.len() && m.tm.pending_commands[k] == c;
        assert(m.is_live(m.tm.pending_commands[k].info_hash));
    }
    if m.tm.selected_hashes.contains(hash) {
        let k = choose|k: int|
            0 <= k < m.tm.selected_hashes.len() && m.tm.selected_hashes[k] == hash;
        assert(m.is_live(m.tm.selected_hashes[k]));
    }
}

/// In a review u takes the drafts of all selected torrents back, on view or not, or all
/// drafts if none is selected.
#[verifier::spinoff_prover]
#[verifier::rlimit(80)]
pub proof fn clearing_in_a_review(m: ManagementModel, c: CommandView)
    requires
        at_rest(m),
        m.tm.confirm_submit,
        m.tm.input_latch != Some(KeyCode::Char('u')),
    ensures
        after(m, KeyCode::Char('u')).tm.pending_commands.contains(c)
            <==> m.tm.pending_commands.contains(c) && m.tm.selected_hashes.len() > 0
            && !m.tm.selected_hashes.contains(c.info_hash),
{
    let code = KeyCode::Char('u');
    one_key(m, code, TorrentManagementAction::ClearPendingForTargets);
    let s = base(m);
    let hashes = clear_targets(s);
    clearing_leaves_the_others(m, s, hashes, c, c.info_hash);
    if m.tm.selected_hashes.len() == 0 && m.tm.pending_commands.contains(c) {
        let k = choose|k: int| 0 <= k < m.tm.pending_commands.len() && m.tm.pending_commands[k] == c;
        let all = command_hashes(m.tm.pending_commands);
        assert(all[k] == c.info_hash);
        distinct_hashes(all);
        assert(all.contains(c.info_hash));
        assert(hashes.contains(c.info_hash));
    }
}

// ------------------------------------------------------------------ the search

/// Ending an action leaves the query and how it is read as they are.
#[verifier::spinoff_prover]
#[verifier::rlimit(80)]
proof fn finishing_keeps_the_search(m: ManagementModel)
    ensures
        finished(m).tm.search_query == m.tm.search_query,
        finished(m).tm.search_mode == m.tm.search_mode,
        finished(m).tm.is_searching == m.tm.is_searching,
        finished(m).anonymize == m.anonymize,
        finished(m).torrents == m.torrents,
        finished(m).tm.pending_commands.len() > 0 ==> finished(m).tm.confirm_submit
            == m.tm.confirm_submit,
        finished(m).tm.pending_commands.len() == 0 ==> !finished(m).tm.confirm_submit,
{
}

/// A slash opens the search over what was searched before.
#[verifier::spinoff_prover]
#[verifier::rlimit(80)]
pub proof fn a_slash_opens_the_search(m: ManagementModel)
    requires
        at_rest(m),
        in_table(m, KeyCode::Char('/')),
    ensures
        after(m, KeyCode::Char('/')).tm.is_searching,
        after(m, KeyCode::Char('/')).tm.search_query == m.tm.search_query,
{
    reveal(after);
    let code = KeyCode::Char('/');
    let seen = latched(press(code), AppMode::TorrentManagement, m);
    seeing_a_key_keeps_rest(m, code);
    starting_at_rest(seen);
    finishing_keeps_the_search(acted(quiet(seen), TorrentManagementAction::StartSearch));
}

/// While the search is open a letter is put behind the query, Backspace takes the last one
/// off, Tab reads it in the other way, Enter keeps it and Esc drops it.
#[verifier::spinoff_prover]
#[verifier::rlimit(80)]
pub proof fn a_query_is_typed_letter_by_letter(m: ManagementModel, c: char)
    requires
        at_rest(m),
        !m.tm.confirm_submit,
        m.tm.is_searching,
        m.tm.input_latch is None,
    ensures
        after(m, KeyCode::Char(c)).tm.search_query == m.tm.search_query.push(c),
        after(m, KeyCode::Char(c)).tm.is_searching,
        m.tm.search_query.len() > 0 ==> after(m, KeyCode::Backspace).tm.search_query
            == m.tm.search_query.subrange(0, m.tm.search_query.len() - 1),
        after(m, KeyCode::Tab).tm.search_mode != m.tm.search_mode,
        after(m, KeyCode::Tab).tm.search_query == m.tm.search_query,
        !after(m, KeyCode::Enter).tm.is_searching,
        after(m, KeyCode::Enter).tm.search_query == m.tm.search_query,
        !after(m, KeyCode::Esc).tm.is_searching,
        after(m, KeyCode::Esc).tm.search_query.len() == 0,
{
    if m.tm.search_query.len() > 0 {
        assert(m.tm.search_query.drop_last() =~= m.tm.search_query.subrange(
            0,
            m.tm.search_query.len() - 1,
        ));
    }
    let s = base(m);
    one_key(m, KeyCode::Char(c), TorrentManagementAction::SearchInsert(c));
    finishing_keeps_the_search(acted(s, TorrentManagementAction::SearchInsert(c)));
    one_key(m, KeyCode::Backspace, TorrentManagementAction::SearchBackspace);
    finishing_keeps_the_search(acted(s, TorrentManagementAction::SearchBackspace));
    one_key(m, KeyCode::Tab, TorrentManagementAction::ToggleSearchMode);
    finishing_keeps_the_search(acted(s, TorrentManagementAction::ToggleSearchMode));
    one_key(m, KeyCode::Enter, TorrentManagementAction::SearchCommit);
    finishing_keeps_the_search(acted(s, TorrentManagementAction::SearchCommit));
    one_key(m, KeyCode::Esc, TorrentManagementAction::SearchCancel);
    finishing_keeps_the_search(acted(s, TorrentManagementAction::SearchCancel));
}

// ------------------------------------------------------------------ the review

/// Y opens the review if there is a draft, and only then, and sends nothing.
#[verifier::spinoff_prover]
#[verifier::rlimit(80)]
pub proof fn the_review_opens_over_drafts(m: ManagementModel)
    requires
        at_rest(m),
        in_table(m, KeyCode::Char('Y')),
    ensures
        after(m, KeyCode::Char('Y')).tm.confirm_submit <==> m.tm.pending_commands.len() > 0,
        after(m, KeyCode::Char('Y')).tm.pending_commands == m.tm.pending_commands,
        asked(m, KeyCode::Char('Y')).len() == 0,
{
    if m.tm.pending_commands.len() > 0 {
        let action = TorrentManagementAction::ShowSubmitConfirmation;
        one_key(m, KeyCode::Char('Y'), action);
        let a = acted(base(m), action);
        nothing_to_prune(a);
        finishing_keeps_the_pruned(a);
        finishing_keeps_the_search(a);
    } else {
        reveal(after);
        reveal(asked);
    }
}

/// Esc and q close the review, keep the drafts and send nothing. Enter sends the request
/// of every draft, in their order, and leaves no draft.
#[verifier::spinoff_prover]
#[verifier::rlimit(80)]
pub proof fn the_review_closes_and_sends(m: ManagementModel)
    requires
        at_rest(m),
        m.tm.confirm_submit,
        m.tm.input_latch is None,
    ensures
        !after(m, KeyCode::Esc).tm.confirm_submit,
        after(m, KeyCode::Esc).tm.pending_commands == m.tm.pending_commands,
        asked(m, KeyCode::Esc).len() == 0,
        after(m, KeyCode::Char('q')) == after(m, KeyCode::Esc),
        !after(m, KeyCode::Enter).tm.confirm_submit,
        after(m, KeyCode::Enter).tm.pending_commands.len() == 0,
        requests_in(asked(m, KeyCode::Enter)) == m.tm.pending_commands.map_values(
            |c: CommandView| c.request,
        ),
{
    let close = TorrentManagementAction::CancelSubmitConfirmation;
    let send = TorrentManagementAction::SubmitPendingCommands;
    one_key(m, KeyCode::Esc, close);
    one_key(m, KeyCode::Char('q'), close);
    one_key(m, KeyCode::Enter, send);
    let a = acted(base(m), close);
    nothing_to_prune(a);
    finishing_keeps_the_pruned(a);
    finishing_keeps_the_search(a);
    let b = acted(base(m), send);
    nothing_to_prune(b);
    finishing_keeps_the_pruned(b);
    finishing_keeps_the_search(b);
    requests_of_drafts(m.tm.pending_commands);
}

proof fn requests_of_drafts(pending: Seq<CommandView>)
    ensures
        requests_in(submit_effects(pending)) == pending.map_values(|c: CommandView| c.request),
    decreases pending.len(),
{
    let requests = pending.map_values(|c: CommandView| c.request);
    if pending.len() > 0 {
        let head = pending.drop_last();
        requests_of_drafts(head);
        let before = submit_effects(head);
        let one = before.push(EffectView::Submit(pending.last().request));
        let both = submit_effects(pending);
        assert(both.drop_last() =~= one);
        assert(one.drop_last() =~= before);
        assert(requests =~= head.map_values(|c: CommandView| c.request).push(
            pending.last().request,
        ));
        assert(both.last() == EffectView::Mark(
            pending.last().info_hash,
            pending.last().state,
            pending.last().delete_files,
        ));
        assert(requests_in(both) == requests_in(one));
        assert(one.last() == EffectView::Submit(pending.last().request));
        assert(requests_in(one) == requests_in(before).push(pending.last().request));
    } else {
        assert(requests =~= Seq::<RequestView>::empty());
    }
}

#[verifier::spinoff_prover]
#[verifier::rlimit(80)]
proof fn marks_of_drafts(
    torrents: Seq<TorrentDisplayState>,
    pending: Seq<CommandView>,
    i: int,
)
    requires
        torrent_hashes(torrents).no_duplicates(),
        0 <= i < torrents.len(),
        command_hashes(pending).no_duplicates(),
    ensures
        ({
            let after = marked_by_all(torrents, submit_effects(pending), false);
            &&& after.len() == torrents.len()
            &&& torrent_hashes(after) == torrent_hashes(torrents)
            &&& forall|k: int|
                0 <= k < pending.len() && (#[trigger] pending[k]).info_hash
                    == torrents[i].info_hash@ ==> after[i].torrent_control_state == pending[k].state
                    && after[i].delete_files == pending[k].delete_files
            &&& (forall|k: int|
                0 <= k < pending.len() ==> (#[trigger] pending[k]).info_hash
                    != torrents[i].info_hash@) ==> after[i] == torrents[i]
        }),
    decreases pending.len(),
{
    let after = marked_by_all(torrents, submit_effects(pending), false);
    if pending.len() > 0 {
        let head = pending.drop_last();
        let last = pending.last();
        assert(command_hashes(head).no_duplicates()) by {
            assert forall|a: int, b: int|
                0 <= a < head.len() && 0 <= b < head.len() && a != b implies command_hashes(head)[a]
                != command_hashes(head)[b] by {
                assert(command_hashes(pending)[a] == command_hashes(head)[a]);
                assert(command_hashes(pending)[b] == command_hashes(head)[b]);
            }
        }
        marks_of_drafts(torrents, head, i);
        let before = marked_by_all(torrents, submit_effects(head), false);
        let one = submit_effects(head).push(EffectView::Submit(last.request));
        let both = submit_effects(pending);
        assert(both.drop_last() =~= one);
        assert(one.drop_last() =~= submit_effects(head));
        assert(marked_by_all(torrents, one, false) == before);
        let mark = EffectView::Mark(last.info_hash, last.state, last.delete_files);
        assert(after == marked_by(before, mark, false));
        marking_keeps_the_hashes(before, mark, false);
        crate::lists::position_of_is_first(torrent_hashes(before), last.info_hash);
        assert(torrent_hashes(before)[i] == torrent_hashes(torrents)[i]);
        if last.info_hash == torrents[i].info_hash@ {
            assert(torrent_hashes(before).contains(last.info_hash));
            position_of_unique(torrent_hashes(before), i);
        }
        assert forall|k: int|
            0 <= k < pending.len() && (#[trigger] pending[k]).info_hash
                == torrents[i].info_hash@ implies after[i].torrent_control_state
            == pending[k].state && after[i].delete_files == pending[k].delete_files by {
            if k < head.len() {
                assert(head[k] == pending[k]);
                assert(command_hashes(pending)[k] == pending[k].info_hash);
                assert(command_hashes(pending)[pending.len() - 1] == last.info_hash);
                assert(last.info_hash != torrents[i].info_hash@);
            }
        }
        if forall|k: int|
            0 <= k < pending.len() ==> (#[trigger] pending[k]).info_hash
                != torrents[i].info_hash@ {
            assert forall|k: int| 0 <= k < head.len() implies (#[trigger] head[k]).info_hash
                != torrents[i].info_hash@ by {
                assert(head[k] == pending[k]);
            }
            assert(pending[pending.len() - 1].info_hash != torrents[i].info_hash@);
        }
    }
}

/// Sending shows every torrent with a draft in the state that the draft leads to, and
/// changes no other torrent; a follower of a shared session changes none.
#[verifier::spinoff_prover]
#[verifier::rlimit(80)]
pub proof fn sent_drafts_are_shown(m: ManagementModel, i: int, k: int)
    requires
        at_rest(m),
        m.tm.confirm_submit,
        m.tm.input_latch is None,
        command_hashes(m.tm.pending_commands).no_duplicates(),
        0 <= i < m.torrents.len(),
        0 <= k < m.tm.pending_commands.len(),
    ensures
        ({
            let shown = marked_by_all(m.torrents, asked(m, KeyCode::Enter), false);
            let draft = m.tm.pending_commands[k];
            &&& shown.len() == m.torrents.len()
            &&& draft.info_hash == m.torrents[i].info_hash@ ==> shown[i].torrent_control_state
                == draft.state && shown[i].delete_files == draft.delete_files
            &&& (forall|j: int|
                0 <= j < m.tm.pending_commands.len() ==> (
                #[trigger] m.tm.pending_commands[j]).info_hash != m.torrents[i].info_hash@)
                ==> shown[i] == m.torrents[i]
        }),
        marked_by_all(m.torrents, asked(m, KeyCode::Enter), true) == m.torrents,
{
    one_key(m, KeyCode::Enter, TorrentManagementAction::SubmitPendingCommands);
    marks_of_drafts(m.torrents, m.tm.pending_commands, i);
    followers_mark_nothing(m.torrents, asked(m, KeyCode::Enter));
}

proof fn followers_mark_nothing(torrents: Seq<TorrentDisplayState>, effects: Seq<EffectView>)
    ensures
        marked_by_all(torrents, effects, true) == torrents,
    decreases effects.len(),
{
    if effects.len() > 0 {
        followers_mark_nothing(torrents, effects.drop_last());
    }
}

// -------------------------------------------------------------------- the rest

/// In the table Esc and q leave the screen, and f opens the files of the torrent under the
/// cursor; no other key asks for anything.
#[verifier::spinoff_prover]
#[verifier::rlimit(80)]
pub proof fn keys_of_the_table_ask_for_their_own(m: ManagementModel, code: KeyCode)
    requires
        at_rest(m),
        in_table(m, code),
    ensures
        asked(m, code) == if code == KeyCode::Esc || code == KeyCode::Char('q') {
            seq![EffectView::ToNormal]
        } else if code == KeyCode::Char('f') && m.tm.cursor_hash is Some {
            seq![EffectView::OpenFiles(m.tm.cursor_hash->0)]
        } else {
            Seq::empty()
        },
{
    if code == KeyCode::Char('f') {
        one_key(m, code, TorrentManagementAction::OpenHighlightedTorrentFiles);
        let s = base(m);
        rows_are_apart(s);
        if row_hashes(s).len() > 0 {
            position_of_unique(row_hashes(s), s.tm.selected_index);
        }
    } else {
        reveal(asked);
    }
}

proof fn acting_on_the_names(m: ManagementModel, action: TorrentManagementAction)
    ensures
        acted(m, action).anonymize != m.anonymize <==> action
            == TorrentManagementAction::ToggleAnonymizeNames,
{
}

proof fn the_key_of_the_names(code: KeyCode, tm: ManagementView)
    requires
        !tm.confirm_submit,
        !tm.is_searching,
    ensures
        key_action(code, tm) == Some(TorrentManagementAction::ToggleAnonymizeNames) <==> code
            == KeyCode::Char('x'),
        key_action(code, tm) == Some(TorrentManagementAction::StartSearch) <==> code
            == KeyCode::Char('/'),
{
}

#[verifier::spinoff_prover]
#[verifier::rlimit(80)]
proof fn no_key_no_change(m: ManagementModel, code: KeyCode)
    requires
        key_action(code, m.tm) is None,
    ensures
        after(m, code).anonymize == m.anonymize,
{
    reveal(after);
}

/// In the table x hides the names, or shows them again if they are hidden; no other key
/// does.
#[verifier::spinoff_prover]
#[verifier::rlimit(80)]
pub proof fn one_key_hides_the_names(m: ManagementModel, code: KeyCode)
    requires
        at_rest(m),
        in_table(m, code),
        code != KeyCode::Char('/'),
    ensures
        after(m, code).anonymize != m.anonymize <==> code == KeyCode::Char('x'),
{
    the_key_of_the_names(code, m.tm);
    let meant = key_action(code, m.tm);
    if meant is Some {
        one_key(m, code, meant->0);
        acting_on_the_names(base(m), meant->0);
        finishing_keeps_the_search(acted(base(m), meant->0));
    } else {
        no_key_no_change(m, code);
    }
}

/// A key that comes up does nothing, nor does one with Control or Alt, and a key that is
/// held down drafts, sends and selects nothing.
#[verifier::spinoff_prover]
#[verifier::rlimit(80)]
pub proof fn only_plain_presses_count(m: ManagementModel, key: KeyEvent)
    ensures
        ({
            let action = acted_on(TerminalEvent::Key(key), AppMode::TorrentManagement, m.tm);
            &&& key.kind == KeyEventKind::Release || key.modifiers.control || key.modifiers.alt
                ==> action is None
            &&& key.kind == KeyEventKind::Repeat ==> !(action matches Some(a) && (
            a is StartDelete || a is TogglePauseTargets || a is SubmitPendingCommands
                || a is ToggleCurrentSelection || a is ClearPendingForTargets
                || a is ShowSubmitConfirmation || a is ToNormal || a is SelectAllVisible))
        }),
{
}

/// Nothing that is no key counts, nor a key while another screen is shown.
pub proof fn other_screens_keep_their_keys(m: ManagementModel, event: TerminalEvent, mode: AppMode)
    requires
        mode != AppMode::TorrentManagement || event is Other,
    ensures
        acted_on(event, mode, m.tm) is None,
        latched(event, mode, m) == m,
{
}

} // verus!
