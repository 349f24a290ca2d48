//! The cursor, the selection, and the drafts of what to do to the torrents.
use crate::app::{
    command_views, AppState, CommandView, ManagementView, TorrentManagementPendingCommand,
};
use crate::geometry::min_int;
use crate::lists::{
    add_bytes, added, byte_strings, copy_byte_list, copy_bytes, distinct, holds_bytes, index_of,
    keep_common, keep_others, kept, position_of, same_bytes,
};
use crate::text::{decimal, format_number, join, join3, owned};
use crate::tui::screens::torrents::model::ManagementModel;
use crate::tui::screens::torrents::rows::{
    are_rows, build_management_rows, find_torrent, is_row_of, listed_hashes, row_hashes, row_order,
    visible, visible_torrent_hashes, ManagementRow,
};
use vstd::prelude::*;
use vstd::string::StringExecFns;

verus! {

// ---------------------------------------------------------------- the cursor

/// The row that the cursor is on: that of its torrent if it is on view, or else
/// the one at its position, as far down as there are rows.
pub open spec fn cursor_index(m: ManagementModel) -> Option<int> {
    let rows = row_hashes(m);
    if rows.len() == 0 {
        None
    } else {
        match m.tm.cursor_hash {
            Some(hash) => match position_of(rows, hash) {
                Some(i) => Some(i),
                None => Some(min_int(m.tm.selected_index, rows.len() - 1)),
            },
            None => Some(min_int(m.tm.selected_index, rows.len() - 1)),
        }
    }
}

/// The hash of a row's torrent.
proof fn row_hash(rows: Seq<ManagementRow>, m: ManagementModel, k: int)
    requires
        are_rows(rows, m),
        0 <= k < rows.len(),
    ensures
        rows[k].info_hashes@.len() == 1,
        rows[k].info_hashes@[0]@ == row_hashes(m)[k],
{
    assert(is_row_of(rows[k], m, row_order(m)[k] as int, 0));
    let views = byte_strings(rows[k].info_hashes@);
    assert(views.len() == 1);
    assert(views[0] == rows[k].info_hashes@[0]@);
}

/// The hashes of some rows.
pub open spec fn hashes_of_rows(rows: Seq<ManagementRow>) -> Seq<Seq<Seq<u8>>> {
    rows.map_values(|row: ManagementRow| byte_strings(row.info_hashes@))
}

/// The first row that has a hash.
pub open spec fn row_with(rows: Seq<Seq<Seq<u8>>>, hash: Seq<u8>) -> Option<int>
    decreases rows.len(),
{
    if rows.len() == 0 {
        None
    } else {
        match row_with(rows.drop_last(), hash) {
            Some(i) => Some(i),
            None => if rows.last().contains(hash) {
                Some(rows.len() - 1)
            } else {
                None
            },
        }
    }
}

/// The row among some that the cursor is on: the first that has its hash, or else the
/// one at its position, as far down as there are rows.
pub open spec fn cursor_among(rows: Seq<Seq<Seq<u8>>>, tm: ManagementView) -> Option<int> {
    if rows.len() == 0 {
        None
    } else {
        match tm.cursor_hash {
            Some(hash) => match row_with(rows, hash) {
                Some(i) => Some(i),
                None => Some(min_int(tm.selected_index, rows.len() - 1)),
            },
            None => Some(min_int(tm.selected_index, rows.len() - 1)),
        }
    }
}

proof fn row_with_is_first(rows: Seq<Seq<Seq<u8>>>, hash: Seq<u8>, n: int)
    requires
        0 <= n <= rows.len(),
        row_with(rows.take(n), hash) is Some,
    ensures
        row_with(rows, hash) == row_with(rows.take(n), hash),
    decreases rows.len() - n,
{
    if n < rows.len() {
        assert(rows.take(n + 1).drop_last() =~= rows.take(n));
        row_with_is_first(rows, hash, n + 1);
    } else {
        assert(rows.take(n) =~= rows);
    }
}

proof fn rows_of_one_hash(rows: Seq<Seq<Seq<u8>>>, hashes: Seq<Seq<u8>>, hash: Seq<u8>)
    requires
        rows.len() == hashes.len(),
        forall|k: int| 0 <= k < rows.len() ==> #[trigger] rows[k] == seq![hashes[k]],
    ensures
        row_with(rows, hash) == position_of(hashes, hash),
    decreases rows.len(),
{
    if rows.len() > 0 {
        let last = rows.len() - 1;
        assert(rows[last] == seq![hashes[last]]);
        assert(seq![hashes[last]][0] == hashes[last]);
        assert(rows.last().contains(hash) <==> hashes.last() == hash);
        assert forall|k: int| 0 <= k < rows.drop_last().len() implies #[trigger] rows.drop_last()[k]
            == seq![hashes.drop_last()[k]] by {
            assert(rows[k] == seq![hashes[k]]);
        }
        rows_of_one_hash(rows.drop_last(), hashes.drop_last(), hash);
    }
}

/// The row among some that the cursor is on. Among the rows of the table it is that of
/// the cursor's torrent.
pub fn management_cursor_index_for_rows(app_state: &AppState, rows: &Vec<ManagementRow>) -> (index:
    Option<usize>)
    ensures
        index_of(index) == cursor_among(hashes_of_rows(rows@), app_state.management().tm),
        are_rows(rows@, app_state.management()) ==> index_of(index) == cursor_index(
            app_state.management(),
        ),
        index matches Some(i) ==> i < rows@.len(),
        index is None <==> rows@.len() == 0,
{
    let ghost m = app_state.management();
    let ghost lists = hashes_of_rows(rows@);
    proof {
        if are_rows(rows@, m) && m.tm.cursor_hash is Some {
            assert forall|k: int| 0 <= k < lists.len() implies #[trigger] lists[k]
                == seq![row_hashes(m)[k]] by {
                row_hash(rows@, m, k);
                assert(is_row_of(rows@[k], m, row_order(m)[k] as int, 0));
            }
            rows_of_one_hash(lists, row_hashes(m), m.tm.cursor_hash->0);
        }
    }
    if rows.len() == 0 {
        return None;
    }
    if let Some(hash) = &app_state.ui.torrent_management.cursor_hash {
        let mut k: usize = 0;
        assert(lists.take(0) =~= Seq::<Seq<Seq<u8>>>::empty());
        while k < rows.len()
            invariant
                k <= rows@.len(),
                m == app_state.management(),
                m.tm.cursor_hash == Some(hash@),
                rows@.len() > 0,
                lists == hashes_of_rows(rows@),
                row_with(lists.take(k as int), hash@) is None,
                are_rows(rows@, m) ==> row_with(lists, hash@) == position_of(row_hashes(m), hash@),
            decreases rows@.len() - k,
        {
            assert(lists.take(k + 1).drop_last() =~= lists.take(k as int));
            assert(lists.take(k + 1).last() == byte_strings(rows@[k as int].info_hashes@));
            if holds_bytes(&rows[k].info_hashes, hash) {
                proof {
                    row_with_is_first(lists, hash@, k + 1);
                }
                return Some(k);
            }
            k = k + 1;
        }
        assert(lists.take(k as int) =~= lists);
    }
    if app_state.ui.torrent_management.selected_index < rows.len() {
        Some(app_state.ui.torrent_management.selected_index)
    } else {
        Some(rows.len() - 1)
    }
}

/// The cursor at a row, or at none.
pub open spec fn cursor_at(m: ManagementModel, index: Option<int>) -> ManagementModel {
    m.with_tm(
        match index {
            Some(i) => ManagementView {
                selected_index: i,
                cursor_hash: Some(row_hashes(m)[i]),
                ..m.tm
            },
            None => ManagementView { selected_index: 0, cursor_hash: None, ..m.tm },
        },
    )
}

/// The cursor brought into line with the rows.
pub open spec fn cursor_normalized(m: ManagementModel) -> ManagementModel {
    cursor_at(m, cursor_index(m))
}

/// Brings the cursor into line with the rows: it stays on its torrent if that is
/// still on view.
pub fn normalize_management_cursor(app_state: &mut AppState)
    requires
        old(app_state).well_formed(),
    ensures
        final(app_state).management() == cursor_normalized(old(app_state).management()),
        old(app_state).same_but_management(*final(app_state)),
{
    let rows = build_management_rows(app_state);
    match management_cursor_index_for_rows(app_state, &rows) {
        None => {
            app_state.ui.torrent_management.selected_index = 0;
            app_state.ui.torrent_management.cursor_hash = None;
        },
        Some(index) => {
            proof {
                row_hash(rows@, app_state.management(), index as int);
            }
            app_state.ui.torrent_management.selected_index = index;
            app_state.ui.torrent_management.cursor_hash =
            Some(copy_bytes(&rows[index].info_hashes[0]));
        },
    }
}

/// The cursor put on the row at its position.
pub open spec fn cursor_from_index(m: ManagementModel) -> ManagementModel {
    let rows = row_hashes(m);
    cursor_at(
        m,
        if rows.len() == 0 {
            None
        } else {
            Some(min_int(m.tm.selected_index, rows.len() - 1))
        },
    )
}

/// Puts the cursor on the row at its position.
pub fn set_management_cursor_hash_from_index(app_state: &mut AppState)
    requires
        old(app_state).well_formed(),
    ensures
        final(app_state).management() == cursor_from_index(old(app_state).management()),
        old(app_state).same_but_management(*final(app_state)),
{
    let rows = build_management_rows(app_state);
    if rows.len() == 0 {
        app_state.ui.torrent_management.selected_index = 0;
        app_state.ui.torrent_management.cursor_hash = None;
        return;
    }
    let index: usize = if app_state.ui.torrent_management.selected_index < rows.len() {
        app_state.ui.torrent_management.selected_index
    } else {
        rows.len() - 1
    };
    proof {
        row_hash(rows@, app_state.management(), index as int);
    }
    app_state.ui.torrent_management.selected_index = index;
    app_state.ui.torrent_management.cursor_hash = Some(copy_bytes(&rows[index].info_hashes[0]));
}

// --------------------------------------------------------------- the targets

/// The torrent under the cursor.
pub open spec fn row_target(m: ManagementModel) -> Seq<Seq<u8>> {
    match cursor_index(m) {
        Some(i) => seq![row_hashes(m)[i]],
        None => Seq::empty(),
    }
}

/// The torrent under the cursor.
pub fn current_row_targets(app_state: &AppState) -> (targets: Vec<Vec<u8>>)
    requires
        app_state.well_formed(),
    ensures
        byte_strings(targets@) == row_target(app_state.management()),
        targets@.len() <= 1,
{
    let rows = build_management_rows(app_state);
    match management_cursor_index_for_rows(app_state, &rows) {
        Some(index) => {
            proof {
                row_hash(rows@, app_state.management(), index as int);
            }
            let targets = copy_byte_list(&rows[index].info_hashes);
            assert(byte_strings(targets@) =~= row_target(app_state.management()));
            assert(byte_strings(targets@).len() == targets@.len());
            targets
        },
        None => {
            let targets: Vec<Vec<u8>> = Vec::new();
            assert(byte_strings(targets@) =~= Seq::<Seq<u8>>::empty());
            targets
        },
    }
}

/// The selected torrents among those on view.
pub open spec fn selected_visible(m: ManagementModel) -> Seq<Seq<u8>> {
    kept(listed_hashes(m, visible(m)), |hash: Seq<u8>| m.tm.selected_hashes.contains(hash))
}

/// What a command is for: the selected torrents on view, or where there are none
/// the torrent under the cursor.
pub open spec fn targets(m: ManagementModel) -> Seq<Seq<u8>> {
    if selected_visible(m).len() > 0 {
        selected_visible(m)
    } else {
        row_target(m)
    }
}

/// What a command is for.
pub fn management_targets(app_state: &AppState) -> (targets: Vec<Vec<u8>>)
    requires
        app_state.well_formed(),
    ensures
        byte_strings(targets@) == self::targets(app_state.management()),
{
    let on_view = visible_torrent_hashes(app_state);
    let selected = keep_common(&on_view, &app_state.ui.torrent_management.selected_hashes);
    assert(byte_strings(selected@).len() == selected@.len());
    proof {
        let m = app_state.management();
        assert(m.tm.selected_hashes == byte_strings(
            app_state.ui.torrent_management.selected_hashes@,
        ));
    }
    if selected.len() > 0 {
        return selected;
    }
    current_row_targets(app_state)
}

pub open spec fn command_hashes(pending: Seq<CommandView>) -> Seq<Seq<u8>> {
    pending.map_values(|command: CommandView| command.info_hash)
}

/// What clearing is for: as any command, but in a review the whole selection,
/// on view or not, or where there is none every torrent with a draft.
pub open spec fn clear_targets(m: ManagementModel) -> Seq<Seq<u8>> {
    if !m.tm.confirm_submit {
        targets(m)
    } else if m.tm.selected_hashes.len() > 0 {
        m.tm.selected_hashes
    } else {
        distinct(command_hashes(m.tm.pending_commands))
    }
}

/// What clearing is for.
pub fn management_clear_targets(app_state: &AppState) -> (targets: Vec<Vec<u8>>)
    requires
        app_state.well_formed(),
    ensures
        byte_strings(targets@) == clear_targets(app_state.management()),
{
    if !app_state.ui.torrent_management.confirm_submit {
        return management_targets(app_state);
    }
    let selected = &app_state.ui.torrent_management.selected_hashes;
    if selected.len() > 0 {
        return copy_byte_list(selected);
    }
    let pending = &app_state.ui.torrent_management.pending_commands;
    let ghost all = command_hashes(command_views(pending@));
    let mut seen: Vec<Vec<u8>> = Vec::new();
    let mut k: usize = 0;
    while k < pending.len()
        invariant
            k <= pending@.len(),
            all == command_hashes(command_views(pending@)),
            byte_strings(seen@) == distinct(all.take(k as int)),
        decreases pending@.len() - k,
    {
        assert(all.take(k + 1).drop_last() =~= all.take(k as int));
        assert(all[k as int] == pending@[k as int].info_hash@);
        if !holds_bytes(&seen, &pending[k].info_hash) {
            let ghost was = byte_strings(seen@);
            seen.push(copy_bytes(&pending[k].info_hash));
            assert(byte_strings(seen@) =~= was.push(all[k as int]));
        }
        k = k + 1;
    }
    assert(all.take(k as int) =~= all);
    seen
}

// ------------------------------------------------------------- the selection

/// The selection after some torrents were toggled: if all are selected they are
/// dropped from it, and otherwise those that are missing are added.
pub open spec fn selection_toggled(selected: Seq<Seq<u8>>, targets: Seq<Seq<u8>>) -> Seq<Seq<u8>> {
    if forall|k: int| 0 <= k < targets.len() ==> selected.contains(#[trigger] targets[k]) {
        kept(selected, |hash: Seq<u8>| !targets.contains(hash))
    } else {
        added(selected, targets)
    }
}

/// Selects some torrents, or deselects them if all are selected.
pub fn toggle_hash_selection(app_state: &mut AppState, targets: &Vec<Vec<u8>>)
    ensures
        final(app_state).management() == old(app_state).management().with_tm(
            ManagementView {
                selected_hashes: selection_toggled(
                    old(app_state).management().tm.selected_hashes,
                    byte_strings(targets@),
                ),
                ..old(app_state).management().tm
            },
        ),
        old(app_state).same_but_management(*final(app_state)),
{
    let ghost all = byte_strings(targets@);
    let ghost selected = byte_strings(app_state.ui.torrent_management.selected_hashes@);
    let mut k: usize = 0;
    let mut all_selected = true;
    while k < targets.len()
        invariant
            k <= targets@.len(),
            all == byte_strings(targets@),
            selected == byte_strings(app_state.ui.torrent_management.selected_hashes@),
            all_selected == (forall|j: int| 0 <= j < k ==> selected.contains(#[trigger] all[j])),
        decreases targets@.len() - k,
    {
        assert(all[k as int] == targets@[k as int]@);
        if !holds_bytes(&app_state.ui.torrent_management.selected_hashes, &targets[k]) {
            all_selected = false;
        }
        k = k + 1;
    }
    if all_selected {
        let rest = keep_others(&app_state.ui.torrent_management.selected_hashes, targets);
        app_state.ui.torrent_management.selected_hashes = rest;
    } else {
        add_bytes(&mut app_state.ui.torrent_management.selected_hashes, targets);
    }
}

// ---------------------------------------------------------------- the drafts

/// The drafts for all torrents but one.
pub open spec fn without_draft(pending: Seq<CommandView>, hash: Seq<u8>) -> Seq<CommandView> {
    kept(pending, |command: CommandView| command.info_hash != hash)
}

/// Whether that very request is drafted for the torrent.
pub open spec fn is_drafted(pending: Seq<CommandView>, command: CommandView) -> bool {
    exists|k: int|
        0 <= k < pending.len() && (#[trigger] pending[k]).info_hash == command.info_hash
            && pending[k].request == command.request
}

/// The drafts after a command was toggled: drafting what is drafted already takes
/// it back, and anything else replaces what was drafted for the torrent.
pub open spec fn draft_toggled(pending: Seq<CommandView>, command: CommandView) -> Seq<
    CommandView,
> {
    if is_drafted(pending, command) {
        without_draft(pending, command.info_hash)
    } else {
        without_draft(pending, command.info_hash).push(command)
    }
}

/// A copy of a draft.
pub fn copy_command(command: &TorrentManagementPendingCommand) -> (copy:
    TorrentManagementPendingCommand)
    ensures
        copy@ == command@,
{
    TorrentManagementPendingCommand {
        info_hash: copy_bytes(&command.info_hash),
        request: command.request.copy(),
        state: command.state,
        delete_files: command.delete_files,
    }
}

/// Drafts a command, or takes it back.
pub fn toggle_pending_management_command(
    app_state: &mut AppState,
    command: TorrentManagementPendingCommand,
)
    ensures
        final(app_state).management() == old(app_state).management().with_tm(
            ManagementView {
                review_cache: None,
                pending_commands: draft_toggled(
                    old(app_state).management().tm.pending_commands,
                    command@,
                ),
                ..old(app_state).management().tm
            },
        ),
        old(app_state).same_but_management(*final(app_state)),
{
    let ghost all = command_views(app_state.ui.torrent_management.pending_commands@);
    let ghost hash = command.info_hash@;
    let ghost test = |c: CommandView| c.info_hash != hash;
    let mut rest: Vec<TorrentManagementPendingCommand> = Vec::new();
    let mut drafted = false;
    let mut k: usize = 0;
    while k < app_state.ui.torrent_management.pending_commands.len()
        invariant
            k <= app_state.ui.torrent_management.pending_commands@.len(),
            all == command_views(app_state.ui.torrent_management.pending_commands@),
            hash == command.info_hash@,
            test == (|c: CommandView| c.info_hash != hash),
            command_views(rest@) == kept(all.take(k as int), test),
            drafted == (exists|j: int|
                0 <= j < k && (#[trigger] all[j]).info_hash == hash && all[j].request
                    == command.request@),
        decreases app_state.ui.torrent_management.pending_commands@.len() - k,
    {
        let pending = &app_state.ui.torrent_management.pending_commands[k];
        assert(all[k as int] == pending@);
        assert(all.take(k + 1).drop_last() =~= all.take(k as int));
        if same_bytes(&pending.info_hash, &command.info_hash) {
            if pending.request.same(&command.request) {
                drafted = true;
                assert(all[k as int].info_hash == hash);
            }
        } else {
            let ghost was = command_views(rest@);
            rest.push(copy_command(pending));
            assert(command_views(rest@) =~= was.push(all[k as int]));
        }
        k = k + 1;
    }
    proof {
        assert(all.take(k as int) =~= all);
        assert(drafted == is_drafted(all, command@));
        assert(command_views(rest@) == without_draft(all, hash));
    }
    if !drafted {
        let ghost was = command_views(rest@);
        let ghost view = command@;
        rest.push(command);
        assert(command_views(rest@) =~= was.push(view));
    }
    app_state.ui.torrent_management.review_cache = None;
    app_state.ui.torrent_management.pending_commands = rest;
}

/// The drafts for other torrents than some.
pub open spec fn drafts_cleared(pending: Seq<CommandView>, targets: Seq<Seq<u8>>) -> Seq<
    CommandView,
> {
    kept(pending, |command: CommandView| !targets.contains(command.info_hash))
}

/// Takes the drafts for some torrents back and says how many there were.
pub fn clear_pending_management_commands_for_targets(
    app_state: &mut AppState,
    targets: &Vec<Vec<u8>>,
) -> (cleared: usize)
    ensures
        ({
            let was = old(app_state).management().tm.pending_commands;
            let rest = drafts_cleared(was, byte_strings(targets@));
            &&& cleared == was.len() - rest.len()
            &&& final(app_state).management() == old(app_state).management().with_tm(
                ManagementView {
                    pending_commands: rest,
                    review_cache: if cleared > 0 {
                        None
                    } else {
                        old(app_state).management().tm.review_cache
                    },
                    ..old(app_state).management().tm
                },
            )
        }),
        old(app_state).same_but_management(*final(app_state)),
{
    let ghost all = command_views(app_state.ui.torrent_management.pending_commands@);
    let ghost hashes = byte_strings(targets@);
    let ghost test = |c: CommandView| !hashes.contains(c.info_hash);
    let before = app_state.ui.torrent_management.pending_commands.len();
    let mut rest: Vec<TorrentManagementPendingCommand> = Vec::new();
    let mut k: usize = 0;
    while k < app_state.ui.torrent_management.pending_commands.len()
        invariant
            k <= app_state.ui.torrent_management.pending_commands@.len(),
            all == command_views(app_state.ui.torrent_management.pending_commands@),
            hashes == byte_strings(targets@),
            test == (|c: CommandView| !hashes.contains(c.info_hash)),
            command_views(rest@) == kept(all.take(k as int), test),
            rest@.len() <= k,
        decreases app_state.ui.torrent_management.pending_commands@.len() - k,
    {
        let pending = &app_state.ui.torrent_management.pending_commands[k];
        assert(all[k as int] == pending@);
        assert(all.take(k + 1).drop_last() =~= all.take(k as int));
        if !holds_bytes(targets, &pending.info_hash) {
            let ghost was = command_views(rest@);
            rest.push(copy_command(pending));
            assert(command_views(rest@) =~= was.push(all[k as int]));
        }
        k = k + 1;
    }
    assert(all.take(k as int) =~= all);
    assert(command_views(rest@).len() == rest@.len());
    let cleared: usize = before - rest.len();
    app_state.ui.torrent_management.pending_commands = rest;
    if cleared > 0 {
        app_state.ui.torrent_management.review_cache = None;
    }
    cleared
}

/// Selection and drafts without the torrents that are gone.
pub open spec fn pruned(m: ManagementModel) -> ManagementModel {
    let rest = kept(m.tm.pending_commands, |command: CommandView| m.is_live(command.info_hash));
    m.with_tm(
        ManagementView {
            selected_hashes: kept(m.tm.selected_hashes, |hash: Seq<u8>| m.is_live(hash)),
            pending_commands: rest,
            review_cache: if rest.len() != m.tm.pending_commands.len() {
                None
            } else {
                m.tm.review_cache
            },
            ..m.tm
        },
    )
}

/// Drops torrents that are gone from the selection and the drafts.
pub fn prune_selected_hashes(app_state: &mut AppState)
    ensures
        final(app_state).management() == pruned(old(app_state).management()),
        old(app_state).same_but_management(*final(app_state)),
{
    let ghost m = app_state.management();
    let ghost live = |hash: Seq<u8>| m.is_live(hash);
    let ghost selected = byte_strings(app_state.ui.torrent_management.selected_hashes@);
    let mut hashes: Vec<Vec<u8>> = Vec::new();
    let mut k: usize = 0;
    while k < app_state.ui.torrent_management.selected_hashes.len()
        invariant
            k <= app_state.ui.torrent_management.selected_hashes@.len(),
            m == app_state.management(),
            live == (|hash: Seq<u8>| m.is_live(hash)),
            selected == byte_strings(app_state.ui.torrent_management.selected_hashes@),
            byte_strings(hashes@) == kept(selected.take(k as int), live),
        decreases app_state.ui.torrent_management.selected_hashes@.len() - k,
    {
        assert(selected.take(k + 1).drop_last() =~= selected.take(k as int));
        let hash = &app_state.ui.torrent_management.selected_hashes[k];
        assert(selected[k as int] == hash@);
        if find_torrent(&app_state.torrents, hash).is_some() {
            let ghost was = byte_strings(hashes@);
            hashes.push(copy_bytes(hash));
            assert(byte_strings(hashes@) =~= was.push(selected[k as int]));
        }
        k = k + 1;
    }
    assert(selected.take(k as int) =~= selected);
    let ghost all = command_views(app_state.ui.torrent_management.pending_commands@);
    let ghost test = |c: CommandView| m.is_live(c.info_hash);
    let mut rest: Vec<TorrentManagementPendingCommand> = Vec::new();
    let mut j: usize = 0;
    while j < app_state.ui.torrent_management.pending_commands.len()
        invariant
            j <= app_state.ui.torrent_management.pending_commands@.len(),
            m == app_state.management(),
            test == (|c: CommandView| m.is_live(c.info_hash)),
            all == command_views(app_state.ui.torrent_management.pending_commands@),
            command_views(rest@) == kept(all.take(j as int), test),
        decreases app_state.ui.torrent_management.pending_commands@.len() - j,
    {
        let pending = &app_state.ui.torrent_management.pending_commands[j];
        assert(all[j as int] == pending@);
        assert(all.take(j + 1).drop_last() =~= all.take(j as int));
        if find_torrent(&app_state.torrents, &pending.info_hash).is_some() {
            let ghost was = command_views(rest@);
            rest.push(copy_command(pending));
            assert(command_views(rest@) =~= was.push(all[j as int]));
        }
        j = j + 1;
    }
    assert(all.take(j as int) =~= all);
    assert(command_views(rest@).len() == rest@.len());
    assert(all.len() == app_state.ui.torrent_management.pending_commands@.len());
    app_state.ui.torrent_management.selected_hashes = hashes;
    if rest.len() != app_state.ui.torrent_management.pending_commands.len() {
        app_state.ui.torrent_management.review_cache = None;
    }
    app_state.ui.torrent_management.pending_commands = rest;
}

/// The draft for a torrent: the first one that there is.
pub open spec fn draft_for(pending: Seq<CommandView>, hash: Seq<u8>) -> Option<int> {
    position_of(command_hashes(pending), hash)
}

/// The draft for a torrent.
#[verifier::loop_isolation(false)]
pub fn pending_management_command_for_hash<'a>(app_state: &'a AppState, info_hash: &Vec<u8>) -> (command:
    Option<&'a TorrentManagementPendingCommand>)
    ensures
        command is Some <==> draft_for(
            app_state.management().tm.pending_commands,
            info_hash@,
        ) is Some,
        command matches Some(command) ==> command@
            == app_state.management().tm.pending_commands[draft_for(
            app_state.management().tm.pending_commands,
            info_hash@,
        ).unwrap()],
{
    let pending = &app_state.ui.torrent_management.pending_commands;
    let ghost all = command_hashes(command_views(pending@));
    let mut k: usize = 0;
    while k < pending.len()
        invariant
            k <= pending@.len(),
            all == command_hashes(command_views(pending@)),
            position_of(all.take(k as int), info_hash@) is None,
        decreases pending@.len() - k,
    {
        assert(all.take(k + 1).drop_last() =~= all.take(k as int));
        assert(all[k as int] == pending@[k as int].info_hash@);
        if same_bytes(&pending[k].info_hash, info_hash) {
            proof {
                crate::lists::prefix_position(all, info_hash@, k + 1);
            }
            return Some(&pending[k]);
        }
        k = k + 1;
    }
    assert(all.take(k as int) =~= all);
    None
}

/// Whether any of a row's torrents has a draft.
pub open spec fn row_is_drafted(row: ManagementRow, pending: Seq<CommandView>) -> bool {
    exists|k: int|
        0 <= k < row.info_hashes@.len() && draft_for(
            pending,
            (#[trigger] row.info_hashes@[k])@,
        ) is Some
}

/// The label in place of the state while something is drafted for a row.
pub fn pending_management_label_for_row(app_state: &AppState, row: &ManagementRow) -> (label: Option<
    String,
>)
    ensures
        label is Some <==> row_is_drafted(*row, app_state.management().tm.pending_commands),
        label matches Some(text) ==> text@ == "Review"@,
{
    let mut k: usize = 0;
    while k < row.info_hashes.len()
        invariant
            k <= row.info_hashes@.len(),
            forall|j: int|
                0 <= j < k ==> draft_for(
                    app_state.management().tm.pending_commands,
                    (#[trigger] row.info_hashes@[j])@,
                ) is None,
        decreases row.info_hashes@.len() - k,
    {
        if pending_management_command_for_hash(app_state, &row.info_hashes[k]).is_some() {
            assert(draft_for(
                app_state.management().tm.pending_commands,
                row.info_hashes@[k as int]@,
            ) is Some);
            return Some(owned("Review"));
        }
        k = k + 1;
    }
    None
}

// -------------------------------------------------------------- the messages

pub open spec fn commands_noun(n: int) -> Seq<char> {
    if n == 1 {
        "command"@
    } else {
        "commands"@
    }
}

pub open spec fn selections_noun(n: int) -> Seq<char> {
    if n == 1 {
        "selection"@
    } else {
        "selections"@
    }
}

/// What clearing reports.
pub open spec fn clear_message(cleared: int, deselected: int) -> Seq<char> {
    let drafts = decimal(cleared as nat) + " draft "@ + commands_noun(cleared);
    let selections = decimal(deselected as nat) + " "@ + selections_noun(deselected);
    if cleared == 0 && deselected == 0 {
        "No selection or draft commands to clear"@
    } else if cleared == 0 {
        "Cleared "@ + selections
    } else if deselected == 0 {
        "Cleared "@ + drafts
    } else {
        "Cleared "@ + drafts + " and "@ + selections
    }
}

/// What clearing reports.
pub fn management_clear_status(cleared: usize, deselected: usize) -> (message: String)
    ensures
        message@ == clear_message(cleared as int, deselected as int),
{
    if cleared == 0 && deselected == 0 {
        return owned("No selection or draft commands to clear");
    }
    let drafts = join3(
        format_number(cleared as u64).as_str(),
        " draft ",
        if cleared == 1 {
            "command"
        } else {
            "commands"
        },
    );
    let selections = join3(
        format_number(deselected as u64).as_str(),
        " ",
        if deselected == 1 {
            "selection"
        } else {
            "selections"
        },
    );
    if cleared == 0 {
        join("Cleared ", selections.as_str())
    } else if deselected == 0 {
        join("Cleared ", drafts.as_str())
    } else {
        let mut message = join3("Cleared ", drafts.as_str(), " and ");
        message.append(selections.as_str());
        message
    }
}

/// How many drafts there are.
pub open spec fn pending_message(count: int) -> Seq<char> {
    decimal(count as nat) + " draft commands pending"@
}

/// How many drafts there are.
pub fn pending_management_status(app_state: &AppState) -> (message: String)
    ensures
        message@ == pending_message(app_state.management().tm.pending_commands.len() as int),
{
    let count = app_state.ui.torrent_management.pending_commands.len();
    assert(command_views(app_state.ui.torrent_management.pending_commands@).len() == count);
    join(format_number(count as u64).as_str(), " draft commands pending")
}

} // verus!
