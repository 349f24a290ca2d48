//! What the table of torrent management shows.
use crate::app::{AppState, CommandView, ManagementView};
use crate::geometry::{max_int, monus};
use crate::lists::byte_strings;
use crate::text::{cut_off, decimal, format_number, join, join3, owned, truncate_with_ellipsis};
use crate::tui::layout::common::{nearest_visible, nearest_visible_column};
use crate::tui::screens::torrents::columns::{
    column_header, column_ids, first_direction, management_columns, management_sort_arrow,
    ManagementColumnId, NAME_COLUMN,
};
use crate::tui::screens::torrents::drafts::{
    draft_for, pending_management_command_for_hash, pending_management_label_for_row,
    row_is_drafted,
};
use crate::tui::screens::torrents::review::{action_of, request_action, ManagementReviewAction};
use crate::tui::screens::torrents::rows::{
    management_selection_marker, row_selection_state, selection_mark, selection_of, ManagementRow,
    SelectionState,
};
use vstd::prelude::*;
use vstd::string::StringExecFns;

verus! {

// ------------------------------------------------------------------- the head

/// A cell in the head of the table. The label of the selected column is marked,
/// and an arrow follows that of the sorted one.
#[derive(Clone, Copy, Debug, PartialEq, Eq)]
pub struct ManagementHeaderCell {
    pub column: ManagementColumnId,
    pub label: &'static str,
    pub selected: bool,
    pub arrow: Option<&'static str>,
}

/// Whether a cell is the head of a column.
pub open spec fn is_header(
    cell: ManagementHeaderCell,
    index: int,
    tm: ManagementView,
    selected_column: int,
) -> bool {
    let id = column_ids()[index];
    &&& cell.column == id
    &&& cell.label@ == column_header(id)
    &&& cell.selected == (index == selected_column)
    &&& match cell.arrow {
        Some(arrow) => tm.sort_column_index == Some(index as usize) && arrow@
            == if tm.sort_direction == first_direction(id) {
            " ▼"@
        } else {
            " ▲"@
        },
        None => tm.sort_column_index != Some(index as usize),
    }
}

/// The head of the table, for the columns on view.
pub fn management_table_header(app_state: &AppState, visible_columns: &Vec<usize>) -> (cells: Vec<
    ManagementHeaderCell,
>)
    requires
        forall|k: int|
            0 <= k < visible_columns@.len() ==> #[trigger] visible_columns@[k] < column_ids().len(),
    ensures
        cells@.len() == visible_columns@.len(),
        forall|k: int|
            0 <= k < cells@.len() ==> is_header(
                #[trigger] cells@[k],
                visible_columns@[k] as int,
                app_state.management().tm,
                nearest_visible(
                    app_state.management().tm.selected_column_index,
                    visible_columns@,
                    NAME_COLUMN as int,
                ),
            ),
{
    let columns = management_columns();
    let selected_column = nearest_visible_column(
        app_state.ui.torrent_management.selected_column_index,
        visible_columns,
        NAME_COLUMN,
    );
    let mut cells: Vec<ManagementHeaderCell> = Vec::new();
    let mut k: usize = 0;
    while k < visible_columns.len()
        invariant
            k <= visible_columns@.len(),
            cells@.len() == k,
            forall|k: int|
                0 <= k < visible_columns@.len() ==> #[trigger] visible_columns@[k]
                    < column_ids().len(),
            columns@.len() == column_ids().len(),
            forall|i: int|
                0 <= i < columns@.len() ==> (#[trigger] columns@[i]).id == column_ids()[i]
                    && columns@[i].header@ == column_header(column_ids()[i]),
            selected_column == nearest_visible(
                app_state.management().tm.selected_column_index,
                visible_columns@,
                NAME_COLUMN as int,
            ),
            forall|j: int|
                0 <= j < k ==> is_header(
                    #[trigger] cells@[j],
                    visible_columns@[j] as int,
                    app_state.management().tm,
                    selected_column as int,
                ),
        decreases visible_columns@.len() - k,
    {
        let index = visible_columns[k];
        let sorting = match app_state.ui.torrent_management.sort_column_index {
            Some(i) => i == index,
            None => false,
        };
        let id = columns[index].id;
        let arrow: Option<&'static str> = if sorting {
            Some(management_sort_arrow(id, app_state.ui.torrent_management.sort_direction))
        } else {
            None
        };
        cells.push(
            ManagementHeaderCell {
                column: id,
                label: columns[index].header,
                selected: index == selected_column,
                arrow,
            },
        );
        k = k + 1;
    }
    cells
}

// ------------------------------------------------------------------- the rows

/// What is drafted for some torrents, as far as it shows: the last draft, but a
/// purge goes before all.
pub open spec fn drafted_action(hashes: Seq<Seq<u8>>, pending: Seq<CommandView>) -> Option<
    ManagementReviewAction,
>
    decreases hashes.len(),
{
    if hashes.len() == 0 {
        None
    } else {
        let before = drafted_action(hashes.drop_last(), pending);
        if before == Some(ManagementReviewAction::Purge) {
            before
        } else {
            match draft_for(pending, hashes.last()) {
                Some(k) => match action_of(pending[k].request) {
                    Some(action) => Some(action),
                    None => before,
                },
                None => before,
            }
        }
    }
}

proof fn a_purge_stays(hashes: Seq<Seq<u8>>, pending: Seq<CommandView>, n: int)
    requires
        0 <= n <= hashes.len(),
        drafted_action(hashes.take(n), pending) == Some(ManagementReviewAction::Purge),
    ensures
        drafted_action(hashes, pending) == Some(ManagementReviewAction::Purge),
    decreases hashes.len() - n,
{
    if n < hashes.len() {
        assert(hashes.take(n + 1).drop_last() =~= hashes.take(n));
        a_purge_stays(hashes, pending, n + 1);
    } else {
        assert(hashes.take(n) =~= hashes);
    }
}

/// What is drafted for a row, as far as it shows.
pub fn pending_management_review_style_for_row(app_state: &AppState, row: &ManagementRow) -> (action:
    Option<ManagementReviewAction>)
    ensures
        action == drafted_action(
            byte_strings(row.info_hashes@),
            app_state.management().tm.pending_commands,
        ),
{
    let ghost hashes = byte_strings(row.info_hashes@);
    let ghost pending = app_state.management().tm.pending_commands;
    let mut action: Option<ManagementReviewAction> = None;
    let mut k: usize = 0;
    assert(hashes.take(0) =~= Seq::<Seq<u8>>::empty());
    while k < row.info_hashes.len()
        invariant
            k <= row.info_hashes@.len(),
            hashes == byte_strings(row.info_hashes@),
            pending == app_state.management().tm.pending_commands,
            action == drafted_action(hashes.take(k as int), pending),
            action != Some(ManagementReviewAction::Purge),
        decreases row.info_hashes@.len() - k,
    {
        assert(hashes.take(k + 1).drop_last() =~= hashes.take(k as int));
        assert(hashes.take(k + 1).last() == row.info_hashes@[k as int]@);
        if let Some(command) = pending_management_command_for_hash(
            app_state,
            &row.info_hashes[k],
        ) {
            if let Some(next) = request_action(&command.request) {
                action = Some(next);
                if next == ManagementReviewAction::Purge {
                    proof {
                        a_purge_stays(hashes, pending, k + 1);
                    }
                    return action;
                }
            }
        }
        k = k + 1;
    }
    assert(hashes.take(k as int) =~= hashes);
    action
}

/// How a row stands out.
#[derive(Clone, Copy, Debug, PartialEq, Eq, Structural)]
pub enum ManagementRowTone {
    Cursor,
    Selected,
    Drafted(Option<ManagementReviewAction>),
    Paused,
    Deleting,
    Plain,
}

/// How a row stands out: as the one under the cursor, unless a review is on view,
/// as selected, by what is drafted for it, or by its state.
pub open spec fn row_tone(row: ManagementRow, tm: ManagementView, row_is_cursor: bool) -> ManagementRowTone {
    let hashes = byte_strings(row.info_hashes@);
    if row_is_cursor && !tm.confirm_submit {
        ManagementRowTone::Cursor
    } else if selection_of(hashes, tm.selected_hashes) != SelectionState::Empty {
        ManagementRowTone::Selected
    } else if row_is_drafted(row, tm.pending_commands) {
        ManagementRowTone::Drafted(drafted_action(hashes, tm.pending_commands))
    } else if row.metrics.state_label@ == "Paused"@ {
        ManagementRowTone::Paused
    } else if row.metrics.state_label@ == "Deleting"@ {
        ManagementRowTone::Deleting
    } else {
        ManagementRowTone::Plain
    }
}

/// How a row stands out.
pub fn management_row_tone(app_state: &AppState, row: &ManagementRow, row_is_cursor: bool) -> (tone:
    ManagementRowTone)
    ensures
        tone == row_tone(*row, app_state.management().tm, row_is_cursor),
{
    if row_is_cursor && !app_state.ui.torrent_management.confirm_submit {
        ManagementRowTone::Cursor
    } else if row_selection_state(app_state, row) != SelectionState::Empty {
        ManagementRowTone::Selected
    } else if pending_management_label_for_row(app_state, row).is_some() {
        ManagementRowTone::Drafted(pending_management_review_style_for_row(app_state, row))
    } else if crate::text::same_text(row.metrics.state_label.as_str(), "Paused") {
        ManagementRowTone::Paused
    } else if crate::text::same_text(row.metrics.state_label.as_str(), "Deleting") {
        ManagementRowTone::Deleting
    } else {
        ManagementRowTone::Plain
    }
}

/// Parts of a row that hold rounded quantities, a time or a date.
pub struct ManagementRowTexts {
    pub date_added: String,
    pub completed: String,
    pub download_speed: String,
    pub upload_speed: String,
    pub eta: String,
    pub size: String,
}

/// A cell of the table.
pub open spec fn management_cell(
    column: ManagementColumnId,
    row: ManagementRow,
    tm: ManagementView,
    parts: ManagementRowTexts,
) -> Seq<char> {
    let drafted = row_is_drafted(row, tm.pending_commands);
    match column {
        ManagementColumnId::Selection => selection_mark(
            selection_of(byte_strings(row.info_hashes@), tm.selected_hashes),
            drafted,
        ),
        ManagementColumnId::Name => if row.depth > 0 {
            "  "@ + row.label@
        } else {
            row.label@
        },
        ManagementColumnId::DateAdded => parts.date_added@,
        ManagementColumnId::Completed => parts.completed@,
        ManagementColumnId::State => if drafted {
            "Review"@
        } else {
            row.metrics.state_label@
        },
        ManagementColumnId::Peers => decimal(row.metrics.peer_count as nat),
        ManagementColumnId::DownSpeed => parts.download_speed@,
        ManagementColumnId::UpSpeed => parts.upload_speed@,
        ManagementColumnId::Eta => parts.eta@,
        ManagementColumnId::Size => parts.size@,
    }
}

/// The cells of a row, for the columns on view.
pub fn management_table_row(
    app_state: &AppState,
    row: &ManagementRow,
    visible_columns: &Vec<usize>,
    parts: &ManagementRowTexts,
) -> (cells: Vec<String>)
    requires
        forall|k: int|
            0 <= k < visible_columns@.len() ==> #[trigger] visible_columns@[k] < column_ids().len(),
    ensures
        cells@.len() == visible_columns@.len(),
        forall|k: int|
            0 <= k < cells@.len() ==> (#[trigger] cells@[k])@ == management_cell(
                column_ids()[visible_columns@[k] as int],
                *row,
                app_state.management().tm,
                *parts,
            ),
{
    let ghost tm = app_state.management().tm;
    let selected_state = row_selection_state(app_state, row);
    let pending_label = pending_management_label_for_row(app_state, row);
    let drafted = pending_label.is_some();
    let columns = management_columns();
    let mut cells: Vec<String> = Vec::new();
    let mut k: usize = 0;
    while k < visible_columns.len()
        invariant
            k <= visible_columns@.len(),
            cells@.len() == k,
            tm == app_state.management().tm,
            selected_state == selection_of(byte_strings(row.info_hashes@), tm.selected_hashes),
            drafted == row_is_drafted(*row, tm.pending_commands),
            forall|k: int|
                0 <= k < visible_columns@.len() ==> #[trigger] visible_columns@[k]
                    < column_ids().len(),
            columns@.len() == column_ids().len(),
            forall|i: int|
                0 <= i < columns@.len() ==> (#[trigger] columns@[i]).id == column_ids()[i],
            forall|j: int|
                0 <= j < k ==> (#[trigger] cells@[j])@ == management_cell(
                    column_ids()[visible_columns@[j] as int],
                    *row,
                    tm,
                    *parts,
                ),
        decreases visible_columns@.len() - k,
    {
        let cell = match columns[visible_columns[k]].id {
            ManagementColumnId::Selection => owned(
                management_selection_marker(selected_state, drafted),
            ),
            ManagementColumnId::Name => if row.depth > 0 {
                join("  ", row.label.as_str())
            } else {
                row.label.clone()
            },
            ManagementColumnId::DateAdded => parts.date_added.clone(),
            ManagementColumnId::Completed => parts.completed.clone(),
            ManagementColumnId::State => if drafted {
                owned("Review")
            } else {
                row.metrics.state_label.clone()
            },
            ManagementColumnId::Peers => format_number(row.metrics.peer_count as u64),
            ManagementColumnId::DownSpeed => parts.download_speed.clone(),
            ManagementColumnId::UpSpeed => parts.upload_speed.clone(),
            ManagementColumnId::Eta => parts.eta.clone(),
            ManagementColumnId::Size => parts.size.clone(),
        };
        cells.push(cell);
        k = k + 1;
    }
    cells
}

// ---------------------------------------------------------------- the messages

/// What stands in an empty table.
pub fn empty_table_message(app_state: &AppState) -> (message: &'static str)
    ensures
        message@ == if app_state.management().tm.search_query.len() == 0 {
            "No torrents"@
        } else {
            "No torrents match the search"@
        },
{
    if app_state.ui.torrent_management.search_query.as_str().is_empty() {
        "No torrents"
    } else {
        "No torrents match the search"
    }
}

/// A message, made fit for a terminal, below a table of the given width.
pub fn table_status(shown_message: &str, width: u16) -> (status: String)
    ensures
        status@ == " "@ + cut_off(shown_message@, max_int(monus(width as int, 4), 1)) + " "@,
{
    let spare: u16 = width.saturating_sub(4);
    let room: usize = if spare >= 1 {
        spare as usize
    } else {
        1
    };
    join3(" ", truncate_with_ellipsis(shown_message, room).as_str(), " ")
}

} // verus!
