//! The columns of the torrent table.
use crate::app::AppState;
use crate::geometry::{content_rect, inset, monus, Constraint, Rect};
use crate::order::SortDirection;
use crate::tui::layout::common::{
    compute_smart_table_layout, indispensable_columns_are_visible, nearest_visible,
    nearest_visible_column, step_column, stepped_column, visible_columns, visible_columns_rise,
    SmartCol,
};
use crate::tui::screens::torrents::model::ManagementModel;
use vstd::prelude::*;

verus! {

#[derive(Clone, Copy, Debug, PartialEq, Eq, Structural)]
pub enum ManagementColumnId {
    Selection,
    Name,
    Completed,
    State,
    Peers,
    DownSpeed,
    UpSpeed,
    Eta,
    Size,
    DateAdded,
}

#[derive(Clone, Copy, Debug)]
pub struct ManagementColumnDefinition {
    pub id: ManagementColumnId,
    pub header: &'static str,
    pub min_width: u16,
    pub priority: u8,
    pub constraint: Constraint,
}

/// What a column shows, and how much room it asks for.
pub open spec fn column_ids() -> Seq<ManagementColumnId> {
    seq![
        ManagementColumnId::Selection,
        ManagementColumnId::Name,
        ManagementColumnId::Eta,
        ManagementColumnId::Completed,
        ManagementColumnId::State,
        ManagementColumnId::Peers,
        ManagementColumnId::DownSpeed,
        ManagementColumnId::UpSpeed,
        ManagementColumnId::Size,
        ManagementColumnId::DateAdded,
    ]
}

pub open spec fn column_header(id: ManagementColumnId) -> Seq<char> {
    match id {
        ManagementColumnId::Selection => "="@,
        ManagementColumnId::Name => "Name"@,
        ManagementColumnId::Eta => "ETA"@,
        ManagementColumnId::Completed => "Done"@,
        ManagementColumnId::State => "Action"@,
        ManagementColumnId::Peers => "Peers"@,
        ManagementColumnId::DownSpeed => "DL"@,
        ManagementColumnId::UpSpeed => "UL"@,
        ManagementColumnId::Size => "Size"@,
        ManagementColumnId::DateAdded => "Added"@,
    }
}

pub open spec fn column_needs(id: ManagementColumnId) -> SmartCol {
    let (min_width, priority) = match id {
        ManagementColumnId::Selection => (2u16, 0u8),
        ManagementColumnId::Name => (20u16, 0u8),
        ManagementColumnId::Eta => (9u16, 4u8),
        ManagementColumnId::Completed => (7u16, 2u8),
        ManagementColumnId::State => (8u16, 2u8),
        ManagementColumnId::Peers => (7u16, 3u8),
        ManagementColumnId::DownSpeed => (10u16, 1u8),
        ManagementColumnId::UpSpeed => (10u16, 1u8),
        ManagementColumnId::Size => (10u16, 5u8),
        ManagementColumnId::DateAdded => (10u16, 5u8),
    };
    SmartCol {
        min_width,
        priority,
        constraint: if id == ManagementColumnId::Name {
            Constraint::Fill(3)
        } else {
            Constraint::Length(min_width)
        },
    }
}

/// The columns of the table as the layout sees them.
pub open spec fn column_table() -> Seq<SmartCol> {
    column_ids().map_values(|id: ManagementColumnId| column_needs(id))
}

fn fixed_column(id: ManagementColumnId, header: &'static str, width: u16, priority: u8) -> (column:
    ManagementColumnDefinition)
    ensures
        column.id == id,
        column.header@ == header@,
        column.min_width == width,
        column.priority == priority,
        column.constraint == Constraint::Length(width),
{
    ManagementColumnDefinition {
        id,
        header,
        min_width: width,
        priority,
        constraint: Constraint::Length(width),
    }
}

/// The columns of the table, from left to right.
pub fn management_columns() -> (columns: Vec<ManagementColumnDefinition>)
    ensures
        columns@.len() == column_ids().len(),
        forall|k: int|
            0 <= k < columns@.len() ==> {
                let id = column_ids()[k];
                &&& (#[trigger] columns@[k]).id == id
                &&& columns@[k].header@ == column_header(id)
                &&& columns@[k].min_width == column_needs(id).min_width
                &&& columns@[k].priority == column_needs(id).priority
                &&& columns@[k].constraint == column_needs(id).constraint
            },
{
    let mut columns: Vec<ManagementColumnDefinition> = Vec::new();
    columns.push(fixed_column(ManagementColumnId::Selection, "=", 2, 0));
    columns.push(
        ManagementColumnDefinition {
            id: ManagementColumnId::Name,
            header: "Name",
            min_width: 20,
            priority: 0,
            constraint: Constraint::Fill(3),
        },
    );
    columns.push(fixed_column(ManagementColumnId::Eta, "ETA", 9, 4));
    columns.push(fixed_column(ManagementColumnId::Completed, "Done", 7, 2));
    columns.push(fixed_column(ManagementColumnId::State, "Action", 8, 2));
    columns.push(fixed_column(ManagementColumnId::Peers, "Peers", 7, 3));
    columns.push(fixed_column(ManagementColumnId::DownSpeed, "DL", 10, 1));
    columns.push(fixed_column(ManagementColumnId::UpSpeed, "UL", 10, 1));
    columns.push(fixed_column(ManagementColumnId::Size, "Size", 10, 5));
    columns.push(fixed_column(ManagementColumnId::DateAdded, "Added", 10, 5));
    columns
}

/// The numbers of the columns that a table of the given width shows. Its frame
/// and padding take four cells, and one cell lies between two columns.
pub open spec fn columns_at_width(width: int) -> Seq<usize> {
    visible_columns(column_table(), monus(width, 4), 1)
}

/// The constraints and the numbers of the columns on view.
pub fn compute_visible_management_columns(available_width: u16) -> (layout: (
    Vec<Constraint>,
    Vec<usize>,
))
    ensures
        layout.1@ == columns_at_width(available_width as int),
        layout.0@.len() == layout.1@.len(),
        forall|k: int|
            0 <= k < layout.1@.len() ==> layout.1@[k] < column_table().len()
                && #[trigger] layout.0@[k] == column_table()[layout.1@[k] as int].constraint,
{
    let columns = management_columns();
    let mut smart_columns: Vec<SmartCol> = Vec::new();
    let mut i: usize = 0;
    while i < columns.len()
        invariant
            i <= columns@.len(),
            columns@.len() == column_ids().len(),
            forall|k: int|
                0 <= k < columns@.len() ==> {
                    let id = column_ids()[k];
                    &&& (#[trigger] columns@[k]).min_width == column_needs(id).min_width
                    &&& columns@[k].priority == column_needs(id).priority
                    &&& columns@[k].constraint == column_needs(id).constraint
                },
            smart_columns@ == column_table().take(i as int),
        decreases columns@.len() - i,
    {
        let column = columns[i];
        smart_columns.push(
            SmartCol {
                min_width: column.min_width,
                priority: column.priority,
                constraint: column.constraint,
            },
        );
        i = i + 1;
        assert(smart_columns@ =~= column_table().take(i as int));
    }
    assert(column_table().take(i as int) =~= column_table());
    compute_smart_table_layout(&smart_columns, available_width.saturating_sub(4), 1)
}

/// What the columns on view show, from left to right.
pub fn visible_management_column_ids(available_width: u16) -> (ids: Vec<ManagementColumnId>)
    ensures
        ids@ == columns_at_width(available_width as int).map_values(
            |i: usize| column_ids()[i as int],
        ),
{
    let columns = management_columns();
    let (_, visible) = compute_visible_management_columns(available_width);
    let ghost all = visible@.map_values(|i: usize| column_ids()[i as int]);
    let mut ids: Vec<ManagementColumnId> = Vec::new();
    let mut k: usize = 0;
    proof {
        visible_columns_rise(column_table(), monus(available_width as int, 4), 1);
    }
    while k < visible.len()
        invariant
            k <= visible@.len(),
            columns@.len() == column_ids().len(),
            forall|k: int|
                0 <= k < columns@.len() ==> (#[trigger] columns@[k]).id == column_ids()[k],
            forall|k: int| 0 <= k < visible@.len() ==> #[trigger] visible@[k] < columns@.len(),
            all == visible@.map_values(|i: usize| column_ids()[i as int]),
            ids@ == all.take(k as int),
        decreases visible@.len() - k,
    {
        ids.push(columns[visible[k]].id);
        k = k + 1;
        assert(ids@ =~= all.take(k as int));
    }
    assert(all.take(k as int) =~= all);
    ids
}

/// The selection and the name are on view at every width.
pub proof fn selection_and_name_are_always_visible(width: int)
    ensures
        columns_at_width(width).contains(0usize),
        columns_at_width(width).contains(1usize),
        columns_at_width(width).len() > 0,
{
    indispensable_columns_are_visible(column_table(), monus(width, 4), 1, 0usize);
    indispensable_columns_are_visible(column_table(), monus(width, 4), 1, 1usize);
}

/// The part of the screen that torrent management uses.
pub open spec fn management_frame(area: Rect) -> Rect {
    content_rect(area, 90, 18)
}

/// The part of the screen that torrent management uses.
pub fn management_content_area(area: Rect) -> (content: Rect)
    requires
        area.valid(),
    ensures
        content == management_frame(area),
        content.valid(),
{
    if area.width < 90 || area.height < 18 {
        return area;
    }
    inset(area)
}

/// The width of the table; before the first frame it counts as 140.
pub open spec fn table_width(screen: Rect) -> int {
    if screen.width > 0 {
        management_frame(screen).width as int
    } else {
        140
    }
}

pub fn management_table_width_for_state(app_state: &AppState) -> (width: u16)
    requires
        app_state.well_formed(),
    ensures
        width == table_width(app_state.screen_area),
{
    if app_state.screen_area.width > 0 {
        management_content_area(app_state.screen_area).width
    } else {
        140
    }
}

/// The numbers of the columns on view.
pub fn visible_management_column_indices_for_state(app_state: &AppState) -> (visible: Vec<usize>)
    requires
        app_state.well_formed(),
    ensures
        visible@ == columns_at_width(table_width(app_state.screen_area)),
        forall|k: int| 0 <= k < visible@.len() ==> #[trigger] visible@[k] < column_ids().len(),
{
    let width = management_table_width_for_state(app_state);
    proof {
        visible_columns_rise(column_table(), monus(width as int, 4), 1);
    }
    compute_visible_management_columns(width).1
}

/// The number of the name column.
pub const NAME_COLUMN: usize = 1;

/// The column that a selection means among those on view.
pub fn normalized_selected_column_from_visible(
    selected_index: usize,
    visible_columns: &Vec<usize>,
) -> (column: usize)
    ensures
        column == nearest_visible(selected_index as int, visible_columns@, NAME_COLUMN as int),
        visible_columns@.len() > 0 ==> visible_columns@.contains(column),
{
    nearest_visible_column(selected_index, visible_columns, NAME_COLUMN)
}

/// The selected column, as far as it is on view.
pub open spec fn selected_column(m: ManagementModel) -> int {
    nearest_visible(
        m.tm.selected_column_index,
        columns_at_width(table_width(m.screen)),
        NAME_COLUMN as int,
    )
}

/// The selected column, as far as it is on view.
pub fn normalized_selected_management_column_index(app_state: &AppState) -> (column: usize)
    requires
        app_state.well_formed(),
    ensures
        column == selected_column(app_state.management()),
        column < column_ids().len(),
{
    let visible = visible_management_column_indices_for_state(app_state);
    proof {
        selection_and_name_are_always_visible(table_width(app_state.screen_area));
    }
    normalized_selected_column_from_visible(
        app_state.ui.torrent_management.selected_column_index,
        &visible,
    )
}

/// The selection after one step to the left or to the right.
pub open spec fn column_moved(m: ManagementModel, rightward: bool) -> ManagementModel {
    m.with_tm(
        crate::app::ManagementView {
            selected_column_index: stepped_column(
                m.tm.selected_column_index,
                columns_at_width(table_width(m.screen)),
                NAME_COLUMN as int,
                rightward,
            ),
            ..m.tm
        },
    )
}

/// Moves the selection to the column on the left or on the right.
pub fn move_management_column(app_state: &mut AppState, rightward: bool)
    requires
        old(app_state).well_formed(),
    ensures
        final(app_state).management() == column_moved(old(app_state).management(), rightward),
        old(app_state).same_but_management(*final(app_state)),
        final(app_state).ui.torrent_management.selected_column_index < column_ids().len(),
{
    let visible = visible_management_column_indices_for_state(app_state);
    proof {
        selection_and_name_are_always_visible(table_width(app_state.screen_area));
    }
    let column = step_column(
        app_state.ui.torrent_management.selected_column_index,
        &visible,
        NAME_COLUMN,
        rightward,
    );
    app_state.ui.torrent_management.selected_column_index = column;
}

pub open spec fn is_numeric(column: ManagementColumnId) -> bool {
    match column {
        ManagementColumnId::Selection | ManagementColumnId::Name | ManagementColumnId::State => false,
        _ => true,
    }
}

/// Whether a column holds quantities.
pub fn management_column_is_numeric(column: ManagementColumnId) -> (numeric: bool)
    ensures
        numeric == is_numeric(column),
{
    match column {
        ManagementColumnId::Completed | ManagementColumnId::Peers | ManagementColumnId::DownSpeed
        | ManagementColumnId::UpSpeed | ManagementColumnId::Eta | ManagementColumnId::Size
        | ManagementColumnId::DateAdded => true,
        _ => false,
    }
}

/// Quantities are sorted from the highest down at first, texts from A to Z.
pub open spec fn first_direction(column: ManagementColumnId) -> SortDirection {
    if is_numeric(column) {
        SortDirection::Descending
    } else {
        SortDirection::Ascending
    }
}

pub fn management_column_default_direction(column: ManagementColumnId) -> (direction: SortDirection)
    ensures
        direction == first_direction(column),
{
    if management_column_is_numeric(column) {
        SortDirection::Descending
    } else {
        SortDirection::Ascending
    }
}

/// The arrow behind the header of the sorted column: it points down in the
/// direction that the column is sorted in at first.
pub fn management_sort_arrow(column: ManagementColumnId, direction: SortDirection) -> (arrow:
    &'static str)
    ensures
        arrow@ == if direction == first_direction(column) {
            " ▼"@
        } else {
            " ▲"@
        },
{
    match (management_column_is_numeric(column), direction) {
        (true, SortDirection::Descending) | (false, SortDirection::Ascending) => " ▼",
        (true, SortDirection::Ascending) | (false, SortDirection::Descending) => " ▲",
    }
}

/// The column that the rows are sorted by.
pub open spec fn sort_column(index: Option<usize>) -> Option<ManagementColumnId> {
    match index {
        Some(i) => if (i as int) < column_ids().len() {
            Some(column_ids()[i as int])
        } else {
            None
        },
        None => None,
    }
}

pub fn management_sort_column(app_state: &AppState) -> (column: Option<ManagementColumnId>)
    ensures
        column == sort_column(app_state.ui.torrent_management.sort_column_index),
{
    let columns = management_columns();
    match app_state.ui.torrent_management.sort_column_index {
        Some(i) => if i < columns.len() {
            Some(columns[i].id)
        } else {
            None
        },
        None => None,
    }
}

/// The number of a column.
pub fn management_column_index(column_id: ManagementColumnId) -> (index: Option<usize>)
    ensures
        index matches Some(i) && i < column_ids().len() && column_ids()[i as int] == column_id,
{
    let columns = management_columns();
    let mut i: usize = 0;
    while i < columns.len()
        invariant
            i <= columns@.len(),
            columns@.len() == column_ids().len(),
            forall|k: int|
                0 <= k < columns@.len() ==> (#[trigger] columns@[k]).id == column_ids()[k],
            forall|k: int| 0 <= k < i ==> #[trigger] column_ids()[k] != column_id,
        decreases columns@.len() - i,
    {
        if columns[i].id == column_id {
            return Some(i);
        }
        i = i + 1;
    }
    proof {
        let ids = column_ids();
        assert(ids[0] != column_id && ids[1] != column_id && ids[2] != column_id && ids[3]
            != column_id && ids[4] != column_id && ids[5] != column_id && ids[6] != column_id
            && ids[7] != column_id && ids[8] != column_id && ids[9] != column_id);
        assert(false);
    }
    None
}

/// Column numbers that are none are mended: the selection moves to the last
/// column, and a sort by no column ends.
pub open spec fn columns_clamped(m: ManagementModel) -> ManagementModel {
    m.with_tm(
        crate::app::ManagementView {
            selected_column_index: if m.tm.selected_column_index >= column_ids().len() {
                column_ids().len() - 1
            } else {
                m.tm.selected_column_index
            },
            sort_column_index: match m.tm.sort_column_index {
                Some(i) if (i as int) < column_ids().len() => Some(i),
                _ => None,
            },
            ..m.tm
        },
    )
}

/// Mends column numbers that are none.
pub fn clamp_management_column_state(app_state: &mut AppState)
    ensures
        final(app_state).management() == columns_clamped(old(app_state).management()),
        old(app_state).same_but_management(*final(app_state)),
{
    let columns_len = management_columns().len();
    if app_state.ui.torrent_management.selected_column_index >= columns_len {
        app_state.ui.torrent_management.selected_column_index = columns_len - 1;
    }
    if let Some(i) = app_state.ui.torrent_management.sort_column_index {
        if i >= columns_len {
            app_state.ui.torrent_management.sort_column_index = None;
        }
    }
}

} // verus!
