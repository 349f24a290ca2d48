//! The columns of the peer table.
use crate::geometry::{monus, Constraint};
use crate::order::SortDirection;
use crate::tui::layout::common::{
    compute_smart_table_layout, indispensable_columns_are_visible, visible_columns,
    visible_columns_rise, SmartCol,
};
use crate::tui::screens::peers::labels::{LAST_SEEN_COLUMN_WIDTH, STATE_COLUMN_WIDTH};
use vstd::prelude::*;

verus! {

#[derive(Clone, Copy, Debug, PartialEq, Eq, Structural)]
pub enum PeerColumnId {
    State,
    Address,
    Torrents,
    Client,
    Connects,
    Disconnects,
    Downloaded,
    Uploaded,
    Evidence,
    LastSeen,
}

pub const TORRENTS_COLUMN_WIDTH: u16 = 10;

pub const CONNECTS_COLUMN_WIDTH: u16 = 10;

pub const DISCONNECTS_COLUMN_WIDTH: u16 = 13;

pub const TRANSFER_COLUMN_WIDTH: u16 = 11;

pub const EVIDENCE_COLUMN_WIDTH: u16 = 18;

#[derive(Clone, Copy, Debug)]
pub struct PeerColumnDefinition {
    pub id: PeerColumnId,
    pub header: &'static str,
    pub min_width: u16,
    pub priority: u8,
    pub constraint: Constraint,
}

/// What the columns show, from left to right.
pub open spec fn peer_column_ids() -> Seq<PeerColumnId> {
    seq![
        PeerColumnId::State,
        PeerColumnId::Address,
        PeerColumnId::Torrents,
        PeerColumnId::Client,
        PeerColumnId::Connects,
        PeerColumnId::Disconnects,
        PeerColumnId::Downloaded,
        PeerColumnId::Uploaded,
        PeerColumnId::Evidence,
        PeerColumnId::LastSeen,
    ]
}

pub open spec fn peer_column_header(id: PeerColumnId) -> Seq<char> {
    match id {
        PeerColumnId::State => "State"@,
        PeerColumnId::Address => "Address"@,
        PeerColumnId::Torrents => "Torrents"@,
        PeerColumnId::Client => "Client"@,
        PeerColumnId::Connects => "Connects"@,
        PeerColumnId::Disconnects => "Disconnects"@,
        PeerColumnId::Downloaded => "DL"@,
        PeerColumnId::Uploaded => "UL"@,
        PeerColumnId::Evidence => "Evidence"@,
        PeerColumnId::LastSeen => "Last Seen"@,
    }
}

/// The room that a column asks for.
pub open spec fn peer_column_needs(id: PeerColumnId) -> SmartCol {
    let (min_width, priority) = match id {
        PeerColumnId::State => (STATE_COLUMN_WIDTH, 0u8),
        PeerColumnId::Address => (20u16, 0u8),
        PeerColumnId::Torrents => (TORRENTS_COLUMN_WIDTH, 2u8),
        PeerColumnId::Client => (18u16, 2u8),
        PeerColumnId::Connects => (CONNECTS_COLUMN_WIDTH, 1u8),
        PeerColumnId::Disconnects => (DISCONNECTS_COLUMN_WIDTH, 1u8),
        PeerColumnId::Downloaded => (TRANSFER_COLUMN_WIDTH, 1u8),
        PeerColumnId::Uploaded => (TRANSFER_COLUMN_WIDTH, 1u8),
        PeerColumnId::Evidence => (EVIDENCE_COLUMN_WIDTH, 0u8),
        PeerColumnId::LastSeen => (LAST_SEEN_COLUMN_WIDTH, 1u8),
    };
    SmartCol {
        min_width,
        priority,
        constraint: if id == PeerColumnId::Address || id == PeerColumnId::Client {
            Constraint::Fill(1)
        } else {
            Constraint::Length(min_width)
        },
    }
}

/// The columns as the layout sees them.
pub open spec fn peer_column_table() -> Seq<SmartCol> {
    peer_column_ids().map_values(|id: PeerColumnId| peer_column_needs(id))
}

fn peer_column(
    id: PeerColumnId,
    header: &'static str,
    min_width: u16,
    priority: u8,
    constraint: Constraint,
) -> (column: PeerColumnDefinition)
    ensures
        column.id == id,
        column.header@ == header@,
        column.min_width == min_width,
        column.priority == priority,
        column.constraint == constraint,
{
    PeerColumnDefinition { id, header, min_width, priority, constraint }
}

fn fixed(id: PeerColumnId, header: &'static str, width: u16, priority: u8) -> (column:
    PeerColumnDefinition)
    ensures
        column.id == id,
        column.header@ == header@,
        column.min_width == width,
        column.priority == priority,
        column.constraint == Constraint::Length(width),
{
    peer_column(id, header, width, priority, Constraint::Length(width))
}

/// The columns of the table, from left to right.
pub fn peer_columns() -> (columns: Vec<PeerColumnDefinition>)
    ensures
        columns@.len() == peer_column_ids().len(),
        forall|k: int|
            0 <= k < columns@.len() ==> {
                let id = peer_column_ids()[k];
                &&& (#[trigger] columns@[k]).id == id
                &&& columns@[k].header@ == peer_column_header(id)
                &&& columns@[k].min_width == peer_column_needs(id).min_width
                &&& columns@[k].priority == peer_column_needs(id).priority
                &&& columns@[k].constraint == peer_column_needs(id).constraint
            },
{
    let mut columns: Vec<PeerColumnDefinition> = Vec::new();
    columns.push(fixed(PeerColumnId::State, "State", STATE_COLUMN_WIDTH, 0));
    columns.push(peer_column(PeerColumnId::Address, "Address", 20, 0, Constraint::Fill(1)));
    columns.push(fixed(PeerColumnId::Torrents, "Torrents", TORRENTS_COLUMN_WIDTH, 2));
    columns.push(peer_column(PeerColumnId::Client, "Client", 18, 2, Constraint::Fill(1)));
    columns.push(fixed(PeerColumnId::Connects, "Connects", CONNECTS_COLUMN_WIDTH, 1));
    columns.push(fixed(PeerColumnId::Disconnects, "Disconnects", DISCONNECTS_COLUMN_WIDTH, 1));
    columns.push(fixed(PeerColumnId::Downloaded, "DL", TRANSFER_COLUMN_WIDTH, 1));
    columns.push(fixed(PeerColumnId::Uploaded, "UL", TRANSFER_COLUMN_WIDTH, 1));
    columns.push(fixed(PeerColumnId::Evidence, "Evidence", EVIDENCE_COLUMN_WIDTH, 0));
    columns.push(fixed(PeerColumnId::LastSeen, "Last Seen", LAST_SEEN_COLUMN_WIDTH, 1));
    columns
}

/// The numbers of the columns that a table of the given width shows.
pub open spec fn peer_columns_at_width(width: int) -> Seq<usize> {
    visible_columns(peer_column_table(), monus(width, 4), 1)
}

/// The constraints and the numbers of the columns on view.
pub fn compute_visible_peer_management_columns(available_width: u16) -> (layout: (
    Vec<Constraint>,
    Vec<usize>,
))
    ensures
        layout.1@ == peer_columns_at_width(available_width as int),
        layout.0@.len() == layout.1@.len(),
        forall|k: int|
            0 <= k < layout.1@.len() ==> layout.1@[k] < peer_column_table().len()
                && #[trigger] layout.0@[k] == peer_column_table()[layout.1@[k] as int].constraint,
{
    let columns = peer_columns();
    let mut smart: Vec<SmartCol> = Vec::new();
    let mut i: usize = 0;
    while i < columns.len()
        invariant
            i <= columns@.len(),
            columns@.len() == peer_column_ids().len(),
            forall|k: int|
                0 <= k < columns@.len() ==> {
                    let id = peer_column_ids()[k];
                    &&& (#[trigger] columns@[k]).min_width == peer_column_needs(id).min_width
                    &&& columns@[k].priority == peer_column_needs(id).priority
                    &&& columns@[k].constraint == peer_column_needs(id).constraint
                },
            smart@ == peer_column_table().take(i as int),
        decreases columns@.len() - i,
    {
        let column = columns[i];
        smart.push(
            SmartCol {
                min_width: column.min_width,
                priority: column.priority,
                constraint: column.constraint,
            },
        );
        i = i + 1;
        assert(smart@ =~= peer_column_table().take(i as int));
    }
    assert(peer_column_table().take(i as int) =~= peer_column_table());
    compute_smart_table_layout(&smart, available_width.saturating_sub(4), 1)
}

/// State, address and evidence are on view at every width.
pub proof fn state_address_and_evidence_are_always_visible(width: int)
    ensures
        peer_columns_at_width(width).contains(0usize),
        peer_columns_at_width(width).contains(1usize),
        peer_columns_at_width(width).contains(8usize),
        peer_columns_at_width(width).len() > 0,
{
    indispensable_columns_are_visible(peer_column_table(), monus(width, 4), 1, 0usize);
    indispensable_columns_are_visible(peer_column_table(), monus(width, 4), 1, 1usize);
    indispensable_columns_are_visible(peer_column_table(), monus(width, 4), 1, 8usize);
}

/// The columns on view are columns of the table.
pub proof fn peer_columns_on_view_exist(width: int)
    ensures
        forall|k: int|
            0 <= k < peer_columns_at_width(width).len() ==> #[trigger] peer_columns_at_width(
                width,
            )[k] < peer_column_ids().len(),
{
    visible_columns_rise(peer_column_table(), monus(width, 4), 1);
}

/// Texts are sorted from A to Z at first, everything else from the most down.
pub open spec fn peer_first_direction(column: PeerColumnId) -> SortDirection {
    if column == PeerColumnId::Address || column == PeerColumnId::Client {
        SortDirection::Ascending
    } else {
        SortDirection::Descending
    }
}

pub fn peer_column_default_direction(column: PeerColumnId) -> (direction: SortDirection)
    ensures
        direction == peer_first_direction(column),
{
    match column {
        PeerColumnId::Address | PeerColumnId::Client => SortDirection::Ascending,
        _ => SortDirection::Descending,
    }
}

/// The column that the rows are sorted by.
pub open spec fn peer_sorted_by(index: Option<usize>) -> Option<PeerColumnId> {
    match index {
        Some(i) => if (i as int) < peer_column_ids().len() {
            Some(peer_column_ids()[i as int])
        } else {
            None
        },
        None => None,
    }
}

/// The column with a number.
pub fn peer_column_at(index: Option<usize>) -> (column: Option<PeerColumnId>)
    ensures
        column == peer_sorted_by(index),
{
    let columns = peer_columns();
    match index {
        Some(i) => if i < columns.len() {
            Some(columns[i].id)
        } else {
            None
        },
        None => None,
    }
}

} // verus!
