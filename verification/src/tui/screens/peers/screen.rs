//! What the peer management screen shows.
use crate::app::{AppState, PeerManagementFilter, PeerScreenView};
use crate::geometry::{min_int, monus};
use crate::order::SortDirection;
use crate::text::owned;
use crate::tui::action_style::{hint, hint_views, push_hint, ActionTone, HintView, KeyHint};
use crate::tui::layout::common::{nearest_visible, nearest_visible_column};
use crate::tui::screens::peers::columns::{
    peer_column_header, peer_column_ids, peer_columns, PeerColumnId,
};
use crate::tui::screens::peers::details::{
    content_height, details_search_panel, peer_details_content_height, peer_details_overlay_active,
    peer_details_search_panel_active, peer_table_search_panel_active, peer_uses_details_overlay,
    table_search_panel,
};
use crate::tui::screens::peers::evidence::{
    full_label, short_label, RoundedEvidence, EVIDENCE_CONTENT_WIDTH,
};
use crate::tui::screens::peers::labels::{
    blocked_text, display_ip, elapsed_text, fits, format_elapsed, peer_sort_arrow, shown_ip,
};
use crate::tui::screens::peers::rows::{
    peer_torrents_label, state_text, torrents_text, PeerFacts, PeerRowModel,
};
use crate::tui::screens::peers::table::query_error;
use crate::tui::screens::peers::{active_peer_search_error, peer_search_error};
use crate::text::cut_off;
use vstd::prelude::*;

verus! {

// ----------------------------------------------------------------- the footer

/// The keys of the footer.
pub open spec fn peer_footer_keys(pm: PeerScreenView) -> Seq<HintView> {
    if pm.is_searching || pm.details_is_searching {
        seq![
            hint("Enter"@, "apply"@, ActionTone::Confirm),
            hint("Tab"@, "mode"@, ActionTone::Mode),
            hint("Esc"@, "clear"@, ActionTone::Cancel),
        ]
    } else if pm.show_details {
        let first = seq![
            hint("↑/↓"@, "scroll"@, ActionTone::Navigate),
            hint("/"@, "search"@, ActionTone::Search),
        ];
        let back = if details_search_panel(pm) {
            seq![
                hint("Tab"@, "mode"@, ActionTone::Mode),
                hint("Esc"@, "clear"@, ActionTone::Clear),
                hint("Enter"@, "table"@, ActionTone::Navigate),
            ]
        } else {
            seq![hint("Enter/Esc"@, "table"@, ActionTone::Navigate)]
        };
        (first + back).push(hint("q"@, "back"@, ActionTone::Cancel))
    } else {
        let searched = table_search_panel(pm);
        let first = seq![
            hint("arrows"@, "nav"@, ActionTone::Navigate),
            hint("h/l"@, "column"@, ActionTone::Navigate),
            hint("s"@, "ort"@, ActionTone::Sort),
        ];
        let filter = if searched {
            seq![
                hint("Tab"@, "mode"@, ActionTone::Mode),
                hint("Shift+Tab"@, "filter"@, ActionTone::Mode),
            ]
        } else {
            seq![hint("Tab"@, "filter"@, ActionTone::Mode)]
        };
        let middle = seq![
            hint("/"@, "search"@, ActionTone::Search),
            hint("Enter"@, "details"@, ActionTone::Info),
            hint("x"@, "privacy"@, ActionTone::Toggle),
        ];
        let last = if searched {
            seq![
                hint("Esc"@, "clear"@, ActionTone::Clear),
                hint("q"@, "back"@, ActionTone::Cancel),
            ]
        } else {
            seq![hint("Esc"@, "back"@, ActionTone::Cancel)]
        };
        first + filter + middle + last
    }
}

/// The keys of the footer.
pub fn peer_footer(app_state: &AppState) -> (hints: Vec<KeyHint>)
    ensures
        hint_views(hints@) == peer_footer_keys(app_state.peers().pm),
{
    let ghost pm = app_state.peers().pm;
    let mut hints: Vec<KeyHint> = Vec::new();
    assert(hint_views(hints@) =~= Seq::<HintView>::empty());
    if app_state.ui.peer_management.is_searching
        || app_state.ui.peer_management.details_is_searching {
        push_hint(&mut hints, "Enter", "apply", ActionTone::Confirm);
        push_hint(&mut hints, "Tab", "mode", ActionTone::Mode);
        push_hint(&mut hints, "Esc", "clear", ActionTone::Cancel);
    } else if peer_details_overlay_active(app_state) {
        push_hint(&mut hints, "↑/↓", "scroll", ActionTone::Navigate);
        push_hint(&mut hints, "/", "search", ActionTone::Search);
        if peer_details_search_panel_active(app_state) {
            push_hint(&mut hints, "Tab", "mode", ActionTone::Mode);
            push_hint(&mut hints, "Esc", "clear", ActionTone::Clear);
            push_hint(&mut hints, "Enter", "table", ActionTone::Navigate);
        } else {
            push_hint(&mut hints, "Enter/Esc", "table", ActionTone::Navigate);
        }
        push_hint(&mut hints, "q", "back", ActionTone::Cancel);
    } else {
        let searched = peer_table_search_panel_active(app_state);
        push_hint(&mut hints, "arrows", "nav", ActionTone::Navigate);
        push_hint(&mut hints, "h/l", "column", ActionTone::Navigate);
        push_hint(&mut hints, "s", "ort", ActionTone::Sort);
        if searched {
            push_hint(&mut hints, "Tab", "mode", ActionTone::Mode);
            push_hint(&mut hints, "Shift+Tab", "filter", ActionTone::Mode);
        } else {
            push_hint(&mut hints, "Tab", "filter", ActionTone::Mode);
        }
        push_hint(&mut hints, "/", "search", ActionTone::Search);
        if peer_uses_details_overlay(app_state) {
            push_hint(&mut hints, "Enter", "details", ActionTone::Info);
        }
        push_hint(&mut hints, "x", "privacy", ActionTone::Toggle);
        if searched {
            push_hint(&mut hints, "Esc", "clear", ActionTone::Clear);
            push_hint(&mut hints, "q", "back", ActionTone::Cancel);
        } else {
            push_hint(&mut hints, "Esc", "back", ActionTone::Cancel);
        }
    }
    assert(hint_views(hints@) =~= peer_footer_keys(pm));
    hints
}

// --------------------------------------------------------------- the messages

/// What the summary adds: what is wrong with the search, or else the status.
pub open spec fn summary_text(pm: PeerScreenView) -> Option<Seq<char>> {
    if pm.show_details && query_error(pm.details_search_query, pm.details_search_mode)
        || !pm.show_details && query_error(pm.search_query, pm.search_mode) {
        Some("Invalid regular expression"@)
    } else {
        pm.status_message
    }
}

/// What the summary adds.
pub fn peer_summary_message(app_state: &AppState) -> (message: Option<String>)
    ensures
        crate::app::text_view(message) == summary_text(app_state.peers().pm),
{
    match active_peer_search_error(app_state) {
        Some(error) => Some(error),
        None => match &app_state.ui.peer_management.status_message {
            Some(message) => Some(message.clone()),
            None => None,
        },
    }
}

/// What stands in an empty table.
pub fn empty_table_message(app_state: &AppState) -> (message: &'static str)
    ensures
        ({
            let pm = app_state.peers().pm;
            message@ == if query_error(pm.search_query, pm.search_mode) {
                "Fix the search expression to see peers"@
            } else if pm.search_query.len() == 0 && pm.filter == PeerManagementFilter::All {
                "No peers tracked yet"@
            } else {
                "No peers match this view"@
            }
        }),
{
    if peer_search_error(app_state).is_some() {
        "Fix the search expression to see peers"
    } else if app_state.ui.peer_management.search_query.as_str().is_empty()
        && app_state.ui.peer_management.filter == PeerManagementFilter::All {
        "No peers tracked yet"
    } else {
        "No peers match this view"
    }
}

// ------------------------------------------------------------------ the table

/// A cell in the head of the table. The label of the selected column is marked,
/// and an arrow follows that of the sorted one.
#[derive(Clone, Copy, Debug, PartialEq, Eq)]
pub struct HeaderCell {
    pub column: PeerColumnId,
    pub label: &'static str,
    pub selected: bool,
    pub arrow: Option<&'static str>,
}

/// Whether a cell is the head of a column.
pub open spec fn is_header(
    cell: HeaderCell,
    index: int,
    pm: PeerScreenView,
    selected_column: int,
) -> bool {
    &&& cell.column == peer_column_ids()[index]
    &&& cell.label@ == peer_column_header(peer_column_ids()[index])
    &&& cell.selected == (index == selected_column)
    &&& match cell.arrow {
        Some(arrow) => pm.sort_column_index == Some(index as usize) && arrow@
            == match pm.sort_direction {
            SortDirection::Ascending => " ▲"@,
            SortDirection::Descending => " ▼"@,
        },
        None => pm.sort_column_index != Some(index as usize),
    }
}

/// The head of the table, for the columns on view.
pub fn peer_table_header(app_state: &AppState, visible: &Vec<usize>) -> (cells: Vec<HeaderCell>)
    requires
        forall|k: int| 0 <= k < visible@.len() ==> #[trigger] visible@[k] < peer_column_ids().len(),
    ensures
        cells@.len() == visible@.len(),
        forall|k: int|
            0 <= k < cells@.len() ==> is_header(
                #[trigger] cells@[k],
                visible@[k] as int,
                app_state.peers().pm,
                nearest_visible(app_state.peers().pm.selected_column_index, visible@, 0),
            ),
{
    let columns = peer_columns();
    let selected_column = nearest_visible_column(
        app_state.ui.peer_management.selected_column_index,
        visible,
        0,
    );
    let mut cells: Vec<HeaderCell> = Vec::new();
    let mut k: usize = 0;
    while k < visible.len()
        invariant
            k <= visible@.len(),
            cells@.len() == k,
            forall|k: int|
                0 <= k < visible@.len() ==> #[trigger] visible@[k] < peer_column_ids().len(),
            columns@.len() == peer_column_ids().len(),
            forall|i: int|
                0 <= i < columns@.len() ==> (#[trigger] columns@[i]).id == peer_column_ids()[i]
                    && columns@[i].header@ == peer_column_header(peer_column_ids()[i]),
            selected_column == nearest_visible(
                app_state.peers().pm.selected_column_index,
                visible@,
                0,
            ),
            forall|j: int|
                0 <= j < k ==> is_header(
                    #[trigger] cells@[j],
                    visible@[j] as int,
                    app_state.peers().pm,
                    selected_column as int,
                ),
        decreases visible@.len() - k,
    {
        let index = visible[k];
        let sorting = match app_state.ui.peer_management.sort_column_index {
            Some(i) => i == index,
            None => false,
        };
        let arrow: Option<&'static str> = if sorting {
            Some(peer_sort_arrow(app_state.ui.peer_management.sort_direction))
        } else {
            None
        };
        cells.push(
            HeaderCell {
                column: columns[index].id,
                label: columns[index].header,
                selected: index == selected_column,
                arrow,
            },
        );
        k = k + 1;
    }
    cells
}

/// How a row stands out.
#[derive(Clone, Copy, Debug, PartialEq, Eq, Structural)]
pub enum PeerRowTone {
    Restricted,
    Active,
    Recent,
}

/// How a row stands out.
pub fn peer_row_tone(row: &PeerRowModel) -> (tone: PeerRowTone)
    ensures
        tone == if row@.restriction is Some {
            PeerRowTone::Restricted
        } else if row@.is_active {
            PeerRowTone::Active
        } else {
            PeerRowTone::Recent
        },
{
    if row.is_restricted() {
        PeerRowTone::Restricted
    } else if row.is_active() {
        PeerRowTone::Active
    } else {
        PeerRowTone::Recent
    }
}

/// Parts of a row that hold rounded quantities or a text from a peer made fit for
/// a terminal.
pub struct PeerRowTexts {
    pub client: String,
    pub connects: String,
    pub disconnects: String,
    pub downloaded: String,
    pub uploaded: String,
    pub evidence: RoundedEvidence,
}

/// A cell of the table.
pub open spec fn peer_cell(
    column: PeerColumnId,
    row: PeerFacts,
    privacy: bool,
    now: u128,
    parts: PeerRowTexts,
) -> Seq<char> {
    match column {
        PeerColumnId::State => match row.restriction {
            Some(restriction) => blocked_text(now as int, restriction.blocked_until as int),
            None => state_text(row),
        },
        PeerColumnId::Address => shown_ip(row.ip, privacy),
        PeerColumnId::Torrents => torrents_text(row.torrent_count),
        PeerColumnId::Client => parts.client@,
        PeerColumnId::Connects => parts.connects@,
        PeerColumnId::Disconnects => parts.disconnects@,
        PeerColumnId::Downloaded => parts.downloaded@,
        PeerColumnId::Uploaded => parts.uploaded@,
        PeerColumnId::Evidence => {
            let full = full_label(row.evidence, parts.evidence.percent@);
            if fits(full, EVIDENCE_CONTENT_WIDTH as int) {
                full
            } else {
                cut_off(
                    short_label(
                        row.evidence,
                        parts.evidence.compact_percent@,
                        parts.evidence.compact_observed@,
                        parts.evidence.compact_threshold@,
                    ),
                    EVIDENCE_CONTENT_WIDTH as int,
                )
            }
        },
        PeerColumnId::LastSeen => match row.last_seen {
            Some(moment) => elapsed_text(now as int, moment as int),
            None => "policy only"@,
        },
    }
}

/// The cells of a row, for the columns on view.
pub fn peer_table_row(
    app_state: &AppState,
    row: &PeerRowModel,
    visible: &Vec<usize>,
    now: u128,
    parts: &PeerRowTexts,
) -> (cells: Vec<String>)
    requires
        forall|k: int| 0 <= k < visible@.len() ==> #[trigger] visible@[k] < peer_column_ids().len(),
    ensures
        cells@.len() == visible@.len(),
        forall|k: int|
            0 <= k < cells@.len() ==> (#[trigger] cells@[k])@ == peer_cell(
                peer_column_ids()[visible@[k] as int],
                row@,
                app_state.peers().privacy,
                now,
                *parts,
            ),
{
    let columns = peer_columns();
    let privacy = app_state.anonymize_torrent_names;
    let mut cells: Vec<String> = Vec::new();
    let mut k: usize = 0;
    while k < visible.len()
        invariant
            k <= visible@.len(),
            cells@.len() == k,
            privacy == app_state.peers().privacy,
            forall|k: int|
                0 <= k < visible@.len() ==> #[trigger] visible@[k] < peer_column_ids().len(),
            columns@.len() == peer_column_ids().len(),
            forall|i: int|
                0 <= i < columns@.len() ==> (#[trigger] columns@[i]).id == peer_column_ids()[i],
            forall|j: int|
                0 <= j < k ==> (#[trigger] cells@[j])@ == peer_cell(
                    peer_column_ids()[visible@[j] as int],
                    row@,
                    privacy,
                    now,
                    *parts,
                ),
        decreases visible@.len() - k,
    {
        let cell = match columns[visible[k]].id {
            PeerColumnId::State => row.state_column_label(now),
            PeerColumnId::Address => display_ip(row.ip, privacy),
            PeerColumnId::Torrents => peer_torrents_label(row),
            PeerColumnId::Client => parts.client.clone(),
            PeerColumnId::Connects => parts.connects.clone(),
            PeerColumnId::Disconnects => parts.disconnects.clone(),
            PeerColumnId::Downloaded => parts.downloaded.clone(),
            PeerColumnId::Uploaded => parts.uploaded.clone(),
            PeerColumnId::Evidence => row.strongest_evidence().compact_label(&parts.evidence),
            PeerColumnId::LastSeen => match row.last_seen() {
                Some(moment) => format_elapsed(now, moment),
                None => owned("policy only"),
            },
        };
        cells.push(cell);
        k = k + 1;
    }
    cells
}

// ---------------------------------------------------------------- the details

/// The part of the details that is on view.
#[derive(Clone, Copy, Debug, PartialEq, Eq, Structural)]
pub struct DetailsWindow {
    pub height: usize,
    pub first: usize,
    pub end: usize,
    pub scrolls: bool,
}

/// The part of some lines of details that is on view.
pub fn peer_details_window(line_count: usize, inner_height: u16, offset: usize) -> (window:
    DetailsWindow)
    ensures
        ({
            let lines = line_count as int;
            let height = content_height(lines, inner_height as int);
            &&& window.height == height
            &&& window.first == min_int(offset as int, monus(lines, height))
            &&& window.end == min_int(window.first + height, lines)
            &&& window.scrolls == (lines > height)
        }),
{
    let height = peer_details_content_height(line_count, inner_height);
    let max_scroll = line_count.saturating_sub(height);
    let first: usize = if offset <= max_scroll {
        offset
    } else {
        max_scroll
    };
    let end: usize = if line_count - first <= height {
        line_count
    } else {
        first + height
    };
    DetailsWindow { height, first, end, scrolls: max_scroll > 0 }
}

} // verus!
