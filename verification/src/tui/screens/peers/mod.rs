//! Peer management: who the session's peers are, and what counts against them.
use crate::app::{
    next_peer_filter, previous_peer_filter, AppMode, AppState, PeerScreenView, UiState,
};
use crate::geometry::{max_int, min_int, monus};
use crate::keys::{KeyCode, KeyEvent, KeyEventKind, TerminalEvent};
use crate::lists::index_of;
use crate::order::{other_direction, reverse_sort_direction};
use crate::peer_manager::{
    normalize_peer_ip, normalized_ip, IpAddr, PeerManagerTrackedPeer, RestrictedPeer,
};
use crate::search::{other_mode, toggle_search_mode};
use crate::text::without_last;
use crate::tui::layout::common::{
    nearest_visible, nearest_visible_column, step_column, stepped_column,
};
use crate::tui::screens::peers::columns::{
    compute_visible_peer_management_columns, peer_column_default_direction, peer_column_ids,
    peer_columns, peer_columns_at_width, peer_columns_on_view_exist, peer_first_direction,
    state_address_and_evidence_are_always_visible,
};
use crate::tui::screens::peers::details::{
    details_max_scroll, details_page, details_search_panel, peer_details_max_scroll,
    peer_details_overlay_active, peer_details_page_rows, peer_details_search_panel_active,
    peer_page, peer_page_rows, peer_table_search_panel_active, peer_table_width,
    peer_table_width_for_state, peer_uses_details_overlay, table_search_panel,
};
use crate::tui::screens::peers::rows::{holds_ip, tracked_ips, with_ip, with_restricted};
use crate::tui::screens::peers::table::{
    close_details, details_closed, query_error, recompute_peer_management_derived, recomputed,
    reconcile_peer_selection, reset_peer_selection, search_error, selection_reconciled,
    selection_reset, PeerModel,
};
use vstd::prelude::*;

pub mod columns;
pub mod details;
pub mod evidence;
pub mod labels;
pub mod laws;
pub mod row_laws;
pub mod rows;
pub mod screen;
pub mod table;

verus! {

/// What a key can ask of the screen.
#[derive(Clone, Copy, Debug, PartialEq, Eq, Structural)]
pub enum PeerManagementAction {
    ToNormal,
    MoveUp,
    MoveDown,
    MovePageUp,
    MovePageDown,
    MoveFirst,
    MoveLast,
    MoveColumnLeft,
    MoveColumnRight,
    SortBySelectedColumn,
    FilterNext,
    FilterPrev,
    StartSearch,
    SearchInsert(char),
    SearchBackspace,
    SearchCommit,
    SearchCancel,
    ToggleSearchMode,
    TogglePrivacy,
    ToggleDetails,
    CloseDetails,
    ScrollDetailsUp,
    ScrollDetailsDown,
    ScrollDetailsPageUp,
    ScrollDetailsPageDown,
    StartDetailsSearch,
    DetailsSearchInsert(char),
    DetailsSearchBackspace,
    DetailsSearchCommit,
    DetailsSearchCancel,
    ToggleDetailsSearchMode,
}

/// What the screen asks of the program.
#[derive(Clone, Copy, Debug, PartialEq, Eq, Structural)]
pub enum PeerManagementEffect {
    ToNormal,
}

pub struct PeerManagementReduceResult {
    pub redraw: bool,
    pub effects: Vec<PeerManagementEffect>,
}

impl Default for PeerManagementReduceResult {
    fn default() -> (result: PeerManagementReduceResult)
        ensures
            !result.redraw,
            result.effects@.len() == 0,
    {
        PeerManagementReduceResult { redraw: false, effects: Vec::new() }
    }
}

// ----------------------------------------------------------------- the keys

/// What a key means while the search of the details is typed.
pub open spec fn details_search_key(key: KeyCode) -> Option<PeerManagementAction> {
    match key {
        KeyCode::Esc => Some(PeerManagementAction::DetailsSearchCancel),
        KeyCode::Enter => Some(PeerManagementAction::DetailsSearchCommit),
        KeyCode::Tab => Some(PeerManagementAction::ToggleDetailsSearchMode),
        KeyCode::Backspace => Some(PeerManagementAction::DetailsSearchBackspace),
        KeyCode::Char(c) => Some(PeerManagementAction::DetailsSearchInsert(c)),
        _ => None,
    }
}

/// What a key means while the search of the table is typed.
pub open spec fn table_search_key(key: KeyCode) -> Option<PeerManagementAction> {
    match key {
        KeyCode::Esc => Some(PeerManagementAction::SearchCancel),
        KeyCode::Enter => Some(PeerManagementAction::SearchCommit),
        KeyCode::Tab => Some(PeerManagementAction::ToggleSearchMode),
        KeyCode::Backspace => Some(PeerManagementAction::SearchBackspace),
        KeyCode::Char(c) => Some(PeerManagementAction::SearchInsert(c)),
        _ => None,
    }
}

/// What a key means in the details.
pub open spec fn details_key(key: KeyCode) -> Option<PeerManagementAction> {
    match key {
        KeyCode::Esc | KeyCode::Enter => Some(PeerManagementAction::CloseDetails),
        KeyCode::Char('q') => Some(PeerManagementAction::ToNormal),
        KeyCode::Up | KeyCode::Char('k') => Some(PeerManagementAction::ScrollDetailsUp),
        KeyCode::Down | KeyCode::Char('j') => Some(PeerManagementAction::ScrollDetailsDown),
        KeyCode::PageUp => Some(PeerManagementAction::ScrollDetailsPageUp),
        KeyCode::PageDown => Some(PeerManagementAction::ScrollDetailsPageDown),
        KeyCode::Char('/') => Some(PeerManagementAction::StartDetailsSearch),
        _ => None,
    }
}

/// What a key means in the table.
pub open spec fn peer_table_key(key: KeyCode) -> Option<PeerManagementAction> {
    match key {
        KeyCode::Char('q') | KeyCode::Esc => Some(PeerManagementAction::ToNormal),
        KeyCode::Up | KeyCode::Char('k') => Some(PeerManagementAction::MoveUp),
        KeyCode::Down | KeyCode::Char('j') => Some(PeerManagementAction::MoveDown),
        KeyCode::PageUp => Some(PeerManagementAction::MovePageUp),
        KeyCode::PageDown => Some(PeerManagementAction::MovePageDown),
        KeyCode::Home => Some(PeerManagementAction::MoveFirst),
        KeyCode::End => Some(PeerManagementAction::MoveLast),
        KeyCode::Left | KeyCode::Char('h') => Some(PeerManagementAction::MoveColumnLeft),
        KeyCode::Right | KeyCode::Char('l') => Some(PeerManagementAction::MoveColumnRight),
        KeyCode::Char('s') => Some(PeerManagementAction::SortBySelectedColumn),
        KeyCode::Tab => Some(PeerManagementAction::FilterNext),
        KeyCode::BackTab => Some(PeerManagementAction::FilterPrev),
        KeyCode::Char('/') => Some(PeerManagementAction::StartSearch),
        KeyCode::Char('x') => Some(PeerManagementAction::TogglePrivacy),
        KeyCode::Enter => Some(PeerManagementAction::ToggleDetails),
        _ => None,
    }
}

/// What a key means. A search that is being typed takes all keys, and one that is
/// on view takes `Esc` and `Tab`; that of the details comes before that of the
/// table.
pub open spec fn peer_key_action(key: KeyCode, pm: PeerScreenView) -> Option<
    PeerManagementAction,
> {
    if pm.details_is_searching {
        details_search_key(key)
    } else if pm.is_searching {
        table_search_key(key)
    } else if pm.show_details && details_search_panel(pm) && key == KeyCode::Esc {
        Some(PeerManagementAction::DetailsSearchCancel)
    } else if pm.show_details && details_search_panel(pm) && key == KeyCode::Tab {
        Some(PeerManagementAction::ToggleDetailsSearchMode)
    } else if table_search_panel(pm) && key == KeyCode::Esc {
        Some(PeerManagementAction::SearchCancel)
    } else if table_search_panel(pm) && key == KeyCode::Tab {
        Some(PeerManagementAction::ToggleSearchMode)
    } else if pm.show_details {
        details_key(key)
    } else {
        peer_table_key(key)
    }
}

/// What a key means.
pub fn map_key_to_peer_management_action(key_code: KeyCode, app_state: &AppState) -> (action: Option<
    PeerManagementAction,
>)
    ensures
        action == peer_key_action(key_code, app_state.peers().pm),
{
    if app_state.ui.peer_management.details_is_searching {
        return match key_code {
            KeyCode::Esc => Some(PeerManagementAction::DetailsSearchCancel),
            KeyCode::Enter => Some(PeerManagementAction::DetailsSearchCommit),
            KeyCode::Tab => Some(PeerManagementAction::ToggleDetailsSearchMode),
            KeyCode::Backspace => Some(PeerManagementAction::DetailsSearchBackspace),
            KeyCode::Char(c) => Some(PeerManagementAction::DetailsSearchInsert(c)),
            _ => None,
        };
    }
    if app_state.ui.peer_management.is_searching {
        return match key_code {
            KeyCode::Esc => Some(PeerManagementAction::SearchCancel),
            KeyCode::Enter => Some(PeerManagementAction::SearchCommit),
            KeyCode::Tab => Some(PeerManagementAction::ToggleSearchMode),
            KeyCode::Backspace => Some(PeerManagementAction::SearchBackspace),
            KeyCode::Char(c) => Some(PeerManagementAction::SearchInsert(c)),
            _ => None,
        };
    }
    let details = peer_details_overlay_active(app_state);
    if details && peer_details_search_panel_active(app_state) {
        if key_code == KeyCode::Esc {
            return Some(PeerManagementAction::DetailsSearchCancel);
        }
        if key_code == KeyCode::Tab {
            return Some(PeerManagementAction::ToggleDetailsSearchMode);
        }
    }
    if peer_table_search_panel_active(app_state) {
        if key_code == KeyCode::Esc {
            return Some(PeerManagementAction::SearchCancel);
        }
        if key_code == KeyCode::Tab {
            return Some(PeerManagementAction::ToggleSearchMode);
        }
    }
    if details {
        return match key_code {
            KeyCode::Esc | KeyCode::Enter => Some(PeerManagementAction::CloseDetails),
            KeyCode::Char('q') => Some(PeerManagementAction::ToNormal),
            KeyCode::Up | KeyCode::Char('k') => Some(PeerManagementAction::ScrollDetailsUp),
            KeyCode::Down | KeyCode::Char('j') => Some(PeerManagementAction::ScrollDetailsDown),
            KeyCode::PageUp => Some(PeerManagementAction::ScrollDetailsPageUp),
            KeyCode::PageDown => Some(PeerManagementAction::ScrollDetailsPageDown),
            KeyCode::Char('/') => Some(PeerManagementAction::StartDetailsSearch),
            _ => None,
        };
    }
    match key_code {
        KeyCode::Char('q') | KeyCode::Esc => Some(PeerManagementAction::ToNormal),
        KeyCode::Up | KeyCode::Char('k') => Some(PeerManagementAction::MoveUp),
        KeyCode::Down | KeyCode::Char('j') => Some(PeerManagementAction::MoveDown),
        KeyCode::PageUp => Some(PeerManagementAction::MovePageUp),
        KeyCode::PageDown => Some(PeerManagementAction::MovePageDown),
        KeyCode::Home => Some(PeerManagementAction::MoveFirst),
        KeyCode::End => Some(PeerManagementAction::MoveLast),
        KeyCode::Left | KeyCode::Char('h') => Some(PeerManagementAction::MoveColumnLeft),
        KeyCode::Right | KeyCode::Char('l') => Some(PeerManagementAction::MoveColumnRight),
        KeyCode::Char('s') => Some(PeerManagementAction::SortBySelectedColumn),
        KeyCode::Tab => Some(PeerManagementAction::FilterNext),
        KeyCode::BackTab => Some(PeerManagementAction::FilterPrev),
        KeyCode::Char('/') => Some(PeerManagementAction::StartSearch),
        KeyCode::Char('x') => Some(PeerManagementAction::TogglePrivacy),
        KeyCode::Enter => if peer_uses_details_overlay(app_state) {
            Some(PeerManagementAction::ToggleDetails)
        } else {
            None
        },
        _ => None,
    }
}

/// Whether holding a key down repeats an action: moving, scrolling and typing do.
pub open spec fn peer_repeats(action: PeerManagementAction) -> bool {
    match action {
        PeerManagementAction::MoveUp | PeerManagementAction::MoveDown
        | PeerManagementAction::MovePageUp | PeerManagementAction::MovePageDown
        | PeerManagementAction::MoveFirst | PeerManagementAction::MoveLast
        | PeerManagementAction::MoveColumnLeft | PeerManagementAction::MoveColumnRight
        | PeerManagementAction::SearchInsert(_) | PeerManagementAction::SearchBackspace
        | PeerManagementAction::ScrollDetailsUp | PeerManagementAction::ScrollDetailsDown
        | PeerManagementAction::ScrollDetailsPageUp | PeerManagementAction::ScrollDetailsPageDown
        | PeerManagementAction::DetailsSearchInsert(_)
        | PeerManagementAction::DetailsSearchBackspace => true,
        _ => false,
    }
}

pub fn peer_management_action_allows_repeat(action: &PeerManagementAction) -> (allowed: bool)
    ensures
        allowed == peer_repeats(*action),
{
    match *action {
        PeerManagementAction::MoveUp | PeerManagementAction::MoveDown
        | PeerManagementAction::MovePageUp | PeerManagementAction::MovePageDown
        | PeerManagementAction::MoveFirst | PeerManagementAction::MoveLast
        | PeerManagementAction::MoveColumnLeft | PeerManagementAction::MoveColumnRight
        | PeerManagementAction::SearchInsert(_) | PeerManagementAction::SearchBackspace
        | PeerManagementAction::ScrollDetailsUp | PeerManagementAction::ScrollDetailsDown
        | PeerManagementAction::ScrollDetailsPageUp | PeerManagementAction::ScrollDetailsPageDown
        | PeerManagementAction::DetailsSearchInsert(_)
        | PeerManagementAction::DetailsSearchBackspace => true,
        _ => false,
    }
}

/// What a key event means: a held key only what repeats, and a held `/` is never
/// typed.
pub open spec fn peer_event_action(key: KeyEvent, pm: PeerScreenView) -> Option<
    PeerManagementAction,
> {
    if key.kind == KeyEventKind::Release {
        None
    } else {
        match peer_key_action(key.code, pm) {
            Some(action) => if key.kind == KeyEventKind::Repeat && (!peer_repeats(action) || action
                == PeerManagementAction::SearchInsert('/') || action
                == PeerManagementAction::DetailsSearchInsert('/')) {
                None
            } else {
                Some(action)
            },
            None => None,
        }
    }
}

/// What a key event means.
pub fn map_key_event_to_peer_management_action(key: KeyEvent, app_state: &AppState) -> (action: Option<
    PeerManagementAction,
>)
    ensures
        action == peer_event_action(key, app_state.peers().pm),
{
    if key.kind == KeyEventKind::Release {
        return None;
    }
    match map_key_to_peer_management_action(key.code, app_state) {
        Some(action) => {
            if key.kind == KeyEventKind::Repeat && (!peer_management_action_allows_repeat(&action)
                || action == PeerManagementAction::SearchInsert('/') || action
                == PeerManagementAction::DetailsSearchInsert('/')) {
                return None;
            }
            Some(action)
        },
        None => None,
    }
}

// ------------------------------------------------------------ the selection

/// The selection at a row; another row's details begin at the top.
pub open spec fn selected_at(pm: PeerScreenView, index: int) -> PeerScreenView {
    PeerScreenView {
        selected_index: index,
        details_scroll_offset: if index != pm.selected_index {
            0
        } else {
            pm.details_scroll_offset
        },
        ..pm
    }
}

/// The selection some rows up or down, from the row that it is on.
pub open spec fn selection_moved(pm: PeerScreenView, rows: int, delta: int) -> PeerScreenView {
    let on_row = selection_reconciled(pm, rows);
    if rows == 0 {
        on_row
    } else {
        selected_at(
            on_row,
            min_int(max_int(on_row.selected_index + delta, 0), rows - 1),
        )
    }
}

fn set_peer_selection(app_state: &mut AppState, index: usize)
    ensures
        final(app_state).peers() == old(app_state).peers().with_pm(
            selected_at(old(app_state).peers().pm, index as int),
        ),
        old(app_state).same_but_peers(*final(app_state)),
{
    if index != app_state.ui.peer_management.selected_index {
        app_state.ui.peer_management.details_scroll_offset = 0;
    }
    app_state.ui.peer_management.selected_index = index;
}

/// Moves the selection some rows up or down.
pub fn move_peer_selection(app_state: &mut AppState, row_count: usize, rows: usize, downward: bool)
    ensures
        final(app_state).peers() == old(app_state).peers().with_pm(
            selection_moved(
                old(app_state).peers().pm,
                row_count as int,
                if downward {
                    rows as int
                } else {
                    -(rows as int)
                },
            ),
        ),
        old(app_state).same_but_peers(*final(app_state)),
{
    reconcile_peer_selection(app_state, row_count);
    if row_count == 0 {
        return;
    }
    let current = app_state.ui.peer_management.selected_index;
    assert(app_state.peers().pm.selected_index == current);
    let next: usize = if !downward {
        current.saturating_sub(rows)
    } else if rows <= row_count - 1 - current {
        current + rows
    } else {
        row_count - 1
    };
    set_peer_selection(app_state, next);
}

/// The selection at a position, as far down as there are rows.
pub open spec fn selection_at(pm: PeerScreenView, rows: int, index: int) -> PeerScreenView {
    if rows == 0 {
        selection_reconciled(pm, 0)
    } else {
        selected_at(pm, min_int(index, rows - 1))
    }
}

/// Selects the row at a position.
pub fn select_peer_index(app_state: &mut AppState, row_count: usize, index: usize)
    ensures
        final(app_state).peers() == old(app_state).peers().with_pm(
            selection_at(old(app_state).peers().pm, row_count as int, index as int),
        ),
        old(app_state).same_but_peers(*final(app_state)),
{
    if row_count == 0 {
        reconcile_peer_selection(app_state, row_count);
        return;
    }
    let next: usize = if index <= row_count - 1 {
        index
    } else {
        row_count - 1
    };
    set_peer_selection(app_state, next);
}

/// The selected row.
pub open spec fn selected_row(selected: int, rows: int) -> Option<int> {
    if rows == 0 {
        None
    } else {
        Some(min_int(selected, rows - 1))
    }
}

/// The selected row.
pub fn selected_peer_index(app_state: &AppState, row_count: usize) -> (index: Option<usize>)
    ensures
        index_of(index) == selected_row(
            app_state.peers().pm.selected_index,
            row_count as int,
        ),
        index matches Some(i) ==> i < row_count,
{
    if row_count == 0 {
        return None;
    }
    let selected = app_state.ui.peer_management.selected_index;
    Some(
        if selected <= row_count - 1 {
            selected
        } else {
            row_count - 1
        },
    )
}

// --------------------------------------------------------------- the columns

/// The numbers of the columns on view.
pub fn visible_peer_column_indices_for_state(app_state: &AppState) -> (visible: Vec<usize>)
    requires
        app_state.well_formed(),
    ensures
        visible@ == peer_columns_at_width(peer_table_width(app_state.peers())),
        visible@.len() > 0,
        forall|k: int| 0 <= k < visible@.len() ==> #[trigger] visible@[k] < peer_column_ids().len(),
{
    let width = peer_table_width_for_state(app_state);
    proof {
        state_address_and_evidence_are_always_visible(width as int);
        peer_columns_on_view_exist(width as int);
    }
    compute_visible_peer_management_columns(width).1
}

/// The column that a selection means among those on view.
pub fn normalized_selected_column_from_visible(selected: usize, visible: &Vec<usize>) -> (column:
    usize)
    ensures
        column == nearest_visible(selected as int, visible@, 0),
        visible@.len() > 0 ==> visible@.contains(column),
{
    nearest_visible_column(selected, visible, 0)
}

/// The selected column, as far as it is on view.
pub open spec fn selected_peer_column(m: PeerModel) -> int {
    nearest_visible(
        m.pm.selected_column_index,
        peer_columns_at_width(peer_table_width(m)),
        0,
    )
}

/// The selected column, as far as it is on view.
pub fn normalized_selected_peer_column_index(app_state: &AppState) -> (column: usize)
    requires
        app_state.well_formed(),
    ensures
        column == selected_peer_column(app_state.peers()),
        column < peer_column_ids().len(),
{
    let visible = visible_peer_column_indices_for_state(app_state);
    normalized_selected_column_from_visible(
        app_state.ui.peer_management.selected_column_index,
        &visible,
    )
}

pub open spec fn peer_column_moved(m: PeerModel, rightward: bool) -> PeerModel {
    m.with_pm(
        PeerScreenView {
            selected_column_index: stepped_column(
                m.pm.selected_column_index,
                peer_columns_at_width(peer_table_width(m)),
                0,
                rightward,
            ),
            ..m.pm
        },
    )
}

/// Moves the selection to the column on the left or on the right.
pub fn move_peer_column(app_state: &mut AppState, rightward: bool)
    requires
        old(app_state).well_formed(),
    ensures
        final(app_state).peers() == peer_column_moved(old(app_state).peers(), rightward),
        old(app_state).same_but_peers(*final(app_state)),
{
    let visible = visible_peer_column_indices_for_state(app_state);
    let column = step_column(
        app_state.ui.peer_management.selected_column_index,
        &visible,
        0,
        rightward,
    );
    app_state.ui.peer_management.selected_column_index = column;
}

/// Column numbers that are none are mended.
pub open spec fn peer_columns_clamped(m: PeerModel) -> PeerModel {
    m.with_pm(
        PeerScreenView {
            selected_column_index: min_int(
                m.pm.selected_column_index,
                peer_column_ids().len() - 1,
            ),
            sort_column_index: match m.pm.sort_column_index {
                Some(i) if (i as int) < peer_column_ids().len() => Some(i),
                _ => None,
            },
            ..m.pm
        },
    )
}

/// Mends column numbers that are none.
pub fn clamp_peer_column_state(app_state: &mut AppState)
    ensures
        final(app_state).peers() == peer_columns_clamped(old(app_state).peers()),
        old(app_state).same_but_peers(*final(app_state)),
{
    let columns_len = peer_columns().len();
    if app_state.ui.peer_management.selected_column_index > columns_len - 1 {
        app_state.ui.peer_management.selected_column_index = columns_len - 1;
    }
    if let Some(i) = app_state.ui.peer_management.sort_column_index {
        if i >= columns_len {
            app_state.ui.peer_management.sort_column_index = None;
        }
    }
}

// --------------------------------------------------------------- the reducer

/// The state after leaving the screen.
pub open spec fn peers_left(pm: PeerScreenView) -> PeerScreenView {
    PeerScreenView {
        is_searching: false,
        search_query: Seq::empty(),
        ..details_closed(pm)
    }
}

/// The details of the selected row, or none.
pub open spec fn details_toggled(m: PeerModel) -> PeerScreenView {
    if m.pm.show_details {
        details_closed(m.pm)
    } else {
        match selected_row(m.pm.selected_index, m.rows.len() as int) {
            Some(k) => PeerScreenView {
                show_details: true,
                details_peer_ip: Some(m.rows[k].ip),
                ..details_closed(m.pm)
            },
            None => details_closed(m.pm),
        }
    }
}

pub open spec fn details_scrolled(pm: PeerScreenView, offset: int) -> PeerScreenView {
    PeerScreenView { details_scroll_offset: offset, ..pm }
}

/// The state of the screen after an action, before the rows are worked out anew.
pub open spec fn peer_screen_acted(m: PeerModel, action: PeerManagementAction) -> PeerScreenView {
    let pm = m.pm;
    let rows = m.rows.len() as int;
    let max_scroll = details_max_scroll(m);
    let scroll = min_int(pm.details_scroll_offset, max_scroll);
    match action {
        PeerManagementAction::ToNormal => peers_left(pm),
        PeerManagementAction::MoveUp => selection_moved(pm, rows, -1),
        PeerManagementAction::MoveDown => selection_moved(pm, rows, 1),
        PeerManagementAction::MovePageUp => selection_moved(pm, rows, -peer_page(m)),
        PeerManagementAction::MovePageDown => selection_moved(pm, rows, peer_page(m)),
        PeerManagementAction::MoveFirst => selection_at(pm, rows, 0),
        PeerManagementAction::MoveLast => selection_at(pm, rows, monus(rows, 1)),
        PeerManagementAction::MoveColumnLeft => peer_column_moved(m, false).pm,
        PeerManagementAction::MoveColumnRight => peer_column_moved(m, true).pm,
        PeerManagementAction::SortBySelectedColumn => {
            let column = selected_peer_column(m);
            let again = pm.sort_column_index == Some(column as usize);
            PeerScreenView {
                selected_column_index: column,
                sort_column_index: Some(column as usize),
                sort_direction: if again {
                    other_direction(pm.sort_direction)
                } else {
                    peer_first_direction(peer_column_ids()[column])
                },
                ..pm
            }
        },
        PeerManagementAction::FilterNext => PeerScreenView {
            filter: next_peer_filter(pm.filter),
            ..selection_reset(pm)
        },
        PeerManagementAction::FilterPrev => PeerScreenView {
            filter: previous_peer_filter(pm.filter),
            ..selection_reset(pm)
        },
        PeerManagementAction::StartSearch => PeerScreenView { is_searching: true, ..pm },
        PeerManagementAction::SearchInsert(c) => PeerScreenView {
            search_query: pm.search_query.push(c),
            ..selection_reset(pm)
        },
        PeerManagementAction::SearchBackspace => PeerScreenView {
            search_query: without_last(pm.search_query),
            ..selection_reset(pm)
        },
        PeerManagementAction::SearchCommit => PeerScreenView { is_searching: false, ..pm },
        PeerManagementAction::SearchCancel => PeerScreenView {
            is_searching: false,
            search_query: Seq::empty(),
            ..selection_reset(pm)
        },
        PeerManagementAction::ToggleSearchMode => PeerScreenView {
            search_mode: other_mode(pm.search_mode),
            ..selection_reset(pm)
        },
        PeerManagementAction::TogglePrivacy => if m.privacy {
            pm
        } else {
            PeerScreenView {
                is_searching: false,
                search_query: Seq::empty(),
                ..selection_reset(pm)
            }
        },
        PeerManagementAction::ToggleDetails => details_toggled(m),
        PeerManagementAction::CloseDetails => details_closed(pm),
        PeerManagementAction::ScrollDetailsUp => details_scrolled(pm, monus(scroll, 1)),
        PeerManagementAction::ScrollDetailsDown => details_scrolled(
            pm,
            min_int(scroll + 1, max_scroll),
        ),
        PeerManagementAction::ScrollDetailsPageUp => details_scrolled(
            pm,
            monus(scroll, details_page(m)),
        ),
        PeerManagementAction::ScrollDetailsPageDown => details_scrolled(
            pm,
            min_int(scroll + details_page(m), max_scroll),
        ),
        PeerManagementAction::StartDetailsSearch => PeerScreenView {
            details_is_searching: true,
            ..pm
        },
        PeerManagementAction::DetailsSearchInsert(c) => PeerScreenView {
            details_search_query: pm.details_search_query.push(c),
            details_scroll_offset: 0,
            ..pm
        },
        PeerManagementAction::DetailsSearchBackspace => PeerScreenView {
            details_search_query: without_last(pm.details_search_query),
            details_scroll_offset: 0,
            ..pm
        },
        PeerManagementAction::DetailsSearchCommit => PeerScreenView {
            details_is_searching: false,
            ..pm
        },
        PeerManagementAction::DetailsSearchCancel => PeerScreenView {
            details_is_searching: false,
            details_search_query: Seq::empty(),
            details_scroll_offset: 0,
            ..pm
        },
        PeerManagementAction::ToggleDetailsSearchMode => PeerScreenView {
            details_search_mode: other_mode(pm.details_search_mode),
            details_scroll_offset: 0,
            ..pm
        },
    }
}

/// The state after an action, before the rows are worked out anew.
pub open spec fn peer_acted(m: PeerModel, action: PeerManagementAction) -> PeerModel {
    PeerModel {
        pm: peer_screen_acted(m, action),
        privacy: if action == PeerManagementAction::TogglePrivacy {
            !m.privacy
        } else {
            m.privacy
        },
        ..m
    }
}

/// Whether an action changes which rows there are, or their order.
pub open spec fn changes_rows(action: PeerManagementAction) -> bool {
    match action {
        PeerManagementAction::SortBySelectedColumn | PeerManagementAction::FilterNext
        | PeerManagementAction::FilterPrev | PeerManagementAction::SearchInsert(_)
        | PeerManagementAction::SearchBackspace | PeerManagementAction::SearchCancel
        | PeerManagementAction::ToggleSearchMode | PeerManagementAction::TogglePrivacy => true,
        _ => false,
    }
}

/// The state after an action at a moment: the rows are worked out anew only where
/// the action changes them.
pub open spec fn peer_reduced(m: PeerModel, action: PeerManagementAction, now: u128) -> PeerModel {
    let clean = m.with_pm(PeerScreenView { status_message: None, ..m.pm });
    let acted = peer_acted(clean, action);
    peer_columns_clamped(
        if changes_rows(action) {
            recomputed(acted, now)
        } else {
            acted
        },
    )
}

pub open spec fn peer_effects(action: PeerManagementAction) -> Seq<PeerManagementEffect> {
    if action == PeerManagementAction::ToNormal {
        seq![PeerManagementEffect::ToNormal]
    } else {
        Seq::empty()
    }
}

fn apply_peer_movement(app_state: &mut AppState, action: PeerManagementAction)
    requires
        old(app_state).well_formed(),
        action is MoveUp || action is MoveDown || action is MovePageUp || action is MovePageDown
            || action is MoveFirst || action is MoveLast,
    ensures
        final(app_state).peers() == peer_acted(old(app_state).peers(), action),
        old(app_state).same_but_peers(*final(app_state)),
{
    let rows = app_state.peer_management_derived.rows.len();
    assert(app_state.peers().rows.len() == rows);
    match action {
        PeerManagementAction::MoveUp => move_peer_selection(app_state, rows, 1, false),
        PeerManagementAction::MoveDown => move_peer_selection(app_state, rows, 1, true),
        PeerManagementAction::MovePageUp => {
            let page = peer_page_rows(app_state);
            move_peer_selection(app_state, rows, page, false)
        },
        PeerManagementAction::MovePageDown => {
            let page = peer_page_rows(app_state);
            move_peer_selection(app_state, rows, page, true)
        },
        PeerManagementAction::MoveFirst => select_peer_index(app_state, rows, 0),
        _ => select_peer_index(app_state, rows, rows.saturating_sub(1)),
    }
}

fn sort_by_selected_peer_column(app_state: &mut AppState)
    requires
        old(app_state).well_formed(),
    ensures
        final(app_state).peers() == peer_acted(
            old(app_state).peers(),
            PeerManagementAction::SortBySelectedColumn,
        ),
        old(app_state).same_but_peers(*final(app_state)),
{
    let column = normalized_selected_peer_column_index(app_state);
    app_state.ui.peer_management.selected_column_index = column;
    let again = match app_state.ui.peer_management.sort_column_index {
        Some(i) => i == column,
        None => false,
    };
    if again {
        app_state.ui.peer_management.sort_direction =
        reverse_sort_direction(app_state.ui.peer_management.sort_direction);
    } else {
        app_state.ui.peer_management.sort_column_index = Some(column);
        let columns = peer_columns();
        app_state.ui.peer_management.sort_direction =
        peer_column_default_direction(columns[column].id);
    }
}

fn apply_peer_search(app_state: &mut AppState, action: PeerManagementAction)
    requires
        action is FilterNext || action is FilterPrev || action is StartSearch
            || action is SearchInsert || action is SearchBackspace || action is SearchCommit
            || action is SearchCancel || action is ToggleSearchMode || action is TogglePrivacy,
    ensures
        final(app_state).peers() == peer_acted(old(app_state).peers(), action),
        old(app_state).same_but_peers(*final(app_state)),
{
    match action {
        PeerManagementAction::FilterNext => {
            app_state.ui.peer_management.filter = app_state.ui.peer_management.filter.next();
            reset_peer_selection(app_state);
        },
        PeerManagementAction::FilterPrev => {
            app_state.ui.peer_management.filter = app_state.ui.peer_management.filter.prev();
            reset_peer_selection(app_state);
        },
        PeerManagementAction::StartSearch => {
            app_state.ui.peer_management.is_searching = true;
        },
        PeerManagementAction::SearchInsert(c) => {
            app_state.ui.peer_management.search_query.push(c);
            reset_peer_selection(app_state);
        },
        PeerManagementAction::SearchBackspace => {
            let _ = app_state.ui.peer_management.search_query.pop();
            reset_peer_selection(app_state);
        },
        PeerManagementAction::SearchCommit => {
            app_state.ui.peer_management.is_searching = false;
        },
        PeerManagementAction::SearchCancel => {
            app_state.ui.peer_management.is_searching = false;
            app_state.ui.peer_management.search_query.clear();
            reset_peer_selection(app_state);
        },
        PeerManagementAction::ToggleSearchMode => {
            app_state.ui.peer_management.search_mode =
            toggle_search_mode(app_state.ui.peer_management.search_mode);
            reset_peer_selection(app_state);
        },
        _ => {
            let enabling_privacy = !app_state.anonymize_torrent_names;
            app_state.anonymize_torrent_names = enabling_privacy;
            if enabling_privacy {
                app_state.ui.peer_management.is_searching = false;
                app_state.ui.peer_management.search_query.clear();
                reset_peer_selection(app_state);
            }
        },
    }
}

fn toggle_details(app_state: &mut AppState)
    ensures
        final(app_state).peers() == peer_acted(
            old(app_state).peers(),
            PeerManagementAction::ToggleDetails,
        ),
        old(app_state).same_but_peers(*final(app_state)),
{
    let ghost m = app_state.peers();
    if app_state.ui.peer_management.show_details {
        close_details(app_state);
        return;
    }
    let rows = app_state.peer_management_derived.rows.len();
    assert(m.rows.len() == rows);
    let ip = match selected_peer_index(app_state, rows) {
        Some(k) => {
            assert(m.rows[k as int] == app_state.peer_management_derived.rows@[k as int]@);
            Some(app_state.peer_management_derived.rows[k].ip)
        },
        None => None,
    };
    close_details(app_state);
    app_state.ui.peer_management.details_peer_ip = ip;
    app_state.ui.peer_management.show_details = ip.is_some();
}

fn apply_details_scroll(app_state: &mut AppState, action: PeerManagementAction)
    requires
        old(app_state).well_formed(),
        action is ScrollDetailsUp || action is ScrollDetailsDown || action is ScrollDetailsPageUp
            || action is ScrollDetailsPageDown,
    ensures
        final(app_state).peers() == peer_acted(old(app_state).peers(), action),
        old(app_state).same_but_peers(*final(app_state)),
{
    let max_scroll = peer_details_max_scroll(app_state);
    let page = peer_details_page_rows(app_state);
    let offset = app_state.ui.peer_management.details_scroll_offset;
    let scroll: usize = if offset <= max_scroll {
        offset
    } else {
        max_scroll
    };
    let next: usize = match action {
        PeerManagementAction::ScrollDetailsUp => scroll.saturating_sub(1),
        PeerManagementAction::ScrollDetailsPageUp => scroll.saturating_sub(page),
        _ => {
            let step: usize = match action {
                PeerManagementAction::ScrollDetailsDown => 1,
                _ => page,
            };
            let wanted = scroll.saturating_add(step);
            if wanted <= max_scroll {
                wanted
            } else {
                max_scroll
            }
        },
    };
    app_state.ui.peer_management.details_scroll_offset = next;
}

fn apply_details_search(app_state: &mut AppState, action: PeerManagementAction)
    requires
        action is StartDetailsSearch || action is DetailsSearchInsert
            || action is DetailsSearchBackspace || action is DetailsSearchCommit
            || action is DetailsSearchCancel || action is ToggleDetailsSearchMode,
    ensures
        final(app_state).peers() == peer_acted(old(app_state).peers(), action),
        old(app_state).same_but_peers(*final(app_state)),
{
    match action {
        PeerManagementAction::StartDetailsSearch => {
            app_state.ui.peer_management.details_is_searching = true;
        },
        PeerManagementAction::DetailsSearchInsert(c) => {
            app_state.ui.peer_management.details_search_query.push(c);
            app_state.ui.peer_management.details_scroll_offset = 0;
        },
        PeerManagementAction::DetailsSearchBackspace => {
            let _ = app_state.ui.peer_management.details_search_query.pop();
            app_state.ui.peer_management.details_scroll_offset = 0;
        },
        PeerManagementAction::DetailsSearchCommit => {
            app_state.ui.peer_management.details_is_searching = false;
        },
        PeerManagementAction::DetailsSearchCancel => {
            app_state.ui.peer_management.details_is_searching = false;
            app_state.ui.peer_management.details_search_query.clear();
            app_state.ui.peer_management.details_scroll_offset = 0;
        },
        _ => {
            app_state.ui.peer_management.details_search_mode =
            toggle_search_mode(app_state.ui.peer_management.details_search_mode);
            app_state.ui.peer_management.details_scroll_offset = 0;
        },
    }
}

fn apply_peer_action(app_state: &mut AppState, action: PeerManagementAction)
    requires
        old(app_state).well_formed(),
    ensures
        final(app_state).peers() == peer_acted(old(app_state).peers(), action),
        old(app_state).same_but_peers(*final(app_state)),
{
    match action {
        PeerManagementAction::ToNormal => {
            app_state.ui.peer_management.is_searching = false;
            app_state.ui.peer_management.search_query.clear();
            close_details(app_state);
        },
        PeerManagementAction::MoveUp | PeerManagementAction::MoveDown
        | PeerManagementAction::MovePageUp | PeerManagementAction::MovePageDown
        | PeerManagementAction::MoveFirst
        | PeerManagementAction::MoveLast => apply_peer_movement(app_state, action),
        PeerManagementAction::MoveColumnLeft => move_peer_column(app_state, false),
        PeerManagementAction::MoveColumnRight => move_peer_column(app_state, true),
        PeerManagementAction::SortBySelectedColumn => sort_by_selected_peer_column(app_state),
        PeerManagementAction::FilterNext | PeerManagementAction::FilterPrev
        | PeerManagementAction::StartSearch | PeerManagementAction::SearchInsert(_)
        | PeerManagementAction::SearchBackspace | PeerManagementAction::SearchCommit
        | PeerManagementAction::SearchCancel | PeerManagementAction::ToggleSearchMode
        | PeerManagementAction::TogglePrivacy => apply_peer_search(app_state, action),
        PeerManagementAction::ToggleDetails => toggle_details(app_state),
        PeerManagementAction::CloseDetails => close_details(app_state),
        PeerManagementAction::ScrollDetailsUp | PeerManagementAction::ScrollDetailsDown
        | PeerManagementAction::ScrollDetailsPageUp
        | PeerManagementAction::ScrollDetailsPageDown => apply_details_scroll(app_state, action),
        PeerManagementAction::StartDetailsSearch | PeerManagementAction::DetailsSearchInsert(_)
        | PeerManagementAction::DetailsSearchBackspace | PeerManagementAction::DetailsSearchCommit
        | PeerManagementAction::DetailsSearchCancel
        | PeerManagementAction::ToggleDetailsSearchMode => apply_details_search(app_state, action),
    }
}

fn action_changes_rows(action: &PeerManagementAction) -> (changes: bool)
    ensures
        changes == changes_rows(*action),
{
    match *action {
        PeerManagementAction::SortBySelectedColumn | PeerManagementAction::FilterNext
        | PeerManagementAction::FilterPrev | PeerManagementAction::SearchInsert(_)
        | PeerManagementAction::SearchBackspace | PeerManagementAction::SearchCancel
        | PeerManagementAction::ToggleSearchMode | PeerManagementAction::TogglePrivacy => true,
        _ => false,
    }
}

/// Moves the screen on by one action at a moment.
pub fn reduce_peer_management_action_at(
    app_state: &mut AppState,
    action: PeerManagementAction,
    now: u128,
) -> (result: PeerManagementReduceResult)
    requires
        old(app_state).well_formed(),
    ensures
        result.redraw,
        result.effects@ == peer_effects(action),
        final(app_state).peers() == peer_reduced(old(app_state).peers(), action, now),
        old(app_state).same_but_peers(*final(app_state)),
        final(app_state).well_formed(),
{
    app_state.ui.peer_management.status_message = None;
    apply_peer_action(app_state, action);
    if action_changes_rows(&action) {
        recompute_peer_management_derived(app_state, now);
    }
    clamp_peer_column_state(app_state);
    let mut effects: Vec<PeerManagementEffect> = Vec::new();
    if action == PeerManagementAction::ToNormal {
        effects.push(PeerManagementEffect::ToNormal);
    }
    assert(effects@ =~= peer_effects(action));
    PeerManagementReduceResult { redraw: true, effects }
}

/// The present moment: `SystemTime::now`, in nanoseconds since the epoch. It is
/// the machine's clock, so nothing is claimed of it.
#[verifier::external_body]
fn present_moment() -> (now: u128) {
    std::time::SystemTime::now().duration_since(std::time::UNIX_EPOCH).unwrap_or_default().as_nanos()
}

/// Moves the screen on by one action, now.
pub fn reduce_peer_management_action(
    app_state: &mut AppState,
    action: PeerManagementAction,
) -> (result: PeerManagementReduceResult)
    requires
        old(app_state).well_formed(),
    ensures
        result.redraw,
        result.effects@ == peer_effects(action),
        exists|now: u128|
            final(app_state).peers() == #[trigger] peer_reduced(
                old(app_state).peers(),
                action,
                now,
            ),
        old(app_state).same_but_peers(*final(app_state)),
        final(app_state).well_formed(),
{
    let now = present_moment();
    reduce_peer_management_action_at(app_state, action, now)
}

/// Carries out what the screen asks for.
pub fn execute_peer_management_effects(
    app_state: &mut AppState,
    effects: &Vec<PeerManagementEffect>,
)
    ensures
        *final(app_state) == (AppState {
            mode: if effects@.len() > 0 {
                AppMode::Normal
            } else {
                old(app_state).mode
            },
            ..*old(app_state)
        }),
{
    let mut k: usize = 0;
    while k < effects.len()
        invariant
            k <= effects@.len(),
            *app_state == (AppState {
                mode: if k > 0 {
                    AppMode::Normal
                } else {
                    old(app_state).mode
                },
                ..*old(app_state)
            }),
        decreases effects@.len() - k,
    {
        match effects[k] {
            PeerManagementEffect::ToNormal => {
                app_state.mode = AppMode::Normal;
            },
        }
        k = k + 1;
    }
}

/// What an event means to the screen, if it is shown.
pub open spec fn peer_acted_on(event: TerminalEvent, mode: AppMode, pm: PeerScreenView) -> Option<
    PeerManagementAction,
> {
    match event {
        TerminalEvent::Key(key) => if mode == AppMode::PeerManagement {
            peer_event_action(key, pm)
        } else {
            None
        },
        TerminalEvent::Other => None,
    }
}

/// Handles one terminal event at a moment.
pub fn handle_event_at(event: TerminalEvent, app_state: &mut AppState, now: u128)
    requires
        old(app_state).well_formed(),
    ensures
        match peer_acted_on(event, old(app_state).mode, old(app_state).peers().pm) {
            Some(action) => {
                &&& final(app_state).peers() == peer_reduced(old(app_state).peers(), action, now)
                &&& final(app_state).ui.needs_redraw
                &&& final(app_state).mode == if action == PeerManagementAction::ToNormal {
                    AppMode::Normal
                } else {
                    old(app_state).mode
                }
                &&& *final(app_state) == (AppState {
                    mode: final(app_state).mode,
                    ui: UiState {
                        needs_redraw: true,
                        peer_management: final(app_state).ui.peer_management,
                        ..old(app_state).ui
                    },
                    anonymize_torrent_names: final(app_state).anonymize_torrent_names,
                    peer_management_derived: final(app_state).peer_management_derived,
                    ..*old(app_state)
                })
            },
            None => *final(app_state) == *old(app_state),
        },
        final(app_state).well_formed(),
{
    if app_state.mode != AppMode::PeerManagement {
        return;
    }
    let key = match event {
        TerminalEvent::Key(key) => key,
        TerminalEvent::Other => {
            return;
        },
    };
    let action = match map_key_event_to_peer_management_action(key, app_state) {
        Some(action) => action,
        None => {
            return;
        },
    };
    let result = reduce_peer_management_action_at(app_state, action, now);
    if result.redraw {
        app_state.ui.needs_redraw = true;
    }
    execute_peer_management_effects(app_state, &result.effects);
}

/// Handles one terminal event, now.
pub fn handle_event(event: TerminalEvent, app_state: &mut AppState)
    requires
        old(app_state).well_formed(),
    ensures
        match peer_acted_on(event, old(app_state).mode, old(app_state).peers().pm) {
            Some(action) => {
                &&& exists|now: u128|
                    final(app_state).peers() == #[trigger] peer_reduced(
                        old(app_state).peers(),
                        action,
                        now,
                    )
                &&& final(app_state).ui.needs_redraw
                &&& final(app_state).mode == if action == PeerManagementAction::ToNormal {
                    AppMode::Normal
                } else {
                    old(app_state).mode
                }
                &&& *final(app_state) == (AppState {
                    mode: final(app_state).mode,
                    ui: UiState {
                        needs_redraw: true,
                        peer_management: final(app_state).ui.peer_management,
                        ..old(app_state).ui
                    },
                    anonymize_torrent_names: final(app_state).anonymize_torrent_names,
                    peer_management_derived: final(app_state).peer_management_derived,
                    ..*old(app_state)
                })
            },
            None => *final(app_state) == *old(app_state),
        },
        final(app_state).well_formed(),
{
    let now = present_moment();
    handle_event_at(event, app_state, now)
}

// --------------------------------------------------------------- the summary

#[derive(Clone, Copy, Debug, PartialEq, Eq, Structural)]
pub struct PeerSummaryCounts {
    pub tracked_peers: usize,
    pub active: usize,
    pub restricted: usize,
}

/// The addresses of the peers that are connected, each once.
pub open spec fn active_ips(peers: Seq<PeerManagerTrackedPeer>) -> Seq<IpAddr>
    decreases peers.len(),
{
    if peers.len() == 0 {
        Seq::empty()
    } else {
        let head = active_ips(peers.drop_last());
        if peers.last().is_active {
            with_ip(head, normalized_ip(peers.last().ip))
        } else {
            head
        }
    }
}

/// How many addresses are known, connected, and restricted at a moment.
pub fn peer_summary_counts_at(app_state: &AppState, now: u128) -> (counts: PeerSummaryCounts)
    ensures
        ({
            let m = app_state.peers();
            &&& counts.tracked_peers == tracked_ips(m.peers).len()
            &&& counts.active == active_ips(m.peers).len()
            &&& counts.restricted == with_restricted(Seq::empty(), m.restrictions, now).len()
        }),
{
    let peers = &app_state.peer_manager_view.tracked_peers;
    let restrictions = &app_state.peer_policy.restrictions;
    let mut all: Vec<IpAddr> = Vec::new();
    let mut active: Vec<IpAddr> = Vec::new();
    let mut i: usize = 0;
    assert(peers@.take(0) =~= Seq::<PeerManagerTrackedPeer>::empty());
    while i < peers.len()
        invariant
            i <= peers@.len(),
            all@ == tracked_ips(peers@.take(i as int)),
            active@ == active_ips(peers@.take(i as int)),
        decreases peers@.len() - i,
    {
        assert(peers@.take(i + 1).drop_last() =~= peers@.take(i as int));
        let ip = normalize_peer_ip(peers[i].ip);
        if !holds_ip(&all, ip) {
            all.push(ip);
        }
        if peers[i].is_active && !holds_ip(&active, ip) {
            active.push(ip);
        }
        i = i + 1;
    }
    assert(peers@.take(i as int) =~= peers@);
    let mut restricted: Vec<IpAddr> = Vec::new();
    let mut j: usize = 0;
    assert(restrictions@.take(0) =~= Seq::<RestrictedPeer>::empty());
    while j < restrictions.len()
        invariant
            j <= restrictions@.len(),
            restricted@ == with_restricted(Seq::empty(), restrictions@.take(j as int), now),
        decreases restrictions@.len() - j,
    {
        assert(restrictions@.take(j + 1).drop_last() =~= restrictions@.take(j as int));
        if restrictions[j].restriction.blocked_until > now {
            let ip = normalize_peer_ip(restrictions[j].ip);
            if !holds_ip(&restricted, ip) {
                restricted.push(ip);
            }
        }
        j = j + 1;
    }
    assert(restrictions@.take(j as int) =~= restrictions@);
    PeerSummaryCounts {
        tracked_peers: all.len(),
        active: active.len(),
        restricted: restricted.len(),
    }
}

pub fn peer_search_error(app_state: &AppState) -> (message: Option<String>)
    ensures
        message is Some <==> query_error(
            app_state.peers().pm.search_query,
            app_state.peers().pm.search_mode,
        ),
        message matches Some(text) ==> text@ == "Invalid regular expression"@,
{
    search_error(
        app_state.ui.peer_management.search_query.as_str(),
        app_state.ui.peer_management.search_mode,
    )
}

pub fn peer_details_search_error(app_state: &AppState) -> (message: Option<String>)
    ensures
        message is Some <==> query_error(
            app_state.peers().pm.details_search_query,
            app_state.peers().pm.details_search_mode,
        ),
        message matches Some(text) ==> text@ == "Invalid regular expression"@,
{
    search_error(
        app_state.ui.peer_management.details_search_query.as_str(),
        app_state.ui.peer_management.details_search_mode,
    )
}

/// What is wrong with the search of what is shown.
pub fn active_peer_search_error(app_state: &AppState) -> (message: Option<String>)
    ensures
        ({
            let pm = app_state.peers().pm;
            message is Some <==> if pm.show_details {
                query_error(pm.details_search_query, pm.details_search_mode)
            } else {
                query_error(pm.search_query, pm.search_mode)
            }
        }),
        message matches Some(text) ==> text@ == "Invalid regular expression"@,
{
    if peer_details_overlay_active(app_state) {
        peer_details_search_error(app_state)
    } else {
        peer_search_error(app_state)
    }
}

// -------------------------------------------------------------- the viewport

/// The first of the rows on view and the one after the last: as many as fit, from
/// the top, and as far down as the selection needs.
pub open spec fn viewport(rows: int, selected: Option<int>, area_height: int) -> (int, int) {
    if rows == 0 {
        (0, 0)
    } else {
        let capacity = max_int(monus(area_height, 3), 1);
        let chosen = min_int(
            match selected {
                Some(k) => k,
                None => 0,
            },
            rows - 1,
        );
        let start = min_int(monus(chosen, monus(capacity, 1)), monus(rows, capacity));
        (start, min_int(start + capacity, rows))
    }
}

/// The first of the rows on view and the one after the last.
pub fn peer_table_viewport(
    row_count: usize,
    selected_index: Option<usize>,
    area_height: u16,
) -> (range: (usize, usize))
    ensures
        (range.0 as int, range.1 as int) == viewport(
            row_count as int,
            index_of(selected_index),
            area_height as int,
        ),
{
    if row_count == 0 {
        return (0, 0);
    }
    let rows: u16 = area_height.saturating_sub(3);
    let capacity: usize = if rows >= 1 {
        rows as usize
    } else {
        1
    };
    let wanted: usize = selected_index.unwrap_or(0);
    let selected: usize = if wanted <= row_count - 1 {
        wanted
    } else {
        row_count - 1
    };
    let first = selected.saturating_sub(capacity - 1);
    let last_start = row_count.saturating_sub(capacity);
    let start: usize = if first <= last_start {
        first
    } else {
        last_start
    };
    let end: usize = if row_count - start <= capacity {
        row_count
    } else {
        start + capacity
    };
    (start, end)
}

/// The rows on view are rows, no more than fit, and the selected one is among
/// them.
pub proof fn viewport_shows_the_selection(rows: int, selected: int, area_height: int)
    requires
        rows > 0,
        0 <= selected,
    ensures
        ({
            let (start, end) = viewport(rows, Some(selected), area_height);
            &&& 0 <= start < end <= rows
            &&& end - start <= max_int(monus(area_height, 3), 1)
            &&& start <= min_int(selected, rows - 1) < end
        }),
{
}

} // verus!
