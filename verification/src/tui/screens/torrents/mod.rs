//! Torrent management: the table of torrents, and drafts of what to do to them.
use crate::app::{
    command_views, torrent_hashes, AppMode, AppState, CommandView, ControlRequest, ManagementView,
    RequestView, TorrentControlState, TorrentDisplayState, TorrentManagementPendingCommand, UiState,
};
use crate::geometry::{max_int, min_int, monus};
use crate::keys::{KeyCode, KeyEvent, KeyEventKind, TerminalEvent};
use crate::lists::{
    add_bytes, added, byte_strings, copy_bytes, keep_others, kept, position_of_is_first,
};
use crate::moments::{
    date_format, format_moment, is_offset, local_offset, moment_text, shows_moment,
    LAST_DATED_SECOND, LAST_FOUR_DIGIT_SECOND,
};
use crate::order::{other_direction, reverse_sort_direction};
use crate::search::{other_mode, toggle_search_mode};
use crate::text::{decimal, format_number, hex_encode, hex_text, join3, owned, without_last};
use crate::tui::screens::torrents::columns::{
    clamp_management_column_state, column_ids, column_moved, columns_clamped, first_direction,
    management_column_default_direction, management_columns, management_content_area,
    management_frame, move_management_column, normalized_selected_management_column_index,
    selected_column,
};
use crate::tui::screens::torrents::drafts::{
    clear_message, clear_pending_management_commands_for_targets, clear_targets,
    current_row_targets, cursor_from_index, cursor_normalized, draft_toggled, drafts_cleared,
    management_clear_status, management_clear_targets, management_targets,
    normalize_management_cursor, pending_management_status, pending_message, prune_selected_hashes,
    pruned, row_target, selection_toggled, set_management_cursor_hash_from_index, targets,
    toggle_hash_selection, toggle_pending_management_command,
};
use crate::tui::screens::torrents::model::ManagementModel;
use crate::tui::screens::torrents::review::{
    capped_size, management_review_page_lines, max_management_review_scroll_offset,
    max_review_scroll, normalize_management_review_state, review_normalized, review_page,
};
use crate::tui::screens::torrents::rows::{
    build_management_rows, find, find_torrent, listed_hashes, row_hashes, visible,
    visible_torrent_hashes,
};
use vstd::prelude::*;

pub mod columns;
pub mod drafts;
pub mod footer;
pub mod key_laws;
pub mod laws;
pub mod model;
pub mod panel;
pub mod popup;
pub mod review;
pub mod rows;
pub mod table;

verus! {

/// What a key can ask of the screen.
#[derive(Clone, Copy, Debug, PartialEq, Eq, Structural)]
pub enum TorrentManagementAction {
    ToNormal,
    MoveUp,
    MoveDown,
    MovePageUp,
    MovePageDown,
    MoveFirst,
    MoveLast,
    MoveColumnLeft,
    MoveColumnRight,
    SortBySelectedColumn,
    StartSearch,
    SearchInsert(char),
    SearchBackspace,
    SearchCommit,
    SearchCancel,
    ToggleSearchMode,
    ToggleAnonymizeNames,
    ToggleCurrentSelection,
    SelectAllVisible,
    ClearPendingForTargets,
    OpenHighlightedTorrentFiles,
    TogglePauseTargets,
    StartDelete { delete_files: bool },
    ShowSubmitConfirmation,
    CancelSubmitConfirmation,
    SubmitPendingCommands,
    ReviewScrollUp,
    ReviewScrollDown,
    ReviewPageUp,
    ReviewPageDown,
    ReviewFirst,
    ReviewLast,
}

/// What the screen asks of the program.
#[derive(Clone, Debug, PartialEq, Eq)]
pub enum TorrentManagementEffect {
    ToNormal,
    SubmitControlRequest(ControlRequest),
    MarkControlState { info_hash: Vec<u8>, state: TorrentControlState, delete_files: bool },
    OpenExistingTorrentFileBrowser(Vec<u8>),
}

#[verifier::ext_equal]
pub enum EffectView {
    ToNormal,
    Submit(RequestView),
    Mark(Seq<u8>, TorrentControlState, bool),
    OpenFiles(Seq<u8>),
}

impl View for TorrentManagementEffect {
    type V = EffectView;

    open spec fn view(&self) -> EffectView {
        match *self {
            TorrentManagementEffect::ToNormal => EffectView::ToNormal,
            TorrentManagementEffect::SubmitControlRequest(request) => EffectView::Submit(request@),
            TorrentManagementEffect::MarkControlState { info_hash, state, delete_files } =>
            EffectView::Mark(info_hash@, state, delete_files),
            TorrentManagementEffect::OpenExistingTorrentFileBrowser(hash) => EffectView::OpenFiles(
                hash@,
            ),
        }
    }
}

pub open spec fn effect_views(effects: Seq<TorrentManagementEffect>) -> Seq<EffectView> {
    effects.map_values(|effect: TorrentManagementEffect| effect@)
}

pub struct TorrentManagementReduceResult {
    pub consumed: bool,
    pub redraw: bool,
    pub effects: Vec<TorrentManagementEffect>,
}

impl Default for TorrentManagementReduceResult {
    fn default() -> (result: TorrentManagementReduceResult)
        ensures
            !result.consumed,
            !result.redraw,
            result.effects@.len() == 0,
    {
        TorrentManagementReduceResult { consumed: false, redraw: false, effects: Vec::new() }
    }
}

// ----------------------------------------------------------------- the keys

/// The search panel is on view while a query is typed or one is set.
pub open spec fn search_panel(tm: ManagementView) -> bool {
    tm.is_searching || tm.search_query.len() > 0
}

pub fn management_search_panel_active(app_state: &AppState) -> (active: bool)
    ensures
        active == search_panel(app_state.management().tm),
{
    app_state.ui.torrent_management.is_searching || !app_state.ui.torrent_management.search_query.as_str().is_empty()
}

/// What a key means while the review is open.
pub open spec fn review_key(key: KeyCode) -> Option<TorrentManagementAction> {
    match key {
        KeyCode::Enter => Some(TorrentManagementAction::SubmitPendingCommands),
        KeyCode::Char('u') => Some(TorrentManagementAction::ClearPendingForTargets),
        KeyCode::Up | KeyCode::Char('k') => Some(TorrentManagementAction::ReviewScrollUp),
        KeyCode::Down | KeyCode::Char('j') => Some(TorrentManagementAction::ReviewScrollDown),
        KeyCode::PageUp => Some(TorrentManagementAction::ReviewPageUp),
        KeyCode::PageDown => Some(TorrentManagementAction::ReviewPageDown),
        KeyCode::Home => Some(TorrentManagementAction::ReviewFirst),
        KeyCode::End => Some(TorrentManagementAction::ReviewLast),
        KeyCode::Esc | KeyCode::Char('q') => Some(
            TorrentManagementAction::CancelSubmitConfirmation,
        ),
        _ => None,
    }
}

/// What a key means while a query is typed.
pub open spec fn search_key(key: KeyCode) -> Option<TorrentManagementAction> {
    match key {
        KeyCode::Esc => Some(TorrentManagementAction::SearchCancel),
        KeyCode::Enter => Some(TorrentManagementAction::SearchCommit),
        KeyCode::Tab => Some(TorrentManagementAction::ToggleSearchMode),
        KeyCode::Backspace => Some(TorrentManagementAction::SearchBackspace),
        KeyCode::Char(c) => Some(TorrentManagementAction::SearchInsert(c)),
        _ => None,
    }
}

/// What a key means in the table.
pub open spec fn table_key(key: KeyCode, panel: bool, drafted: bool) -> Option<
    TorrentManagementAction,
> {
    match key {
        KeyCode::Tab => if panel {
            Some(TorrentManagementAction::ToggleSearchMode)
        } else {
            None
        },
        KeyCode::Esc | KeyCode::Char('q') => Some(TorrentManagementAction::ToNormal),
        KeyCode::Up | KeyCode::Char('k') => Some(TorrentManagementAction::MoveUp),
        KeyCode::Down | KeyCode::Char('j') => Some(TorrentManagementAction::MoveDown),
        KeyCode::PageUp => Some(TorrentManagementAction::MovePageUp),
        KeyCode::PageDown => Some(TorrentManagementAction::MovePageDown),
        KeyCode::Home => Some(TorrentManagementAction::MoveFirst),
        KeyCode::End => Some(TorrentManagementAction::MoveLast),
        KeyCode::Left | KeyCode::Char('h') => Some(TorrentManagementAction::MoveColumnLeft),
        KeyCode::Right | KeyCode::Char('l') => Some(TorrentManagementAction::MoveColumnRight),
        KeyCode::Char('s') => Some(TorrentManagementAction::SortBySelectedColumn),
        KeyCode::Char('/') => Some(TorrentManagementAction::StartSearch),
        KeyCode::Char('x') => Some(TorrentManagementAction::ToggleAnonymizeNames),
        KeyCode::Char('Y') => if drafted {
            Some(TorrentManagementAction::ShowSubmitConfirmation)
        } else {
            None
        },
        KeyCode::Char(' ') => Some(TorrentManagementAction::ToggleCurrentSelection),
        KeyCode::Char('A') => Some(TorrentManagementAction::SelectAllVisible),
        KeyCode::Char('u') => Some(TorrentManagementAction::ClearPendingForTargets),
        KeyCode::Char('f') => Some(TorrentManagementAction::OpenHighlightedTorrentFiles),
        KeyCode::Char('p') => Some(TorrentManagementAction::TogglePauseTargets),
        KeyCode::Char('d') => Some(TorrentManagementAction::StartDelete { delete_files: false }),
        KeyCode::Char('D') => Some(TorrentManagementAction::StartDelete { delete_files: true }),
        _ => None,
    }
}

/// What a key means: an open review takes all keys, then a query that is being
/// typed, then the table.
pub open spec fn key_action(key: KeyCode, tm: ManagementView) -> Option<TorrentManagementAction> {
    if tm.confirm_submit {
        review_key(key)
    } else if tm.is_searching {
        search_key(key)
    } else {
        table_key(key, search_panel(tm), tm.pending_commands.len() > 0)
    }
}

/// What a key means.
pub fn map_key_to_management_action(key_code: KeyCode, app_state: &AppState) -> (action: Option<
    TorrentManagementAction,
>)
    ensures
        action == key_action(key_code, app_state.management().tm),
{
    assert(app_state.management().tm.pending_commands.len()
        == app_state.ui.torrent_management.pending_commands@.len());
    if app_state.ui.torrent_management.confirm_submit {
        return match key_code {
            KeyCode::Enter => Some(TorrentManagementAction::SubmitPendingCommands),
            KeyCode::Char('u') => Some(TorrentManagementAction::ClearPendingForTargets),
            KeyCode::Up | KeyCode::Char('k') => Some(TorrentManagementAction::ReviewScrollUp),
            KeyCode::Down | KeyCode::Char('j') => Some(TorrentManagementAction::ReviewScrollDown),
            KeyCode::PageUp => Some(TorrentManagementAction::ReviewPageUp),
            KeyCode::PageDown => Some(TorrentManagementAction::ReviewPageDown),
            KeyCode::Home => Some(TorrentManagementAction::ReviewFirst),
            KeyCode::End => Some(TorrentManagementAction::ReviewLast),
            KeyCode::Esc | KeyCode::Char('q') => Some(
                TorrentManagementAction::CancelSubmitConfirmation,
            ),
            _ => None,
        };
    }
    if app_state.ui.torrent_management.is_searching {
        return match key_code {
            KeyCode::Esc => Some(TorrentManagementAction::SearchCancel),
            KeyCode::Enter => Some(TorrentManagementAction::SearchCommit),
            KeyCode::Tab => Some(TorrentManagementAction::ToggleSearchMode),
            KeyCode::Backspace => Some(TorrentManagementAction::SearchBackspace),
            KeyCode::Char(c) => Some(TorrentManagementAction::SearchInsert(c)),
            _ => None,
        };
    }
    match key_code {
        KeyCode::Tab => if management_search_panel_active(app_state) {
            Some(TorrentManagementAction::ToggleSearchMode)
        } else {
            None
        },
        KeyCode::Esc | KeyCode::Char('q') => Some(TorrentManagementAction::ToNormal),
        KeyCode::Up | KeyCode::Char('k') => Some(TorrentManagementAction::MoveUp),
        KeyCode::Down | KeyCode::Char('j') => Some(TorrentManagementAction::MoveDown),
        KeyCode::PageUp => Some(TorrentManagementAction::MovePageUp),
        KeyCode::PageDown => Some(TorrentManagementAction::MovePageDown),
        KeyCode::Home => Some(TorrentManagementAction::MoveFirst),
        KeyCode::End => Some(TorrentManagementAction::MoveLast),
        KeyCode::Left | KeyCode::Char('h') => Some(TorrentManagementAction::MoveColumnLeft),
        KeyCode::Right | KeyCode::Char('l') => Some(TorrentManagementAction::MoveColumnRight),
        KeyCode::Char('s') => Some(TorrentManagementAction::SortBySelectedColumn),
        KeyCode::Char('/') => Some(TorrentManagementAction::StartSearch),
        KeyCode::Char('x') => Some(TorrentManagementAction::ToggleAnonymizeNames),
        KeyCode::Char('Y') => if app_state.ui.torrent_management.pending_commands.len() > 0 {
            Some(TorrentManagementAction::ShowSubmitConfirmation)
        } else {
            None
        },
        KeyCode::Char(' ') => Some(TorrentManagementAction::ToggleCurrentSelection),
        KeyCode::Char('A') => Some(TorrentManagementAction::SelectAllVisible),
        KeyCode::Char('u') => Some(TorrentManagementAction::ClearPendingForTargets),
        KeyCode::Char('f') => Some(TorrentManagementAction::OpenHighlightedTorrentFiles),
        KeyCode::Char('p') => Some(TorrentManagementAction::TogglePauseTargets),
        KeyCode::Char('d') => Some(TorrentManagementAction::StartDelete { delete_files: false }),
        KeyCode::Char('D') => Some(TorrentManagementAction::StartDelete { delete_files: true }),
        _ => None,
    }
}

/// Whether holding a key down repeats an action.
pub open spec fn repeats(action: TorrentManagementAction) -> bool {
    match action {
        TorrentManagementAction::MoveUp | TorrentManagementAction::MoveDown
        | TorrentManagementAction::MovePageUp | TorrentManagementAction::MovePageDown
        | TorrentManagementAction::MoveColumnLeft | TorrentManagementAction::MoveColumnRight
        | TorrentManagementAction::SearchInsert(_) | TorrentManagementAction::SearchBackspace
        | TorrentManagementAction::ReviewScrollUp | TorrentManagementAction::ReviewScrollDown
        | TorrentManagementAction::ReviewPageUp | TorrentManagementAction::ReviewPageDown => true,
        _ => false,
    }
}

/// Whether holding a key down repeats an action: moving and typing does, and
/// nothing that changes a draft or the review.
pub fn management_action_allows_repeat(action: &TorrentManagementAction) -> (allowed: bool)
    ensures
        allowed == repeats(*action),
{
    match *action {
        TorrentManagementAction::MoveUp | TorrentManagementAction::MoveDown
        | TorrentManagementAction::MovePageUp | TorrentManagementAction::MovePageDown
        | TorrentManagementAction::MoveColumnLeft | TorrentManagementAction::MoveColumnRight
        | TorrentManagementAction::SearchInsert(_) | TorrentManagementAction::SearchBackspace
        | TorrentManagementAction::ReviewScrollUp | TorrentManagementAction::ReviewScrollDown
        | TorrentManagementAction::ReviewPageUp | TorrentManagementAction::ReviewPageDown => true,
        _ => false,
    }
}

/// Whether the key of an action must come up before it counts again: `/` opens
/// the search and would then be typed into it.
pub fn management_action_needs_input_latch(action: &TorrentManagementAction) -> (needed: bool)
    ensures
        needed == (*action == TorrentManagementAction::StartSearch),
{
    match *action {
        TorrentManagementAction::StartSearch => true,
        _ => false,
    }
}

/// What a key event means: keys with other modifiers than shift mean nothing, and
/// a held key only what repeats; a held `/` is never typed.
pub open spec fn event_action(key: KeyEvent, tm: ManagementView) -> Option<
    TorrentManagementAction,
> {
    if key.kind == KeyEventKind::Release || !(key.modifiers.is_none()
        || key.modifiers.is_shift()) {
        None
    } else {
        match key_action(key.code, tm) {
            Some(action) => if key.kind == KeyEventKind::Repeat && (!repeats(action) || action
                == TorrentManagementAction::SearchInsert('/')) {
                None
            } else {
                Some(action)
            },
            None => None,
        }
    }
}

/// What a key event means.
pub fn map_key_event_to_management_action(key: KeyEvent, app_state: &AppState) -> (action: Option<
    TorrentManagementAction,
>)
    ensures
        action == event_action(key, app_state.management().tm),
{
    let modifiers = key.modifiers;
    if key.kind == KeyEventKind::Release || modifiers.control || modifiers.alt || modifiers.other {
        return None;
    }
    match map_key_to_management_action(key.code, app_state) {
        Some(action) => {
            if key.kind == KeyEventKind::Repeat && (!management_action_allows_repeat(&action)
                || action == TorrentManagementAction::SearchInsert('/')) {
                return None;
            }
            Some(action)
        },
        None => None,
    }
}

/// The latch after a key event, and what the event means under it. The key that
/// opened the search counts for nothing until it came up or another key went
/// down.
pub open spec fn latched_action(key: KeyEvent, tm: ManagementView) -> (
    Option<KeyCode>,
    Option<TorrentManagementAction>,
) {
    if key.kind == KeyEventKind::Release {
        (
            if tm.input_latch == Some(key.code) {
                None
            } else {
                tm.input_latch
            },
            None,
        )
    } else if tm.input_latch == Some(key.code) {
        (tm.input_latch, None)
    } else {
        let action = event_action(key, tm);
        (
            if action == Some(TorrentManagementAction::StartSearch) {
                Some(key.code)
            } else {
                None
            },
            action,
        )
    }
}

/// What a key event means, with the key that opened the search held back.
pub fn map_key_event_to_management_action_with_latch(
    key: KeyEvent,
    app_state: &mut AppState,
) -> (action: Option<TorrentManagementAction>)
    ensures
        action == latched_action(key, old(app_state).management().tm).1,
        final(app_state).management() == old(app_state).management().with_tm(
            ManagementView {
                input_latch: latched_action(key, old(app_state).management().tm).0,
                ..old(app_state).management().tm
            },
        ),
        old(app_state).same_but_management(*final(app_state)),
{
    if key.kind == KeyEventKind::Release {
        if let Some(latched) = app_state.ui.torrent_management.input_latch {
            if latched == key.code {
                app_state.ui.torrent_management.input_latch = None;
            }
        }
        return None;
    }
    if let Some(latched) = app_state.ui.torrent_management.input_latch {
        if key.code == latched {
            return None;
        }
        app_state.ui.torrent_management.input_latch = None;
    }
    match map_key_event_to_management_action(key, app_state) {
        Some(action) => {
            if management_action_needs_input_latch(&action) {
                app_state.ui.torrent_management.input_latch = Some(key.code);
            }
            Some(action)
        },
        None => None,
    }
}

// --------------------------------------------------------------- the reducer

/// The height of the footer.
pub fn management_footer_height() -> (height: u16)
    ensures
        height == 1,
{
    1
}

/// The rows that paging moves by: those that the table shows, but at least one.
/// The search panel takes three rows, the footer one, and the frame and header of
/// the table three.
pub open spec fn page_rows(m: ManagementModel) -> int {
    let height = management_frame(m.screen).height as int;
    max_int(
        monus(
            height,
            (if search_panel(m.tm) {
                3int
            } else {
                0
            }) + 1 + 3,
        ),
        1,
    )
}

pub fn management_page_rows(app_state: &AppState) -> (rows: usize)
    requires
        app_state.well_formed(),
    ensures
        rows == page_rows(app_state.management()),
{
    let content_area = management_content_area(app_state.screen_area);
    let search_height: u16 = if management_search_panel_active(app_state) {
        3
    } else {
        0
    };
    let rows: u16 = content_area.height.saturating_sub(search_height).saturating_sub(
        management_footer_height(),
    ).saturating_sub(3);
    if rows >= 1 {
        rows as usize
    } else {
        1
    }
}

/// The cursor on the row at a position, as far down as there are rows.
pub open spec fn moved_to(m: ManagementModel, index: int) -> ManagementModel {
    cursor_from_index(m.with_tm(ManagementView { selected_index: index, ..m.tm }))
}

/// The cursor back at the top, on no torrent yet.
pub open spec fn at_top(tm: ManagementView) -> ManagementView {
    ManagementView { selected_index: 0, cursor_hash: None, ..tm }
}

/// The draft that pauses a torrent, or resumes one that is paused.
pub open spec fn pause_draft(torrents: Seq<TorrentDisplayState>, hash: Seq<u8>) -> CommandView {
    let paused = match find(torrents, hash) {
        Some(i) => torrents[i].torrent_control_state == TorrentControlState::Paused,
        None => false,
    };
    CommandView {
        info_hash: hash,
        request: if paused {
            RequestView::Resume(hex_text(hash))
        } else {
            RequestView::Pause(hex_text(hash))
        },
        state: if paused {
            TorrentControlState::Running
        } else {
            TorrentControlState::Paused
        },
        delete_files: false,
    }
}

/// The draft that removes a torrent, with its files or without.
pub open spec fn delete_draft(hash: Seq<u8>, delete_files: bool) -> CommandView {
    CommandView {
        info_hash: hash,
        request: RequestView::Delete(hex_text(hash), delete_files),
        state: TorrentControlState::Deleting,
        delete_files,
    }
}

/// The drafts after pausing was toggled for some torrents, one after the other.
pub open spec fn pauses_toggled(
    pending: Seq<CommandView>,
    torrents: Seq<TorrentDisplayState>,
    targets: Seq<Seq<u8>>,
) -> Seq<CommandView>
    decreases targets.len(),
{
    if targets.len() == 0 {
        pending
    } else {
        draft_toggled(
            pauses_toggled(pending, torrents, targets.drop_last()),
            pause_draft(torrents, targets.last()),
        )
    }
}

/// The drafts after deletion was toggled for some torrents, one after the other.
pub open spec fn deletes_toggled(
    pending: Seq<CommandView>,
    targets: Seq<Seq<u8>>,
    delete_files: bool,
) -> Seq<CommandView>
    decreases targets.len(),
{
    if targets.len() == 0 {
        pending
    } else {
        draft_toggled(
            deletes_toggled(pending, targets.drop_last(), delete_files),
            delete_draft(targets.last(), delete_files),
        )
    }
}

/// What the screen says and holds after drafts were toggled.
pub open spec fn drafted(m: ManagementModel, pending: Seq<CommandView>) -> ManagementModel {
    m.with_tm(
        if targets(m).len() == 0 {
            ManagementView { status_message: Some("No torrents selected"@), ..m.tm }
        } else {
            ManagementView {
                review_cache: None,
                pending_commands: pending,
                status_message: Some(pending_message(pending.len() as int)),
                ..m.tm
            }
        },
    )
}

/// What sending the drafts asks of the program: for each draft in turn, to send
/// its request and to show the state that it leads to.
pub open spec fn submit_effects(pending: Seq<CommandView>) -> Seq<EffectView>
    decreases pending.len(),
{
    if pending.len() == 0 {
        Seq::empty()
    } else {
        let command = pending.last();
        submit_effects(pending.drop_last()).push(EffectView::Submit(command.request)).push(
            EffectView::Mark(command.info_hash, command.state, command.delete_files),
        )
    }
}

/// The state after clearing: the drafts and the selection of what is cleared are
/// gone, and with the last draft the review closes.
pub open spec fn cleared(m: ManagementModel) -> ManagementModel {
    let hashes = clear_targets(m);
    let pending = drafts_cleared(m.tm.pending_commands, hashes);
    let selected = kept(m.tm.selected_hashes, |hash: Seq<u8>| !hashes.contains(hash));
    let gone = m.tm.pending_commands.len() - pending.len();
    m.with_tm(
        ManagementView {
            pending_commands: pending,
            review_cache: if gone > 0 {
                None
            } else {
                m.tm.review_cache
            },
            selected_hashes: selected,
            status_message: Some(
                clear_message(gone, m.tm.selected_hashes.len() - selected.len()),
            ),
            confirm_submit: m.tm.confirm_submit && pending.len() > 0,
            review_scroll_offset: if pending.len() == 0 {
                0
            } else {
                m.tm.review_scroll_offset
            },
            ..m.tm
        },
    )
}

/// The state after the drafts were sent.
pub open spec fn submitted(m: ManagementModel) -> ManagementModel {
    let none = m.tm.pending_commands.len() == 0;
    m.with_tm(
        ManagementView {
            confirm_submit: false,
            review_scroll_offset: 0,
            pending_commands: Seq::empty(),
            selected_hashes: if none {
                m.tm.selected_hashes
            } else {
                Seq::empty()
            },
            status_message: Some(
                if none {
                    "No draft commands to submit"@
                } else {
                    "Draft commands submitted"@
                },
            ),
            ..m.tm
        },
    )
}

/// The state after an action, apart from what is put in order after every one.
pub open spec fn acted(m: ManagementModel, action: TorrentManagementAction) -> ManagementModel {
    let tm = m.tm;
    let rows = row_hashes(m).len() as int;
    match action {
        TorrentManagementAction::ToNormal => m.with_tm(
            ManagementView {
                is_searching: false,
                search_query: Seq::empty(),
                pending_commands: Seq::empty(),
                selected_hashes: Seq::empty(),
                confirm_submit: false,
                cursor_hash: None,
                review_scroll_offset: 0,
                input_latch: None,
                ..tm
            },
        ),
        TorrentManagementAction::MoveUp => moved_to(m, monus(tm.selected_index, 1)),
        TorrentManagementAction::MoveDown => if rows > 0 {
            moved_to(m, min_int(tm.selected_index + 1, rows - 1))
        } else {
            m
        },
        TorrentManagementAction::MovePageUp => moved_to(m, monus(tm.selected_index, page_rows(m))),
        TorrentManagementAction::MovePageDown => if rows > 0 {
            moved_to(m, min_int(tm.selected_index + page_rows(m), rows - 1))
        } else {
            m
        },
        TorrentManagementAction::MoveFirst => moved_to(m, 0),
        TorrentManagementAction::MoveLast => if rows > 0 {
            moved_to(m, rows - 1)
        } else {
            m
        },
        TorrentManagementAction::MoveColumnLeft => column_moved(m, false),
        TorrentManagementAction::MoveColumnRight => column_moved(m, true),
        TorrentManagementAction::SortBySelectedColumn => {
            let column = selected_column(m);
            let again = tm.sort_column_index == Some(column as usize);
            m.with_tm(
                ManagementView {
                    selected_column_index: column,
                    sort_column_index: Some(column as usize),
                    sort_direction: if again {
                        other_direction(tm.sort_direction)
                    } else {
                        first_direction(column_ids()[column])
                    },
                    ..tm
                },
            )
        },
        TorrentManagementAction::StartSearch => m.with_tm(
            ManagementView { is_searching: true, ..at_top(tm) },
        ),
        TorrentManagementAction::SearchInsert(c) => m.with_tm(
            ManagementView { search_query: tm.search_query.push(c), ..at_top(tm) },
        ),
        TorrentManagementAction::SearchBackspace => m.with_tm(
            ManagementView { search_query: without_last(tm.search_query), ..at_top(tm) },
        ),
        TorrentManagementAction::SearchCommit => m.with_tm(
            ManagementView { is_searching: false, ..tm },
        ),
        TorrentManagementAction::SearchCancel => m.with_tm(
            ManagementView { is_searching: false, search_query: Seq::empty(), ..at_top(tm) },
        ),
        TorrentManagementAction::ToggleSearchMode => m.with_tm(
            ManagementView { search_mode: other_mode(tm.search_mode), ..at_top(tm) },
        ),
        TorrentManagementAction::ToggleAnonymizeNames => ManagementModel {
            anonymize: !m.anonymize,
            ..m
        },
        TorrentManagementAction::ToggleCurrentSelection => m.with_tm(
            ManagementView {
                selected_hashes: selection_toggled(tm.selected_hashes, row_target(m)),
                ..tm
            },
        ),
        TorrentManagementAction::SelectAllVisible => {
            let all = added(Seq::empty(), listed_hashes(m, visible(m)));
            m.with_tm(
                ManagementView {
                    selected_hashes: all,
                    status_message: Some(
                        "Selected "@ + decimal(all.len()) + " visible torrents"@,
                    ),
                    ..tm
                },
            )
        },
        TorrentManagementAction::ClearPendingForTargets => cleared(m),
        TorrentManagementAction::OpenHighlightedTorrentFiles => if row_target(m).len() > 0 {
            m
        } else {
            m.with_tm(ManagementView { status_message: Some("No torrent highlighted"@), ..tm })
        },
        TorrentManagementAction::TogglePauseTargets => drafted(
            m,
            pauses_toggled(tm.pending_commands, m.torrents, targets(m)),
        ),
        TorrentManagementAction::StartDelete { delete_files } => drafted(
            m,
            deletes_toggled(tm.pending_commands, targets(m), delete_files),
        ),
        TorrentManagementAction::ShowSubmitConfirmation => m.with_tm(
            if tm.pending_commands.len() == 0 {
                ManagementView { status_message: Some("No draft commands to submit"@), ..tm }
            } else {
                ManagementView { confirm_submit: true, review_scroll_offset: 0, ..tm }
            },
        ),
        TorrentManagementAction::CancelSubmitConfirmation => m.with_tm(
            ManagementView { confirm_submit: false, review_scroll_offset: 0, ..tm },
        ),
        TorrentManagementAction::SubmitPendingCommands => submitted(m),
        TorrentManagementAction::ReviewScrollUp => scrolled_to(
            m,
            monus(tm.review_scroll_offset, 1),
        ),
        TorrentManagementAction::ReviewScrollDown => scrolled_to(
            m,
            capped_size(tm.review_scroll_offset + 1),
        ),
        TorrentManagementAction::ReviewPageUp => scrolled_to(
            m,
            monus(tm.review_scroll_offset, review_page(m.screen)),
        ),
        TorrentManagementAction::ReviewPageDown => scrolled_to(
            m,
            capped_size(tm.review_scroll_offset + review_page(m.screen)),
        ),
        TorrentManagementAction::ReviewFirst => scrolled_to(m, 0),
        TorrentManagementAction::ReviewLast => scrolled_to(m, max_review_scroll(m)),
    }
}

pub open spec fn scrolled_to(m: ManagementModel, offset: int) -> ManagementModel {
    m.with_tm(ManagementView { review_scroll_offset: offset, ..m.tm })
}

/// What an action asks of the program.
pub open spec fn effects_of(m: ManagementModel, action: TorrentManagementAction) -> Seq<
    EffectView,
> {
    match action {
        TorrentManagementAction::ToNormal => seq![EffectView::ToNormal],
        TorrentManagementAction::OpenHighlightedTorrentFiles => if row_target(m).len() > 0 {
            seq![EffectView::OpenFiles(row_target(m)[0])]
        } else {
            Seq::empty()
        },
        TorrentManagementAction::SubmitPendingCommands => submit_effects(m.tm.pending_commands),
        _ => Seq::empty(),
    }
}

/// The state that every action starts from: no message, nothing left of torrents
/// that are gone, and cursor and review in order.
pub open spec fn started(m: ManagementModel) -> ManagementModel {
    review_normalized(
        cursor_normalized(
            pruned(m.with_tm(ManagementView { status_message: None, ..m.tm })),
        ),
    )
}

/// The state that every action ends in.
pub open spec fn finished(m: ManagementModel) -> ManagementModel {
    review_normalized(columns_clamped(cursor_normalized(pruned(m))))
}

/// The state after an action.
pub open spec fn reduced(m: ManagementModel, action: TorrentManagementAction) -> ManagementModel {
    finished(acted(started(m), action))
}

fn effect_list(effect: TorrentManagementEffect) -> (effects: Vec<TorrentManagementEffect>)
    ensures
        effect_views(effects@) == seq![effect@],
{
    let mut effects: Vec<TorrentManagementEffect> = Vec::new();
    effects.push(effect);
    assert(effect_views(effects@) =~= seq![effect@]);
    effects
}

fn no_effects() -> (effects: Vec<TorrentManagementEffect>)
    ensures
        effect_views(effects@) == Seq::<EffectView>::empty(),
{
    let effects: Vec<TorrentManagementEffect> = Vec::new();
    assert(effect_views(effects@) =~= Seq::<EffectView>::empty());
    effects
}

fn move_cursor_to(app_state: &mut AppState, index: usize)
    requires
        old(app_state).well_formed(),
    ensures
        final(app_state).management() == moved_to(old(app_state).management(), index as int),
        old(app_state).same_but_management(*final(app_state)),
{
    app_state.ui.torrent_management.selected_index = index;
    set_management_cursor_hash_from_index(app_state);
}

fn reset_cursor(app_state: &mut AppState)
    ensures
        final(app_state).management() == old(app_state).management().with_tm(
            at_top(old(app_state).management().tm),
        ),
        old(app_state).same_but_management(*final(app_state)),
{
    app_state.ui.torrent_management.selected_index = 0;
    app_state.ui.torrent_management.cursor_hash = None;
}

fn row_count(app_state: &AppState) -> (rows: usize)
    requires
        app_state.well_formed(),
    ensures
        rows == row_hashes(app_state.management()).len(),
{
    build_management_rows(app_state).len()
}

fn apply_movement(app_state: &mut AppState, action: TorrentManagementAction)
    requires
        old(app_state).well_formed(),
        action is MoveUp || action is MoveDown || action is MovePageUp || action is MovePageDown
            || action is MoveFirst || action is MoveLast,
    ensures
        final(app_state).management() == acted(old(app_state).management(), action),
        old(app_state).same_but_management(*final(app_state)),
{
    let selected = app_state.ui.torrent_management.selected_index;
    match action {
        TorrentManagementAction::MoveUp => move_cursor_to(app_state, selected.saturating_sub(1)),
        TorrentManagementAction::MovePageUp => {
            let page = management_page_rows(app_state);
            move_cursor_to(app_state, selected.saturating_sub(page))
        },
        TorrentManagementAction::MoveFirst => move_cursor_to(app_state, 0),
        _ => {
            let rows = row_count(app_state);
            if rows > 0 {
                let last: usize = rows - 1;
                let wanted: usize = match action {
                    TorrentManagementAction::MoveDown => selected.saturating_add(1),
                    TorrentManagementAction::MovePageDown => {
                        selected.saturating_add(management_page_rows(app_state))
                    },
                    _ => last,
                };
                move_cursor_to(
                    app_state,
                    if wanted <= last {
                        wanted
                    } else {
                        last
                    },
                );
            }
        },
    }
}

fn sort_by_selected_column(app_state: &mut AppState)
    requires
        old(app_state).well_formed(),
    ensures
        final(app_state).management() == acted(
            old(app_state).management(),
            TorrentManagementAction::SortBySelectedColumn,
        ),
        old(app_state).same_but_management(*final(app_state)),
{
    let column = normalized_selected_management_column_index(app_state);
    app_state.ui.torrent_management.selected_column_index = column;
    let again = match app_state.ui.torrent_management.sort_column_index {
        Some(i) => i == column,
        None => false,
    };
    if again {
        app_state.ui.torrent_management.sort_direction =
        reverse_sort_direction(app_state.ui.torrent_management.sort_direction);
    } else {
        app_state.ui.torrent_management.sort_column_index = Some(column);
        let columns = management_columns();
        app_state.ui.torrent_management.sort_direction =
        management_column_default_direction(columns[column].id);
    }
}

fn apply_search(app_state: &mut AppState, action: TorrentManagementAction)
    requires
        action is StartSearch || action is SearchInsert || action is SearchBackspace
            || action is SearchCommit || action is SearchCancel || action is ToggleSearchMode,
    ensures
        final(app_state).management() == acted(old(app_state).management(), action),
        old(app_state).same_but_management(*final(app_state)),
{
    match action {
        TorrentManagementAction::StartSearch => {
            app_state.ui.torrent_management.is_searching = true;
            reset_cursor(app_state);
        },
        TorrentManagementAction::SearchInsert(c) => {
            app_state.ui.torrent_management.search_query.push(c);
            reset_cursor(app_state);
        },
        TorrentManagementAction::SearchBackspace => {
            let _ = app_state.ui.torrent_management.search_query.pop();
            reset_cursor(app_state);
        },
        TorrentManagementAction::SearchCommit => {
            app_state.ui.torrent_management.is_searching = false;
        },
        TorrentManagementAction::SearchCancel => {
            app_state.ui.torrent_management.is_searching = false;
            app_state.ui.torrent_management.search_query.clear();
            reset_cursor(app_state);
        },
        _ => {
            app_state.ui.torrent_management.search_mode =
            toggle_search_mode(app_state.ui.torrent_management.search_mode);
            reset_cursor(app_state);
        },
    }
}

fn select_all_visible(app_state: &mut AppState)
    requires
        old(app_state).well_formed(),
    ensures
        final(app_state).management() == acted(
            old(app_state).management(),
            TorrentManagementAction::SelectAllVisible,
        ),
        old(app_state).same_but_management(*final(app_state)),
{
    let on_view = visible_torrent_hashes(app_state);
    let mut all: Vec<Vec<u8>> = Vec::new();
    assert(byte_strings(all@) =~= Seq::<Seq<u8>>::empty());
    add_bytes(&mut all, &on_view);
    let count = all.len();
    assert(byte_strings(all@).len() == count);
    app_state.ui.torrent_management.selected_hashes = all;
    app_state.ui.torrent_management.status_message =
    Some(join3("Selected ", format_number(count as u64).as_str(), " visible torrents"));
}

fn clear_for_targets(app_state: &mut AppState)
    requires
        old(app_state).well_formed(),
    ensures
        final(app_state).management() == cleared(old(app_state).management()),
        old(app_state).same_but_management(*final(app_state)),
{
    let hashes = management_clear_targets(app_state);
    let gone = clear_pending_management_commands_for_targets(app_state, &hashes);
    let before = app_state.ui.torrent_management.selected_hashes.len();
    let rest = keep_others(&app_state.ui.torrent_management.selected_hashes, &hashes);
    assert(byte_strings(rest@).len() == rest@.len());
    assert(byte_strings(app_state.ui.torrent_management.selected_hashes@).len() == before);
    let deselected: usize = before - rest.len();
    app_state.ui.torrent_management.selected_hashes = rest;
    app_state.ui.torrent_management.status_message = Some(
        management_clear_status(gone, deselected),
    );
    assert(app_state.management().tm.pending_commands.len()
        == app_state.ui.torrent_management.pending_commands@.len());
    if app_state.ui.torrent_management.pending_commands.len() == 0 {
        app_state.ui.torrent_management.confirm_submit = false;
        app_state.ui.torrent_management.review_scroll_offset = 0;
    }
}

/// The draft that pauses a torrent, or resumes one that is paused.
fn pause_command(app_state: &AppState, info_hash: &Vec<u8>) -> (command:
    TorrentManagementPendingCommand)
    ensures
        command@ == pause_draft(app_state.torrents@, info_hash@),
{
    let should_resume = match find_torrent(&app_state.torrents, info_hash) {
        Some(i) => app_state.torrents[i].torrent_control_state == TorrentControlState::Paused,
        None => false,
    };
    let info_hash_hex = hex_encode(info_hash);
    TorrentManagementPendingCommand {
        info_hash: copy_bytes(info_hash),
        request: if should_resume {
            ControlRequest::Resume { info_hash_hex }
        } else {
            ControlRequest::Pause { info_hash_hex }
        },
        state: if should_resume {
            TorrentControlState::Running
        } else {
            TorrentControlState::Paused
        },
        delete_files: false,
    }
}

fn toggle_pause_targets(app_state: &mut AppState)
    requires
        old(app_state).well_formed(),
    ensures
        final(app_state).management() == acted(
            old(app_state).management(),
            TorrentManagementAction::TogglePauseTargets,
        ),
        old(app_state).same_but_management(*final(app_state)),
{
    let ghost m = app_state.management();
    let hashes = management_targets(app_state);
    let ghost all = byte_strings(hashes@);
    if hashes.len() == 0 {
        app_state.ui.torrent_management.status_message = Some(owned("No torrents selected"));
        return;
    }
    let mut k: usize = 0;
    while k < hashes.len()
        invariant
            k <= hashes@.len(),
            all == byte_strings(hashes@),
            m == old(app_state).management(),
            app_state.management() == m.with_tm(
                ManagementView {
                    review_cache: if k == 0 {
                        m.tm.review_cache
                    } else {
                        None
                    },
                    pending_commands: pauses_toggled(
                        m.tm.pending_commands,
                        m.torrents,
                        all.take(k as int),
                    ),
                    ..m.tm
                },
            ),
            old(app_state).same_but_management(*app_state),
        decreases hashes@.len() - k,
    {
        assert(all.take(k + 1).drop_last() =~= all.take(k as int));
        assert(all.take(k + 1).last() == hashes@[k as int]@);
        let command = pause_command(app_state, &hashes[k]);
        toggle_pending_management_command(app_state, command);
        k = k + 1;
    }
    assert(all.take(k as int) =~= all);
    let message = pending_management_status(app_state);
    app_state.ui.torrent_management.status_message = Some(message);
}

fn toggle_delete_targets(app_state: &mut AppState, delete_files: bool)
    requires
        old(app_state).well_formed(),
    ensures
        final(app_state).management() == acted(
            old(app_state).management(),
            TorrentManagementAction::StartDelete { delete_files },
        ),
        old(app_state).same_but_management(*final(app_state)),
{
    let ghost m = app_state.management();
    let hashes = management_targets(app_state);
    let ghost all = byte_strings(hashes@);
    if hashes.len() == 0 {
        app_state.ui.torrent_management.status_message = Some(owned("No torrents selected"));
        return;
    }
    let mut k: usize = 0;
    while k < hashes.len()
        invariant
            k <= hashes@.len(),
            all == byte_strings(hashes@),
            m == old(app_state).management(),
            app_state.management() == m.with_tm(
                ManagementView {
                    review_cache: if k == 0 {
                        m.tm.review_cache
                    } else {
                        None
                    },
                    pending_commands: deletes_toggled(
                        m.tm.pending_commands,
                        all.take(k as int),
                        delete_files,
                    ),
                    ..m.tm
                },
            ),
            old(app_state).same_but_management(*app_state),
        decreases hashes@.len() - k,
    {
        assert(all.take(k + 1).drop_last() =~= all.take(k as int));
        assert(all.take(k + 1).last() == hashes@[k as int]@);
        let command = TorrentManagementPendingCommand {
            info_hash: copy_bytes(&hashes[k]),
            request: ControlRequest::Delete {
                info_hash_hex: hex_encode(&hashes[k]),
                delete_files,
            },
            state: TorrentControlState::Deleting,
            delete_files,
        };
        toggle_pending_management_command(app_state, command);
        k = k + 1;
    }
    assert(all.take(k as int) =~= all);
    let message = pending_management_status(app_state);
    app_state.ui.torrent_management.status_message = Some(message);
}

fn submit_pending_commands(app_state: &mut AppState) -> (effects: Vec<TorrentManagementEffect>)
    ensures
        final(app_state).management() == submitted(old(app_state).management()),
        effect_views(effects@) == submit_effects(old(app_state).management().tm.pending_commands),
        old(app_state).same_but_management(*final(app_state)),
{
    let ghost m = app_state.management();
    let mut effects = no_effects();
    let ghost all = command_views(app_state.ui.torrent_management.pending_commands@);
    let count = app_state.ui.torrent_management.pending_commands.len();
    let mut k: usize = 0;
    while k < count
        invariant
            k <= count,
            count == app_state.ui.torrent_management.pending_commands@.len(),
            all == command_views(app_state.ui.torrent_management.pending_commands@),
            *app_state == *old(app_state),
            effect_views(effects@) == submit_effects(all.take(k as int)),
        decreases count - k,
    {
        let command = &app_state.ui.torrent_management.pending_commands[k];
        let ghost view = command@;
        proof {
            assert(all.take(k + 1).drop_last() =~= all.take(k as int));
            assert(all.take(k + 1).last() == view);
        }
        let ghost was = effect_views(effects@);
        effects.push(TorrentManagementEffect::SubmitControlRequest(command.request.copy()));
        effects.push(
            TorrentManagementEffect::MarkControlState {
                info_hash: copy_bytes(&command.info_hash),
                state: command.state,
                delete_files: command.delete_files,
            },
        );
        assert(effect_views(effects@) =~= was.push(EffectView::Submit(view.request)).push(
            EffectView::Mark(view.info_hash, view.state, view.delete_files),
        ));
        k = k + 1;
    }
    assert(all.take(k as int) =~= all);
    app_state.ui.torrent_management.confirm_submit = false;
    app_state.ui.torrent_management.review_scroll_offset = 0;
    app_state.ui.torrent_management.pending_commands = Vec::new();
    assert(command_views(app_state.ui.torrent_management.pending_commands@)
        =~= Seq::<CommandView>::empty());
    if count == 0 {
        app_state.ui.torrent_management.status_message = Some(owned("No draft commands to submit"));
    } else {
        app_state.ui.torrent_management.selected_hashes = Vec::new();
        assert(byte_strings(app_state.ui.torrent_management.selected_hashes@)
            =~= Seq::<Seq<u8>>::empty());
        app_state.ui.torrent_management.status_message = Some(owned("Draft commands submitted"));
    }
    effects
}

fn apply_review_scroll(app_state: &mut AppState, action: TorrentManagementAction)
    requires
        action is ReviewScrollUp || action is ReviewScrollDown || action is ReviewPageUp
            || action is ReviewPageDown || action is ReviewFirst || action is ReviewLast,
    ensures
        final(app_state).management() == acted(old(app_state).management(), action),
        old(app_state).same_but_management(*final(app_state)),
{
    let offset = app_state.ui.torrent_management.review_scroll_offset;
    let page = management_review_page_lines(app_state);
    app_state.ui.torrent_management.review_scroll_offset =
    match action {
        TorrentManagementAction::ReviewScrollUp => offset.saturating_sub(1),
        TorrentManagementAction::ReviewScrollDown => offset.saturating_add(1),
        TorrentManagementAction::ReviewPageUp => offset.saturating_sub(page),
        TorrentManagementAction::ReviewPageDown => offset.saturating_add(page),
        TorrentManagementAction::ReviewFirst => 0,
        _ => max_management_review_scroll_offset(app_state),
    };
}

fn leave_management(app_state: &mut AppState)
    ensures
        final(app_state).management() == acted(
            old(app_state).management(),
            TorrentManagementAction::ToNormal,
        ),
        old(app_state).same_but_management(*final(app_state)),
{
    app_state.ui.torrent_management.is_searching = false;
    app_state.ui.torrent_management.search_query.clear();
    app_state.ui.torrent_management.pending_commands = Vec::new();
    app_state.ui.torrent_management.selected_hashes = Vec::new();
    app_state.ui.torrent_management.confirm_submit = false;
    app_state.ui.torrent_management.cursor_hash = None;
    app_state.ui.torrent_management.review_scroll_offset = 0;
    app_state.ui.torrent_management.input_latch = None;
    assert(command_views(app_state.ui.torrent_management.pending_commands@)
        =~= Seq::<CommandView>::empty());
    assert(byte_strings(app_state.ui.torrent_management.selected_hashes@)
        =~= Seq::<Seq<u8>>::empty());
}

/// Does what an action asks for, and says what it asks of the program.
fn apply_management_action(app_state: &mut AppState, action: TorrentManagementAction) -> (effects:
    Vec<TorrentManagementEffect>)
    requires
        old(app_state).well_formed(),
    ensures
        final(app_state).management() == acted(old(app_state).management(), action),
        effect_views(effects@) == effects_of(old(app_state).management(), action),
        old(app_state).same_but_management(*final(app_state)),
{
    match action {
        TorrentManagementAction::ToNormal => {
            leave_management(app_state);
            return effect_list(TorrentManagementEffect::ToNormal);
        },
        TorrentManagementAction::MoveUp | TorrentManagementAction::MoveDown
        | TorrentManagementAction::MovePageUp | TorrentManagementAction::MovePageDown
        | TorrentManagementAction::MoveFirst | TorrentManagementAction::MoveLast => apply_movement(
            app_state,
            action,
        ),
        TorrentManagementAction::MoveColumnLeft => move_management_column(app_state, false),
        TorrentManagementAction::MoveColumnRight => move_management_column(app_state, true),
        TorrentManagementAction::SortBySelectedColumn => sort_by_selected_column(app_state),
        TorrentManagementAction::StartSearch | TorrentManagementAction::SearchInsert(_)
        | TorrentManagementAction::SearchBackspace | TorrentManagementAction::SearchCommit
        | TorrentManagementAction::SearchCancel
        | TorrentManagementAction::ToggleSearchMode => apply_search(app_state, action),
        TorrentManagementAction::ToggleAnonymizeNames => {
            app_state.anonymize_torrent_names = !app_state.anonymize_torrent_names;
        },
        TorrentManagementAction::ToggleCurrentSelection => {
            let hashes = current_row_targets(app_state);
            toggle_hash_selection(app_state, &hashes);
        },
        TorrentManagementAction::SelectAllVisible => select_all_visible(app_state),
        TorrentManagementAction::ClearPendingForTargets => clear_for_targets(app_state),
        TorrentManagementAction::OpenHighlightedTorrentFiles => {
            let hashes = current_row_targets(app_state);
            assert(byte_strings(hashes@).len() == hashes@.len());
            if hashes.len() > 0 {
                assert(byte_strings(hashes@)[0] == hashes@[0]@);
                return effect_list(
                    TorrentManagementEffect::OpenExistingTorrentFileBrowser(copy_bytes(&hashes[0])),
                );
            }
            app_state.ui.torrent_management.status_message = Some(owned("No torrent highlighted"));
        },
        TorrentManagementAction::TogglePauseTargets => toggle_pause_targets(app_state),
        TorrentManagementAction::StartDelete { delete_files } => toggle_delete_targets(
            app_state,
            delete_files,
        ),
        TorrentManagementAction::ShowSubmitConfirmation => {
            assert(app_state.management().tm.pending_commands.len()
                == app_state.ui.torrent_management.pending_commands@.len());
            if app_state.ui.torrent_management.pending_commands.len() == 0 {
                app_state.ui.torrent_management.status_message =
                Some(owned("No draft commands to submit"));
            } else {
                app_state.ui.torrent_management.confirm_submit = true;
                app_state.ui.torrent_management.review_scroll_offset = 0;
            }
        },
        TorrentManagementAction::CancelSubmitConfirmation => {
            app_state.ui.torrent_management.confirm_submit = false;
            app_state.ui.torrent_management.review_scroll_offset = 0;
        },
        TorrentManagementAction::SubmitPendingCommands => {
            return submit_pending_commands(app_state);
        },
        TorrentManagementAction::ReviewScrollUp | TorrentManagementAction::ReviewScrollDown
        | TorrentManagementAction::ReviewPageUp | TorrentManagementAction::ReviewPageDown
        | TorrentManagementAction::ReviewFirst
        | TorrentManagementAction::ReviewLast => apply_review_scroll(app_state, action),
    }
    no_effects()
}

/// Moves the screen on by one action, and says what it asks of the program.
pub fn reduce_torrent_management_action(
    app_state: &mut AppState,
    action: TorrentManagementAction,
) -> (result: TorrentManagementReduceResult)
    requires
        old(app_state).well_formed(),
    ensures
        result.consumed,
        result.redraw,
        effect_views(result.effects@) == effects_of(
            started(old(app_state).management()),
            action,
        ),
        final(app_state).management() == reduced(old(app_state).management(), action),
        old(app_state).same_but_management(*final(app_state)),
        final(app_state).well_formed(),
{
    app_state.ui.torrent_management.status_message = None;
    prune_selected_hashes(app_state);
    normalize_management_cursor(app_state);
    normalize_management_review_state(app_state);
    assert(app_state.management() == started(old(app_state).management()));
    let effects = apply_management_action(app_state, action);
    prune_selected_hashes(app_state);
    normalize_management_cursor(app_state);
    clamp_management_column_state(app_state);
    normalize_management_review_state(app_state);
    TorrentManagementReduceResult { consumed: true, redraw: true, effects }
}

// ------------------------------------------------------------- the event loop

/// The cursor at the top of the table, with nothing held back and no review.
pub open spec fn opened(m: ManagementModel) -> ManagementModel {
    cursor_normalized(
        m.with_tm(
            ManagementView {
                selected_index: 0,
                cursor_hash: None,
                input_latch: None,
                review_cache: None,
                ..m.tm
            },
        ),
    )
}

/// Puts the cursor on the first row when the screen is opened.
pub fn initialize_torrent_management_cursor(app_state: &mut AppState)
    requires
        old(app_state).well_formed(),
    ensures
        final(app_state).management() == opened(old(app_state).management()),
        old(app_state).same_but_management(*final(app_state)),
{
    app_state.ui.torrent_management.selected_index = 0;
    app_state.ui.torrent_management.cursor_hash = None;
    app_state.ui.torrent_management.input_latch = None;
    app_state.ui.torrent_management.review_cache = None;
    normalize_management_cursor(app_state);
}

/// What the program has left to do after the screen's effects: requests to send,
/// and torrents whose files to open, each in their order.
pub struct ManagementRequests {
    pub control_requests: Vec<ControlRequest>,
    pub open_files: Vec<Vec<u8>>,
}

/// A torrent in another control state.
pub open spec fn marked_torrent(
    torrent: TorrentDisplayState,
    state: TorrentControlState,
    delete_files: bool,
) -> TorrentDisplayState {
    TorrentDisplayState { torrent_control_state: state, delete_files, ..torrent }
}

/// The torrents after one effect; what is marked is not marked on a follower.
pub open spec fn marked_by(
    torrents: Seq<TorrentDisplayState>,
    effect: EffectView,
    follower: bool,
) -> Seq<TorrentDisplayState> {
    match effect {
        EffectView::Mark(hash, state, delete_files) => match find(torrents, hash) {
            Some(i) => if follower {
                torrents
            } else {
                torrents.update(i, marked_torrent(torrents[i], state, delete_files))
            },
            None => torrents,
        },
        _ => torrents,
    }
}

pub open spec fn marked_by_all(
    torrents: Seq<TorrentDisplayState>,
    effects: Seq<EffectView>,
    follower: bool,
) -> Seq<TorrentDisplayState>
    decreases effects.len(),
{
    if effects.len() == 0 {
        torrents
    } else {
        marked_by(
            marked_by_all(torrents, effects.drop_last(), follower),
            effects.last(),
            follower,
        )
    }
}

/// The requests among some effects.
pub open spec fn requests_in(effects: Seq<EffectView>) -> Seq<RequestView>
    decreases effects.len(),
{
    if effects.len() == 0 {
        Seq::empty()
    } else {
        let head = requests_in(effects.drop_last());
        match effects.last() {
            EffectView::Submit(request) => head.push(request),
            _ => head,
        }
    }
}

/// The torrents whose files are to be opened among some effects.
pub open spec fn files_in(effects: Seq<EffectView>) -> Seq<Seq<u8>>
    decreases effects.len(),
{
    if effects.len() == 0 {
        Seq::empty()
    } else {
        let head = files_in(effects.drop_last());
        match effects.last() {
            EffectView::OpenFiles(hash) => head.push(hash),
            _ => head,
        }
    }
}

pub open spec fn request_views(requests: Seq<ControlRequest>) -> Seq<RequestView> {
    requests.map_values(|request: ControlRequest| request@)
}

/// Whether some effects leave the screen.
pub open spec fn leaves(effects: Seq<EffectView>) -> bool {
    exists|k: int| 0 <= k < effects.len() && #[trigger] effects[k] == EffectView::ToNormal
}

/// Marking keeps the hashes of the torrents.
pub proof fn marking_keeps_the_hashes(
    torrents: Seq<TorrentDisplayState>,
    effect: EffectView,
    follower: bool,
)
    ensures
        torrent_hashes(marked_by(torrents, effect, follower)) == torrent_hashes(torrents),
{
    if let EffectView::Mark(hash, _, _) = effect {
        position_of_is_first(torrent_hashes(torrents), hash);
    }
    assert(torrent_hashes(marked_by(torrents, effect, follower)) =~= torrent_hashes(torrents));
}

/// Carries out what the screen asks for, and hands back what only the program can
/// do. A follower of a shared session shows no state before its leader does.
#[verifier::loop_isolation(false)]
pub fn execute_management_effects(
    app_state: &mut AppState,
    effects: &Vec<TorrentManagementEffect>,
    shared_follower: bool,
) -> (requests: ManagementRequests)
    ensures
        ({
            let views = effect_views(effects@);
            &&& request_views(requests.control_requests@) == requests_in(views)
            &&& byte_strings(requests.open_files@) == files_in(views)
            &&& final(app_state).torrents@ == marked_by_all(
                old(app_state).torrents@,
                views,
                shared_follower,
            )
            &&& final(app_state).mode == if leaves(views) {
                AppMode::Normal
            } else {
                old(app_state).mode
            }
            &&& *final(app_state) == (AppState {
                mode: final(app_state).mode,
                torrents: final(app_state).torrents,
                ..*old(app_state)
            })
        }),
        old(app_state).well_formed() ==> final(app_state).well_formed(),
{
    let ghost views = effect_views(effects@);
    let mut control_requests: Vec<ControlRequest> = Vec::new();
    let mut open_files: Vec<Vec<u8>> = Vec::new();
    assert(request_views(control_requests@) =~= Seq::<RequestView>::empty());
    assert(byte_strings(open_files@) =~= Seq::<Seq<u8>>::empty());
    assert(views.take(0) =~= Seq::<EffectView>::empty());
    let mut k: usize = 0;
    while k < effects.len()
        invariant
            k <= effects@.len(),
            request_views(control_requests@) == requests_in(views.take(k as int)),
            byte_strings(open_files@) == files_in(views.take(k as int)),
            app_state.torrents@ == marked_by_all(
                old(app_state).torrents@,
                views.take(k as int),
                shared_follower,
            ),
            torrent_hashes(app_state.torrents@) == torrent_hashes(old(app_state).torrents@),
            app_state.mode == if leaves(views.take(k as int)) {
                AppMode::Normal
            } else {
                old(app_state).mode
            },
            *app_state == (AppState {
                mode: app_state.mode,
                torrents: app_state.torrents,
                ..*old(app_state)
            }),
        decreases effects@.len() - k,
    {
        let effect = &effects[k];
        let ghost before = views.take(k as int);
        let ghost after = views.take(k + 1);
        proof {
            assert(after.drop_last() =~= before);
            assert(after.last() == effect@);
            marking_keeps_the_hashes(app_state.torrents@, effect@, shared_follower);
            assert(leaves(after) <==> leaves(before) || effect@ == EffectView::ToNormal) by {
                if leaves(before) {
                    let j = choose|j: int|
                        0 <= j < before.len() && #[trigger] before[j] == EffectView::ToNormal;
                    assert(after[j] == EffectView::ToNormal);
                }
                if leaves(after) {
                    let j = choose|j: int|
                        0 <= j < after.len() && #[trigger] after[j] == EffectView::ToNormal;
                    if j < before.len() {
                        assert(before[j] == EffectView::ToNormal);
                    }
                }
                if effect@ == EffectView::ToNormal {
                    assert(after[k as int] == EffectView::ToNormal);
                }
            }
        }
        match effect {
            TorrentManagementEffect::ToNormal => {
                app_state.mode = AppMode::Normal;
            },
            TorrentManagementEffect::SubmitControlRequest(request) => {
                let ghost was = request_views(control_requests@);
                control_requests.push(request.copy());
                assert(request_views(control_requests@) =~= was.push(request@));
            },
            TorrentManagementEffect::MarkControlState { info_hash, state, delete_files } => {
                if !shared_follower {
                    if let Some(i) = find_torrent(&app_state.torrents, info_hash) {
                        let ghost was = app_state.torrents@;
                        app_state.torrents[i].torrent_control_state = *state;
                        app_state.torrents[i].delete_files = *delete_files;
                        assert(app_state.torrents@ =~= was.update(
                            i as int,
                            marked_torrent(was[i as int], *state, *delete_files),
                        ));
                    }
                }
            },
            TorrentManagementEffect::OpenExistingTorrentFileBrowser(info_hash) => {
                let ghost was = byte_strings(open_files@);
                open_files.push(copy_bytes(info_hash));
                assert(byte_strings(open_files@) =~= was.push(info_hash@));
            },
        }
        k = k + 1;
    }
    assert(views.take(k as int) =~= views);
    ManagementRequests { control_requests, open_files }
}

/// What became of a terminal event.
pub struct ManagementOutcome {
    pub consumed: bool,
    pub requests: ManagementRequests,
}

/// Whether an event is one that the screen acts on: a key that means something
/// while the screen is shown.
pub open spec fn acted_on(event: TerminalEvent, mode: AppMode, tm: ManagementView) -> Option<
    TorrentManagementAction,
> {
    match event {
        TerminalEvent::Key(key) => if mode == AppMode::TorrentManagement {
            latched_action(key, tm).1
        } else {
            None
        },
        TerminalEvent::Other => None,
    }
}

/// The state of the screen once a key event was looked at.
pub open spec fn latched(event: TerminalEvent, mode: AppMode, m: ManagementModel) -> ManagementModel {
    match event {
        TerminalEvent::Key(key) => if mode == AppMode::TorrentManagement {
            m.with_tm(ManagementView { input_latch: latched_action(key, m.tm).0, ..m.tm })
        } else {
            m
        },
        TerminalEvent::Other => m,
    }
}

/// Handles one terminal event. Only an event that means something to the screen is
/// consumed, and one that is asks for a new frame.
pub fn handle_event(event: TerminalEvent, app_state: &mut AppState, shared_follower: bool) -> (outcome:
    ManagementOutcome)
    requires
        old(app_state).well_formed(),
    ensures
        ({
            let m = latched(event, old(app_state).mode, old(app_state).management());
            match acted_on(event, old(app_state).mode, old(app_state).management().tm) {
                Some(action) => {
                    let views = effects_of(started(m), action);
                    let after = reduced(m, action);
                    &&& outcome.consumed
                    &&& final(app_state).ui.needs_redraw
                    &&& request_views(outcome.requests.control_requests@) == requests_in(views)
                    &&& byte_strings(outcome.requests.open_files@) == files_in(views)
                    &&& final(app_state).management() == (ManagementModel {
                        torrents: marked_by_all(after.torrents, views, shared_follower),
                        ..after
                    })
                    &&& final(app_state).mode == if leaves(views) {
                        AppMode::Normal
                    } else {
                        old(app_state).mode
                    }
                    &&& *final(app_state) == (AppState {
                        mode: final(app_state).mode,
                        ui: UiState {
                            needs_redraw: true,
                            torrent_management: final(app_state).ui.torrent_management,
                            ..old(app_state).ui
                        },
                        torrents: final(app_state).torrents,
                        anonymize_torrent_names: final(app_state).anonymize_torrent_names,
                        ..*old(app_state)
                    })
                },
                None => {
                    &&& !outcome.consumed
                    &&& outcome.requests.control_requests@.len() == 0
                    &&& outcome.requests.open_files@.len() == 0
                    &&& final(app_state).management() == m
                    &&& old(app_state).same_but_management(*final(app_state))
                },
            }
        }),
        final(app_state).well_formed(),
{
    let nothing = ManagementOutcome {
        consumed: false,
        requests: ManagementRequests { control_requests: Vec::new(), open_files: Vec::new() },
    };
    if app_state.mode != AppMode::TorrentManagement {
        return nothing;
    }
    let key = match event {
        TerminalEvent::Key(key) => key,
        TerminalEvent::Other => {
            return nothing;
        },
    };
    let action = match map_key_event_to_management_action_with_latch(key, app_state) {
        Some(action) => action,
        None => {
            return nothing;
        },
    };
    let result = reduce_torrent_management_action(app_state, action);
    if result.redraw {
        app_state.ui.needs_redraw = true;
    }
    let requests = execute_management_effects(app_state, &result.effects, shared_follower);
    ManagementOutcome { consumed: result.consumed, requests }
}

/// The date on which a torrent was added, for a place whose time is so many seconds
/// ahead of UTC.
pub fn added_date_at(unix_secs: u64, offset: i32) -> (date: String)
    requires
        unix_secs <= LAST_DATED_SECOND,
        is_offset(offset),
    ensures
        date@ == moment_text(unix_secs as i64, 0, offset, date_format()),
        unix_secs <= LAST_FOUR_DIGIT_SECOND ==> date@.len() == 10 && date@[4] == '-' && date@[7]
            == '-',
{
    format_moment(unix_secs as i64, 0, offset, "%Y-%m-%d")
}

/// The date on which a torrent was added, or a dash. At which offset the date is
/// shown rests on the machine's time zone.
pub fn format_added_date(added_at_unix_secs: Option<u64>) -> (date: String)
    requires
        added_at_unix_secs matches Some(secs) ==> secs <= LAST_DATED_SECOND,
    ensures
        match added_at_unix_secs {
            Some(secs) => {
                &&& shows_moment(date@, secs as i64, 0, date_format())
                &&& secs <= LAST_FOUR_DIGIT_SECOND ==> date@.len() == 10 && date@[4] == '-'
                    && date@[7] == '-'
            },
            None => date@ == "-"@,
        },
{
    match added_at_unix_secs {
        Some(secs) => added_date_at(secs, local_offset(secs as i64)),
        None => owned("-"),
    }
}

} // verus!
