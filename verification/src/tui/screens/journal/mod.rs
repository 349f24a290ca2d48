//! The journal screen: what happened, and how to do it again.
use crate::app::{
    next_journal_filter, previous_journal_filter, AppMode, AppState, JournalScreenView, UiState,
};
use crate::event_journal::EventJournalEntry;
use crate::geometry::{
    asked_by_all, frame_inner, framed, max_int, min_int, monus, one_minimum, split_vertical,
    vertical_spans, Constraint, Rect,
};
use crate::keys::{KeyCode, KeyEvent, KeyEventKind, TerminalEvent};
use crate::paths::{
    compact_path_label, eq_ignore_ascii_case, extension, path_extension, same_but_capitals,
    short_path, FilePath,
};
use crate::search::{other_mode, toggle_search_mode, SearchMode};
use crate::text::{join, owned, without_last};
use crate::tui::screens::journal::activities::{
    activities_on_view, activity_views, journal_activities, last_with, JournalActivity,
};
use vstd::prelude::*;

pub mod activities;
pub mod labels;
pub mod laws;
pub mod screen;

verus! {

/// What a key can ask of the screen.
#[derive(Clone, Copy, Debug, PartialEq, Eq, Structural)]
pub enum JournalAction {
    ToNormal,
    FilterNext,
    FilterPrev,
    MoveUp,
    MoveDown,
    MovePageUp,
    MovePageDown,
    ReplaySelected,
    SearchStart,
    SearchInsert(char),
    SearchBackspace,
    SearchClear,
    SearchCommit,
    SearchCancel,
    ToggleSearchMode,
}

// ------------------------------------------------------------------- the keys

/// What a key event means while the search is on view.
pub open spec fn journal_search_key(key: KeyEvent) -> Option<JournalAction> {
    match key.code {
        KeyCode::Tab => Some(JournalAction::ToggleSearchMode),
        KeyCode::Esc => Some(JournalAction::SearchCancel),
        KeyCode::Enter => Some(JournalAction::SearchCommit),
        KeyCode::Backspace => Some(JournalAction::SearchBackspace),
        KeyCode::Up => Some(JournalAction::MoveUp),
        KeyCode::Down => Some(JournalAction::MoveDown),
        KeyCode::PageUp => Some(JournalAction::MovePageUp),
        KeyCode::PageDown => Some(JournalAction::MovePageDown),
        KeyCode::Char(c) => if c == 'u' && key.modifiers.control {
            Some(JournalAction::SearchClear)
        } else if !key.modifiers.control && !key.modifiers.alt {
            Some(JournalAction::SearchInsert(c))
        } else {
            None
        },
        _ => None,
    }
}

/// What a key means in the list.
pub open spec fn journal_list_key(key: KeyCode) -> Option<JournalAction> {
    match key {
        KeyCode::Esc | KeyCode::Char('q') => Some(JournalAction::ToNormal),
        KeyCode::Tab => Some(JournalAction::FilterNext),
        KeyCode::BackTab => Some(JournalAction::FilterPrev),
        KeyCode::Up | KeyCode::Char('k') => Some(JournalAction::MoveUp),
        KeyCode::Down | KeyCode::Char('j') => Some(JournalAction::MoveDown),
        KeyCode::PageUp => Some(JournalAction::MovePageUp),
        KeyCode::PageDown => Some(JournalAction::MovePageDown),
        KeyCode::Char('Y') => Some(JournalAction::ReplaySelected),
        KeyCode::Char('/') => Some(JournalAction::SearchStart),
        _ => None,
    }
}

/// What a key event means. Letting go of a key means nothing.
pub open spec fn journal_key(key: KeyEvent, search_panel_active: bool) -> Option<JournalAction> {
    if key.kind == KeyEventKind::Release {
        None
    } else if search_panel_active {
        journal_search_key(key)
    } else {
        journal_list_key(key.code)
    }
}

/// What a key event means.
pub fn map_key_to_journal_action(key: KeyEvent, search_panel_active: bool) -> (action: Option<
    JournalAction,
>)
    ensures
        action == journal_key(key, search_panel_active),
{
    if key.kind == KeyEventKind::Release {
        return None;
    }
    let has_ctrl = key.modifiers.control;
    let has_alt = key.modifiers.alt;
    if search_panel_active {
        return match key.code {
            KeyCode::Tab => Some(JournalAction::ToggleSearchMode),
            KeyCode::Esc => Some(JournalAction::SearchCancel),
            KeyCode::Enter => Some(JournalAction::SearchCommit),
            KeyCode::Backspace => Some(JournalAction::SearchBackspace),
            KeyCode::Up => Some(JournalAction::MoveUp),
            KeyCode::Down => Some(JournalAction::MoveDown),
            KeyCode::PageUp => Some(JournalAction::MovePageUp),
            KeyCode::PageDown => Some(JournalAction::MovePageDown),
            KeyCode::Char(c) => if c == 'u' && has_ctrl {
                Some(JournalAction::SearchClear)
            } else if !has_ctrl && !has_alt {
                Some(JournalAction::SearchInsert(c))
            } else {
                None
            },
            _ => None,
        };
    }
    match key.code {
        KeyCode::Esc | KeyCode::Char('q') => Some(JournalAction::ToNormal),
        KeyCode::Tab => Some(JournalAction::FilterNext),
        KeyCode::BackTab => Some(JournalAction::FilterPrev),
        KeyCode::Up | KeyCode::Char('k') => Some(JournalAction::MoveUp),
        KeyCode::Down | KeyCode::Char('j') => Some(JournalAction::MoveDown),
        KeyCode::PageUp => Some(JournalAction::MovePageUp),
        KeyCode::PageDown => Some(JournalAction::MovePageDown),
        KeyCode::Char('Y') => Some(JournalAction::ReplaySelected),
        KeyCode::Char('/') => Some(JournalAction::SearchStart),
        _ => None,
    }
}

pub open spec fn journal_search_panel(jm: JournalScreenView) -> bool {
    jm.is_searching || jm.search_query.len() > 0
}

/// Whether the search is on view.
pub fn journal_search_panel_active(app_state: &AppState) -> (active: bool)
    ensures
        active == journal_search_panel(app_state.ui.journal@),
{
    app_state.ui.journal.is_searching || !app_state.ui.journal.search_query.as_str().is_empty()
}

// ------------------------------------------------------------------ the panel

/// The height of the line that tells more of the selected activity, if there is
/// room for it.
pub fn journal_detail_height(inner_height: u16) -> (height: u16)
    ensures
        height == if inner_height >= 5 {
            1int
        } else {
            0
        },
{
    if inner_height >= 5 {
        1
    } else {
        0
    }
}

/// Where the parts of the screen go.
#[derive(Clone, Copy, Debug, PartialEq, Eq, Structural)]
pub struct JournalLayout {
    pub search: Option<Rect>,
    pub header: Rect,
    pub panel: Rect,
    pub footer: Rect,
    pub table: Rect,
    pub detail: Option<Rect>,
}

/// The height of what is below the search.
pub open spec fn list_height(height: int, searching: bool) -> int {
    if searching && height >= 7 {
        height - 3
    } else {
        height
    }
}

/// The height of the framed panel: a line above it and one below stay free where
/// there is room.
pub open spec fn panel_height(height: int) -> int {
    if height >= 3 {
        height - 2
    } else {
        min_int(height, 1)
    }
}

/// The height of the table on an area of the given height: within the frame, and
/// two lines less where there is room for the line below it.
pub open spec fn table_height(height: int, searching: bool) -> int {
    let inner = monus(panel_height(list_height(height, searching)), 2);
    if inner >= 5 {
        inner - 2
    } else {
        inner
    }
}

/// Where the parts of the screen go. Which of the lines above and below the panel is
/// there where there is room for one of them is not stated.
pub fn calculate_journal_layout(area: Rect, search_panel_active: bool) -> (layout: JournalLayout)
    requires
        area.valid(),
    ensures
        layout.search is Some == (search_panel_active && area.height >= 7),
        layout.search matches Some(search) ==> search == (Rect { height: 3, ..area }),
        layout.header.x == area.x,
        layout.header.width == area.width,
        layout.header.y == area.y + (area.height - list_height(
            area.height as int,
            search_panel_active,
        )),
        layout.panel.x == area.x,
        layout.panel.width == area.width,
        layout.panel.y == layout.header.y + layout.header.height,
        layout.panel.height == panel_height(
            list_height(area.height as int, search_panel_active),
        ),
        layout.footer.x == area.x,
        layout.footer.width == area.width,
        layout.footer.y == layout.panel.y + layout.panel.height,
        layout.footer.y + layout.footer.height == area.y + area.height,
        layout.header.height <= 1,
        layout.footer.height <= 1,
        list_height(area.height as int, search_panel_active) >= 3 ==> layout.header.height == 1
            && layout.footer.height == 1,
        layout.table.x == framed(layout.panel, 2, 0).x,
        layout.table.y == framed(layout.panel, 2, 0).y,
        layout.table.width == framed(layout.panel, 2, 0).width,
        layout.table.height == table_height(area.height as int, search_panel_active),
        layout.detail is Some == (framed(layout.panel, 2, 0).height >= 5),
        layout.detail matches Some(detail) ==> detail == (Rect {
            y: (layout.table.y + layout.table.height + 1) as u16,
            height: 1,
            ..layout.table
        }),
        layout.panel.valid(),
{
    let (search, list) = if search_panel_active && area.height >= 7 {
        let mut parts: Vec<Constraint> = Vec::new();
        parts.push(Constraint::Length(3));
        parts.push(Constraint::Min(1));
        proof {
            reveal_with_fuel(asked_by_all, 3);
            assert(one_minimum(parts@, 1));
        }
        let areas = split_vertical(area, &parts);
        let ghost spans = vertical_spans(areas@);
        assert(spans.len() == 2);
        assert(spans[0] == (areas@[0].y as int, areas@[0].height as int));
        assert(spans[1] == (areas@[1].y as int, areas@[1].height as int));
        (Some(areas[0]), areas[1])
    } else {
        (None, area)
    };
    let mut parts: Vec<Constraint> = Vec::new();
    parts.push(Constraint::Length(1));
    parts.push(Constraint::Min(1));
    parts.push(Constraint::Length(1));
    proof {
        reveal_with_fuel(asked_by_all, 4);
        assert(one_minimum(parts@, 1));
    }
    let areas = split_vertical(list, &parts);
    let ghost spans = vertical_spans(areas@);
    assert(spans.len() == 3);
    assert(spans[0] == (areas@[0].y as int, areas@[0].height as int));
    assert(spans[1] == (areas@[1].y as int, areas@[1].height as int));
    assert(spans[2] == (areas@[2].y as int, areas@[2].height as int));
    let header = areas[0];
    let panel = areas[1];
    let footer = areas[2];
    let inner = frame_inner(panel, 2, 0);
    let detail_height = journal_detail_height(inner.height);
    let spacer_height: u16 = detail_height;
    let mut parts: Vec<Constraint> = Vec::new();
    parts.push(Constraint::Min(3));
    parts.push(Constraint::Length(spacer_height));
    parts.push(Constraint::Length(detail_height));
    proof {
        reveal_with_fuel(asked_by_all, 4);
        assert(one_minimum(parts@, 0));
    }
    let rows = split_vertical(inner, &parts);
    let ghost spans = vertical_spans(rows@);
    assert(spans.len() == 3);
    assert(spans[0] == (rows@[0].y as int, rows@[0].height as int));
    assert(spans[1] == (rows@[1].y as int, rows@[1].height as int));
    assert(spans[2] == (rows@[2].y as int, rows@[2].height as int));
    let detail = if detail_height > 0 {
        Some(rows[2])
    } else {
        None
    };
    JournalLayout { search, header, panel, footer, table: rows[0], detail }
}

/// The rows that paging moves by: those that the table shows, but at least one.
pub open spec fn journal_page(screen: Rect, jm: JournalScreenView) -> int {
    if screen.width == 0 || screen.height == 0 {
        1
    } else {
        max_int(monus(table_height(jm.area.height as int, journal_search_panel(jm)), 1), 1)
    }
}

/// The rows that paging moves by.
pub fn journal_page_rows(app_state: &AppState) -> (rows: usize)
    requires
        app_state.well_formed(),
    ensures
        rows == journal_page(app_state.screen_area, app_state.ui.journal@),
{
    let screen_area = app_state.screen_area;
    if screen_area.width == 0 || screen_area.height == 0 {
        return 1;
    }
    let layout = calculate_journal_layout(
        app_state.ui.journal.area,
        journal_search_panel_active(app_state),
    );
    let rows: u16 = layout.table.height.saturating_sub(1);
    if rows >= 1 {
        rows as usize
    } else {
        1
    }
}

/// The first of the activities on view and the one after the last: as many as fit,
/// from the top, and as far down as the selection needs.
pub open spec fn table_window(len: int, selected: int, height: int) -> (int, int) {
    let capacity = max_int(monus(height, 1), 1);
    let end = if selected < capacity {
        min_int(capacity, len)
    } else {
        min_int(selected + 1, len)
    };
    (monus(end, capacity), end)
}

/// The first of the activities on view and the one after the last.
pub fn journal_table_window(len: usize, selected_index: usize, table_height: u16) -> (window: (
    usize,
    usize,
))
    ensures
        (window.0 as int, window.1 as int) == table_window(
            len as int,
            selected_index as int,
            table_height as int,
        ),
{
    let rows: u16 = table_height.saturating_sub(1);
    let capacity: usize = if rows >= 1 {
        rows as usize
    } else {
        1
    };
    let end: usize = if selected_index < capacity {
        if capacity <= len {
            capacity
        } else {
            len
        }
    } else if selected_index < len {
        selected_index + 1
    } else {
        len
    };
    (end.saturating_sub(capacity), end)
}

/// The activities on view are no more than fit, and the selected one is among
/// them.
pub proof fn window_shows_the_selection(len: int, selected: int, height: int)
    requires
        0 <= selected < len,
    ensures
        ({
            let (start, end) = table_window(len, selected, height);
            &&& 0 <= start <= selected < end <= len
            &&& end - start <= max_int(monus(height, 1), 1)
        }),
{
}

// ------------------------------------------------------------------ the replay

/// A command to the program: to add a torrent from a file.
#[derive(Debug, PartialEq, Eq)]
pub enum ReplayCommand {
    AddTorrentFromFile(String),
    AddMagnetFromFile(String),
    AddTorrentFromPathFile(String),
}

#[verifier::ext_equal]
pub enum ReplayView {
    AddTorrentFromFile(Seq<char>),
    AddMagnetFromFile(Seq<char>),
    AddTorrentFromPathFile(Seq<char>),
}

impl View for ReplayCommand {
    type V = ReplayView;

    open spec fn view(&self) -> ReplayView {
        match *self {
            ReplayCommand::AddTorrentFromFile(path) => ReplayView::AddTorrentFromFile(path@),
            ReplayCommand::AddMagnetFromFile(path) => ReplayView::AddMagnetFromFile(path@),
            ReplayCommand::AddTorrentFromPathFile(path) => ReplayView::AddTorrentFromPathFile(path@),
        }
    }
}

pub open spec fn has_extension(path: FilePath, wanted: Seq<char>) -> bool {
    match path_extension(path.step_list()) {
        Some(extension) => same_but_capitals(extension, wanted),
        None => false,
    }
}

/// The command that takes a file in again, by the extension of its name.
pub open spec fn replay_of(path: FilePath) -> Option<ReplayView> {
    if has_extension(path, "torrent"@) {
        Some(ReplayView::AddTorrentFromFile(path.text@))
    } else if has_extension(path, "magnet"@) {
        Some(ReplayView::AddMagnetFromFile(path.text@))
    } else if has_extension(path, "path"@) {
        Some(ReplayView::AddTorrentFromPathFile(path.text@))
    } else {
        None
    }
}

pub open spec fn replay_view(command: Option<ReplayCommand>) -> Option<ReplayView> {
    match command {
        Some(command) => Some(command@),
        None => None,
    }
}

/// The command that takes a file in again.
pub fn replay_command_for_path(path: &FilePath) -> (command: Option<ReplayCommand>)
    ensures
        replay_view(command) == replay_of(*path),
{
    let extension = match extension(path) {
        Some(extension) => extension,
        None => {
            return None;
        },
    };
    if eq_ignore_ascii_case(extension.as_str(), "torrent") {
        Some(ReplayCommand::AddTorrentFromFile(owned(path.text.as_str())))
    } else if eq_ignore_ascii_case(extension.as_str(), "magnet") {
        Some(ReplayCommand::AddMagnetFromFile(owned(path.text.as_str())))
    } else if eq_ignore_ascii_case(extension.as_str(), "path") {
        Some(ReplayCommand::AddTorrentFromPathFile(owned(path.text.as_str())))
    } else {
        None
    }
}

/// A file that is to be taken in again, and its path in short. Whether it is still
/// there is not known yet.
pub struct ReplayRequest {
    pub source_path: String,
    pub label: String,
    pub command: ReplayCommand,
}

#[verifier::ext_equal]
pub struct ReplayRequestView {
    pub source_path: Seq<char>,
    pub label: Seq<char>,
    pub command: ReplayView,
}

impl View for ReplayRequest {
    type V = ReplayRequestView;

    open spec fn view(&self) -> ReplayRequestView {
        ReplayRequestView {
            source_path: self.source_path@,
            label: self.label@,
            command: self.command@,
        }
    }
}

pub open spec fn request_view(request: Option<ReplayRequest>) -> Option<ReplayRequestView> {
    match request {
        Some(request) => Some(request@),
        None => None,
    }
}

/// The newest event of an activity that has a file of its own.
pub open spec fn file_event(entries: Seq<EventJournalEntry>, activity: Seq<usize>) -> Option<
    usize,
> {
    last_with(activity, |i: usize| entries[i as int].source_path is Some)
}

/// What replaying the selected activity comes to: a request, or a message.
pub open spec fn replay_wanted(
    entries: Seq<EventJournalEntry>,
    activities: Seq<Seq<usize>>,
    selected: int,
) -> Result<ReplayRequestView, Seq<char>> {
    if activities.len() == 0 {
        Err("No journal entry selected"@)
    } else {
        match file_event(entries, activities[min_int(selected, activities.len() - 1)]) {
            None => Err("Selected entry has no replayable source file"@),
            Some(i) => {
                let path = entries[i as int].source_path->0;
                match replay_of(path) {
                    None => Err("Selected entry does not point to a replayable source file"@),
                    Some(command) => Ok(
                        ReplayRequestView {
                            source_path: path.text@,
                            label: short_path(path, 2),
                            command,
                        },
                    ),
                }
            },
        }
    }
}

fn find_file<'a>(entries: &'a Vec<EventJournalEntry>, activity: &JournalActivity) -> (path: Option<
    &'a FilePath,
>)
    requires
        forall|k: int|
            0 <= k < activity.entries@.len() ==> #[trigger] activity.entries@[k] < entries@.len(),
    ensures
        match file_event(entries@, activity.entries@) {
            Some(i) => path == Some(&entries@[i as int].source_path->0),
            None => path is None,
        },
{
    let ghost all = activity.entries@;
    let ghost test = |i: usize| entries@[i as int].source_path is Some;
    let mut k: usize = activity.entries.len();
    assert(all.take(k as int) =~= all);
    while k > 0
        invariant
            k <= all.len(),
            all == activity.entries@,
            forall|k: int| 0 <= k < all.len() ==> #[trigger] all[k] < entries@.len(),
            test == (|i: usize| entries@[i as int].source_path is Some),
            last_with(all, test) == last_with(all.take(k as int), test),
        decreases k,
    {
        assert(all.take(k as int).last() == all[k - 1]);
        assert(all.take(k as int).drop_last() =~= all.take(k - 1));
        let position = activity.entries[k - 1];
        if let Some(path) = &entries[position].source_path {
            return Some(path);
        }
        k = k - 1;
    }
    None
}

/// What replaying the selected activity comes to: a request, or a message.
pub fn replay_selected_entry(app_state: &AppState) -> (wanted: Result<ReplayRequest, &'static str>)
    ensures
        ({
            let entries = app_state.event_journal_state.entries@;
            let jm = app_state.ui.journal@;
            match replay_wanted(entries, activities_on_view(entries, jm), jm.selected_index) {
                Ok(request) => wanted is Ok && wanted->Ok_0@ == request,
                Err(message) => wanted is Err && wanted->Err_0@ == message,
            }
        }),
{
    let entries = &app_state.event_journal_state.entries;
    let activities = journal_activities(app_state);
    let ghost views = activity_views(activities@);
    let count = activities.len();
    assert(views.len() == count);
    if count == 0 {
        return Err("No journal entry selected");
    }
    let selected: usize = if app_state.ui.journal.selected_index <= count - 1 {
        app_state.ui.journal.selected_index
    } else {
        count - 1
    };
    let activity = &activities[selected];
    assert(views[selected as int] == activity.entries@);
    let path = match find_file(entries, activity) {
        Some(path) => path,
        None => {
            return Err("Selected entry has no replayable source file");
        },
    };
    match replay_command_for_path(path) {
        Some(command) => Ok(
            ReplayRequest {
                source_path: path.text.clone(),
                label: compact_path_label(path, 2),
                command,
            },
        ),
        None => Err("Selected entry does not point to a replayable source file"),
    }
}

/// How a request to take a file in again ended.
#[derive(Clone, Copy, Debug, PartialEq, Eq, Structural)]
pub enum ReplayOutcome {
    Missing,
    Busy,
    Sent,
}

/// What is said of a request to take a file in again.
pub open spec fn outcome_text(outcome: ReplayOutcome, label: Seq<char>) -> Seq<char> {
    match outcome {
        ReplayOutcome::Missing => "Replay source file is no longer available"@,
        ReplayOutcome::Busy => "Replay request queue is busy"@,
        ReplayOutcome::Sent => "Replayed "@ + label,
    }
}

/// Notes how a request to take a file in again ended.
pub fn finish_replay(app_state: &mut AppState, request: &ReplayRequest, outcome: ReplayOutcome)
    ensures
        final(app_state).journal() == old(app_state).journal().with_jm(
            (JournalScreenView {
                status_message: Some(outcome_text(outcome, request@.label)),
                ..old(app_state).journal().jm
            }),
        ),
        old(app_state).same_but_journal(*final(app_state)),
        final(app_state).mode == old(app_state).mode,
{
    let message = match outcome {
        ReplayOutcome::Missing => owned("Replay source file is no longer available"),
        ReplayOutcome::Busy => owned("Replay request queue is busy"),
        ReplayOutcome::Sent => join("Replayed ", request.label.as_str()),
    };
    app_state.ui.journal.status_message = Some(message);
}

// ----------------------------------------------------------------- the reducer

/// Everything that the screen reads.
#[verifier::ext_equal]
pub struct JournalModel {
    pub jm: JournalScreenView,
    pub entries: Seq<EventJournalEntry>,
    pub screen: Rect,
}

impl JournalModel {
    pub open spec fn with_jm(self, jm: JournalScreenView) -> JournalModel {
        JournalModel { jm, ..self }
    }

    /// The number of activities on view.
    pub open spec fn count(self) -> int {
        activities_on_view(self.entries, self.jm).len() as int
    }
}

impl AppState {
    pub open spec fn journal(self) -> JournalModel {
        JournalModel {
            jm: self.ui.journal@,
            entries: self.event_journal_state.entries@,
            screen: self.screen_area,
        }
    }

    /// The two states differ at most in what belongs to the journal, and in which
    /// screen is shown.
    pub open spec fn same_but_journal(self, other: AppState) -> bool {
        other == (AppState {
            mode: other.mode,
            ui: UiState { journal: other.ui.journal, ..self.ui },
            ..self
        })
    }
}

pub open spec fn at_position(jm: JournalScreenView, index: int) -> JournalScreenView {
    JournalScreenView { selected_index: index, ..jm }
}

/// The state after an action, but for the message of a replay.
pub open spec fn journal_reduced(m: JournalModel, action: JournalAction) -> JournalModel {
    let jm = JournalScreenView { status_message: None, ..m.jm };
    let clean = m.with_jm(jm);
    let page = journal_page(m.screen, jm);
    m.with_jm(
        match action {
            JournalAction::ToNormal => jm,
            JournalAction::FilterNext => JournalScreenView {
                filter: next_journal_filter(jm.filter),
                ..at_position(jm, 0)
            },
            JournalAction::FilterPrev => JournalScreenView {
                filter: previous_journal_filter(jm.filter),
                ..at_position(jm, 0)
            },
            JournalAction::MoveUp => at_position(jm, monus(jm.selected_index, 1)),
            JournalAction::MoveDown => if clean.count() > 0 {
                at_position(jm, min_int(jm.selected_index + 1, clean.count() - 1))
            } else {
                jm
            },
            JournalAction::MovePageUp => at_position(jm, monus(jm.selected_index, page)),
            JournalAction::MovePageDown => if clean.count() > 0 {
                at_position(jm, min_int(jm.selected_index + page, clean.count() - 1))
            } else {
                jm
            },
            JournalAction::ReplaySelected => match replay_wanted(
                m.entries,
                activities_on_view(m.entries, jm),
                jm.selected_index,
            ) {
                Ok(_) => jm,
                Err(message) => JournalScreenView { status_message: Some(message), ..jm },
            },
            JournalAction::SearchStart => JournalScreenView {
                is_searching: true,
                search_mode: SearchMode::Regex,
                ..at_position(jm, 0)
            },
            JournalAction::SearchInsert(c) => JournalScreenView {
                search_query: jm.search_query.push(c),
                ..at_position(jm, 0)
            },
            JournalAction::SearchBackspace => JournalScreenView {
                search_query: without_last(jm.search_query),
                ..at_position(jm, 0)
            },
            JournalAction::SearchClear => JournalScreenView {
                search_query: Seq::empty(),
                ..at_position(jm, 0)
            },
            JournalAction::SearchCommit => JournalScreenView { is_searching: false, ..jm },
            JournalAction::SearchCancel => JournalScreenView {
                is_searching: false,
                search_query: Seq::empty(),
                ..at_position(jm, 0)
            },
            JournalAction::ToggleSearchMode => JournalScreenView {
                search_mode: other_mode(jm.search_mode),
                ..at_position(jm, 0)
            },
        },
    )
}

/// The request that an action makes.
pub open spec fn journal_asked(m: JournalModel, action: JournalAction) -> Option<
    ReplayRequestView,
> {
    match (action, replay_wanted(
        m.entries,
        activities_on_view(m.entries, m.jm),
        m.jm.selected_index,
    )) {
        (JournalAction::ReplaySelected, Ok(request)) => Some(request),
        _ => None,
    }
}

fn move_journal_selection(app_state: &mut AppState, action: JournalAction)
    requires
        old(app_state).well_formed(),
        action is MoveUp || action is MoveDown || action is MovePageUp || action is MovePageDown,
        old(app_state).ui.journal.status_message is None,
    ensures
        final(app_state).journal() == journal_reduced(old(app_state).journal(), action),
        old(app_state).same_but_journal(*final(app_state)),
        final(app_state).mode == old(app_state).mode,
{
    let ghost m = app_state.journal();
    assert(m.jm == (JournalScreenView { status_message: None, ..m.jm }));
    let selected = app_state.ui.journal.selected_index;
    let rows: usize = match action {
        JournalAction::MoveUp | JournalAction::MoveDown => 1,
        _ => journal_page_rows(app_state),
    };
    match action {
        JournalAction::MoveUp | JournalAction::MovePageUp => {
            app_state.ui.journal.selected_index = selected.saturating_sub(rows);
        },
        _ => {
            let activities = journal_activities(app_state);
            let len = activities.len();
            assert(activity_views(activities@).len() == len);
            if len > 0 {
                let wanted = selected.saturating_add(rows);
                app_state.ui.journal.selected_index = if wanted <= len - 1 {
                    wanted
                } else {
                    len - 1
                };
            }
        },
    }
}

/// Moves the screen on by one action. A replay that can be tried comes back as a
/// request.
pub fn reduce_journal_action(app_state: &mut AppState, action: JournalAction) -> (request: Option<
    ReplayRequest,
>)
    requires
        old(app_state).well_formed(),
    ensures
        final(app_state).journal() == journal_reduced(old(app_state).journal(), action),
        request_view(request) == journal_asked(old(app_state).journal(), action),
        old(app_state).same_but_journal(*final(app_state)),
        final(app_state).mode == if action == JournalAction::ToNormal {
            AppMode::Normal
        } else {
            old(app_state).mode
        },
        final(app_state).well_formed(),
{
    let ghost m = app_state.journal();
    app_state.ui.journal.status_message = None;
    proof {
        view_ignores_the_message(m.entries, m.jm);
    }
    let mut request: Option<ReplayRequest> = None;
    match action {
        JournalAction::ToNormal => {
            app_state.mode = AppMode::Normal;
        },
        JournalAction::FilterNext => {
            app_state.ui.journal.filter = app_state.ui.journal.filter.next();
            app_state.ui.journal.selected_index = 0;
        },
        JournalAction::FilterPrev => {
            app_state.ui.journal.filter = app_state.ui.journal.filter.prev();
            app_state.ui.journal.selected_index = 0;
        },
        JournalAction::MoveUp | JournalAction::MoveDown | JournalAction::MovePageUp
        | JournalAction::MovePageDown => {
            move_journal_selection(app_state, action);
        },
        JournalAction::ReplaySelected => {
            match replay_selected_entry(app_state) {
                Ok(wanted) => {
                    request = Some(wanted);
                },
                Err(message) => {
                    app_state.ui.journal.status_message = Some(owned(message));
                },
            }
        },
        JournalAction::SearchStart => {
            app_state.ui.journal.is_searching = true;
            app_state.ui.journal.search_mode = SearchMode::Regex;
            app_state.ui.journal.selected_index = 0;
        },
        JournalAction::SearchInsert(c) => {
            app_state.ui.journal.search_query.push(c);
            app_state.ui.journal.selected_index = 0;
        },
        JournalAction::SearchBackspace => {
            let _ = app_state.ui.journal.search_query.pop();
            app_state.ui.journal.selected_index = 0;
        },
        JournalAction::SearchClear => {
            app_state.ui.journal.search_query.clear();
            app_state.ui.journal.selected_index = 0;
        },
        JournalAction::SearchCommit => {
            app_state.ui.journal.is_searching = false;
        },
        JournalAction::SearchCancel => {
            app_state.ui.journal.is_searching = false;
            app_state.ui.journal.search_query.clear();
            app_state.ui.journal.selected_index = 0;
        },
        JournalAction::ToggleSearchMode => {
            app_state.ui.journal.search_mode =
            toggle_search_mode(app_state.ui.journal.search_mode);
            app_state.ui.journal.selected_index = 0;
        },
    }
    request
}

proof fn view_ignores_the_message(entries: Seq<EventJournalEntry>, jm: JournalScreenView)
    ensures
        activities_on_view(entries, (JournalScreenView { status_message: None, ..jm }))
            == activities_on_view(entries, jm),
{
}

/// What an event means to the screen, if it is shown.
pub open spec fn journal_acted_on(
    event: TerminalEvent,
    mode: AppMode,
    jm: JournalScreenView,
) -> Option<JournalAction> {
    match event {
        TerminalEvent::Key(key) => if mode == AppMode::Journal {
            journal_key(key, journal_search_panel(jm))
        } else {
            None
        },
        TerminalEvent::Other => None,
    }
}

/// Handles one terminal event. A replay that can be tried comes back as a request.
pub fn handle_event(event: TerminalEvent, app_state: &mut AppState) -> (request: Option<
    ReplayRequest,
>)
    requires
        old(app_state).well_formed(),
    ensures
        match journal_acted_on(event, old(app_state).mode, old(app_state).journal().jm) {
            Some(action) => {
                &&& final(app_state).journal() == journal_reduced(old(app_state).journal(), action)
                &&& request_view(request) == journal_asked(old(app_state).journal(), action)
                &&& old(app_state).same_but_journal(*final(app_state))
                &&& final(app_state).mode == if action == JournalAction::ToNormal {
                    AppMode::Normal
                } else {
                    old(app_state).mode
                }
            },
            None => *final(app_state) == *old(app_state) && request is None,
        },
        final(app_state).well_formed(),
{
    if app_state.mode != AppMode::Journal {
        return None;
    }
    let key = match event {
        TerminalEvent::Key(key) => key,
        TerminalEvent::Other => {
            return None;
        },
    };
    let search_panel_active = journal_search_panel_active(app_state);
    match map_key_to_journal_action(key, search_panel_active) {
        Some(action) => reduce_journal_action(app_state, action),
        None => None,
    }
}

} // verus!
