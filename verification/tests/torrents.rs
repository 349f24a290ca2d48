//! The torrent management screen.
use ratatui::backend::TestBackend;
use ratatui::layout::{Constraint as Width, Layout, Rect as TerminalRect};
use ratatui::text::Line;
use ratatui::widgets::{Block, Borders, Clear, Padding, Paragraph, Row, Table, TableState};
use ratatui::{Frame, Terminal};
use superseedr::app::{
    AppMode, AppState, Completion, ControlRequest, TorrentControlState, TorrentDisplayState,
    TorrentManagementPendingCommand, TorrentManagementReviewCache,
};
use superseedr::geometry::{Constraint, Rect};
use superseedr::keys::{KeyCode, KeyEvent, KeyEventKind, KeyModifiers, TerminalEvent};
use superseedr::moments::LAST_DATED_SECOND;
use superseedr::order::SortDirection;
use superseedr::search::SearchMode;
use superseedr::text::{truncate_middle_with_ellipsis, truncate_with_ellipsis};
use superseedr::tui::screens::torrents::columns::{
    compute_visible_management_columns, management_column_index, management_columns,
    management_content_area, management_sort_arrow, visible_management_column_ids,
    visible_management_column_indices_for_state, ManagementColumnId,
};
use superseedr::tui::screens::torrents::drafts::{
    current_row_targets, management_clear_status, management_cursor_index_for_rows,
    pending_management_status,
};
use superseedr::tui::screens::torrents::footer::{management_footer, FooterItem};
use superseedr::tui::screens::torrents::panel::{
    centered_line_rect, management_review_popup_area, management_review_visible_range,
    pending_management_review_line_count, pending_management_review_sections,
    pending_management_review_visible_lines, ReviewLine,
};
use superseedr::tui::screens::torrents::popup::{management_review_popup, ReviewHeadline};
use superseedr::tui::screens::torrents::review::{
    management_review_body_height, management_review_regions,
    max_management_review_scroll_offset, normalize_management_review_state,
    pending_management_review_groups, pending_management_review_summary_line_count,
    pending_management_summary,
};
use superseedr::tui::screens::torrents::rows::{
    build_management_rows, management_selection_marker, SelectionState,
};
use superseedr::tui::screens::torrents::table::{
    empty_table_message, management_row_tone, management_table_header, management_table_row,
    table_status, ManagementRowTexts, ManagementRowTone,
};
use superseedr::tui::screens::torrents::{
    added_date_at, format_added_date, handle_event, initialize_torrent_management_cursor,
    management_footer_height,
    management_search_panel_active, map_key_event_to_management_action,
    map_key_event_to_management_action_with_latch, map_key_to_management_action,
    reduce_torrent_management_action, TorrentManagementAction, TorrentManagementEffect,
};

fn hash(byte: u8) -> Vec<u8> {
    vec![byte; 20]
}

fn hex_text(bytes: &[u8]) -> String {
    bytes.iter().map(|byte| format!("{byte:02x}")).collect()
}

fn format_gb(bytes: u64) -> String {
    format!("{:.2} GB", bytes as f64 / 1_000_000_000.0)
}

fn other_modifier() -> KeyModifiers {
    KeyModifiers { shift: false, control: false, alt: false, other: true }
}

/// Letters stay letters, and all else is a single space.
fn mask(name: &str) -> String {
    name.split(|c: char| !c.is_ascii_alphabetic())
        .filter(|word| !word.is_empty())
        .map(|word| "x".repeat(word.len()))
        .collect::<Vec<_>>()
        .join(" ")
}

fn torrent_mut(app_state: &mut AppState, info_hash: Vec<u8>) -> &mut TorrentDisplayState {
    app_state
        .torrents
        .iter_mut()
        .find(|torrent| torrent.info_hash == info_hash)
        .expect("torrent")
}

fn remove_torrent(app_state: &mut AppState, info_hash: Vec<u8>) {
    app_state.torrents.retain(|torrent| torrent.info_hash != info_hash);
}

fn pause_command(byte: u8) -> TorrentManagementPendingCommand {
    let info_hash = hash(byte);
    TorrentManagementPendingCommand {
        info_hash: info_hash.clone(),
        request: ControlRequest::Pause { info_hash_hex: hex_text(&info_hash) },
        state: TorrentControlState::Paused,
        delete_files: false,
    }
}

fn delete_command(byte: u8, delete_files: bool) -> TorrentManagementPendingCommand {
    let info_hash = hash(byte);
    TorrentManagementPendingCommand {
        info_hash: info_hash.clone(),
        request: ControlRequest::Delete { info_hash_hex: hex_text(&info_hash), delete_files },
        state: TorrentControlState::Deleting,
        delete_files,
    }
}

fn app_state_with_torrents(torrents: Vec<(Vec<u8>, &str, u64, u64, usize)>) -> AppState {
    let mut app_state = AppState { mode: AppMode::TorrentManagement, ..Default::default() };

    for (idx, (info_hash, name, download_bps, upload_bps, peers)) in
        torrents.into_iter().enumerate()
    {
        app_state.torrents.push(TorrentDisplayState {
            info_hash: info_hash.clone(),
            torrent_name: name.to_string(),
            shown_name: name.to_string(),
            masked_name: mask(name),
            download_path: None,
            container_name: None,
            torrent_control_state: TorrentControlState::Running,
            delete_files: false,
            number_of_successfully_connected_peers: peers,
            listed_peers: 0,
            total_size: 1_000 + idx as u64,
            completion: Completion { rank: 50, incomplete: true },
            eta_nanos: (30 + idx as u128) * 1_000_000_000,
            added_at_unix_secs: Some(1_700_000_000 + idx as u64 * 86_400),
            smoothed_download_speed_bps: download_bps,
            smoothed_upload_speed_bps: upload_bps,
        });
        app_state.torrent_list_order.push(info_hash);
    }

    app_state
}

fn row_texts() -> ManagementRowTexts {
    ManagementRowTexts {
        date_added: "2023-11-14".to_string(),
        completed: "50%".to_string(),
        download_speed: "1 b/s".to_string(),
        upload_speed: "2 b/s".to_string(),
        eta: "30s".to_string(),
        size: "1 KB".to_string(),
    }
}

fn keys_text(items: &[FooterItem]) -> String {
    items
        .iter()
        .map(|item| format!("{}{}{}", item.separator, item.key, item.label))
        .collect()
}

fn on_terminal(area: Rect) -> TerminalRect {
    TerminalRect::new(area.x, area.y, area.width, area.height)
}

fn column_width(constraint: &Constraint) -> Width {
    match *constraint {
        Constraint::Length(n) => Width::Length(n),
        Constraint::Min(n) => Width::Min(n),
        Constraint::Fill(n) => Width::Fill(n),
    }
}

fn draw_table(f: &mut Frame, area: TerminalRect, app_state: &AppState) {
    let (widths, visible) = compute_visible_management_columns(area.width);
    let head = management_table_header(app_state, &visible)
        .into_iter()
        .map(|cell| format!("{}{}", cell.label, cell.arrow.unwrap_or("")));
    let rows = build_management_rows(app_state);
    let cursor = management_cursor_index_for_rows(app_state, &rows);
    let body = rows
        .iter()
        .map(|row| Row::new(management_table_row(app_state, row, &visible, &row_texts())));
    let mut block = Block::default()
        .title(" Torrents ")
        .borders(Borders::ALL)
        .padding(Padding::new(1, 1, 0, 0));
    if let Some(message) = &app_state.ui.torrent_management.status_message {
        block = block.title_bottom(table_status(message, area.width));
    }
    let table =
        Table::new(body, widths.iter().map(column_width)).header(Row::new(head)).block(block);
    f.render_stateful_widget(table, area, &mut TableState::default().with_selected(cursor));
    if rows.is_empty() {
        let inner = Rect::new(area.x, area.y, area.width, area.height);
        f.render_widget(
            Paragraph::new(empty_table_message(app_state)).centered(),
            on_terminal(centered_line_rect(inner)),
        );
    }
}

fn draw_review(f: &mut Frame, app_state: &AppState) {
    let groups = pending_management_review_groups(app_state);
    let popup = management_review_popup(
        &groups,
        &format_gb(groups.purge_total_bytes),
        app_state.ui.torrent_management.review_scroll_offset,
        app_state.screen_area,
    );
    f.render_widget(Clear, on_terminal(popup.area));
    f.render_widget(
        Block::default().title(" Review Queued Changes ").borders(Borders::ALL),
        on_terminal(popup.area),
    );
    let summary = on_terminal(popup.regions.summary);
    let headline = match popup.headline {
        ReviewHeadline::Nothing => String::new(),
        ReviewHeadline::Label(label) => label,
        ReviewHeadline::Counts(items) => items
            .iter()
            .map(|item| format!("{}{}", item.separator, item.label))
            .collect(),
    };
    let mut lines = vec![headline];
    lines.extend(popup.safety.map(|(text, _)| text));
    f.render_widget(Paragraph::new(lines.join("\n")), summary);
    let body = on_terminal(popup.regions.body);
    let text = popup.lines.iter().map(line_text).collect::<Vec<_>>().join("\n");
    f.render_widget(
        Paragraph::new(text),
        TerminalRect::new(body.x, body.y, popup.text_width, body.height),
    );
    let mut below = Vec::new();
    below.extend(popup.navigation);
    let (gap, behind) = popup.trailing.unwrap_or((false, String::new()));
    let gap = if gap { " " } else { "" };
    below.push(format!("{}{gap}{behind}", keys_text(&popup.keys)));
    f.render_widget(
        Paragraph::new(below.join("\n")).centered(),
        on_terminal(popup.regions.footer),
    );
}

/// The screen as it is on a terminal of the given size, without its colours.
fn render_management_screen(app_state: &mut AppState, width: u16, height: u16) -> String {
    app_state.screen_area = Rect::new(0, 0, width, height);
    normalize_management_review_state(app_state);
    let mut terminal = Terminal::new(TestBackend::new(width, height)).expect("test terminal");
    terminal
        .draw(|f| {
            let content = on_terminal(management_content_area(app_state.screen_area));
            let parts =
                Layout::vertical([Width::Min(1), Width::Length(management_footer_height())])
                    .split(content);
            draw_table(f, parts[0], app_state);
            let keys = keys_text(&management_footer(app_state, parts[1].width));
            f.render_widget(Paragraph::new(keys).centered(), parts[1]);
            if app_state.ui.torrent_management.confirm_submit {
                draw_review(f, app_state);
            }
        })
        .expect("render management screen");
    let buffer = terminal.backend().buffer();
    (0..height)
        .map(|y| {
            (0..width)
                .filter_map(|x| buffer.cell((x, y)).map(|cell| cell.symbol()))
                .collect::<String>()
        })
        .collect::<Vec<_>>()
        .join("\n")
}

fn line_text(line: &ReviewLine) -> String {
    match line {
        ReviewLine::Blank => String::new(),
        ReviewLine::Header { title, suffix, .. } => format!("{title}{suffix}"),
        ReviewLine::Name(name) => format!("• {name}"),
    }
}

#[test]
fn management_columns_keep_core_identity_on_tiny_widths() {
    let visible = visible_management_column_ids(45);

    assert_eq!(
        visible,
        vec![ManagementColumnId::Selection, ManagementColumnId::Name]
    );
}

#[test]
fn management_columns_prioritize_speeds_on_medium_widths() {
    let visible = visible_management_column_ids(80);

    assert!(visible.contains(&ManagementColumnId::Selection));
    assert!(visible.contains(&ManagementColumnId::Name));
    assert!(visible.contains(&ManagementColumnId::DownSpeed));
    assert!(visible.contains(&ManagementColumnId::UpSpeed));
    assert!(!visible.contains(&ManagementColumnId::Eta));
    assert!(!visible.contains(&ManagementColumnId::Size));
}

#[test]
fn management_columns_restore_all_metrics_on_wide_widths() {
    let visible = visible_management_column_ids(150);

    assert_eq!(
        visible,
        vec![
            ManagementColumnId::Selection,
            ManagementColumnId::Name,
            ManagementColumnId::Eta,
            ManagementColumnId::Completed,
            ManagementColumnId::State,
            ManagementColumnId::Peers,
            ManagementColumnId::DownSpeed,
            ManagementColumnId::UpSpeed,
            ManagementColumnId::Size,
            ManagementColumnId::DateAdded,
        ]
    );
}

#[test]
fn management_content_area_insets_roomy_viewports() {
    let area = Rect::new(0, 0, 120, 32);

    assert_eq!(management_content_area(area), Rect::new(1, 1, 118, 30));
}

#[test]
fn management_content_area_keeps_compact_viewports_full_width() {
    let area = Rect::new(0, 0, 78, 16);

    assert_eq!(management_content_area(area), area);
}

#[test]
fn management_column_navigation_uses_the_rendered_table_width() {
    let mut app_state = app_state_with_torrents(vec![(hash(1), "Sample Packet", 50, 5, 1)]);

    for (width, height) in [
        (91, 32),
        (92, 32),
        (99, 32),
        (100, 32),
        (109, 32),
        (110, 32),
        (120, 32),
        (121, 32),
        (131, 32),
        (132, 32),
        (120, 17),
    ] {
        app_state.screen_area = Rect::new(0, 0, width, height);
        let rendered_width = management_content_area(app_state.screen_area).width;
        assert_eq!(
            visible_management_column_indices_for_state(&app_state),
            compute_visible_management_columns(rendered_width).1,
            "width={width}, height={height}"
        );
    }
}

#[test]
fn management_sort_uses_the_column_that_is_actually_rendered() {
    let mut app_state = app_state_with_torrents(vec![(hash(1), "Sample Packet", 50, 5, 1)]);
    let size_column = management_column_index(ManagementColumnId::Size).expect("size column");
    let up_speed_column =
        management_column_index(ManagementColumnId::UpSpeed).expect("upload column");
    app_state.ui.torrent_management.selected_column_index = size_column;

    let roomy = render_management_screen(&mut app_state, 120, 32);
    assert!(roomy.contains("ETA"));
    assert!(!roomy.contains("Size"));
    reduce_torrent_management_action(
        &mut app_state,
        TorrentManagementAction::SortBySelectedColumn,
    );
    assert_eq!(
        app_state.ui.torrent_management.sort_column_index,
        Some(up_speed_column)
    );

    app_state.ui.torrent_management.selected_column_index = size_column;
    let compact = render_management_screen(&mut app_state, 120, 17);
    assert!(compact.contains("Size"));
    reduce_torrent_management_action(
        &mut app_state,
        TorrentManagementAction::SortBySelectedColumn,
    );
    assert_eq!(
        app_state.ui.torrent_management.sort_column_index,
        Some(size_column)
    );
}

#[test]
fn management_keymap_moves_columns_and_sorts_selected_column() {
    let app_state = app_state_with_torrents(vec![(hash(1), "Mock Release S01E01", 50, 5, 1)]);

    assert_eq!(
        map_key_to_management_action(KeyCode::Left, &app_state),
        Some(TorrentManagementAction::MoveColumnLeft)
    );
    assert_eq!(
        map_key_to_management_action(KeyCode::Right, &app_state),
        Some(TorrentManagementAction::MoveColumnRight)
    );
    assert_eq!(
        map_key_to_management_action(KeyCode::Char('s'), &app_state),
        Some(TorrentManagementAction::SortBySelectedColumn)
    );
}

#[test]
fn management_keymap_maps_page_home_end_vertical_movement() {
    let app_state = app_state_with_torrents(vec![(hash(1), "Mock Release S01E01", 50, 5, 1)]);

    assert_eq!(
        map_key_to_management_action(KeyCode::PageUp, &app_state),
        Some(TorrentManagementAction::MovePageUp)
    );
    assert_eq!(
        map_key_to_management_action(KeyCode::PageDown, &app_state),
        Some(TorrentManagementAction::MovePageDown)
    );
    assert_eq!(
        map_key_to_management_action(KeyCode::Home, &app_state),
        Some(TorrentManagementAction::MoveFirst)
    );
    assert_eq!(
        map_key_to_management_action(KeyCode::End, &app_state),
        Some(TorrentManagementAction::MoveLast)
    );
}

#[test]
fn repeat_events_cannot_cross_management_state_boundaries() {
    let mut app_state = app_state_with_torrents(vec![(hash(1), "Sample Packet", 50, 5, 1)]);
    app_state
        .ui
        .torrent_management
        .pending_commands
        .push(pause_command(1));

    let submit_press = KeyEvent::new(KeyCode::Char('Y'), KeyModifiers::shift());
    assert_eq!(
        map_key_event_to_management_action(submit_press, &app_state),
        Some(TorrentManagementAction::ShowSubmitConfirmation)
    );
    reduce_torrent_management_action(
        &mut app_state,
        TorrentManagementAction::ShowSubmitConfirmation,
    );

    let submit_repeat = KeyEvent::new_with_kind(
        KeyCode::Char('Y'),
        KeyModifiers::shift(),
        KeyEventKind::Repeat,
    );
    assert_eq!(
        map_key_event_to_management_action(submit_repeat, &app_state),
        None
    );
    assert!(app_state.ui.torrent_management.confirm_submit);
    assert_eq!(app_state.ui.torrent_management.pending_commands.len(), 1);
    assert_eq!(
        map_key_event_to_management_action(submit_press, &app_state),
        None
    );
    assert_eq!(
        map_key_event_to_management_action(
            KeyEvent::new(KeyCode::Enter, KeyModifiers::none()),
            &app_state,
        ),
        Some(TorrentManagementAction::SubmitPendingCommands)
    );

    app_state.ui.torrent_management.confirm_submit = false;
    for code in [
        KeyCode::Char('p'),
        KeyCode::Char('d'),
        KeyCode::Char('D'),
        KeyCode::Char('u'),
        KeyCode::Char(' '),
        KeyCode::Char('x'),
        KeyCode::Char('s'),
        KeyCode::Tab,
        KeyCode::Esc,
    ] {
        let repeat = KeyEvent::new_with_kind(code, KeyModifiers::none(), KeyEventKind::Repeat);
        assert_eq!(
            map_key_event_to_management_action(repeat, &app_state),
            None,
            "repeat should be ignored for {code:?}"
        );
    }

    let navigation_repeat =
        KeyEvent::new_with_kind(KeyCode::Down, KeyModifiers::none(), KeyEventKind::Repeat);
    assert_eq!(
        map_key_event_to_management_action(navigation_repeat, &app_state),
        Some(TorrentManagementAction::MoveDown)
    );

    app_state.ui.torrent_management.confirm_submit = true;
    assert_eq!(
        map_key_event_to_management_action(navigation_repeat, &app_state),
        Some(TorrentManagementAction::ReviewScrollDown)
    );
}

#[test]
fn modified_management_shortcuts_are_ignored() {
    let app_state = app_state_with_torrents(vec![(hash(1), "Sample Packet", 50, 5, 1)]);

    for (code, modifiers) in [
        (KeyCode::Char('p'), KeyModifiers::control()),
        (KeyCode::Char('d'), KeyModifiers::alt()),
        (KeyCode::Char('u'), other_modifier()),
    ] {
        let event = KeyEvent::new(code, modifiers);
        assert_eq!(map_key_event_to_management_action(event, &app_state), None);
    }
}

#[test]
fn repeated_search_shortcut_does_not_insert_a_slash() {
    let mut app_state = app_state_with_torrents(vec![(hash(1), "Sample Packet", 50, 5, 1)]);
    let slash_press = KeyEvent::new(KeyCode::Char('/'), KeyModifiers::none());
    assert_eq!(
        map_key_event_to_management_action(slash_press, &app_state),
        Some(TorrentManagementAction::StartSearch)
    );
    reduce_torrent_management_action(&mut app_state, TorrentManagementAction::StartSearch);

    let slash_repeat =
        KeyEvent::new_with_kind(KeyCode::Char('/'), KeyModifiers::none(), KeyEventKind::Repeat);
    assert_eq!(
        map_key_event_to_management_action(slash_repeat, &app_state),
        None
    );
    assert!(app_state.ui.torrent_management.search_query.is_empty());
}

#[test]
fn held_submit_key_does_not_submit_through_the_input_boundary() {
    let mut app_state = app_state_with_torrents(vec![(hash(1), "Sample Packet", 50, 5, 1)]);
    app_state
        .ui
        .torrent_management
        .pending_commands
        .push(pause_command(1));

    let submit_press = KeyEvent::new(KeyCode::Char('Y'), KeyModifiers::shift());
    let action = map_key_event_to_management_action_with_latch(submit_press, &mut app_state)
        .expect("open review");
    assert_eq!(action, TorrentManagementAction::ShowSubmitConfirmation);
    reduce_torrent_management_action(&mut app_state, action);
    assert!(app_state.ui.torrent_management.confirm_submit);

    assert_eq!(
        map_key_event_to_management_action_with_latch(
            KeyEvent::new_with_kind(
                KeyCode::Char('Y'),
                KeyModifiers::shift(),
                KeyEventKind::Repeat,
            ),
            &mut app_state,
        ),
        None
    );
    assert!(app_state.ui.torrent_management.confirm_submit);
    assert_eq!(app_state.ui.torrent_management.pending_commands.len(), 1);
    assert_eq!(
        map_key_event_to_management_action_with_latch(submit_press, &mut app_state),
        None
    );
    assert!(app_state.ui.torrent_management.confirm_submit);
    assert_eq!(app_state.ui.torrent_management.pending_commands.len(), 1);
}

#[test]
fn press_only_terminal_keeps_search_opener_latched_but_allows_escape_reuse() {
    let mut app_state = app_state_with_torrents(vec![(hash(1), "Sample Packet", 50, 5, 1)]);
    let slash = KeyEvent::new(KeyCode::Char('/'), KeyModifiers::none());

    let action = map_key_event_to_management_action_with_latch(slash, &mut app_state)
        .expect("start search");
    assert_eq!(action, TorrentManagementAction::StartSearch);
    reduce_torrent_management_action(&mut app_state, action);
    assert!(app_state.ui.torrent_management.is_searching);
    assert_eq!(
        map_key_event_to_management_action_with_latch(slash, &mut app_state),
        None
    );
    assert!(app_state.ui.torrent_management.search_query.is_empty());

    let action = map_key_event_to_management_action_with_latch(
        KeyEvent::new(KeyCode::Char('a'), KeyModifiers::none()),
        &mut app_state,
    )
    .expect("insert search text");
    reduce_torrent_management_action(&mut app_state, action);
    assert_eq!(app_state.ui.torrent_management.search_query, "a");
    let escape = KeyEvent::new(KeyCode::Esc, KeyModifiers::none());
    let action = map_key_event_to_management_action_with_latch(escape, &mut app_state)
        .expect("cancel search");
    assert_eq!(action, TorrentManagementAction::SearchCancel);
    reduce_torrent_management_action(&mut app_state, action);
    assert!(!app_state.ui.torrent_management.is_searching);
    assert_eq!(
        map_key_event_to_management_action_with_latch(escape, &mut app_state),
        Some(TorrentManagementAction::ToNormal)
    );
}

#[test]
fn key_release_clears_the_management_input_latch() {
    let mut app_state = app_state_with_torrents(vec![(hash(1), "Sample Packet", 50, 5, 1)]);
    let slash = KeyEvent::new(KeyCode::Char('/'), KeyModifiers::none());
    let action = map_key_event_to_management_action_with_latch(slash, &mut app_state)
        .expect("start search");
    reduce_torrent_management_action(&mut app_state, action);

    assert_eq!(
        map_key_event_to_management_action_with_latch(
            KeyEvent::new_with_kind(
                KeyCode::Char('/'),
                KeyModifiers::none(),
                KeyEventKind::Release,
            ),
            &mut app_state,
        ),
        None
    );
    let action = map_key_event_to_management_action_with_latch(slash, &mut app_state)
        .expect("insert slash after release");
    assert_eq!(action, TorrentManagementAction::SearchInsert('/'));
    reduce_torrent_management_action(&mut app_state, action);
    assert_eq!(app_state.ui.torrent_management.search_query, "/");
}

#[test]
fn distinct_press_can_toggle_a_staged_action_back_off_without_release_events() {
    let mut app_state = app_state_with_torrents(vec![(hash(1), "Sample Packet", 50, 5, 1)]);
    let pause = KeyEvent::new(KeyCode::Char('p'), KeyModifiers::none());

    let action = map_key_event_to_management_action_with_latch(pause, &mut app_state)
        .expect("stage pause");
    reduce_torrent_management_action(&mut app_state, action);
    assert_eq!(app_state.ui.torrent_management.pending_commands.len(), 1);

    let action = map_key_event_to_management_action_with_latch(pause, &mut app_state)
        .expect("reuse pause without a release event");
    reduce_torrent_management_action(&mut app_state, action);
    assert!(app_state.ui.torrent_management.pending_commands.is_empty());
}

#[test]
fn press_only_terminals_can_reuse_reversible_shortcuts() {
    for (code, modifiers) in [
        (KeyCode::Char('p'), KeyModifiers::none()),
        (KeyCode::Char('d'), KeyModifiers::none()),
        (KeyCode::Char('D'), KeyModifiers::shift()),
        (KeyCode::Char(' '), KeyModifiers::none()),
        (KeyCode::Char('x'), KeyModifiers::none()),
        (KeyCode::Char('s'), KeyModifiers::none()),
        (KeyCode::Tab, KeyModifiers::none()),
    ] {
        let mut app_state = app_state_with_torrents(vec![(hash(1), "Sample Packet", 50, 5, 1)]);
        app_state.ui.torrent_management.search_query = "Sample".to_string();
        let key = KeyEvent::new(code, modifiers);

        assert!(
            map_key_event_to_management_action_with_latch(key, &mut app_state).is_some(),
            "first press should map for {code:?}"
        );
        assert!(
            map_key_event_to_management_action_with_latch(key, &mut app_state).is_some(),
            "second Press should remain usable for {code:?}"
        );
    }
}

#[test]
fn management_page_home_end_move_selected_row_vertically() {
    let mut app_state = app_state_with_torrents(vec![
        (hash(0), "Mock Release S01E00", 50, 5, 1),
        (hash(1), "Mock Release S01E01", 50, 5, 1),
        (hash(2), "Mock Release S01E02", 50, 5, 1),
        (hash(3), "Mock Release S01E03", 50, 5, 1),
        (hash(4), "Mock Release S01E04", 50, 5, 1),
        (hash(5), "Mock Release S01E05", 50, 5, 1),
        (hash(6), "Mock Release S01E06", 50, 5, 1),
        (hash(7), "Mock Release S01E07", 50, 5, 1),
        (hash(8), "Mock Release S01E08", 50, 5, 1),
        (hash(9), "Mock Release S01E09", 50, 5, 1),
        (hash(10), "Mock Release S01E10", 50, 5, 1),
        (hash(11), "Mock Release S01E11", 50, 5, 1),
    ]);
    app_state.screen_area = Rect::new(0, 0, 200, 100);

    reduce_torrent_management_action(&mut app_state, TorrentManagementAction::MovePageDown);
    assert_eq!(app_state.ui.torrent_management.selected_index, 11);

    reduce_torrent_management_action(&mut app_state, TorrentManagementAction::MovePageUp);
    assert_eq!(app_state.ui.torrent_management.selected_index, 0);

    app_state.ui.torrent_management.selected_index = 5;
    reduce_torrent_management_action(&mut app_state, TorrentManagementAction::MoveLast);
    assert_eq!(app_state.ui.torrent_management.selected_index, 11);

    reduce_torrent_management_action(&mut app_state, TorrentManagementAction::MoveFirst);
    assert_eq!(app_state.ui.torrent_management.selected_index, 0);
}

#[test]
fn management_keymap_opens_highlighted_torrent_files() {
    let app_state = app_state_with_torrents(vec![(hash(1), "Mock Release S01E01", 50, 5, 1)]);

    assert_eq!(
        map_key_to_management_action(KeyCode::Char('f'), &app_state),
        Some(TorrentManagementAction::OpenHighlightedTorrentFiles)
    );
}

#[test]
fn open_highlighted_torrent_files_ignores_multi_select_targets() {
    let first_hash = hash(1);
    let second_hash = hash(2);
    let mut app_state = app_state_with_torrents(vec![
        (first_hash.clone(), "Mock Release S01E01", 50, 5, 1),
        (second_hash.clone(), "Mock Release S01E02", 60, 6, 2),
    ]);
    app_state.ui.torrent_management.selected_index = 1;
    app_state
        .ui
        .torrent_management
        .selected_hashes.push(first_hash);

    let result = reduce_torrent_management_action(
        &mut app_state,
        TorrentManagementAction::OpenHighlightedTorrentFiles,
    );

    assert_eq!(
        result.effects,
        vec![TorrentManagementEffect::OpenExistingTorrentFileBrowser(
            second_hash
        )]
    );
}

#[test]
fn management_column_movement_stays_on_visible_columns() {
    let mut app_state =
        app_state_with_torrents(vec![(hash(1), "Mock Release S01E01", 50, 5, 1)]);
    app_state.screen_area = Rect::new(0, 0, 80, 24);
    app_state.ui.torrent_management.selected_column_index =
        management_column_index(ManagementColumnId::Name).expect("name column");

    reduce_torrent_management_action(&mut app_state, TorrentManagementAction::MoveColumnRight);

    let visible = visible_management_column_ids(app_state.screen_area.width);
    assert!(visible.contains(
        &management_columns()[app_state.ui.torrent_management.selected_column_index].id
    ));
}

#[test]
fn default_management_sort_is_name_ascending() {
    let app_state = app_state_with_torrents(vec![
        (hash(1), "Zephyr Archive", 100, 10, 2),
        (hash(2), "Aurora Archive", 100, 10, 2),
    ]);
    let rows = build_management_rows(&app_state);

    assert_eq!(rows[0].label, "Aurora Archive");
    assert_eq!(
        app_state.ui.torrent_management.sort_column_index,
        management_column_index(ManagementColumnId::Name)
    );
    assert_eq!(
        app_state.ui.torrent_management.sort_direction,
        SortDirection::Ascending
    );
}

#[test]
fn sorting_by_download_speed_orders_rows_descending_then_toggles() {
    let mut app_state = app_state_with_torrents(vec![
        (hash(1), "Slower Seed", 100, 10, 2),
        (hash(2), "Faster Seed", 900, 20, 3),
    ]);
    app_state.ui.torrent_management.selected_column_index =
        management_column_index(ManagementColumnId::DownSpeed).expect("download column");

    reduce_torrent_management_action(
        &mut app_state,
        TorrentManagementAction::SortBySelectedColumn,
    );
    let rows = build_management_rows(&app_state);
    assert_eq!(rows[0].label, "Faster Seed");
    assert_eq!(
        app_state.ui.torrent_management.sort_direction,
        SortDirection::Descending
    );

    reduce_torrent_management_action(
        &mut app_state,
        TorrentManagementAction::SortBySelectedColumn,
    );
    let rows = build_management_rows(&app_state);
    assert_eq!(rows[0].label, "Slower Seed");
    assert_eq!(
        app_state.ui.torrent_management.sort_direction,
        SortDirection::Ascending
    );
}

#[test]
fn sorting_unsorted_numeric_column_starts_highest_first_with_down_arrow() {
    let mut app_state = app_state_with_torrents(vec![
        (hash(1), "Fewer Peers", 100, 10, 2),
        (hash(2), "More Peers", 100, 10, 7),
    ]);
    app_state.ui.torrent_management.sort_column_index = None;
    app_state.ui.torrent_management.selected_column_index =
        management_column_index(ManagementColumnId::Peers).expect("peers column");

    reduce_torrent_management_action(
        &mut app_state,
        TorrentManagementAction::SortBySelectedColumn,
    );

    let rows = build_management_rows(&app_state);
    assert_eq!(rows[0].label, "More Peers");
    assert_eq!(
        app_state.ui.torrent_management.sort_direction,
        SortDirection::Descending
    );
    assert_eq!(
        management_sort_arrow(ManagementColumnId::Peers, SortDirection::Descending),
        " ▼"
    );
}

#[test]
fn sorting_by_date_added_orders_newest_first_then_toggles() {
    let mut app_state = app_state_with_torrents(vec![
        (hash(1), "Older Seed", 100, 10, 2),
        (hash(2), "Newer Seed", 100, 10, 2),
    ]);
    app_state.ui.torrent_management.selected_column_index =
        management_column_index(ManagementColumnId::DateAdded).expect("date added column");

    reduce_torrent_management_action(
        &mut app_state,
        TorrentManagementAction::SortBySelectedColumn,
    );
    let rows = build_management_rows(&app_state);
    assert_eq!(rows[0].label, "Newer Seed");
    assert_eq!(
        app_state.ui.torrent_management.sort_direction,
        SortDirection::Descending
    );

    reduce_torrent_management_action(
        &mut app_state,
        TorrentManagementAction::SortBySelectedColumn,
    );
    let rows = build_management_rows(&app_state);
    assert_eq!(rows[0].label, "Older Seed");
    assert_eq!(
        app_state.ui.torrent_management.sort_direction,
        SortDirection::Ascending
    );
}

#[test]
fn date_added_formats_as_local_calendar_date_or_dash() {
    assert_eq!(format_added_date(None), "-");

    let rendered = format_added_date(Some(1_700_000_000));

    assert_eq!(rendered.len(), 10);
    assert_eq!(rendered.chars().nth(4), Some('-'));
    assert_eq!(rendered.chars().nth(7), Some('-'));
}

#[test]
fn pending_action_marker_preserves_selection_state() {
    assert_eq!(management_selection_marker(SelectionState::Empty, true), "!");
    assert_eq!(
        management_selection_marker(SelectionState::Partial, true),
        "~!"
    );
    assert_eq!(
        management_selection_marker(SelectionState::Full, true),
        "x!"
    );
    assert_eq!(
        management_selection_marker(SelectionState::Full, false),
        "x"
    );
}

#[test]
fn selection_marker_column_uses_equals_header_and_compact_values() {
    let selection_column = management_columns()
        .into_iter()
        .find(|column| column.id == ManagementColumnId::Selection)
        .expect("selection column");

    assert_eq!(selection_column.header, "=");
    assert_eq!(selection_column.min_width, 2);
    assert_eq!(selection_column.constraint, Constraint::Length(2));
    assert_eq!(
        management_selection_marker(SelectionState::Empty, false),
        "-"
    );
    assert_eq!(
        management_selection_marker(SelectionState::Partial, false),
        "~"
    );
    assert_eq!(
        management_selection_marker(SelectionState::Full, false),
        "x"
    );
}

#[test]
fn search_filters_torrent_rows_without_mutating_dashboard_search() {
    let mut app_state = app_state_with_torrents(vec![
        (hash(1), "Meadow Saga S01E01", 100, 10, 2),
        (hash(2), "Mock Release S01E01", 50, 5, 1),
    ]);
    app_state.ui.search_query = "normal".to_string();
    app_state.ui.torrent_management.search_query = "mock".to_string();

    let rows = build_management_rows(&app_state);
    assert_eq!(rows.len(), 1);
    assert_eq!(rows[0].label, "Mock Release S01E01");
    assert_eq!(app_state.ui.search_query, "normal");
}

#[test]
fn empty_management_search_ignores_cached_normal_search_subset() {
    let mut app_state = app_state_with_torrents(vec![
        (hash(1), "Meadow Saga S01E01", 100, 10, 2),
        (hash(2), "Mock Release S01E01", 50, 5, 1),
        (hash(3), "Orchard Notes S01E01", 75, 8, 1),
    ]);
    app_state.ui.search_query = "mock".to_string();
    app_state.torrent_list_order = vec![hash(2)];
    app_state.ui.torrent_management.search_query.clear();

    let rows = build_management_rows(&app_state);

    assert_eq!(rows.len(), 3);
    assert!(rows.iter().any(|row| row.info_hashes == vec![hash(1)]));
    assert!(rows.iter().any(|row| row.info_hashes == vec![hash(2)]));
    assert!(rows.iter().any(|row| row.info_hashes == vec![hash(3)]));
}

#[test]
fn committed_management_search_keeps_search_panel_visible() {
    let mut app_state = app_state_with_torrents(vec![
        (hash(1), "Meadow Saga S01E01", 100, 10, 2),
        (hash(2), "Mock Release S01E01", 50, 5, 1),
    ]);
    app_state.ui.torrent_management.is_searching = true;
    app_state.ui.torrent_management.search_query = "mock".to_string();

    reduce_torrent_management_action(&mut app_state, TorrentManagementAction::SearchCommit);

    assert!(!app_state.ui.torrent_management.is_searching);
    assert_eq!(app_state.ui.torrent_management.search_query, "mock");
    assert!(management_search_panel_active(&app_state));
}

#[test]
fn empty_management_search_panel_stays_hidden_outside_search_mode() {
    let mut app_state =
        app_state_with_torrents(vec![(hash(1), "Mock Release S01E01", 50, 5, 1)]);
    app_state.ui.torrent_management.is_searching = false;
    app_state.ui.torrent_management.search_query.clear();

    assert!(!management_search_panel_active(&app_state));
}

#[test]
fn tab_toggles_management_search_mode_while_searching() {
    let mut app_state =
        app_state_with_torrents(vec![(hash(1), "Mock Release S01E01", 50, 5, 1)]);
    app_state.ui.torrent_management.is_searching = true;
    assert!(matches!(
        app_state.ui.torrent_management.search_mode,
        SearchMode::Regex
    ));
    assert_eq!(
        map_key_to_management_action(KeyCode::Tab, &app_state),
        Some(TorrentManagementAction::ToggleSearchMode)
    );

    reduce_torrent_management_action(&mut app_state, TorrentManagementAction::ToggleSearchMode);

    assert!(matches!(
        app_state.ui.torrent_management.search_mode,
        SearchMode::Fuzzy
    ));
}

#[test]
fn tab_toggles_management_search_mode_for_committed_search() {
    let mut app_state =
        app_state_with_torrents(vec![(hash(1), "Mock Release S01E01", 50, 5, 1)]);
    app_state.ui.torrent_management.is_searching = false;
    app_state.ui.torrent_management.search_query = "Mock".to_string();

    assert_eq!(
        map_key_to_management_action(KeyCode::Tab, &app_state),
        Some(TorrentManagementAction::ToggleSearchMode)
    );
}

#[test]
fn regex_management_search_filters_torrent_rows() {
    let mut app_state = app_state_with_torrents(vec![
        (hash(1), "Meadow Saga S01E01", 100, 10, 2),
        (hash(2), "Mock Release S01E02", 50, 5, 1),
    ]);
    app_state.ui.torrent_management.search_mode = SearchMode::Regex;
    app_state.ui.torrent_management.search_query = r"S01E0[12]".to_string();

    let rows = build_management_rows(&app_state);

    assert_eq!(rows.len(), 2);
}

#[test]
fn invalid_regex_management_search_matches_no_rows() {
    let mut app_state =
        app_state_with_torrents(vec![(hash(1), "Mock Release S01E01", 50, 5, 1)]);
    app_state.ui.torrent_management.search_mode = SearchMode::Regex;
    app_state.ui.torrent_management.search_query = "[".to_string();

    let rows = build_management_rows(&app_state);

    assert!(rows.is_empty());
}

#[test]
fn management_search_matches_download_path_and_container() {
    let mut app_state = app_state_with_torrents(vec![(hash(1), "Sample Packet", 50, 5, 1)]);
    let torrent = torrent_mut(&mut app_state, hash(1));
    torrent.download_path =
        Some("/archive/needle-folder".to_string());
    torrent.container_name = Some("sample-container".to_string());

    app_state.ui.torrent_management.search_query = "needle-folder".to_string();
    assert_eq!(build_management_rows(&app_state).len(), 1);

    app_state.ui.torrent_management.search_query = "sample-container".to_string();
    assert_eq!(build_management_rows(&app_state).len(), 1);
}

#[test]
fn management_search_edit_sequence_updates_and_cancels_cleanly() {
    let mut app_state = app_state_with_torrents(vec![(hash(1), "Sample Packet", 50, 5, 1)]);

    reduce_torrent_management_action(&mut app_state, TorrentManagementAction::StartSearch);
    reduce_torrent_management_action(
        &mut app_state,
        TorrentManagementAction::SearchInsert('x'),
    );
    reduce_torrent_management_action(&mut app_state, TorrentManagementAction::SearchBackspace);

    assert!(app_state.ui.torrent_management.is_searching);
    assert!(app_state.ui.torrent_management.search_query.is_empty());

    reduce_torrent_management_action(&mut app_state, TorrentManagementAction::SearchCancel);
    assert!(!app_state.ui.torrent_management.is_searching);
    assert!(app_state.ui.torrent_management.search_query.is_empty());
    assert_eq!(
        app_state.ui.torrent_management.cursor_hash.as_deref(),
        Some(hash(1).as_slice())
    );
}

#[test]
fn search_cancel_preserves_the_selected_target_set() {
    let mut app_state = app_state_with_torrents(vec![
        (hash(1), "Amber Packet", 100, 10, 2),
        (hash(2), "Blue Packet", 300, 20, 3),
    ]);
    reduce_torrent_management_action(&mut app_state, TorrentManagementAction::SelectAllVisible);

    reduce_torrent_management_action(&mut app_state, TorrentManagementAction::StartSearch);
    for character in "Blue".chars() {
        reduce_torrent_management_action(
            &mut app_state,
            TorrentManagementAction::SearchInsert(character),
        );
    }

    assert_eq!(build_management_rows(&app_state).len(), 1);
    assert_eq!(app_state.ui.torrent_management.selected_hashes.len(), 2);
    assert!(app_state
        .ui
        .torrent_management
        .selected_hashes
        .contains(&hash(1)));
    assert!(app_state
        .ui
        .torrent_management
        .selected_hashes
        .contains(&hash(2)));

    reduce_torrent_management_action(&mut app_state, TorrentManagementAction::SearchCancel);

    assert_eq!(build_management_rows(&app_state).len(), 2);
    assert_eq!(app_state.ui.torrent_management.selected_hashes.len(), 2);
}

#[test]
fn invalid_regex_does_not_clear_the_selected_target_set() {
    let mut app_state = app_state_with_torrents(vec![
        (hash(1), "Amber Packet", 100, 10, 2),
        (hash(2), "Blue Packet", 300, 20, 3),
    ]);
    reduce_torrent_management_action(&mut app_state, TorrentManagementAction::SelectAllVisible);
    reduce_torrent_management_action(&mut app_state, TorrentManagementAction::StartSearch);
    reduce_torrent_management_action(
        &mut app_state,
        TorrentManagementAction::SearchInsert('['),
    );

    assert!(build_management_rows(&app_state).is_empty());
    assert_eq!(app_state.ui.torrent_management.selected_hashes.len(), 2);

    reduce_torrent_management_action(&mut app_state, TorrentManagementAction::SearchCancel);

    assert_eq!(build_management_rows(&app_state).len(), 2);
    assert_eq!(app_state.ui.torrent_management.selected_hashes.len(), 2);
}

#[test]
fn anonymized_torrent_rows_hide_release_markers() {
    let mut app_state =
        app_state_with_torrents(vec![(hash(1), "Mock.Release S01E01", 50, 5, 1)]);
    app_state.anonymize_torrent_names = true;

    let rows = build_management_rows(&app_state);
    let anonymized = &rows[0].label;

    assert_ne!(anonymized, "Mock.Release S01E01");
    assert_ne!(anonymized, "Torrent 1");
    assert!(!anonymized.contains('.'));
    assert!(!anonymized.chars().any(|ch| ch.is_ascii_digit()));
    assert!(!anonymized.contains("  "));
    assert!(anonymized.matches(' ').count() >= 1);
}

#[test]
fn anonymized_rows_hide_numbered_episode_markers() {
    let mut app_state = app_state_with_torrents(vec![
        (hash(1), "Meadow Saga S01E01", 100, 10, 2),
        (hash(2), "Meadow Saga S01E02", 300, 20, 3),
    ]);
    app_state.anonymize_torrent_names = true;

    let rows = build_management_rows(&app_state);
    let anonymized = &rows[0].label;

    assert_ne!(anonymized, "Meadow Saga S01E01");
    assert!(!anonymized.chars().any(|ch| ch.is_ascii_digit()));
    assert!(!anonymized.contains("  "));
    assert!(anonymized.matches(' ').count() >= 2);
}

#[test]
fn x_toggles_anonymized_names_in_management_screen() {
    let mut app_state =
        app_state_with_torrents(vec![(hash(1), "Mock Release S01E01", 50, 5, 1)]);
    assert!(!app_state.anonymize_torrent_names);
    assert_eq!(
        map_key_to_management_action(KeyCode::Char('x'), &app_state),
        Some(TorrentManagementAction::ToggleAnonymizeNames)
    );

    reduce_torrent_management_action(
        &mut app_state,
        TorrentManagementAction::ToggleAnonymizeNames,
    );
    assert!(app_state.anonymize_torrent_names);

    reduce_torrent_management_action(
        &mut app_state,
        TorrentManagementAction::ToggleAnonymizeNames,
    );
    assert!(!app_state.anonymize_torrent_names);
}

#[test]
fn x_still_types_into_management_search() {
    let mut app_state =
        app_state_with_torrents(vec![(hash(1), "Mock Release S01E01", 50, 5, 1)]);
    app_state.ui.torrent_management.is_searching = true;

    assert_eq!(
        map_key_to_management_action(KeyCode::Char('x'), &app_state),
        Some(TorrentManagementAction::SearchInsert('x'))
    );
}

#[test]
fn toggle_current_selection_selects_current_torrent_row() {
    let mut app_state = app_state_with_torrents(vec![
        (hash(1), "Meadow Saga S01E01", 100, 10, 2),
        (hash(2), "Meadow Saga S01E02", 300, 20, 3),
    ]);

    let result = reduce_torrent_management_action(
        &mut app_state,
        TorrentManagementAction::ToggleCurrentSelection,
    );

    assert!(result.consumed);
    assert!(app_state
        .ui
        .torrent_management
        .selected_hashes
        .contains(&hash(1)));
    assert_eq!(app_state.ui.torrent_management.selected_hashes.len(), 1);
}

#[test]
fn pause_action_stages_batch_pause_requests_for_selected_torrents() {
    let mut app_state = app_state_with_torrents(vec![
        (hash(1), "Meadow Saga S01E01", 100, 10, 2),
        (hash(2), "Meadow Saga S01E02", 300, 20, 3),
    ]);
    app_state
        .ui
        .torrent_management
        .selected_hashes.push(hash(1));
    app_state
        .ui
        .torrent_management
        .selected_hashes.push(hash(2));

    let result = reduce_torrent_management_action(
        &mut app_state,
        TorrentManagementAction::TogglePauseTargets,
    );

    assert!(result.effects.is_empty());
    assert_eq!(app_state.ui.torrent_management.pending_commands.len(), 2);
    assert!(matches!(
        app_state.ui.torrent_management.pending_commands[0].request,
        ControlRequest::Pause { .. }
    ));
    assert!(matches!(
        app_state.ui.torrent_management.pending_commands[1].request,
        ControlRequest::Pause { .. }
    ));
    assert_eq!(app_state.ui.torrent_management.selected_hashes.len(), 2);
    assert_eq!(
        map_key_to_management_action(KeyCode::Char('Y'), &app_state),
        Some(TorrentManagementAction::ShowSubmitConfirmation)
    );
    assert_eq!(
        map_key_to_management_action(KeyCode::Enter, &app_state),
        None
    );
}

#[test]
fn pause_action_toggles_each_selected_torrent_independently() {
    let mut app_state = app_state_with_torrents(vec![
        (hash(1), "Meadow Saga S01E01", 100, 10, 2),
        (hash(2), "Meadow Saga S01E02", 300, 20, 3),
    ]);
    torrent_mut(&mut app_state, hash(1)).torrent_control_state = TorrentControlState::Paused;
    app_state
        .ui
        .torrent_management
        .selected_hashes.push(hash(1));
    app_state
        .ui
        .torrent_management
        .selected_hashes.push(hash(2));

    reduce_torrent_management_action(
        &mut app_state,
        TorrentManagementAction::TogglePauseTargets,
    );

    assert_eq!(app_state.ui.torrent_management.pending_commands.len(), 2);
    assert!(app_state
        .ui
        .torrent_management
        .pending_commands
        .iter()
        .any(|command| command.info_hash == hash(1)
            && matches!(command.request, ControlRequest::Resume { .. })));
    assert!(app_state
        .ui
        .torrent_management
        .pending_commands
        .iter()
        .any(|command| command.info_hash == hash(2)
            && matches!(command.request, ControlRequest::Pause { .. })));
}

#[test]
fn select_all_pause_then_clear_removes_the_original_batch() {
    let mut app_state = app_state_with_torrents(vec![
        (hash(1), "Meadow Saga S01E01", 100, 10, 2),
        (hash(2), "Meadow Saga S01E02", 300, 20, 3),
    ]);

    reduce_torrent_management_action(&mut app_state, TorrentManagementAction::SelectAllVisible);
    reduce_torrent_management_action(
        &mut app_state,
        TorrentManagementAction::TogglePauseTargets,
    );
    assert_eq!(app_state.ui.torrent_management.selected_hashes.len(), 2);
    reduce_torrent_management_action(
        &mut app_state,
        TorrentManagementAction::ClearPendingForTargets,
    );

    assert!(app_state.ui.torrent_management.pending_commands.is_empty());
    assert!(app_state.ui.torrent_management.selected_hashes.is_empty());
}

#[test]
fn select_all_then_u_clears_selection_without_drafts() {
    let mut app_state = app_state_with_torrents(vec![
        (hash(1), "Sample Packet One", 100, 10, 2),
        (hash(2), "Sample Packet Two", 300, 20, 3),
    ]);

    reduce_torrent_management_action(&mut app_state, TorrentManagementAction::SelectAllVisible);
    reduce_torrent_management_action(
        &mut app_state,
        TorrentManagementAction::ClearPendingForTargets,
    );

    assert!(app_state.ui.torrent_management.selected_hashes.is_empty());
    assert!(app_state.ui.torrent_management.pending_commands.is_empty());
    assert_eq!(
        app_state.ui.torrent_management.status_message.as_deref(),
        Some("Cleared 2 selections")
    );
}

#[test]
fn selected_batch_can_replace_pause_with_remove_without_reselecting() {
    let mut app_state = app_state_with_torrents(vec![
        (hash(1), "Sample Packet One", 100, 10, 2),
        (hash(2), "Sample Packet Two", 300, 20, 3),
    ]);

    reduce_torrent_management_action(&mut app_state, TorrentManagementAction::SelectAllVisible);
    reduce_torrent_management_action(
        &mut app_state,
        TorrentManagementAction::TogglePauseTargets,
    );
    reduce_torrent_management_action(
        &mut app_state,
        TorrentManagementAction::StartDelete {
            delete_files: false,
        },
    );

    assert_eq!(app_state.ui.torrent_management.selected_hashes.len(), 2);
    assert_eq!(app_state.ui.torrent_management.pending_commands.len(), 2);
    assert!(app_state
        .ui
        .torrent_management
        .pending_commands
        .iter()
        .all(|command| matches!(
            command.request,
            ControlRequest::Delete {
                delete_files: false,
                ..
            }
        )));
}

#[test]
fn filtered_out_selection_does_not_block_the_highlighted_visible_torrent() {
    let mut app_state = app_state_with_torrents(vec![
        (hash(1), "Amber Packet", 100, 10, 2),
        (hash(2), "Blue Packet", 300, 20, 3),
    ]);
    app_state
        .ui
        .torrent_management
        .selected_hashes.push(hash(1));
    app_state.ui.torrent_management.search_query = "Blue".to_string();

    reduce_torrent_management_action(
        &mut app_state,
        TorrentManagementAction::TogglePauseTargets,
    );

    assert_eq!(app_state.ui.torrent_management.pending_commands.len(), 1);
    assert_eq!(
        app_state.ui.torrent_management.pending_commands[0].info_hash,
        hash(2)
    );
    assert_eq!(
        app_state.ui.torrent_management.selected_hashes,
        vec![hash(1)]
    );
}

#[test]
fn sorting_preserves_the_highlighted_torrent_identity() {
    let mut app_state = app_state_with_torrents(vec![
        (hash(1), "Amber Packet", 100, 10, 2),
        (hash(2), "Blue Packet", 900, 20, 3),
    ]);
    reduce_torrent_management_action(&mut app_state, TorrentManagementAction::MoveFirst);
    app_state.ui.torrent_management.selected_column_index =
        management_column_index(ManagementColumnId::DownSpeed).expect("download column");

    reduce_torrent_management_action(
        &mut app_state,
        TorrentManagementAction::SortBySelectedColumn,
    );

    assert_eq!(current_row_targets(&app_state), vec![hash(1)]);
    assert_eq!(app_state.ui.torrent_management.selected_index, 1);
    assert_eq!(
        app_state.ui.torrent_management.cursor_hash.as_deref(),
        Some(hash(1).as_slice())
    );
}

#[test]
fn entry_anchors_the_highlight_before_live_sort_values_change() {
    let mut app_state = app_state_with_torrents(vec![
        (hash(1), "Amber Packet", 100, 10, 2),
        (hash(2), "Blue Packet", 900, 20, 3),
    ]);
    let speed_column =
        management_column_index(ManagementColumnId::DownSpeed).expect("download column");
    app_state.ui.torrent_management.sort_column_index = Some(speed_column);
    app_state.ui.torrent_management.sort_direction = SortDirection::Descending;

    initialize_torrent_management_cursor(&mut app_state);
    assert_eq!(
        app_state.ui.torrent_management.cursor_hash.as_deref(),
        Some(hash(2).as_slice())
    );
    torrent_mut(&mut app_state, hash(1)).smoothed_download_speed_bps = 1_200;

    reduce_torrent_management_action(
        &mut app_state,
        TorrentManagementAction::ToggleCurrentSelection,
    );

    assert_eq!(
        app_state.ui.torrent_management.selected_hashes,
        vec![hash(2)]
    );
}

#[test]
fn first_action_after_highlighted_row_removal_uses_the_visible_fallback() {
    let mut app_state = app_state_with_torrents(vec![
        (hash(1), "Amber Packet", 100, 10, 2),
        (hash(2), "Blue Packet", 300, 20, 3),
    ]);
    reduce_torrent_management_action(&mut app_state, TorrentManagementAction::MoveLast);
    remove_torrent(&mut app_state, hash(2));

    reduce_torrent_management_action(
        &mut app_state,
        TorrentManagementAction::ToggleCurrentSelection,
    );

    assert!(app_state
        .ui
        .torrent_management
        .selected_hashes
        .contains(&hash(1)));
    assert_eq!(app_state.ui.torrent_management.selected_index, 0);
    assert_eq!(
        app_state.ui.torrent_management.cursor_hash.as_deref(),
        Some(hash(1).as_slice())
    );
}

#[test]
fn submit_confirmation_enter_emits_staged_requests_and_marks_state() {
    let mut app_state = app_state_with_torrents(vec![
        (hash(1), "Meadow Saga S01E01", 100, 10, 2),
        (hash(2), "Meadow Saga S01E02", 300, 20, 3),
    ]);
    app_state
        .ui
        .torrent_management
        .pending_commands
        .push(TorrentManagementPendingCommand {
            info_hash: hash(1),
            request: ControlRequest::Pause {
                info_hash_hex: hex_text(&hash(1)),
            },
            state: TorrentControlState::Paused,
            delete_files: false,
        });
    app_state
        .ui
        .torrent_management
        .pending_commands
        .push(TorrentManagementPendingCommand {
            info_hash: hash(2),
            request: ControlRequest::Delete {
                info_hash_hex: hex_text(&hash(2)),
                delete_files: true,
            },
            state: TorrentControlState::Deleting,
            delete_files: true,
        });
    app_state
        .ui
        .torrent_management
        .selected_hashes.push(hash(2));

    reduce_torrent_management_action(
        &mut app_state,
        TorrentManagementAction::ShowSubmitConfirmation,
    );
    assert!(app_state.ui.torrent_management.confirm_submit);
    assert_eq!(
        map_key_to_management_action(KeyCode::Char('Y'), &app_state),
        None
    );
    assert_eq!(
        map_key_to_management_action(KeyCode::Enter, &app_state),
        Some(TorrentManagementAction::SubmitPendingCommands)
    );

    let result = reduce_torrent_management_action(
        &mut app_state,
        TorrentManagementAction::SubmitPendingCommands,
    );

    assert!(!app_state.ui.torrent_management.confirm_submit);
    assert!(app_state.ui.torrent_management.pending_commands.is_empty());
    assert_eq!(result.effects.len(), 4);
    assert!(matches!(
        result.effects[0],
        TorrentManagementEffect::SubmitControlRequest(ControlRequest::Pause { .. })
    ));
    assert!(matches!(
        result.effects[2],
        TorrentManagementEffect::SubmitControlRequest(ControlRequest::Delete { .. })
    ));
    assert!(app_state.ui.torrent_management.selected_hashes.is_empty());
}

#[test]
fn exiting_management_clears_pending_draft_and_filter() {
    let mut app_state =
        app_state_with_torrents(vec![(hash(1), "Meadow Saga S01E01", 100, 10, 2)]);
    app_state
        .ui
        .torrent_management
        .pending_commands
        .push(TorrentManagementPendingCommand {
            info_hash: hash(1),
            request: ControlRequest::Pause {
                info_hash_hex: hex_text(&hash(1)),
            },
            state: TorrentControlState::Paused,
            delete_files: false,
        });
    app_state.ui.torrent_management.confirm_submit = true;
    app_state.ui.torrent_management.is_searching = true;
    app_state.ui.torrent_management.search_query = "meadow".to_string();
    app_state
        .ui
        .torrent_management
        .selected_hashes.push(hash(1));

    let result =
        reduce_torrent_management_action(&mut app_state, TorrentManagementAction::ToNormal);

    assert!(matches!(
        result.effects.as_slice(),
        [TorrentManagementEffect::ToNormal]
    ));
    assert!(app_state.ui.torrent_management.pending_commands.is_empty());
    assert!(!app_state.ui.torrent_management.confirm_submit);
    assert!(!app_state.ui.torrent_management.is_searching);
    assert!(app_state.ui.torrent_management.search_query.is_empty());
    assert!(app_state.ui.torrent_management.selected_hashes.is_empty());
}

#[test]
fn u_clears_pending_drafts_for_selected_rows() {
    let mut app_state = app_state_with_torrents(vec![
        (hash(1), "Meadow Saga S01E01", 100, 10, 2),
        (hash(2), "Meadow Saga S01E02", 300, 20, 3),
    ]);
    app_state
        .ui
        .torrent_management
        .selected_hashes.push(hash(2));
    app_state.ui.torrent_management.pending_commands = vec![
        TorrentManagementPendingCommand {
            info_hash: hash(1),
            request: ControlRequest::Pause {
                info_hash_hex: hex_text(&hash(1)),
            },
            state: TorrentControlState::Paused,
            delete_files: false,
        },
        TorrentManagementPendingCommand {
            info_hash: hash(2),
            request: ControlRequest::Pause {
                info_hash_hex: hex_text(&hash(2)),
            },
            state: TorrentControlState::Paused,
            delete_files: false,
        },
    ];
    app_state.ui.torrent_management.confirm_submit = true;

    assert_eq!(
        map_key_to_management_action(KeyCode::Char('u'), &app_state),
        Some(TorrentManagementAction::ClearPendingForTargets)
    );

    reduce_torrent_management_action(
        &mut app_state,
        TorrentManagementAction::ClearPendingForTargets,
    );

    assert_eq!(app_state.ui.torrent_management.pending_commands.len(), 1);
    assert_eq!(
        app_state.ui.torrent_management.pending_commands[0].info_hash,
        hash(1)
    );
    assert!(!app_state
        .ui
        .torrent_management
        .selected_hashes
        .contains(&hash(2)));
    assert!(app_state.ui.torrent_management.confirm_submit);
    assert_eq!(
        app_state
            .ui
            .torrent_management
            .review_cache
            .as_ref()
            .expect("refreshed review cache")
            .pause,
        vec!["Meadow Saga S01E01"]
    );
}

#[test]
fn clearing_the_final_review_draft_closes_the_modal() {
    let mut app_state = app_state_with_torrents(vec![(hash(1), "Sample Packet", 100, 10, 2)]);
    app_state
        .ui
        .torrent_management
        .pending_commands
        .push(pause_command(1));
    app_state.ui.torrent_management.confirm_submit = true;

    reduce_torrent_management_action(
        &mut app_state,
        TorrentManagementAction::ClearPendingForTargets,
    );

    assert!(app_state.ui.torrent_management.pending_commands.is_empty());
    assert!(!app_state.ui.torrent_management.confirm_submit);
    assert_eq!(app_state.ui.torrent_management.review_scroll_offset, 0);
}

#[test]
fn review_u_without_selection_clears_all_drafts() {
    let mut app_state = app_state_with_torrents(vec![
        (hash(1), "Sample Packet One", 100, 10, 2),
        (hash(2), "Sample Packet Two", 300, 20, 3),
    ]);
    app_state.ui.torrent_management.pending_commands = vec![pause_command(1), pause_command(2)];
    app_state.ui.torrent_management.confirm_submit = true;

    reduce_torrent_management_action(
        &mut app_state,
        TorrentManagementAction::ClearPendingForTargets,
    );

    assert!(app_state.ui.torrent_management.pending_commands.is_empty());
    assert!(!app_state.ui.torrent_management.confirm_submit);
}

#[test]
fn review_u_with_undrafted_selection_preserves_other_drafts() {
    let mut app_state = app_state_with_torrents(vec![
        (hash(1), "Sample Packet One", 100, 10, 2),
        (hash(2), "Sample Packet Two", 300, 20, 3),
    ]);
    app_state.ui.torrent_management.pending_commands = vec![pause_command(1)];
    app_state
        .ui
        .torrent_management
        .selected_hashes.push(hash(2));
    app_state.ui.torrent_management.confirm_submit = true;

    reduce_torrent_management_action(
        &mut app_state,
        TorrentManagementAction::ClearPendingForTargets,
    );

    assert_eq!(
        app_state.ui.torrent_management.pending_commands,
        vec![pause_command(1)]
    );
    assert!(app_state.ui.torrent_management.selected_hashes.is_empty());
    assert!(app_state.ui.torrent_management.confirm_submit);
    assert_eq!(
        app_state.ui.torrent_management.status_message.as_deref(),
        Some("Cleared 1 selection")
    );
}

#[test]
fn review_u_clears_a_selected_draft_hidden_by_the_filter() {
    let mut app_state = app_state_with_torrents(vec![
        (hash(1), "Amber Packet", 100, 10, 2),
        (hash(2), "Blue Packet", 300, 20, 3),
    ]);
    app_state.ui.torrent_management.pending_commands = vec![pause_command(1)];
    app_state
        .ui
        .torrent_management
        .selected_hashes.push(hash(1));
    app_state.ui.torrent_management.search_query = "Blue".to_string();
    app_state.ui.torrent_management.confirm_submit = true;

    reduce_torrent_management_action(
        &mut app_state,
        TorrentManagementAction::ClearPendingForTargets,
    );

    assert!(app_state.ui.torrent_management.pending_commands.is_empty());
    assert!(app_state.ui.torrent_management.selected_hashes.is_empty());
    assert!(!app_state.ui.torrent_management.confirm_submit);
}

#[test]
fn review_closes_when_its_last_live_draft_disappears() {
    let mut app_state = app_state_with_torrents(vec![(hash(1), "Sample Packet", 100, 10, 2)]);
    app_state.ui.torrent_management.pending_commands = vec![pause_command(1)];
    app_state.ui.torrent_management.confirm_submit = true;
    app_state.ui.torrent_management.review_scroll_offset = 4;
    remove_torrent(&mut app_state, hash(1));

    reduce_torrent_management_action(&mut app_state, TorrentManagementAction::ReviewScrollDown);

    assert!(app_state.ui.torrent_management.pending_commands.is_empty());
    assert!(!app_state.ui.torrent_management.confirm_submit);
    assert_eq!(app_state.ui.torrent_management.review_scroll_offset, 0);
}

#[test]
fn space_toggles_selection_without_clearing_pending_draft() {
    let mut app_state = app_state_with_torrents(vec![
        (hash(1), "Meadow Saga S01E01", 100, 10, 2),
        (hash(2), "Meadow Saga S01E02", 300, 20, 3),
    ]);
    app_state.ui.torrent_management.pending_commands = vec![TorrentManagementPendingCommand {
        info_hash: hash(1),
        request: ControlRequest::Pause {
            info_hash_hex: hex_text(&hash(1)),
        },
        state: TorrentControlState::Paused,
        delete_files: false,
    }];

    reduce_torrent_management_action(
        &mut app_state,
        TorrentManagementAction::ToggleCurrentSelection,
    );

    assert_eq!(app_state.ui.torrent_management.pending_commands.len(), 1);
    assert!(app_state
        .ui
        .torrent_management
        .selected_hashes
        .contains(&hash(1)));
}

#[test]
fn repeated_same_management_action_clears_pending_draft_for_target() {
    let mut app_state =
        app_state_with_torrents(vec![(hash(1), "Meadow Saga S01E01", 100, 10, 2)]);
    app_state
        .ui
        .torrent_management
        .selected_hashes.push(hash(1));

    reduce_torrent_management_action(
        &mut app_state,
        TorrentManagementAction::TogglePauseTargets,
    );
    assert_eq!(app_state.ui.torrent_management.pending_commands.len(), 1);

    reduce_torrent_management_action(
        &mut app_state,
        TorrentManagementAction::TogglePauseTargets,
    );

    assert!(app_state.ui.torrent_management.pending_commands.is_empty());
}

#[test]
fn different_management_action_replaces_pending_draft_for_target() {
    let mut app_state =
        app_state_with_torrents(vec![(hash(1), "Meadow Saga S01E01", 100, 10, 2)]);
    app_state
        .ui
        .torrent_management
        .selected_hashes.push(hash(1));

    reduce_torrent_management_action(
        &mut app_state,
        TorrentManagementAction::TogglePauseTargets,
    );
    reduce_torrent_management_action(
        &mut app_state,
        TorrentManagementAction::StartDelete {
            delete_files: false,
        },
    );

    assert_eq!(app_state.ui.torrent_management.pending_commands.len(), 1);
    assert!(matches!(
        app_state.ui.torrent_management.pending_commands[0].request,
        ControlRequest::Delete {
            delete_files: false,
            ..
        }
    ));
}

#[test]
fn pending_management_review_groups_split_commands_by_action() {
    let mut app_state = app_state_with_torrents(vec![
        (hash(1), "Cinder Trails S01E01", 100, 10, 2),
        (hash(2), "Cinder Trails S01E02", 300, 20, 3),
        (hash(3), "Meadow Saga S01E01", 400, 30, 4),
    ]);
    torrent_mut(&mut app_state, hash(3)).total_size = 2_500_000_000;
    app_state.ui.torrent_management.pending_commands = vec![
        TorrentManagementPendingCommand {
            request: ControlRequest::Pause {
                info_hash_hex: hex_text(&hash(1)),
            },
            info_hash: hash(1),
            state: TorrentControlState::Paused,
            delete_files: false,
        },
        TorrentManagementPendingCommand {
            request: ControlRequest::Delete {
                info_hash_hex: hex_text(&hash(2)),
                delete_files: false,
            },
            info_hash: hash(2),
            state: TorrentControlState::Deleting,
            delete_files: false,
        },
        TorrentManagementPendingCommand {
            request: ControlRequest::Delete {
                info_hash_hex: hex_text(&hash(3)),
                delete_files: true,
            },
            info_hash: hash(3),
            state: TorrentControlState::Deleting,
            delete_files: true,
        },
    ];

    let groups = pending_management_review_groups(&app_state);

    assert_eq!(groups.pause, vec!["Cinder Trails S01E01"]);
    assert_eq!(groups.delete, vec!["Cinder Trails S01E02"]);
    assert_eq!(groups.purge, vec!["Meadow Saga S01E01"]);
    assert_eq!(groups.purge_total_bytes, 2_500_000_000);
    assert_eq!(format_gb(groups.purge_total_bytes), "2.50 GB");
    assert!(groups.resume.is_empty());
}

#[test]
fn delete_action_stages_delete_request_without_confirmation() {
    let mut app_state = app_state_with_torrents(vec![
        (hash(1), "Cinder Trails S01E01", 100, 10, 2),
        (hash(2), "Cinder Trails S01E02", 300, 20, 3),
    ]);
    app_state
        .ui
        .torrent_management
        .selected_hashes.push(hash(2));

    reduce_torrent_management_action(
        &mut app_state,
        TorrentManagementAction::StartDelete { delete_files: true },
    );

    assert!(!app_state.ui.torrent_management.confirm_submit);
    assert_eq!(app_state.ui.torrent_management.pending_commands.len(), 1);
    assert!(matches!(
        app_state.ui.torrent_management.pending_commands[0].request,
        ControlRequest::Delete {
            delete_files: true,
            ..
        }
    ));
    assert!(app_state
        .ui
        .torrent_management
        .selected_hashes
        .contains(&hash(2)));
}

#[test]
fn management_status_and_compact_footer_are_rendered() {
    let mut app_state = app_state_with_torrents(vec![(hash(1), "Sample Packet", 100, 10, 2)]);
    app_state.ui.torrent_management.status_message = Some("Cleared 2 selections".to_string());

    let rendered = render_management_screen(&mut app_state, 45, 16);

    assert!(rendered.contains("Cleared 2 selections"));
    assert!(rendered.contains("[Esc]"));
    assert!(rendered.contains("[u]"));

    app_state.ui.torrent_management.status_message =
        Some("No selection or draft commands to clear".to_string());
    let long_status = render_management_screen(&mut app_state, 40, 16);
    assert!(long_status.contains("No selection"));
    assert!(long_status.contains("..."));

    app_state
        .ui
        .torrent_management
        .pending_commands
        .push(pause_command(1));
    let pending_footer = render_management_screen(&mut app_state, 80, 24);
    assert!(pending_footer.contains("[Y]"));
    assert!(pending_footer.contains("[d/D]"));

    let narrow_pending_footer = render_management_screen(&mut app_state, 40, 16);
    for key in ["[Esc]", "[Y]", "[u]", "[Space]", "[A]", "[p]", "[d/D]"] {
        assert!(
            narrow_pending_footer.contains(key),
            "missing compact action {key}"
        );
    }
}

#[test]
fn compact_review_footer_keeps_clear_and_cancel_visible() {
    let mut app_state = app_state_with_torrents(vec![(hash(1), "Sample Packet", 100, 10, 2)]);
    app_state
        .ui
        .torrent_management
        .pending_commands
        .push(pause_command(1));
    app_state.ui.torrent_management.confirm_submit = true;

    let rendered = render_management_screen(&mut app_state, 45, 16);

    assert!(rendered.contains("[Esc]"));
    assert!(rendered.contains("[Enter]"));
    assert!(rendered.contains("[u]"));
    assert!(rendered.contains("1 queued"));
}

#[test]
fn review_middle_truncation_preserves_distinct_name_suffixes() {
    let alpha = "Shared Review Prefix with Extra Words alpha.bin";
    let omega = "Shared Review Prefix with Extra Words omega.bin";
    let mut app_state = app_state_with_torrents(vec![
        (hash(1), alpha, 100, 10, 2),
        (hash(2), omega, 300, 20, 3),
    ]);
    app_state.ui.torrent_management.pending_commands = vec![pause_command(1), pause_command(2)];
    app_state.ui.torrent_management.confirm_submit = true;

    let rendered = render_management_screen(&mut app_state, 40, 20);

    assert!(rendered.contains("alpha.bin"));
    assert!(rendered.contains("omega.bin"));
    assert!(rendered.contains('…'));
}

#[test]
fn compact_review_preserves_purge_count_and_size() {
    let mut app_state = app_state_with_torrents(vec![(hash(1), "Sample Packet", 100, 10, 2)]);
    torrent_mut(&mut app_state, hash(1)).total_size = 2_500_000_000;
    app_state.ui.torrent_management.pending_commands = vec![TorrentManagementPendingCommand {
        request: ControlRequest::Delete {
            info_hash_hex: hex_text(&hash(1)),
            delete_files: true,
        },
        info_hash: hash(1),
        state: TorrentControlState::Deleting,
        delete_files: true,
    }];
    app_state.ui.torrent_management.confirm_submit = true;

    let rendered = render_management_screen(&mut app_state, 40, 20);

    assert!(rendered.contains("PURGE: 1 Torrent (2.50 GB)"));
}

#[test]
fn review_truncates_wide_unicode_by_terminal_width() {
    let wide_name = format!("{}alpha.bin", "界".repeat(24));
    let mut app_state =
        app_state_with_torrents(vec![(hash(1), wide_name.as_str(), 100, 10, 2)]);
    app_state.ui.torrent_management.pending_commands = vec![pause_command(1)];
    app_state.ui.torrent_management.confirm_submit = true;

    let truncated = truncate_middle_with_ellipsis(&wide_name, 24);
    assert!(Line::from(truncated.as_str()).width() <= 24);
    assert!(truncated.ends_with("alpha.bin"));
    let rendered = render_management_screen(&mut app_state, 40, 20);
    assert!(rendered.contains("alpha.bin"));
    assert!(rendered.contains('…'));
}

#[test]
fn review_omits_empty_groups_from_the_scroll_range() {
    let mut app_state = app_state_with_torrents(vec![(hash(1), "Sample Packet", 100, 10, 2)]);
    app_state.ui.torrent_management.pending_commands = vec![pause_command(1)];
    app_state.ui.torrent_management.confirm_submit = true;
    app_state.screen_area = Rect::new(0, 0, 45, 18);

    let groups = pending_management_review_groups(&app_state);
    let sections = pending_management_review_sections(&groups, &format_gb(groups.purge_total_bytes));

    assert_eq!(sections.len(), 1);
    assert_eq!(pending_management_review_line_count(&sections), 2);
    assert_eq!(max_management_review_scroll_offset(&app_state), 0);
}

#[test]
fn review_geometry_grows_monotonically_across_responsive_breakpoints() {
    let groups = TorrentManagementReviewCache {
        pause: vec!["Geometry Packet".to_string()],
        ..Default::default()
    };

    let mut previous_popup_width = 0;
    let mut previous_body_width = 0;
    for width in 1..=120 {
        let popup = management_review_popup_area(Rect::new(0, 0, width, 30), &groups, "0.00 GB");
        let body = management_review_regions(popup).body;
        assert!(popup.width >= previous_popup_width, "frame width {width}");
        assert!(body.width >= previous_body_width, "frame width {width}");
        previous_popup_width = popup.width;
        previous_body_width = body.width;
    }

    let mut previous_popup_height = 0;
    let mut previous_body_height = 0;
    for height in 1..=40 {
        let popup = management_review_popup_area(Rect::new(0, 0, 80, height), &groups, "0.00 GB");
        let body = management_review_regions(popup).body;
        assert!(
            popup.height >= previous_popup_height,
            "frame height {height}"
        );
        assert!(body.height >= previous_body_height, "frame height {height}");
        previous_popup_height = popup.height;
        previous_body_height = body.height;
    }
}

#[test]
fn pause_only_review_avoids_early_overflow() {
    let names = (0..13)
        .map(|index| format!("Quiet Packet {index:02}"))
        .collect::<Vec<_>>();
    let torrents = names
        .iter()
        .enumerate()
        .map(|(index, name)| (hash(index as u8 + 1), name.as_str(), 100, 10, 2))
        .collect::<Vec<_>>();
    let mut app_state = app_state_with_torrents(torrents);
    app_state.ui.torrent_management.pending_commands = (1..=13).map(pause_command).collect();
    app_state.ui.torrent_management.confirm_submit = true;

    let rendered = render_management_screen(&mut app_state, 100, 30);

    assert_eq!(max_management_review_scroll_offset(&app_state), 0);
    assert!(rendered.contains("13 queued"));
    assert!(rendered.contains("PAUSE: 13 Torrents"));
    assert!(!rendered.contains("RESUME:"));
    assert!(!rendered.contains("REMOVE:"));
    assert!(!rendered.contains("PURGE:"));
    assert!(rendered.contains("All 13 queued changes visible"));
}

#[test]
fn mixed_large_review_keeps_summary_and_last_destructive_item_visible() {
    let names = (0..40)
        .map(|index| format!("Review Packet {index:02}"))
        .collect::<Vec<_>>();
    let torrents = names
        .iter()
        .enumerate()
        .map(|(index, name)| (hash(index as u8 + 1), name.as_str(), 100, 10, 2))
        .collect::<Vec<_>>();
    let mut app_state = app_state_with_torrents(torrents);
    for byte in 31..=40 {
        torrent_mut(&mut app_state, hash(byte)).total_size = 250_000_000;
    }
    app_state.ui.torrent_management.pending_commands = (1..=20)
        .map(pause_command)
        .chain((21..=30).map(|byte| delete_command(byte, false)))
        .chain((31..=40).map(|byte| delete_command(byte, true)))
        .collect();
    app_state.ui.torrent_management.confirm_submit = true;

    let first_page = render_management_screen(&mut app_state, 80, 24);
    assert!(first_page.contains("40 queued"));
    assert!(first_page.contains("Purge 10"));
    assert!(first_page.contains("Review Packet 00"));
    assert!(!first_page.contains("Review Packet 39"));

    let compact_first_page = render_management_screen(&mut app_state, 32, 16);
    assert!(compact_first_page.contains("PURGE 10"));
    assert!(compact_first_page.contains("files"));
    assert!(compact_first_page.contains("2.50 GB"));
    assert!(compact_first_page.contains("[Enter]"));

    let short_first_page = render_management_screen(&mut app_state, 32, 7);
    assert!(short_first_page.contains("PURGE 10"));
    assert!(short_first_page.contains("FILES"));
    assert!(short_first_page.contains("2.50 GB"));
    assert!(short_first_page.contains("[Enter]"));

    reduce_torrent_management_action(&mut app_state, TorrentManagementAction::ReviewLast);
    let last_page = render_management_screen(&mut app_state, 80, 24);
    assert!(last_page.contains("Review Packet 39"));
    assert!(last_page.contains("PURGE: 10 Torrents"));
    assert!(last_page.contains("[Enter]"));
    assert!(last_page.contains("[Esc]"));
}

#[test]
fn narrow_review_keeps_confirmation_and_scroll_position_visible() {
    let names = (0..200)
        .map(|index| format!("Narrow Packet {index:02}"))
        .collect::<Vec<_>>();
    let torrents = names
        .iter()
        .enumerate()
        .map(|(index, name)| (hash(index as u8 + 1), name.as_str(), 100, 10, 2))
        .collect::<Vec<_>>();
    let mut app_state = app_state_with_torrents(torrents);
    app_state.ui.torrent_management.pending_commands = (1..=200).map(pause_command).collect();
    app_state.ui.torrent_management.confirm_submit = true;

    let rendered = render_management_screen(&mut app_state, 32, 16);

    assert!(rendered.contains("200 queued"));
    assert!(rendered.contains("[Esc]"));
    assert!(rendered.contains("[u]"));
    assert!(rendered.contains("[Enter]"));
    assert!(rendered.contains('↕'));
}

#[test]
fn very_narrow_review_truncates_unicode_without_losing_the_suffix() {
    let wide_name = format!("{}final.part", "界".repeat(24));
    let mut app_state =
        app_state_with_torrents(vec![(hash(1), wide_name.as_str(), 100, 10, 2)]);
    app_state.ui.torrent_management.pending_commands = vec![pause_command(1)];
    app_state.ui.torrent_management.confirm_submit = true;

    let rendered = render_management_screen(&mut app_state, 32, 16);

    assert!(rendered.contains("final.part"));
    assert!(rendered.contains('…'));
    assert!(rendered.contains("[Enter]"));
}

#[test]
fn review_scroll_up_uses_the_resized_viewport_range() {
    let names = (0..20)
        .map(|index| format!("Resize Packet {index:02}"))
        .collect::<Vec<_>>();
    let torrents = names
        .iter()
        .enumerate()
        .map(|(index, name)| (hash(index as u8 + 1), name.as_str(), 100, 10, 2))
        .collect::<Vec<_>>();
    let mut app_state = app_state_with_torrents(torrents);
    app_state.ui.torrent_management.pending_commands = (1..=20).map(pause_command).collect();
    app_state.ui.torrent_management.confirm_submit = true;
    app_state.screen_area = Rect::new(0, 0, 100, 16);
    reduce_torrent_management_action(&mut app_state, TorrentManagementAction::ReviewLast);
    let old_max = app_state.ui.torrent_management.review_scroll_offset;

    app_state.screen_area = Rect::new(0, 0, 100, 24);
    let resized_max = max_management_review_scroll_offset(&app_state);
    assert!(resized_max > 0);
    assert!(resized_max < old_max);

    reduce_torrent_management_action(&mut app_state, TorrentManagementAction::ReviewScrollUp);

    assert_eq!(
        app_state.ui.torrent_management.review_scroll_offset,
        resized_max - 1
    );

    reduce_torrent_management_action(&mut app_state, TorrentManagementAction::ReviewLast);
    let resized_last_page = render_management_screen(&mut app_state, 100, 24);
    assert!(resized_last_page.contains("Resize Packet 19"));
}

#[test]
fn pending_management_summary_counts_draft_actions() {
    let mut app_state = app_state_with_torrents(vec![
        (hash(1), "Cinder Trails S01E01", 100, 10, 2),
        (hash(2), "Cinder Trails S01E02", 300, 20, 3),
        (hash(3), "Meadow Saga S01E01", 100, 10, 2),
        (hash(4), "Meadow Saga S01E02", 300, 20, 3),
    ]);
    app_state.ui.torrent_management.pending_commands = vec![
        TorrentManagementPendingCommand {
            info_hash: hash(1),
            request: ControlRequest::Pause {
                info_hash_hex: hex_text(&hash(1)),
            },
            state: TorrentControlState::Paused,
            delete_files: false,
        },
        TorrentManagementPendingCommand {
            info_hash: hash(2),
            request: ControlRequest::Resume {
                info_hash_hex: hex_text(&hash(2)),
            },
            state: TorrentControlState::Running,
            delete_files: false,
        },
        TorrentManagementPendingCommand {
            info_hash: hash(3),
            request: ControlRequest::Delete {
                info_hash_hex: hex_text(&hash(3)),
                delete_files: false,
            },
            state: TorrentControlState::Deleting,
            delete_files: false,
        },
        TorrentManagementPendingCommand {
            info_hash: hash(4),
            request: ControlRequest::Delete {
                info_hash_hex: hex_text(&hash(4)),
                delete_files: true,
            },
            state: TorrentControlState::Deleting,
            delete_files: true,
        },
    ];

    let summary = pending_management_summary(&app_state);

    assert_eq!(summary.pause_count, 1);
    assert_eq!(summary.resume_count, 1);
    assert_eq!(summary.remove_count, 1);
    assert_eq!(summary.purge_count, 1);
    let groups = pending_management_review_groups(&app_state);
    let sections = pending_management_review_sections(&groups, &format_gb(groups.purge_total_bytes));
    assert_eq!(
        pending_management_review_summary_line_count(&summary),
        pending_management_review_line_count(&sections)
    );
}

#[test]
fn review_enter_submits_through_the_app_command_channel() {
    let mut app_state = app_state_with_torrents(vec![(hash(1), "Sample Packet", 50, 5, 1)]);
    app_state.ui.torrent_management.pending_commands.push(pause_command(1));

    let outcome = handle_event(
        TerminalEvent::Key(KeyEvent::new(KeyCode::Char('Y'), KeyModifiers::shift())),
        &mut app_state,
        false,
    );
    assert!(outcome.consumed);
    assert!(app_state.ui.torrent_management.confirm_submit);
    let outcome = handle_event(
        TerminalEvent::Key(KeyEvent::new(KeyCode::Enter, KeyModifiers::none())),
        &mut app_state,
        false,
    );
    assert!(outcome.consumed);

    assert_eq!(
        outcome.requests.control_requests,
        vec![ControlRequest::Pause { info_hash_hex: hex_text(&hash(1)) }]
    );
    assert_eq!(
        torrent_mut(&mut app_state, hash(1)).torrent_control_state,
        TorrentControlState::Paused
    );
}

#[test]
fn a_follower_waits_for_its_leader() {
    let mut app_state = app_state_with_torrents(vec![(hash(1), "Sample Packet", 50, 5, 1)]);
    app_state.ui.torrent_management.pending_commands.push(delete_command(1, true));
    app_state.ui.torrent_management.confirm_submit = true;
    let outcome = handle_event(
        TerminalEvent::Key(KeyEvent::new(KeyCode::Enter, KeyModifiers::none())),
        &mut app_state,
        true,
    );
    assert_eq!(outcome.requests.control_requests.len(), 1);
    assert_eq!(
        torrent_mut(&mut app_state, hash(1)).torrent_control_state,
        TorrentControlState::Running
    );
}

#[test]
fn review_scrolling_reuses_the_cached_grouped_names() {
    let names = (0..20).map(|index| format!("Cached Packet {index:02}")).collect::<Vec<_>>();
    let torrents = names
        .iter()
        .enumerate()
        .map(|(index, name)| (hash(index as u8 + 1), name.as_str(), 100, 10, 2))
        .collect::<Vec<_>>();
    let mut app_state = app_state_with_torrents(torrents);
    app_state.ui.torrent_management.pending_commands = (1..=20).map(pause_command).collect();
    app_state.screen_area = Rect::new(0, 0, 80, 16);

    reduce_torrent_management_action(
        &mut app_state,
        TorrentManagementAction::ShowSubmitConfirmation,
    );
    let cache = app_state.ui.torrent_management.review_cache.as_mut().expect("review cache");
    cache.pause[0] = "Remembered Packet".to_string();

    reduce_torrent_management_action(&mut app_state, TorrentManagementAction::ReviewScrollDown);

    let cache = app_state.ui.torrent_management.review_cache.as_ref().expect("review cache");
    assert_eq!(cache.pause[0], "Remembered Packet");
}

#[test]
fn large_review_batches_scroll_to_the_last_item_and_back() {
    let names = (0..20).map(|index| format!("Batch Packet {index:02}")).collect::<Vec<_>>();
    let torrents = names
        .iter()
        .enumerate()
        .map(|(index, name)| (hash(index as u8 + 1), name.as_str(), 100, 10, 2))
        .collect::<Vec<_>>();
    let mut app_state = app_state_with_torrents(torrents);
    app_state.ui.torrent_management.pending_commands = (1..=20).map(pause_command).collect();
    app_state.ui.torrent_management.confirm_submit = true;

    let first_page = render_management_screen(&mut app_state, 100, 30);
    assert!(max_management_review_scroll_offset(&app_state) > 0);
    assert!(first_page.contains("Batch Packet 00"));
    assert!(!first_page.contains("Batch Packet 19"));
    assert!(first_page.contains("[j/k]"));

    reduce_torrent_management_action(&mut app_state, TorrentManagementAction::ReviewLast);
    let last_page = render_management_screen(&mut app_state, 100, 30);
    assert!(last_page.contains("Batch Packet 19"));
    assert!(app_state.ui.torrent_management.review_scroll_offset > 0);
    let groups = pending_management_review_groups(&app_state);
    let popup = management_review_popup(
        &groups,
        "0.00 GB",
        app_state.ui.torrent_management.review_scroll_offset,
        app_state.screen_area,
    );
    assert_eq!(popup.scroll_offset, popup.max_scroll);
    assert_eq!(popup.text_width, popup.regions.body.width - 1);

    reduce_torrent_management_action(&mut app_state, TorrentManagementAction::ReviewFirst);
    assert_eq!(app_state.ui.torrent_management.review_scroll_offset, 0);
}

#[test]
fn review_viewport_supports_offsets_beyond_u16() {
    let names =
        (0..65_540).map(|index| format!("Deep Queue Packet {index:05}")).collect::<Vec<_>>();
    let groups = TorrentManagementReviewCache { pause: names, ..Default::default() };
    let sections = pending_management_review_sections(&groups, "0.00 GB");

    let visible = pending_management_review_visible_lines(&sections, 65_540, 1, 40);
    assert_eq!(visible.len(), 1);
    let rendered = line_text(&visible[0]);

    assert!(rendered.contains("Deep Queue Packet 65539"));
}

#[test]
fn short_review_reserves_at_least_one_body_row() {
    let names = (0..20).map(|index| format!("Short Packet {index:02}")).collect::<Vec<_>>();
    let torrents = names
        .iter()
        .enumerate()
        .map(|(index, name)| (hash(index as u8 + 1), name.as_str(), 100, 10, 2))
        .collect::<Vec<_>>();
    let mut app_state = app_state_with_torrents(torrents);
    app_state.ui.torrent_management.pending_commands = (1..=20).map(pause_command).collect();
    app_state.ui.torrent_management.confirm_submit = true;
    let groups = pending_management_review_groups(&app_state);

    let popup = management_review_popup_area(Rect::new(0, 0, 80, 7), &groups, "0.00 GB");
    let body = management_review_regions(popup).body;
    assert!(body.height >= 1);
    assert_eq!(body.height, management_review_body_height(Rect::new(0, 0, 80, 7)));
    let rendered = render_management_screen(&mut app_state, 80, 7);
    assert!(rendered.contains("20 queued"));
    assert!(rendered.contains("PAUSE: 20 Torrents"));
    assert!(rendered.contains("[Enter]"));
}

#[test]
fn one_draft_per_torrent_and_drafting_twice_takes_it_back() {
    let mut app_state = app_state_with_torrents(vec![(hash(1), "Sample Packet", 50, 5, 1)]);
    for (action, expected) in [
        (TorrentManagementAction::TogglePauseTargets, 1),
        (TorrentManagementAction::StartDelete { delete_files: true }, 1),
        (TorrentManagementAction::StartDelete { delete_files: true }, 0),
    ] {
        reduce_torrent_management_action(&mut app_state, action);
        assert_eq!(app_state.ui.torrent_management.pending_commands.len(), expected);
    }
}

#[test]
fn messages_count_what_was_done() {
    let mut app_state = app_state_with_torrents(Vec::new());
    assert_eq!(management_clear_status(1, 0), "Cleared 1 draft command");
    assert_eq!(management_clear_status(0, 0), "No selection or draft commands to clear");
    app_state.ui.torrent_management.pending_commands = vec![pause_command(1), pause_command(2)];
    assert!(pending_management_status(&app_state).contains('2'));
    assert_eq!(empty_table_message(&app_state), "No torrents");
    app_state.ui.torrent_management.search_query = "x".to_string();
    assert_eq!(empty_table_message(&app_state), "No torrents match the search");
    assert_eq!(management_review_visible_range(0, 5, 12), "1–5 / 12");
    assert_eq!(management_review_visible_range(10, 5, 12), "11–12 / 12");
    assert_eq!(management_review_visible_range(0, 5, 0), "0 / 0");
}

#[test]
fn rows_stand_out_by_cursor_selection_and_draft() {
    let mut app_state = app_state_with_torrents(vec![(hash(1), "Sample Packet", 50, 5, 1)]);
    let row = &build_management_rows(&app_state)[0];
    assert_eq!(management_row_tone(&app_state, row, true), ManagementRowTone::Cursor);
    assert_eq!(management_row_tone(&app_state, row, false), ManagementRowTone::Plain);
    app_state.ui.torrent_management.pending_commands = vec![delete_command(1, true)];
    assert!(matches!(
        management_row_tone(&app_state, row, false),
        ManagementRowTone::Drafted(Some(_))
    ));
    app_state.ui.torrent_management.selected_hashes = vec![hash(1)];
    assert_eq!(management_row_tone(&app_state, row, false), ManagementRowTone::Selected);
    let cells = management_table_row(&app_state, row, &vec![0, 1, 4, 5], &row_texts());
    assert_eq!(cells, ["x!", "Sample Packet", "Review", "1"]);
}

#[test]
fn texts_are_shortened_by_their_width() {
    assert_eq!(truncate_middle_with_ellipsis("abcdefghij", 5), "ab…ij");
    assert_eq!(truncate_middle_with_ellipsis("abc", 5), "abc");
    assert_eq!(truncate_middle_with_ellipsis("abcdef", 1), "…");
    assert_eq!(truncate_middle_with_ellipsis("abcdef", 0), "");
    assert_eq!(truncate_with_ellipsis("abcdefghij", 6), "abc...");
    assert_eq!(truncate_with_ellipsis("abc", 6), "abc");
}

#[test]
fn the_last_date_that_is_shown_is_far_off() {
    assert!(format_added_date(Some(LAST_DATED_SECOND)).contains("262142"));
}

#[test]
fn dates_go_by_the_offset_of_the_place() {
    assert_eq!(added_date_at(0, 0), "1970-01-01");
    assert_eq!(added_date_at(0, -1), "1969-12-31");
    assert_eq!(added_date_at(86_399, 1), "1970-01-02");
    assert_eq!(added_date_at(1_700_000_000, 3_600), "2023-11-14");
}

#[test]
fn a_torrent_is_selected_once() {
    let mut app_state = app_state_with_torrents(vec![
        (hash(1), "Sample Alpha", 100, 10, 2),
        (hash(2), "Sample Beta", 50, 5, 1),
    ]);
    app_state.mode = AppMode::TorrentManagement;
    initialize_torrent_management_cursor(&mut app_state);
    reduce_torrent_management_action(
        &mut app_state,
        TorrentManagementAction::ToggleCurrentSelection,
    );
    reduce_torrent_management_action(&mut app_state, TorrentManagementAction::SelectAllVisible);
    let selected = &app_state.ui.torrent_management.selected_hashes;
    assert_eq!(selected.len(), 2);
    assert!(selected.contains(&hash(1)) && selected.contains(&hash(2)));
}

#[test]
fn shortened_texts_fit_whatever_their_script() {
    let lam_alef = "\u{0644}\u{0627}".repeat(20);
    let family = "\u{1F468}\u{200D}\u{1F469}\u{200D}\u{1F467}".repeat(12);
    let hearts = "\u{2764}\u{FE0F}".repeat(12);
    let flags = "\u{1F1E9}\u{1F1EA}".repeat(12);
    let marks = "e\u{0301}".repeat(30);
    let khmer = "\u{1780}\u{17D2}\u{1780}".repeat(24);
    for text in [lam_alef, family, hearts, flags, marks, khmer] {
        for width in 0..16 {
            let short = truncate_middle_with_ellipsis(&text, width);
            assert!(Line::from(short.as_str()).width() <= width, "{text} in {width}: {short}");
            if width > 0 {
                let (start, end) = short.split_once('…').expect("an ellipsis");
                assert!(text.starts_with(start) && text.ends_with(end));
            }
        }
    }
}

#[test]
fn shortening_keeps_what_is_seen_as_one_together() {
    let family = "\u{1F468}\u{200D}\u{1F469}\u{200D}\u{1F467}";
    let text = format!("ab{family}{}yz", family.repeat(4));
    assert_eq!(truncate_middle_with_ellipsis(&text, 8), format!("ab{family}…yz"));
    assert_eq!(truncate_middle_with_ellipsis("ab界界界界界yz", 8), "ab界…yz");
    assert_eq!(truncate_middle_with_ellipsis("e\u{0301}e\u{0301}e\u{0301}e\u{0301}", 3), "e\u{0301}…e\u{0301}");
}

#[test]
fn shortening_cuts_between_what_is_seen_as_one() {
    // Flags and a joiner: no flag loses its second half.
    let flag = "\u{1F1E9}\u{1F1EA}";
    let text = format!("{}\u{200D}{}", flag.repeat(6), flag.repeat(6));
    assert_eq!(truncate_middle_with_ellipsis(&text, 9), format!("{flag}{flag}…{flag}{flag}"));
    assert_eq!(truncate_middle_with_ellipsis(&text, 6), format!("{flag}…{flag}"));
    // A base keeps its spacing mark.
    let syllable = "\u{0915}\u{093E}";
    let text = format!("{}\u{200D}{}", syllable.repeat(6), syllable.repeat(6));
    let short = truncate_middle_with_ellipsis(&text, 6);
    let (start, end) = short.split_once('…').expect("an ellipsis");
    assert_eq!(start.chars().count() % 2, 0);
    assert_eq!(end.chars().count() % 2, 0);
    // Joining letters count one by one, and line breaks as one column each.
    let lam_alef = "\u{0644}\u{0627}";
    assert_eq!(
        truncate_middle_with_ellipsis(&lam_alef.repeat(9), 6),
        format!("{lam_alef}\u{0644}…{lam_alef}")
    );
    assert_eq!(
        truncate_middle_with_ellipsis("\u{0644}a\r\nb\ncdefghijkl\r\n", 7),
        "\u{0644}a\r\n…kl\r\n"
    );
}

#[test]
fn the_cursor_is_found_among_any_rows() {
    let mut app_state = app_state_with_torrents(vec![
        (hash(1), "Sample Alpha", 100, 10, 2),
        (hash(2), "Sample Beta", 50, 5, 1),
        (hash(3), "Sample Gamma", 25, 5, 1),
    ]);
    let mut rows = build_management_rows(&app_state);
    rows[1].info_hashes = vec![hash(9), hash(8)];
    app_state.ui.torrent_management.selected_index = 7;
    app_state.ui.torrent_management.cursor_hash = Some(hash(8));
    assert_eq!(management_cursor_index_for_rows(&app_state, &rows), Some(1));
    app_state.ui.torrent_management.cursor_hash = Some(hash(7));
    assert_eq!(management_cursor_index_for_rows(&app_state, &rows), Some(2));
    app_state.ui.torrent_management.cursor_hash = None;
    assert_eq!(management_cursor_index_for_rows(&app_state, &Vec::new()), None);
}
