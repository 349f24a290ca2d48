//! The help screen.
use superseedr::app::{AppMode, AppState, HelpSection};
use superseedr::geometry::Rect;
use superseedr::keys::{KeyCode, KeyEvent, KeyModifiers, TerminalEvent};
use superseedr::search::SearchMode;
use superseedr::tui::action_style::ActionTone;
use superseedr::tui::screens::help::manual::{
    build_help_footer_entries, build_help_items, HelpFacts, HelpItem, HelpKeyStyle,
};
use superseedr::tui::screens::help::screen::{
    empty_help_message, help_columns, help_controls, help_heading_cell, help_item_action_cell,
    help_item_key_cell, help_tabs, help_tabs_width, hero_count_label, hero_description, hero_title,
    HelpTabs,
};
use superseedr::tui::screens::help::{
    calculate_help_layout, clamped_scroll_offset, handle_event_with_settings, help_display_rows,
    help_items_for_view, help_panel_inner, help_search_panel_active, help_table_area_for_state,
    help_visible_count_for_state,
    max_help_scroll_offset, reduce_help_action, warning_height, HelpAction, HelpDensity,
    HelpDisplayRow,
};
use superseedr::tui::screens::input_panel::{
    help_search_prompt, journal_search_prompt, match_count_label, peer_search_prompt, prompt_line,
    torrent_search_prompt,
};

fn facts() -> HelpFacts {
    HelpFacts {
        shared_mode: false,
        settings_path: Some("/config/settings.toml".to_string()),
        log_files: Some("/logs/app*.log".to_string()),
        watch_path: None,
        shared_inbox: None,
        level: 3,
        percent_to_next_level: "42".to_string(),
        has_dht: true,
        has_pex: true,
    }
}

fn handle_event(event: TerminalEvent, app_state: &mut AppState) {
    handle_event_with_settings(event, app_state, &facts());
}

fn press(code: KeyCode) -> TerminalEvent {
    TerminalEvent::Key(KeyEvent::new(code, KeyModifiers::none()))
}

/// A screen of which the help takes up all but a thin margin.
fn help_state(width: u16, height: u16, area: Rect) -> AppState {
    let mut app_state = AppState {
        mode: AppMode::Help,
        screen_area: Rect::new(0, 0, width, height),
        ..Default::default()
    };
    app_state.ui.help.area = area;
    app_state
}

#[test]
fn help_layout_uses_top_tabs_and_external_footer() {
    for area in [
        Rect::new(5, 1, 110, 34),
        Rect::new(3, 1, 74, 46),
        Rect::new(2, 1, 56, 34),
        Rect::new(2, 0, 36, 10),
    ] {
        let layout = calculate_help_layout(area, false, None);
        assert!(layout.tabs.bottom() <= layout.panel.y);
        assert!(layout.panel.bottom() <= layout.controls.y);
        assert!(layout.controls.bottom() <= layout.popup.bottom());
        assert!(layout.table.height > 0);
        let inner = help_panel_inner(layout.panel, layout.density);
        assert_eq!(inner.x, layout.panel.x + 2);
        assert_eq!(inner.right(), layout.panel.right() - 2);
    }
}

#[test]
fn classic_help_tabs_fit_common_vertical_widths() {
    assert_eq!(help_tabs_width(3), 63);
    assert_eq!(help_tabs_width(1), 51);

    let eighty_columns = calculate_help_layout(Rect::new(3, 1, 74, 46), false, None);
    assert!(eighty_columns.tabs.width >= help_tabs_width(3));

    let sixty_columns = calculate_help_layout(Rect::new(2, 1, 55, 34), false, None);
    assert!(sixty_columns.tabs.width >= help_tabs_width(1));
}

#[test]
fn help_layout_keeps_search_warning_and_table_disjoint() {
    for area in [Rect::new(5, 1, 110, 34), Rect::new(3, 1, 74, 46)] {
        let layout =
            calculate_help_layout(area, true, Some("Network discovery is still warming up"));

        let search = layout.search.expect("visible search panel");
        let warning = layout.warning.expect("visible warning row");
        assert!(search.bottom() <= layout.tabs.y);
        assert!(layout.tabs.bottom() <= layout.panel.y);
        assert!(layout.hero.bottom() <= warning.y);
        assert!(warning.bottom() <= layout.table.y);
        assert!(layout.table.bottom() <= help_panel_inner(layout.panel, layout.density).bottom());
        assert!(layout.panel.bottom() <= layout.controls.y);
    }
}

#[test]
fn compact_search_prioritizes_warning_over_optional_rows() {
    let warning_text = "Open file limit is low";

    for (height, expected_table_height) in [(10, 1), (9, 0)] {
        let layout =
            calculate_help_layout(Rect::new(2, 0, 36, height), true, Some(warning_text));
        let inner = help_panel_inner(layout.panel, layout.density);
        let warning = layout.warning.expect("visible warning row");

        assert_eq!(layout.density, HelpDensity::Compact);
        assert_eq!(layout.hero.height, 0);
        assert_eq!(warning.height, warning_height(warning_text, inner.width));
        assert_eq!(layout.table.height, expected_table_height);
        assert!(warning.bottom() <= layout.table.y);
        assert!(layout.table.bottom() <= inner.bottom());
    }
}

#[test]
fn help_section_descriptions_are_complete() {
    for section in HelpSection::all() {
        assert!(!section.description().is_empty());
    }
}

#[test]
fn vertical_help_scroll_clamps_to_planned_table_height() {
    let facts = facts();
    for (width, height, area) in
        [(80, 48, Rect::new(3, 1, 74, 46)), (60, 36, Rect::new(2, 1, 56, 34))]
    {
        let mut app_state = help_state(width, height, area);
        app_state.ui.help.is_searching = true;
        let display_rows = help_display_rows(&help_items_for_view(&facts, &app_state), true).len();
        let expected_max = display_rows.saturating_sub(help_visible_count_for_state(&app_state));

        for _ in 0..display_rows + 8 {
            reduce_help_action(&mut app_state, &facts, HelpAction::ScrollDown);
        }

        assert_eq!(app_state.ui.help.scroll_offset, expected_max);
    }
}

#[test]
fn help_esc_returns_to_normal() {
    let mut app_state = AppState { mode: AppMode::Help, ..Default::default() };

    handle_event(press(KeyCode::Esc), &mut app_state);

    assert!(matches!(app_state.mode, AppMode::Normal));
}

#[test]
fn help_m_press_returns_to_normal() {
    let mut app_state = AppState { mode: AppMode::Help, ..Default::default() };

    handle_event(press(KeyCode::Char('m')), &mut app_state);

    assert!(matches!(app_state.mode, AppMode::Normal));
}

#[test]
fn help_ignores_non_close_key() {
    let mut app_state = AppState { mode: AppMode::Help, ..Default::default() };

    handle_event(press(KeyCode::Char('c')), &mut app_state);

    assert!(matches!(app_state.mode, AppMode::Help));
}

#[test]
fn help_handler_ignores_when_not_in_help_mode() {
    let mut app_state = AppState { mode: AppMode::Normal, ..Default::default() };

    handle_event(press(KeyCode::Esc), &mut app_state);

    assert!(matches!(app_state.mode, AppMode::Normal));
}

#[test]
fn help_tab_cycles_sections_and_resets_scroll() {
    let mut app_state = AppState { mode: AppMode::Help, ..Default::default() };
    app_state.ui.help.scroll_offset = 12;

    handle_event(press(KeyCode::Tab), &mut app_state);

    assert_eq!(app_state.ui.help.active_section, HelpSection::Torrents);
    assert_eq!(app_state.ui.help.scroll_offset, 0);
    assert!(matches!(app_state.mode, AppMode::Help));
}

#[test]
fn help_arrow_keys_scroll() {
    let mut app_state = AppState { mode: AppMode::Help, ..Default::default() };

    handle_event(press(KeyCode::Down), &mut app_state);
    assert_eq!(app_state.ui.help.scroll_offset, 1);

    handle_event(press(KeyCode::Up), &mut app_state);
    assert_eq!(app_state.ui.help.scroll_offset, 0);
}

#[test]
fn layout_keeps_search_above_the_content_panel_below_the_header() {
    let layout = calculate_help_layout(Rect::new(5, 1, 110, 38), true, Some("Service notice"));
    let search = layout.search.expect("search region");
    let warning = layout.warning.expect("warning region");

    assert!(search.bottom() <= layout.tabs.y);
    assert!(layout.tabs.bottom() <= layout.panel.y);
    assert!(layout.hero.bottom() <= warning.y);
    assert!(warning.bottom() <= layout.table.y);
    assert!(layout.table.bottom() <= help_panel_inner(layout.panel, layout.density).bottom());
    assert!(layout.panel.bottom() <= layout.controls.y);
}

#[test]
fn scroll_capacity_uses_the_rendered_content_region_with_search() {
    let mut app_state = help_state(120, 30, Rect::new(5, 1, 110, 28));
    app_state.system_warning = Some("Service notice".to_string());
    app_state.ui.help.is_searching = true;
    let expected = calculate_help_layout(
        app_state.ui.help.area,
        true,
        app_state.system_warning.as_deref(),
    )
    .table;

    assert_eq!(help_table_area_for_state(&app_state), expected);
    assert_eq!(help_visible_count_for_state(&app_state), expected.height as usize);
}

#[test]
fn help_down_scroll_clamps_at_visible_bottom() {
    let facts = facts();
    let mut app_state = help_state(120, 14, Rect::new(5, 0, 110, 14));
    let max_scroll = max_help_scroll_offset(&facts, &app_state);
    assert!(max_scroll > 0);

    for _ in 0..max_scroll + 8 {
        handle_event_with_settings(press(KeyCode::Down), &mut app_state, &facts);
    }
    assert_eq!(app_state.ui.help.scroll_offset, max_scroll);

    handle_event_with_settings(press(KeyCode::Up), &mut app_state, &facts);
    assert_eq!(app_state.ui.help.scroll_offset, max_scroll - 1);
}

#[test]
fn help_display_rows_add_space_between_subsections() {
    let items = vec![
        HelpItem::new(HelpSection::General, "One", "a", "First action"),
        HelpItem::new(HelpSection::General, "Two", "b", "Second action"),
    ];

    let rows = help_display_rows(&items, false);

    assert!(matches!(rows[0], HelpDisplayRow::Heading { .. }));
    assert!(matches!(rows[1], HelpDisplayRow::Item(_)));
    assert!(matches!(rows[2], HelpDisplayRow::Spacer));
    assert!(matches!(rows[3], HelpDisplayRow::Heading { .. }));
    assert!(matches!(rows[4], HelpDisplayRow::Item(_)));
}

#[test]
fn help_legend_items_keep_visual_marker_styles() {
    let app_state = AppState::default();

    let items = build_help_items(&facts(), &app_state);

    let blue_peer = items
        .iter()
        .find(|item| item.subsection == "Peer Flags" && item.key == "Blue")
        .expect("blue peer flag help item");
    assert_eq!(blue_peer.key_style, HelpKeyStyle::PeerDownloadOpportunity);

    let read_metric = items
        .iter()
        .find(|item| item.subsection == "Disk Metrics" && item.key == "Read")
        .expect("read disk metric help item");
    assert_eq!(read_metric.key_style, HelpKeyStyle::DiskRead);
}

#[test]
fn help_includes_peer_management_route_and_screen_controls() {
    let items = build_help_items(&facts(), &AppState::default());

    assert!(items.iter().any(|item| {
        item.subsection == "Global Routes"
            && item.key == "P"
            && item.action == "Open peer management"
    }));
    assert!(items.iter().any(|item| {
        item.subsection == "Peer Management"
            && item.key == "Tab / Shift+Tab"
            && item.action.contains("Restricted")
    }));
    assert!(items.iter().any(|item| {
        item.subsection == "Peer Management"
            && item.key == "Enter"
            && item.action.contains("details")
    }));
}

#[test]
fn help_search_filters_across_all_sections() {
    let facts = facts();
    let mut app_state = AppState { mode: AppMode::Help, ..Default::default() };
    app_state.ui.help.active_section = HelpSection::General;

    handle_event(press(KeyCode::Char('/')), &mut app_state);
    for ch in "rss".chars() {
        handle_event(press(KeyCode::Char(ch)), &mut app_state);
    }

    let items = help_items_for_view(&facts, &app_state);

    assert!(app_state.ui.help.is_searching);
    assert_eq!(app_state.ui.help.search_query, "rss");
    assert!(items.iter().any(|item| item.section == HelpSection::Screens));
    assert!(items.iter().any(|item| item.action.contains("RSS")));
}

#[test]
fn help_search_tab_toggles_fuzzy_and_regex() {
    let mut app_state = AppState { mode: AppMode::Help, ..Default::default() };
    app_state.ui.help.is_searching = true;
    assert_eq!(app_state.ui.help.search_mode, SearchMode::Regex);

    handle_event(press(KeyCode::Tab), &mut app_state);

    assert_eq!(app_state.ui.help.search_mode, SearchMode::Fuzzy);

    handle_event(press(KeyCode::Tab), &mut app_state);

    assert_eq!(app_state.ui.help.search_mode, SearchMode::Regex);
}

#[test]
fn help_search_start_defaults_to_regex() {
    let mut app_state = AppState { mode: AppMode::Help, ..Default::default() };
    app_state.ui.help.search_mode = SearchMode::Fuzzy;

    handle_event(press(KeyCode::Char('/')), &mut app_state);

    assert!(app_state.ui.help.is_searching);
    assert_eq!(app_state.ui.help.search_mode, SearchMode::Regex);
}

#[test]
fn help_regex_search_filters_all_sections() {
    let mut app_state = AppState { mode: AppMode::Help, ..Default::default() };
    app_state.ui.help.is_searching = true;
    app_state.ui.help.search_mode = SearchMode::Regex;
    app_state.ui.help.search_query = "Torrent Management Y / Enter Review queued".to_string();

    let items = help_items_for_view(&facts(), &app_state);

    assert_eq!(items.len(), 1);
    assert_eq!(items[0].subsection, "Torrent Management");
    assert_eq!(items[0].key, "Y / Enter");
}

#[test]
fn help_invalid_regex_matches_no_rows() {
    let mut app_state = AppState { mode: AppMode::Help, ..Default::default() };
    app_state.ui.help.is_searching = true;
    app_state.ui.help.search_mode = SearchMode::Regex;
    app_state.ui.help.search_query = "[".to_string();

    let items = help_items_for_view(&facts(), &app_state);

    assert!(items.is_empty());
}

#[test]
fn help_esc_clears_search_before_closing() {
    let mut app_state = AppState { mode: AppMode::Help, ..Default::default() };
    app_state.ui.help.is_searching = true;
    app_state.ui.help.search_query = "path".to_string();

    handle_event(press(KeyCode::Esc), &mut app_state);

    assert!(matches!(app_state.mode, AppMode::Help));
    assert!(!app_state.ui.help.is_searching);
    assert!(app_state.ui.help.search_query.is_empty());
}

#[test]
fn help_ctrl_u_reopens_committed_search_panel() {
    let mut app_state = AppState { mode: AppMode::Help, ..Default::default() };
    app_state.ui.help.is_searching = false;
    app_state.ui.help.search_query = "queue".to_string();
    app_state.ui.help.scroll_offset = 4;

    handle_event(
        TerminalEvent::Key(KeyEvent::new(KeyCode::Char('u'), KeyModifiers::control())),
        &mut app_state,
    );

    assert!(app_state.ui.help.is_searching);
    assert!(app_state.ui.help.search_query.is_empty());
    assert_eq!(app_state.ui.help.scroll_offset, 0);
    assert!(matches!(app_state.mode, AppMode::Help));
}

#[test]
fn help_footer_includes_cluster_entries_when_present() {
    let app_state = AppState {
        cluster_role_label: Some("Leader".to_string()),
        cluster_runtime_label: Some("Reader".to_string()),
        ..Default::default()
    };

    let entries = build_help_footer_entries(&facts(), &app_state);

    assert!(entries.iter().any(|entry| entry.label == "Cluster" && entry.value == "Leader"));
    assert!(entries.iter().any(|entry| entry.label == "Runtime" && entry.value == "Reader"));
}

#[test]
fn help_footer_omits_cluster_entries_when_absent() {
    let app_state = AppState::default();

    let entries = build_help_footer_entries(&facts(), &app_state);

    assert!(!entries.iter().any(|entry| entry.label == "Cluster"));
    assert!(!entries.iter().any(|entry| entry.label == "Runtime"));
}

#[test]
fn every_section_has_something_to_say() {
    let mut app_state = AppState::default();
    let mut total = 0;
    for section in HelpSection::all() {
        app_state.ui.help.active_section = section;
        let items = help_items_for_view(&facts(), &app_state);
        assert!(!items.is_empty());
        total += items.len();
        assert_eq!(section.next().prev(), section);
    }
    assert_eq!(total, build_help_items(&facts(), &app_state).len());
    assert_eq!(total, 81);
}

#[test]
fn what_depends_on_the_session_is_said_too() {
    let mut facts = facts();
    let items = build_help_items(&facts, &AppState::default());
    let text = |key: &str| {
        items
            .iter()
            .find(|item| item.key == key)
            .map(|item| item.action.clone())
            .expect("help item")
    };
    assert_eq!(text("Progress"), "Level 3 with 42% progress to next level");
    assert_eq!(text("Watch Dir"), "Disabled");
    assert_eq!(text("Log Files"), "/logs/app*.log");
    assert_eq!(text("DHT"), "Included in this build");
    assert_eq!(text("Private mode"), "Normal public-tracker feature set");
    assert!(!items.iter().any(|item| item.key == "Shared mode"));

    facts.shared_mode = true;
    facts.has_pex = false;
    facts.settings_path = Some(String::new());
    let items = build_help_items(&facts, &AppState::default());
    let text = |key: &str| {
        items
            .iter()
            .find(|item| item.key == key)
            .map(|item| item.action.clone())
            .expect("help item")
    };
    assert_eq!(text("Settings"), "Unknown location");
    assert_eq!(text("Shared Inbox"), "Unknown location");
    assert_eq!(text("Host Watch"), "Disabled");
    assert_eq!(text("PEX"), "Not included in this private build");
    assert_eq!(
        text("Private mode"),
        "Private-tracker feature set with public discovery disabled"
    );
    assert!(items.iter().any(|item| item.key == "Shared mode"));
}

#[test]
fn a_search_puts_the_section_into_the_heading() {
    let items = vec![
        HelpItem::new(HelpSection::General, "Same", "a", "First"),
        HelpItem::new(HelpSection::Paths, "Same", "b", "Second"),
    ];
    assert_eq!(help_display_rows(&items, false).len(), 3);
    let rows = help_display_rows(&items, true);
    assert_eq!(rows.len(), 5);
    assert_eq!(
        rows[3],
        HelpDisplayRow::Heading {
            section: HelpSection::Paths,
            title: "Paths / Same".to_string()
        }
    );
    assert_eq!(rows[4], HelpDisplayRow::Item(1));
}

#[test]
fn a_warning_takes_two_or_three_rows() {
    assert_eq!(warning_height("", 40), 2);
    assert_eq!(warning_height("x", 0), 2);
    assert_eq!(warning_height(&"x".repeat(38), 40), 2);
    assert_eq!(warning_height(&"x".repeat(39), 40), 3);
    assert_eq!(warning_height(&"x".repeat(500), 40), 3);
}

#[test]
fn scrolling_ends_where_the_rows_end() {
    assert_eq!(clamped_scroll_offset(5, 10, 4), 5);
    assert_eq!(clamped_scroll_offset(9, 10, 4), 6);
    assert_eq!(clamped_scroll_offset(9, 4, 4), 0);
}

#[test]
fn tabs_shrink_with_the_width() {
    assert_eq!(help_tabs(63), HelpTabs::All(3));
    assert_eq!(help_tabs(62), HelpTabs::All(1));
    assert_eq!(help_tabs(50), HelpTabs::Neighbours);
    assert_eq!(help_tabs(31), HelpTabs::Active);
}

#[test]
fn the_heading_tells_what_is_on_view() {
    let mut app_state = AppState::default();
    assert_eq!(hero_title(HelpSection::Paths, false), "Paths");
    assert_eq!(hero_title(HelpSection::Paths, true), "Search results");
    assert_eq!(hero_count_label(7, false), "7 entries");
    assert_eq!(hero_count_label(7, true), "7 matches");
    assert_eq!(hero_description(&app_state, 20), "Move through Supe...");
    app_state.ui.help.search_query = "x".to_string();
    assert!(hero_description(&app_state, 200).starts_with("Regex matching"));
    assert_eq!(empty_help_message(&app_state), "No help entries match the search");
}

#[test]
fn cells_are_cut_to_their_columns() {
    let columns = help_columns(58);
    assert_eq!((columns.key_width, columns.column_spacing, columns.action_width), (28, 1, 27));
    let columns = help_columns(30);
    assert_eq!((columns.key_width, columns.column_spacing, columns.action_width), (15, 0, 13));
    let plain = HelpItem::new(HelpSection::General, "s", "Page Up / Page Down", "Move by a page");
    assert_eq!(help_item_key_cell(&plain, 28), "[Page Up / Page Down]");
    assert_eq!(help_item_key_cell(&plain, 10), "[Page U...");
    assert_eq!(help_item_action_cell(&plain, 9), "  Move b...");
    let marked = plain.with_key_style(HelpKeyStyle::DiskWrite).with_action_tone(ActionTone::Sort);
    assert_eq!(help_item_key_cell(&marked, 5), "↓ Page Up / Page Down");
    assert_eq!(help_heading_cell("Straße", 28), "◆ STRASSE");
}

#[test]
fn controls_shrink_with_the_width() {
    let mut app_state = AppState::default();
    assert_eq!(help_controls(&app_state, 68).len(), 4);
    assert_eq!(help_controls(&app_state, 67)[0].key, "Esc");
    assert_eq!(help_controls(&app_state, 47)[0].action, "");
    app_state.ui.help.is_searching = true;
    assert_eq!(help_controls(&app_state, 100).len(), 5);
    assert_eq!(help_controls(&app_state, 60)[1].action, "keep");
    assert_eq!(help_controls(&app_state, 40)[1].tone, ActionTone::Confirm);
}

/// All that the screen says, from the top down.
fn render_help_screen(area: Rect, app_state: &AppState) -> String {
    let facts = facts();
    let searching = help_search_panel_active(app_state);
    let items = help_items_for_view(&facts, app_state);
    let layout = calculate_help_layout(area, searching, app_state.system_warning.as_deref());
    let mut lines = Vec::new();
    if layout.search.is_some() {
        let prompt = help_search_prompt(app_state);
        lines.push(prompt.title.to_string());
        lines.push(format!(
            "{}{}",
            prompt_line(&prompt.query, true),
            match_count_label(items.len())
        ));
    }
    let active = app_state.ui.help.active_section;
    lines.push(match help_tabs(layout.tabs.width) {
        HelpTabs::All(gap) => HelpSection::all()
            .iter()
            .map(|section| section.label())
            .collect::<Vec<_>>()
            .join(&" ".repeat(gap as usize)),
        HelpTabs::Neighbours => {
            format!("‹ {}  {}  {} ›", active.prev().label(), active.label(), active.next().label())
        }
        HelpTabs::Active => format!("‹ {} ›", active.label()),
    });
    if layout.hero.height > 0 {
        lines.push(format!(
            "{} {}",
            hero_title(active, searching),
            hero_count_label(items.len(), searching)
        ));
    }
    if layout.hero.height > 2 {
        lines.push(hero_description(app_state, layout.hero.width));
    }
    if layout.warning.is_some_and(|area| area.height > 0) {
        lines.extend(app_state.system_warning.clone());
    }
    let rows = help_display_rows(&items, searching);
    let capacity = layout.table.height as usize;
    let start = clamped_scroll_offset(app_state.ui.help.scroll_offset, rows.len(), capacity);
    let columns = help_columns(layout.table.width);
    for row in rows.iter().skip(start).take(capacity) {
        lines.push(match row {
            HelpDisplayRow::Spacer => String::new(),
            HelpDisplayRow::Heading { title, .. } => help_heading_cell(title, columns.key_width),
            HelpDisplayRow::Item(position) => format!(
                "{} {}",
                help_item_key_cell(&items[*position], columns.key_width),
                help_item_action_cell(&items[*position], columns.action_width)
            ),
        });
    }
    lines.push(
        help_controls(app_state, layout.controls.width)
            .iter()
            .map(|hint| format!("[{}] {}", hint.key, hint.action))
            .collect::<Vec<_>>()
            .join(" | "),
    );
    lines.join("\n")
}

#[test]
fn compact_search_render_preserves_system_warning() {
    for height in [10, 9] {
        let mut app_state = AppState {
            system_warning: Some("Open file limit is low".to_string()),
            ..Default::default()
        };
        app_state.ui.help.is_searching = true;

        let rendered = render_help_screen(Rect::new(2, 0, 36, height), &app_state);

        assert!(
            rendered.contains("Open file limit is low"),
            "missing warning at 40x{height}:\n{rendered}"
        );
    }
}

#[test]
fn wide_help_render_keeps_classic_chrome_and_simplified_content() {
    let rendered = render_help_screen(Rect::new(5, 1, 110, 34), &AppState::default());

    assert!(!rendered.contains("FIELD INDEX"));
    assert!(!rendered.contains("FIELD NOTE"));
    for section in HelpSection::all() {
        assert!(rendered.contains(section.label()));
    }
    assert!(rendered.contains("search the manual"));
    assert!(rendered.contains("HELP NAVIGATION"));
    assert!(!rendered.contains("ROWS 1-"));
}

#[test]
fn vertical_help_renders_all_tabs_and_external_footer() {
    for area in [Rect::new(3, 1, 74, 46), Rect::new(2, 1, 56, 34)] {
        let rendered = render_help_screen(area, &AppState::default());
        for section in HelpSection::all() {
            assert!(
                rendered.contains(section.label()),
                "missing {} on {area:?}:\n{rendered}",
                section.label()
            );
        }
        assert!(!rendered.contains("FIELD INDEX"));
        assert!(rendered.contains("HELP NAVIGATION"));
        assert!(rendered.contains("[Tab] section"));
    }
}

#[test]
fn compact_and_tight_help_renders_keep_core_controls_visible() {
    for area in [Rect::new(3, 0, 74, 23), Rect::new(2, 0, 56, 18), Rect::new(2, 0, 36, 10)] {
        let rendered = render_help_screen(area, &AppState::default());
        assert!(
            rendered.contains("General"),
            "missing active section on {area:?}:\n{rendered}"
        );
    }
}

#[test]
fn search_render_keeps_prompt_results_and_global_scope_visible() {
    let mut app_state = AppState::default();
    app_state.ui.help.is_searching = true;
    app_state.ui.help.search_query = "queue".to_string();

    let rendered = render_help_screen(Rect::new(5, 1, 110, 34), &app_state);

    assert!(rendered.contains("Help Search"));
    assert!(rendered.contains("Search results"));
    assert!(rendered.contains("matches"));

    let mut tight_state = AppState::default();
    tight_state.ui.help.is_searching = true;
    tight_state.ui.help.search_query = "path".to_string();
    let tight_rendered = render_help_screen(Rect::new(2, 0, 36, 10), &tight_state);
    assert!(tight_rendered.contains("Help Search"));
}

#[test]
fn a_prompt_shows_what_is_typed() {
    assert_eq!(prompt_line("abc", true), "> abc_");
    assert_eq!(prompt_line("", false), "> ");
    assert_eq!(match_count_label(4), "  4 matches");
    let mut app_state = AppState::default();
    app_state.ui.peer_management.search_query = "quartz".to_string();
    assert_eq!(peer_search_prompt(&app_state).title, " Peer Search ");
    assert_eq!(peer_search_prompt(&app_state).query, "quartz");
    app_state.ui.peer_management.show_details = true;
    assert_eq!(peer_search_prompt(&app_state).title, " Torrent Search ");
    assert_eq!(peer_search_prompt(&app_state).query, "");
    assert_eq!(journal_search_prompt(&app_state).title, " Journal Search ");
    assert_eq!(torrent_search_prompt(&app_state).mode, SearchMode::Regex);
}
