//! The settings screen.
use superseedr::app::AppMode;
use superseedr::config::{Settings, UNLIMITED_RATE_LIMIT_BPS};
use superseedr::geometry::Rect;
use superseedr::keys::{KeyCode, KeyEvent, KeyEventKind, KeyModifiers, TerminalEvent};
use superseedr::tui::action_style::ActionTone;
use superseedr::tui::layout::config::{ConfigLayoutKind, UiLayoutMode};
use superseedr::tui::screens::config::list::{
    config_category_for_item, config_list_rows, config_setting_descriptors, descriptor_for_item,
    next_visible_setting_index, previous_visible_setting_index, selected_item,
    visible_setting_indices, ConfigCategory, ConfigItem, ConfigListRow,
};
use superseedr::tui::screens::config::panes::{
    config_footer, control_hint, details_cursor, details_pane_content_area, details_pane_lines,
    pane_content_margin, settings_pane_content_area, settings_pane_lines, ConfigTexts,
};
use superseedr::tui::screens::config::{
    controls_pane_ignores_action, decrease_rate_limit_bps, handle_event, handle_event_from,
    increase_rate_limit_bps, map_key_to_config_action, reduce_config_action,
    reduce_config_action_from, settings_focus_moves_to_details, settings_pane_ignores_action,
    toggle_config_pane, ConfigAction, ConfigCommand, ConfigEffect, ConfigHandleContext, ConfigPane,
    RATE_LIMIT_STEP_BPS,
};

fn config_items() -> Vec<ConfigItem> {
    vec![
        ConfigItem::ClientPort,
        ConfigItem::DefaultDownloadFolder,
        ConfigItem::WatchFolder,
        ConfigItem::UiLayoutMode,
        ConfigItem::AlwaysShowAddLocationPrompt,
        ConfigItem::GlobalDownloadLimit,
        ConfigItem::GlobalUploadLimit,
    ]
}

#[test]
fn descriptors_cover_existing_config_items_by_category() {
    let described_items = config_setting_descriptors()
        .iter()
        .map(|descriptor| descriptor.item)
        .collect::<Vec<_>>();

    assert_eq!(described_items.len(), config_items().len());
    for item in config_items() {
        assert!(
            described_items.contains(&item),
            "missing config descriptor for {item:?}"
        );
    }

    assert_eq!(
        config_category_for_item(ConfigItem::DefaultDownloadFolder),
        ConfigCategory::Paths
    );
    assert_eq!(
        config_category_for_item(ConfigItem::GlobalDownloadLimit),
        ConfigCategory::Downloads
    );
    assert_eq!(
        config_category_for_item(ConfigItem::ClientPort),
        ConfigCategory::Network
    );
    assert_eq!(
        config_category_for_item(ConfigItem::UiLayoutMode),
        ConfigCategory::Ui
    );
}

#[test]
fn config_list_rows_group_settings_under_category_headers() {
    let rows = config_list_rows(&config_items());

    assert_eq!(rows[0], ConfigListRow::Category(ConfigCategory::Network));
    assert_eq!(
        rows[1],
        ConfigListRow::Setting {
            global_index: 0,
            item: ConfigItem::ClientPort,
        }
    );
    assert!(rows.contains(&ConfigListRow::Category(ConfigCategory::Paths)));
    assert!(rows.contains(&ConfigListRow::Category(ConfigCategory::Downloads)));
    assert!(rows.contains(&ConfigListRow::Category(ConfigCategory::Ui)));
}

#[test]
fn visible_navigation_follows_grouped_category_order() {
    let items = config_items();

    assert_eq!(next_visible_setting_index(&items, 0), 1);
    assert_eq!(next_visible_setting_index(&items, 2), 4);
    assert_eq!(next_visible_setting_index(&items, 6), 3);
    assert_eq!(next_visible_setting_index(&items, 3), 3);
    assert_eq!(previous_visible_setting_index(&items, 3), 6);
    assert_eq!(previous_visible_setting_index(&items, 4), 2);
    assert_eq!(previous_visible_setting_index(&items, 0), 0);
}

#[test]
fn pane_content_margin_adds_adaptive_padding() {
    let narrow = pane_content_margin(Rect::new(0, 0, 24, 10));
    assert_eq!(narrow.horizontal, 1);
    assert_eq!(narrow.vertical, 1);

    let medium = pane_content_margin(Rect::new(0, 0, 38, 16));
    assert_eq!(medium.horizontal, 2);
    assert_eq!(medium.vertical, 1);

    let roomy = pane_content_margin(Rect::new(0, 0, 80, 24));
    assert_eq!(roomy.horizontal, 3);
    assert_eq!(roomy.vertical, 2);
}

#[test]
fn settings_pane_content_area_reserves_border_but_no_extra_top_padding() {
    let area = Rect::new(4, 5, 38, 16);
    let content = settings_pane_content_area(area);

    assert_eq!(content.x, area.x + 2);
    assert_eq!(content.y, area.y + 1);
    assert_eq!(content.height, area.height - 2);
}

#[test]
fn settings_pane_action_controls_move_focus_to_details() {
    assert!(settings_focus_moves_to_details(
        &ConfigAction::StartEditOrBrowse
    ));
    assert!(!settings_focus_moves_to_details(
        &ConfigAction::IncreaseSelected
    ));
    assert!(!settings_focus_moves_to_details(&ConfigAction::MoveDown));
    assert!(!settings_focus_moves_to_details(&ConfigAction::SaveAndExit));
}

#[test]
fn settings_pane_ignores_left_right_adjustment_actions() {
    assert!(settings_pane_ignores_action(
        &ConfigAction::IncreaseSelected
    ));
    assert!(settings_pane_ignores_action(
        &ConfigAction::DecreaseSelected
    ));
    assert!(!settings_pane_ignores_action(
        &ConfigAction::StartEditOrBrowse
    ));
    assert!(!settings_pane_ignores_action(&ConfigAction::MoveDown));
}

#[test]
fn controls_pane_ignores_menu_navigation_actions() {
    assert!(controls_pane_ignores_action(&ConfigAction::MoveUp));
    assert!(controls_pane_ignores_action(&ConfigAction::MoveDown));
    assert!(!controls_pane_ignores_action(
        &ConfigAction::IncreaseSelected
    ));
    assert!(!controls_pane_ignores_action(&ConfigAction::SaveAndExit));
}

#[test]
fn reducer_move_down_is_clamped() {
    let mut settings = Box::new(Settings::default());
    let mut idx = 0usize;
    let mut items = config_items();
    let mut editing = None;

    for _ in 0..10 {
        let _ = reduce_config_action(
            ConfigAction::MoveDown,
            &mut settings,
            &mut idx,
            items.as_mut_slice(),
            &mut editing,
            false,
        );
    }

    assert_eq!(idx, 3);
}

#[test]
fn reducer_edit_commit_updates_download_limit_and_emits_effect() {
    let mut settings = Box::new(Settings::default());
    let mut idx = 5usize;
    let mut items = config_items();
    let mut editing = Some((ConfigItem::GlobalDownloadLimit, "123".to_string()));

    let out = reduce_config_action(
        ConfigAction::EditCommit,
        &mut settings,
        &mut idx,
        items.as_mut_slice(),
        &mut editing,
        false,
    );

    assert_eq!(settings.global_download_limit_bps, 123);
    assert_eq!(editing, None);
    assert_eq!(out.effects.len(), 1);
    assert!(matches!(out.effects[0], ConfigEffect::SetDownloadRate(123)));
}

#[test]
fn reducer_rate_limit_arrows_keep_unlimited_as_sentinel() {
    let mut settings = Box::new(Settings::default());
    let mut idx = 5usize;
    let mut items = config_items();
    let mut editing = None;

    let out = reduce_config_action(
        ConfigAction::IncreaseSelected,
        &mut settings,
        &mut idx,
        items.as_mut_slice(),
        &mut editing,
        false,
    );
    assert_eq!(settings.global_download_limit_bps, RATE_LIMIT_STEP_BPS);
    assert!(matches!(
        out.effects.as_slice(),
        [ConfigEffect::SetDownloadRate(RATE_LIMIT_STEP_BPS)]
    ));

    let out = reduce_config_action(
        ConfigAction::DecreaseSelected,
        &mut settings,
        &mut idx,
        items.as_mut_slice(),
        &mut editing,
        false,
    );
    assert_eq!(settings.global_download_limit_bps, UNLIMITED_RATE_LIMIT_BPS);
    assert!(matches!(
        out.effects.as_slice(),
        [ConfigEffect::SetDownloadRate(UNLIMITED_RATE_LIMIT_BPS)]
    ));

    let out = reduce_config_action(
        ConfigAction::DecreaseSelected,
        &mut settings,
        &mut idx,
        items.as_mut_slice(),
        &mut editing,
        false,
    );
    assert_eq!(settings.global_download_limit_bps, 0);
    assert!(matches!(
        out.effects.as_slice(),
        [ConfigEffect::SetDownloadRate(0)]
    ));
}

#[test]
fn reducer_upload_rate_decrease_from_small_cap_returns_to_unlimited() {
    let mut settings = Box::new(Settings::default());
    settings.global_upload_limit_bps = RATE_LIMIT_STEP_BPS / 2;
    let mut idx = 6usize;
    let mut items = config_items();
    let mut editing = None;

    let out = reduce_config_action(
        ConfigAction::DecreaseSelected,
        &mut settings,
        &mut idx,
        items.as_mut_slice(),
        &mut editing,
        false,
    );

    assert_eq!(settings.global_upload_limit_bps, UNLIMITED_RATE_LIMIT_BPS);
    assert!(matches!(
        out.effects.as_slice(),
        [ConfigEffect::SetUploadRate(UNLIMITED_RATE_LIMIT_BPS)]
    ));
}

#[test]
fn reducer_boolean_row_accepts_toggle_true_and_false() {
    let mut settings = Box::new(Settings::default());
    let mut idx = 4usize;
    let mut items = config_items();
    let mut editing = None;

    let out = reduce_config_action(
        ConfigAction::ToggleSelectedBool,
        &mut settings,
        &mut idx,
        items.as_mut_slice(),
        &mut editing,
        false,
    );
    assert!(out.consumed);
    assert!(settings.always_show_add_location_prompt);

    let out = reduce_config_action(
        ConfigAction::SetSelectedBool(false),
        &mut settings,
        &mut idx,
        items.as_mut_slice(),
        &mut editing,
        false,
    );
    assert!(out.consumed);
    assert!(!settings.always_show_add_location_prompt);

    let out = reduce_config_action(
        ConfigAction::SetSelectedBool(true),
        &mut settings,
        &mut idx,
        items.as_mut_slice(),
        &mut editing,
        false,
    );
    assert!(out.consumed);
    assert!(settings.always_show_add_location_prompt);
}

#[test]
fn tab_toggles_active_config_pane() {
    let mut active_pane = ConfigPane::Settings;

    toggle_config_pane(&mut active_pane);
    assert_eq!(active_pane, ConfigPane::Details);

    toggle_config_pane(&mut active_pane);
    assert_eq!(active_pane, ConfigPane::Settings);
}

#[test]
fn reducer_invalid_port_edit_stays_in_edit_mode() {
    let mut settings = Box::new(Settings::default());
    let original_port = settings.client_port;
    let mut idx = 0usize;
    let mut items = config_items();
    let mut editing = Some((ConfigItem::ClientPort, "0".to_string()));

    let out = reduce_config_action(
        ConfigAction::EditCommit,
        &mut settings,
        &mut idx,
        items.as_mut_slice(),
        &mut editing,
        false,
    );

    assert!(out.consumed);
    assert_eq!(settings.client_port, original_port);
    assert_eq!(editing, Some((ConfigItem::ClientPort, "0".to_string())));
}

#[test]
fn reducer_save_and_exit_emits_update_config_command() {
    let mut settings = Box::new(Settings::default());
    let mut idx = 0usize;
    let mut items = config_items();
    let mut editing = None;

    let out = reduce_config_action(
        ConfigAction::SaveAndExit,
        &mut settings,
        &mut idx,
        items.as_mut_slice(),
        &mut editing,
        false,
    );

    assert_eq!(out.effects.len(), 2);
    assert!(matches!(out.effects[0], ConfigEffect::AppCommand(_)));
    assert!(matches!(out.effects[1], ConfigEffect::ToNormal));
}

fn context() -> ConfigHandleContext {
    ConfigHandleContext {
        mode: AppMode::Config,
        settings_edit: Settings::default(),
        selected_index: 0,
        items: config_items(),
        active_pane: ConfigPane::Settings,
        editing: None,
        file_browser_generation: 7,
    }
}

fn press(code: KeyCode) -> TerminalEvent {
    TerminalEvent::Key(KeyEvent::new(code, KeyModifiers::none()))
}

fn texts() -> ConfigTexts {
    ConfigTexts {
        default_download_folder: "/data/incoming".to_string(),
        watch_folder: "Not set".to_string(),
        ui_layout_mode: "Auto".to_string(),
        global_download_limit: "Unlimited".to_string(),
        global_upload_limit: "Unlimited".to_string(),
        shared_settings_path: None,
    }
}

#[test]
fn the_list_shows_every_setting_once() {
    let items = config_items();
    let mut listed = visible_setting_indices(&items);
    assert_eq!(listed, vec![0, 1, 2, 4, 5, 6, 3]);
    listed.sort();
    assert_eq!(listed, (0..items.len()).collect::<Vec<_>>());
    for index in 0..items.len() {
        let below = next_visible_setting_index(&items, index);
        if below != index {
            assert_eq!(previous_visible_setting_index(&items, below), index);
        }
    }
}

#[test]
fn a_selection_beyond_the_list_means_the_port() {
    let items = config_items();
    assert_eq!(selected_item(&items, 3), ConfigItem::UiLayoutMode);
    assert_eq!(selected_item(&items, 99), ConfigItem::ClientPort);
    assert_eq!(descriptor_for_item(ConfigItem::UiLayoutMode).label, "Layout");
    assert_eq!(ConfigCategory::Ui.label(), "UI");
}

#[test]
fn a_rate_goes_up_and_down_in_steps() {
    assert_eq!(RATE_LIMIT_STEP_BPS, 80_000);
    assert_eq!(increase_rate_limit_bps(0), UNLIMITED_RATE_LIMIT_BPS);
    assert_eq!(increase_rate_limit_bps(80_000), 160_000);
    assert_eq!(decrease_rate_limit_bps(160_000), 80_000);
    assert_eq!(decrease_rate_limit_bps(80_001), 1);
    assert_eq!(decrease_rate_limit_bps(0), 0);
    for rate in [0, 1, 80_000, 123_456, UNLIMITED_RATE_LIMIT_BPS] {
        assert_eq!(decrease_rate_limit_bps(increase_rate_limit_bps(rate)), rate);
    }
}

#[test]
fn keys_mean_digits_while_a_number_is_typed() {
    let editing = Some((ConfigItem::ClientPort, String::new()));
    assert_eq!(
        map_key_to_config_action(KeyCode::Char('7'), &editing),
        Some(ConfigAction::EditInsert('7'))
    );
    assert_eq!(map_key_to_config_action(KeyCode::Char('r'), &editing), None);
    assert_eq!(
        map_key_to_config_action(KeyCode::Esc, &editing),
        Some(ConfigAction::EditCancel)
    );
    assert_eq!(
        map_key_to_config_action(KeyCode::Char('Q'), &None),
        Some(ConfigAction::SaveAndExit)
    );
    assert_eq!(map_key_to_config_action(KeyCode::Char('q'), &None), None);
}

#[test]
fn a_port_is_typed_and_committed() {
    let mut ctx = context();
    assert!(handle_event(press(KeyCode::Enter), &mut ctx, false).0);
    assert_eq!(ctx.active_pane, ConfigPane::Details);
    assert_eq!(ctx.editing, None);
    handle_event(press(KeyCode::Enter), &mut ctx, false);
    assert_eq!(ctx.editing, Some((ConfigItem::ClientPort, String::new())));
    for digit in "65536".chars() {
        handle_event(press(KeyCode::Char(digit)), &mut ctx, false);
    }
    handle_event(press(KeyCode::Enter), &mut ctx, false);
    assert_eq!(ctx.editing, Some((ConfigItem::ClientPort, "65536".to_string())));
    handle_event(press(KeyCode::Backspace), &mut ctx, false);
    handle_event(press(KeyCode::Enter), &mut ctx, false);
    assert_eq!(ctx.editing, None);
    assert_eq!(ctx.settings_edit.client_port, 6553);
}

#[test]
fn a_typed_number_may_have_a_plus_sign() {
    let cases = [
        ("+45", Some(45)),
        ("0018446744073709551615", Some(18446744073709551615)),
        ("18446744073709551616", None),
        ("+", None),
        ("", None),
        ("-1", None),
        ("4 5", None),
    ];
    for (typed, expected) in cases {
        let mut settings = Settings::default();
        let mut index = 6usize;
        let items = config_items();
        let mut editing = Some((ConfigItem::GlobalUploadLimit, typed.to_string()));
        let out = reduce_config_action(
            ConfigAction::EditCommit,
            &mut settings,
            &mut index,
            &items,
            &mut editing,
            false,
        );
        match expected {
            Some(rate) => {
                assert_eq!(settings.global_upload_limit_bps, rate);
                assert_eq!(out.effects, vec![ConfigEffect::SetUploadRate(rate)]);
                assert_eq!(editing, None);
            }
            None => {
                assert_eq!(settings, Settings::default());
                assert!(out.effects.is_empty());
                assert!(editing.is_some());
            }
        }
    }
}

#[test]
fn a_path_is_picked_from_where_it_is() {
    let mut ctx = context();
    ctx.active_pane = ConfigPane::Details;
    ctx.selected_index = 2;
    ctx.settings_edit.watch_folder = Some("/watch".to_string());
    let (taken, effects) = handle_event(press(KeyCode::Enter), &mut ctx, false);
    assert!(taken);
    assert_eq!(ctx.file_browser_generation, 8);
    match effects.as_slice() {
        [ConfigEffect::AppCommand(command)] => match command.as_ref() {
            ConfigCommand::FetchFileTree {
                browser_generation,
                path,
                target_item,
                selected_index,
                items,
                ..
            } => {
                assert_eq!(*browser_generation, 8);
                assert_eq!(path, "/watch");
                assert_eq!(*target_item, ConfigItem::WatchFolder);
                assert_eq!(*selected_index, 2);
                assert_eq!(items, &config_items());
            }
            other => panic!("expected a request for a directory, got {other:?}"),
        },
        other => panic!("expected one effect, got {other:?}"),
    }
}

#[test]
fn an_unset_path_is_picked_from_the_download_directory() {
    for (dir, expected) in [(Some("/home/me/Downloads"), "/home/me/Downloads"), (None, ".")] {
        let mut settings = Settings::default();
        let mut index = 1usize;
        let items = config_items();
        let mut editing = None;
        let out = reduce_config_action_from(
            ConfigAction::StartEditOrBrowse,
            &mut settings,
            &mut index,
            &items,
            &mut editing,
            false,
            dir.map(str::to_string),
        );
        match out.effects.as_slice() {
            [ConfigEffect::AppCommand(command)] => match command.as_ref() {
                ConfigCommand::FetchFileTree { path, .. } => assert_eq!(path, expected),
                other => panic!("expected a request for a directory, got {other:?}"),
            },
            other => panic!("expected one effect, got {other:?}"),
        }
    }
}

#[test]
fn the_machine_is_asked_for_a_directory_to_start_in() {
    let mut ctx = context();
    ctx.active_pane = ConfigPane::Details;
    ctx.selected_index = 1;
    let (_, effects) = handle_event(press(KeyCode::Enter), &mut ctx, false);
    match effects.as_slice() {
        [ConfigEffect::AppCommand(command)] => match command.as_ref() {
            ConfigCommand::FetchFileTree { path, .. } => assert!(!path.is_empty()),
            other => panic!("expected a request for a directory, got {other:?}"),
        },
        other => panic!("expected one effect, got {other:?}"),
    }
}

#[test]
fn a_shared_path_is_left_alone() {
    for action in [ConfigAction::StartEditOrBrowse, ConfigAction::ResetSelected] {
        let mut settings = Settings::default();
        settings.default_download_folder = Some("/shared".to_string());
        let mut index = 1usize;
        let items = config_items();
        let mut editing = None;
        let out = reduce_config_action(
            action,
            &mut settings,
            &mut index,
            &items,
            &mut editing,
            true,
        );
        assert!(out.consumed);
        assert!(out.effects.is_empty());
        assert_eq!(settings.default_download_folder.as_deref(), Some("/shared"));
    }
}

#[test]
fn resetting_goes_back_to_the_first_value() {
    let items = config_items();
    for index in 0..items.len() {
        let mut settings = Settings {
            client_port: 1,
            default_download_folder: Some("a".to_string()),
            watch_folder: Some("b".to_string()),
            always_show_add_location_prompt: true,
            ui_layout_mode: UiLayoutMode::Square,
            global_download_limit_bps: 1,
            global_upload_limit_bps: 2,
        };
        let before = settings.copy();
        let mut selected = index;
        let mut editing = None;
        reduce_config_action(
            ConfigAction::ResetSelected,
            &mut settings,
            &mut selected,
            &items,
            &mut editing,
            false,
        );
        assert_ne!(settings, before);
        assert_eq!(selected, index);
    }
}

#[test]
fn the_arrangement_goes_round() {
    for mode in [
        UiLayoutMode::Auto,
        UiLayoutMode::Horizontal,
        UiLayoutMode::Vertical,
        UiLayoutMode::Square,
    ] {
        assert_ne!(mode.next(), mode);
        assert_eq!(mode.next().previous(), mode);
    }
}

#[test]
fn leaving_saves_and_takes_a_new_number() {
    let mut ctx = context();
    let (taken, effects) = handle_event(press(KeyCode::Esc), &mut ctx, false);
    assert!(taken);
    assert_eq!(ctx.mode, AppMode::Normal);
    assert_eq!(ctx.file_browser_generation, 8);
    assert_eq!(effects.len(), 2);
}

#[test]
fn releases_and_other_events_mean_nothing() {
    let mut ctx = context();
    let release = TerminalEvent::Key(KeyEvent::new_with_kind(
        KeyCode::Esc,
        KeyModifiers::none(),
        KeyEventKind::Release,
    ));
    assert!(!handle_event_from(release, &mut ctx, false, None).0);
    assert!(!handle_event_from(TerminalEvent::Other, &mut ctx, false, None).0);
    assert!(!handle_event_from(press(KeyCode::Home), &mut ctx, false, None).0);
    assert_eq!(ctx.mode, AppMode::Config);
}

#[test]
fn each_pane_ignores_the_keys_of_the_other() {
    let mut ctx = context();
    assert!(handle_event(press(KeyCode::Right), &mut ctx, false).0);
    assert_eq!(ctx.settings_edit, Settings::default());
    assert!(handle_event(press(KeyCode::Tab), &mut ctx, false).0);
    assert_eq!(ctx.active_pane, ConfigPane::Details);
    assert!(handle_event(press(KeyCode::Down), &mut ctx, false).0);
    assert_eq!(ctx.selected_index, 0);
}

#[test]
fn the_list_marks_what_is_edited() {
    let items = config_items();
    let lines = settings_pane_lines(&items, 0, &None, ConfigLayoutKind::Wide);
    assert_eq!(lines.len(), 11);
    assert_eq!(lines[0].text, "Network");
    assert!(lines[0].is_category);
    assert_eq!(lines[1].text, "▶ Listen Port");
    assert!(lines[1].highlighted);
    assert_eq!(lines[3].text, "  Default Download Folder");
    let editing = Some((ConfigItem::GlobalUploadLimit, "1".to_string()));
    let lines = settings_pane_lines(&items, 0, &editing, ConfigLayoutKind::Compact);
    assert!(!lines[1].highlighted);
    assert_eq!(lines[1].height, 2);
    assert_eq!(lines[8].text, "▶ Global Upload Limit\n");
}

#[test]
fn the_details_tell_value_and_keys() {
    let settings = Settings::default();
    let parts = texts();
    assert_eq!(
        details_pane_lines(ConfigItem::ClientPort, &settings, &None, false, &parts),
        vec![
            "Value: 6681".to_string(),
            String::new(),
            "Enter edits exact numeric value. r resets to default.".to_string(),
        ]
    );
    let editing = Some((ConfigItem::ClientPort, "80".to_string()));
    assert_eq!(
        details_pane_lines(ConfigItem::ClientPort, &settings, &editing, false, &parts)[..2],
        ["Value: [80]".to_string(), "Editing: 80".to_string()]
    );
    assert_eq!(
        details_pane_lines(ConfigItem::DefaultDownloadFolder, &settings, &None, true, &parts),
        vec![
            "Value: /data/incoming".to_string(),
            String::new(),
            "Shared mode: edit this value in settings.toml".to_string(),
            String::new(),
            "Managed by shared config. Host-local settings still save here.".to_string(),
        ]
    );
    let control = descriptor_for_item(ConfigItem::WatchFolder).control;
    assert_eq!(
        control_hint(control, ConfigItem::WatchFolder, true),
        "Enter opens the directory picker. r resets to default."
    );
}

#[test]
fn the_cursor_stays_in_its_pane() {
    let area = details_pane_content_area(Rect::new(10, 5, 24, 10));
    assert_eq!(area, Rect::new(12, 6, 20, 8));
    assert_eq!(details_cursor(area, 3), (23, 7));
    assert_eq!(details_cursor(area, 400), (31, 7));
    assert_eq!(details_pane_content_area(Rect::new(10, 5, 3, 10)), Rect::new(0, 0, 0, 0));
}

#[test]
fn the_footer_follows_the_focus() {
    let keys = config_footer(&None, ConfigPane::Details);
    assert_eq!(keys.len(), 5);
    assert_eq!(keys[3].key, "[r]");
    assert_eq!(keys[3].tone, ActionTone::Clear);
    assert_eq!(config_footer(&None, ConfigPane::Settings).len(), 3);
    let editing = Some((ConfigItem::ClientPort, String::new()));
    assert_eq!(config_footer(&editing, ConfigPane::Settings)[1].action, " to cancel.");
}
