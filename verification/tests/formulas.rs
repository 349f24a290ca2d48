//! Sizes that are worked out, held against their formulas at every small size.
use superseedr::quantities::{byte_unit, count_unit};
use superseedr::geometry::Rect;
use superseedr::tui::layout::config::{calculate_config_layout, ConfigLayoutKind, UiLayoutMode};
use superseedr::tui::layout::peers::{calculate_peer_screen_layout, PeerBodyLayout};
use superseedr::tui::screens::config::list::ConfigItem;
use superseedr::tui::screens::config::{
    event_needs_selection, ConfigHandleContext, ConfigPane,
};
use superseedr::app::{AppMode, AppState, TorrentManagementReviewCache};
use superseedr::config::Settings;
use superseedr::keys::{KeyCode, KeyEvent, KeyModifiers, TerminalEvent};
use superseedr::tui::screens::help::{calculate_help_layout, help_panel_inner, HelpDensity};
use superseedr::tui::screens::journal::calculate_journal_layout;
use superseedr::tui::screens::torrents::panel::centered_line_rect;
use superseedr::tui::screens::torrents::popup::management_review_popup;
use superseedr::tui::screens::torrents::review::management_review_regions;
use superseedr::tui::screens::torrents::rows::ordered_torrent_hashes;

fn panel_height(height: u16) -> u16 {
    if height >= 3 {
        height - 2
    } else {
        height.min(1)
    }
}

#[test]
fn journal_heights_follow_their_formula() {
    for height in 0..40u16 {
        for searching in [false, true] {
            let layout = calculate_journal_layout(Rect::new(3, 5, 50, height), searching);
            let list = if searching && height >= 7 { height - 3 } else { height };
            assert_eq!(layout.panel.height, panel_height(list), "{height} {searching}");
            let inner = panel_height(list).saturating_sub(2);
            let table = if inner >= 5 { inner - 2 } else { inner };
            assert_eq!(layout.table.height, table, "{height} {searching}");
            assert_eq!(layout.detail.is_some(), inner >= 5);
            assert_eq!(layout.footer.bottom(), 5 + height);
            assert_eq!(layout.panel.bottom(), layout.footer.y);
            assert_eq!(layout.header.bottom(), layout.panel.y);
            assert!(layout.header.height <= 1 && layout.footer.height <= 1);
        }
    }
}

#[test]
fn help_heights_follow_their_formula() {
    for width in [20u16, 67, 80, 120] {
        for height in 0..45u16 {
            for warning in [None, Some("A notice that takes more than one line on a small screen")] {
                for searching in [false, true] {
                    let layout =
                        calculate_help_layout(Rect::new(1, 2, width, height), searching, warning);
                    let list = if searching && height >= 6 { height - 3 } else { height };
                    assert_eq!(layout.panel.height, panel_height(list));
                    let inner = help_panel_inner(layout.panel, layout.density);
                    let rows = match warning {
                        None => 0,
                        Some(text) => {
                            let usable = usize::from(inner.width.saturating_sub(2).max(1));
                            let lines = text.chars().count().div_ceil(usable);
                            if lines <= 1 {
                                2
                            } else {
                                3
                            }
                        }
                    };
                    let (hero, least) = match (layout.density, warning) {
                        (HelpDensity::Compact, Some(_)) => {
                            let hero =
                                inner.height.saturating_sub(rows).saturating_sub(1).min(1);
                            (hero, u16::from(inner.height > rows + hero))
                        }
                        (HelpDensity::Compact, None) => (1, 1),
                        _ => (3, 1),
                    };
                    let above = hero + rows;
                    let table = if above + least <= inner.height {
                        inner.height - above
                    } else {
                        least.min(inner.height)
                    };
                    assert_eq!(layout.table.height, table, "{width}x{height} {searching}");
                    assert_eq!(layout.table.bottom(), inner.bottom());
                    assert_eq!(layout.controls.bottom(), 2 + height);
                    assert!(layout.tabs.height <= 1 && layout.controls.height <= 1);
                    if let Some(area) = layout.warning {
                        assert_eq!(layout.hero.height, hero, "{width}x{height} {searching}");
                        assert_eq!(area.height, rows.min(inner.height));
                    }
                }
            }
        }
    }
}

#[test]
fn peer_heights_follow_their_formula() {
    for height in 0..40u16 {
        for searching in [false, true] {
            let layout =
                calculate_peer_screen_layout(Rect::new(0, 7, 80, height), searching, false);
            let PeerBodyLayout::TableOnly { table } = layout.body else {
                panic!("expected a table");
            };
            let needed = if searching { 11 } else { 8 };
            let body = if height >= needed { height - (needed - 5) } else { height.min(5) };
            assert_eq!(table.height, body, "{height} {searching}");
            assert_eq!(layout.footer.bottom(), 7 + height);
            assert_eq!(layout.summary.bottom(), table.y);
            let sides = (layout.search.map(|area| area.height), layout.summary.height);
            let expected = match (searching, height) {
                (false, 0..=6) => (None, 0),
                (false, 7) => (None, 1),
                (false, _) => (None, 2),
                (true, 0..=6) => (Some(0), 0),
                (true, 7) => (Some(1), 0),
                (true, 8) => (Some(1), 1),
                (true, 9) => (Some(2), 1),
                (true, 10) => (Some(2), 2),
                (true, _) => (Some(3), 2),
            };
            assert_eq!(sides, expected, "{height} {searching}");
            assert_eq!(layout.footer.height, u16::from(height >= 6));
        }
    }
}

#[test]
fn config_panes_follow_their_formula() {
    for height in 0..60u16 {
        for width in [40u16, 70, 99, 100, 140] {
            for mode in [
                UiLayoutMode::Auto,
                UiLayoutMode::Horizontal,
                UiLayoutMode::Vertical,
                UiLayoutMode::Square,
            ] {
                let plan = calculate_config_layout(Rect::new(0, 0, width, height), mode);
                let inset = u16::from(width >= 70 && height >= 20);
                let content = height - 2 * inset;
                assert_eq!(plan.footer_area.height, content.saturating_sub(3).min(1));
                assert_eq!(plan.panel_outer.height + plan.footer_area.height, content);
                match plan.kind {
                    ConfigLayoutKind::Wide => {
                        assert_eq!(plan.list_pane.width, 38);
                        assert_eq!(plan.details_pane.x, plan.list_pane.right() + 1);
                        assert_eq!(plan.details_pane.right(), plan.content_area.right());
                    }
                    ConfigLayoutKind::Stacked => {
                        assert!(plan.list_pane.height >= 13 && plan.details_pane.height >= 14);
                        assert_eq!(plan.details_pane.y, plan.list_pane.bottom() + 1);
                        assert_eq!(plan.details_pane.bottom(), plan.content_area.bottom());
                    }
                    ConfigLayoutKind::Compact => {
                        assert_eq!(plan.list_pane, plan.content_area);
                    }
                }
            }
        }
    }
}

#[test]
fn review_regions_follow_their_formula() {
    for height in 0..40u16 {
        let regions = management_review_regions(Rect::new(0, 0, 60, height));
        let inner = height.saturating_sub(2);
        let footer = (if inner >= 8 { 2 } else { 1 }).min(inner.saturating_sub(1));
        let summary = (if inner >= 9 { 3 } else { 2 })
            .min(inner.saturating_sub(footer).saturating_sub(1));
        assert_eq!(regions.footer.height, footer, "{height}");
        assert_eq!(regions.summary.height, summary, "{height}");
        assert_eq!(regions.body.height, inner - footer - summary, "{height}");
    }
}

#[test]
fn a_review_stands_in_the_middle() {
    let groups = TorrentManagementReviewCache {
        pause: vec!["One".to_string(), "Two".to_string()],
        ..Default::default()
    };
    let popup = management_review_popup(&groups, "0.00 GB", 99, Rect::new(0, 0, 100, 30));
    assert_eq!(popup.area, Rect::new(14, 2, 72, 26));
    assert_eq!((popup.scroll_offset, popup.max_scroll), (0, 0));
    assert_eq!(popup.lines.len(), 3);
    assert_eq!(popup.navigation.as_deref(), Some("All 2 queued changes visible"));
}

#[test]
fn the_middle_line_of_an_area() {
    assert_eq!(centered_line_rect(Rect::new(2, 3, 10, 5)), Rect::new(2, 5, 10, 1));
    assert_eq!(centered_line_rect(Rect::new(2, 3, 10, 0)), Rect::new(2, 3, 10, 1));
}

#[test]
fn only_the_details_act_on_the_selected_setting() {
    let mut ctx = ConfigHandleContext {
        mode: AppMode::Config,
        settings_edit: Settings::default(),
        selected_index: 3,
        items: vec![ConfigItem::ClientPort],
        active_pane: ConfigPane::Settings,
        editing: None,
        file_browser_generation: 0,
    };
    let press = |code| TerminalEvent::Key(KeyEvent::new(code, KeyModifiers::none()));
    assert!(!event_needs_selection(press(KeyCode::Enter), &ctx));
    ctx.active_pane = ConfigPane::Details;
    assert!(event_needs_selection(press(KeyCode::Enter), &ctx));
    assert!(!event_needs_selection(press(KeyCode::Esc), &ctx));
    assert!(!event_needs_selection(TerminalEvent::Other, &ctx));
}

#[test]
fn an_empty_session_lists_no_torrents() {
    assert!(ordered_torrent_hashes(&AppState::default()).is_empty());
}

#[test]
fn quantities_are_written_in_the_largest_unit_that_they_reach() {
    let count = |value| count_unit(value).map(|unit| (unit.size, unit.name));
    assert_eq!(count(999), None);
    assert_eq!(count(1_000), Some((1_000, "K")));
    assert_eq!(count(999_999), Some((1_000, "K")));
    assert_eq!(count(1_000_000), Some((1_000_000, "M")));
    assert_eq!(count(u64::MAX), Some((1_000_000_000_000_000_000, "E")));
    let bytes = |value| byte_unit(value).map(|unit| (unit.size, unit.name));
    assert_eq!(bytes(1_023), None);
    assert_eq!(bytes(1_024), Some((1 << 10, "KB")));
    assert_eq!(bytes((1 << 40) - 1), Some((1 << 30, "GB")));
    assert_eq!(bytes(1 << 50), Some((1 << 50, "PB")));
    assert_eq!(bytes(u64::MAX), Some((1 << 60, "EB")));
}
