//! Where the panes of the screens go.
use superseedr::geometry::{Constraint, Rect};
use superseedr::tui::layout::common::{compute_smart_table_layout, SmartCol};
use superseedr::tui::layout::config::{
    calculate_config_layout, config_layout_kind, config_screen_area, stacked_pane_heights,
    ConfigLayoutKind, UiLayoutMode, PANE_GAP, STACKED_DETAILS_MIN_HEIGHT, STACKED_LIST_MIN_HEIGHT,
    STACKED_LIST_PERCENT,
};
use superseedr::tui::layout::peers::{
    calculate_peer_screen_layout, peer_content_area, PeerBodyLayout,
};

#[test]
fn forced_vertical_uses_two_stacked_panes() {
    let plan = calculate_config_layout(Rect::new(0, 0, 120, 40), UiLayoutMode::Vertical);

    assert_eq!(plan.kind, ConfigLayoutKind::Stacked);
    assert_eq!(plan.list_pane.x, plan.details_pane.x);
    assert!(plan.details_pane.y > plan.list_pane.y);
    assert_eq!(
        plan.details_pane.y,
        plan.list_pane.y + plan.list_pane.height + 1
    );
    assert_eq!(
        plan.footer_area.y,
        plan.panel_outer.y + plan.panel_outer.height
    );
}

#[test]
fn wide_horizontal_uses_two_side_by_side_panes() {
    let plan = calculate_config_layout(Rect::new(0, 0, 120, 40), UiLayoutMode::Horizontal);

    assert_eq!(plan.kind, ConfigLayoutKind::Wide);
    assert_eq!(plan.content_area, plan.panel_outer);
    assert!(plan.details_pane.x > plan.list_pane.x);
    assert_eq!(
        plan.details_pane.x,
        plan.list_pane.x + plan.list_pane.width + 1
    );
    assert!(plan.list_pane.width < plan.details_pane.width);
    assert_eq!(plan.list_pane.y, plan.details_pane.y);
    assert_eq!(
        plan.footer_area.y,
        plan.panel_outer.y + plan.panel_outer.height
    );
}

#[test]
fn tiny_area_uses_compact_but_keeps_footer_below_panel() {
    let plan = calculate_config_layout(Rect::new(0, 0, 50, 14), UiLayoutMode::Horizontal);

    assert_eq!(plan.kind, ConfigLayoutKind::Compact);
    assert_eq!(plan.list_pane, plan.content_area);
    assert_eq!(plan.details_pane, plan.content_area);
    assert_eq!(
        plan.footer_area.y,
        plan.panel_outer.y + plan.panel_outer.height
    );
}

#[test]
fn short_stacked_layout_falls_back_to_one_full_size_pane() {
    let plan = calculate_config_layout(Rect::new(0, 0, 80, 24), UiLayoutMode::Vertical);

    assert_eq!(plan.kind, ConfigLayoutKind::Compact);
    assert_eq!(plan.list_pane, plan.content_area);
    assert_eq!(plan.details_pane, plan.content_area);
}

#[test]
fn stacked_layout_keeps_both_panes_usable_before_following_target_ratio() {
    let minimum = calculate_config_layout(Rect::new(0, 0, 80, 31), UiLayoutMode::Vertical);

    assert_eq!(minimum.kind, ConfigLayoutKind::Stacked);
    assert_eq!(minimum.list_pane.height, STACKED_LIST_MIN_HEIGHT);
    assert_eq!(minimum.details_pane.height, STACKED_DETAILS_MIN_HEIGHT);
    assert_eq!(
        minimum.details_pane.y,
        minimum.list_pane.y + minimum.list_pane.height + PANE_GAP
    );

    let roomy = calculate_config_layout(Rect::new(0, 0, 80, 60), UiLayoutMode::Vertical);
    let pane_height = roomy.list_pane.height + roomy.details_pane.height;
    let ratio_delta = (i32::from(roomy.list_pane.height) * 100
        - i32::from(pane_height) * STACKED_LIST_PERCENT as i32)
        .abs();

    assert_eq!(roomy.kind, ConfigLayoutKind::Stacked);
    assert!(roomy.list_pane.height >= STACKED_LIST_MIN_HEIGHT);
    assert!(roomy.details_pane.height >= STACKED_DETAILS_MIN_HEIGHT);
    assert!(
        ratio_delta <= 100,
        "stacked split should stay within one row of 35%"
    );
}

#[test]
fn wide_horizontal_stays_side_by_side_at_short_usable_height() {
    let plan = calculate_config_layout(Rect::new(0, 0, 120, 18), UiLayoutMode::Horizontal);

    assert_eq!(plan.kind, ConfigLayoutKind::Wide);
    assert_eq!(plan.list_pane.y, plan.details_pane.y);
    assert!(plan.details_pane.x > plan.list_pane.x);
}

#[test]
fn details_replace_the_table_at_every_screen_width() {
    let table = calculate_peer_screen_layout(Rect::new(0, 0, 150, 40), false, false);
    assert!(matches!(table.body, PeerBodyLayout::TableOnly { .. }));

    let details = calculate_peer_screen_layout(Rect::new(0, 0, 150, 40), false, true);
    assert!(matches!(details.body, PeerBodyLayout::DetailsOnly { .. }));

    let narrow_details = calculate_peer_screen_layout(Rect::new(0, 0, 70, 24), false, true);
    assert!(matches!(
        narrow_details.body,
        PeerBodyLayout::DetailsOnly { .. }
    ));
}

#[test]
fn search_reserves_a_standard_prompt_row() {
    let without_search = calculate_peer_screen_layout(Rect::new(0, 0, 100, 30), false, false);
    let with_search = calculate_peer_screen_layout(Rect::new(0, 0, 100, 30), true, false);

    assert!(with_search.search.is_some());
    assert_eq!(with_search.search.unwrap().height, 3);
    let PeerBodyLayout::TableOnly {
        table: without_table,
    } = without_search.body
    else {
        panic!("expected table layout");
    };
    let PeerBodyLayout::TableOnly { table: with_table } = with_search.body else {
        panic!("expected table layout");
    };
    let without_table_height = without_table.height;
    let with_table_height = with_table.height;
    assert!(with_table_height < without_table_height);
}

#[test]
fn stacked_panes_share_the_height_in_round_figures() {
    assert_eq!(stacked_pane_heights(27), None);
    assert_eq!(stacked_pane_heights(28), Some((13, 14)));
    assert_eq!(stacked_pane_heights(61), Some((21, 39)));
    assert_eq!(stacked_pane_heights(0), None);
}

#[test]
fn an_upright_screen_is_stacked_unless_told_otherwise() {
    let upright = Rect::new(0, 0, 100, 61);
    let wide = Rect::new(0, 0, 100, 60);
    assert_eq!(
        config_layout_kind(upright, upright, UiLayoutMode::Auto),
        ConfigLayoutKind::Stacked
    );
    assert_eq!(
        config_layout_kind(wide, wide, UiLayoutMode::Auto),
        ConfigLayoutKind::Wide
    );
    assert_eq!(
        config_layout_kind(upright, upright, UiLayoutMode::Horizontal),
        ConfigLayoutKind::Wide
    );
}

#[test]
fn roomy_screens_keep_a_margin() {
    assert_eq!(config_screen_area(Rect::new(0, 0, 69, 40)), Rect::new(0, 0, 69, 40));
    assert_eq!(config_screen_area(Rect::new(0, 0, 70, 20)), Rect::new(1, 1, 68, 18));
    assert_eq!(peer_content_area(Rect::new(3, 4, 89, 18)), Rect::new(3, 4, 89, 18));
    assert_eq!(peer_content_area(Rect::new(3, 4, 90, 18)), Rect::new(4, 5, 88, 16));
}

#[test]
fn a_split_fills_the_area_from_top_to_bottom() {
    let layout = calculate_peer_screen_layout(Rect::new(0, 0, 80, 12), true, false);
    let search = layout.search.expect("search panel");
    let PeerBodyLayout::TableOnly { table } = layout.body else {
        panic!("expected table layout");
    };
    assert_eq!(search, Rect::new(0, 0, 80, 3));
    assert_eq!(layout.summary, Rect::new(0, 3, 80, 2));
    assert_eq!(table, Rect::new(0, 5, 80, 6));
    assert_eq!(layout.footer, Rect::new(0, 11, 80, 1));
}

#[test]
fn the_body_keeps_its_rows_where_not_all_fit() {
    let layout = calculate_peer_screen_layout(Rect::new(0, 0, 80, 6), true, true);
    let PeerBodyLayout::DetailsOnly { details } = layout.body else {
        panic!("expected details layout");
    };
    assert_eq!(details.height, 5);
    assert_eq!(layout.footer.bottom(), 6);
}

#[test]
fn columns_come_by_priority_and_stay_in_order() {
    let columns = vec![
        SmartCol { min_width: 10, priority: 2, constraint: Constraint::Length(10) },
        SmartCol { min_width: 20, priority: 0, constraint: Constraint::Fill(1) },
        SmartCol { min_width: 10, priority: 1, constraint: Constraint::Length(10) },
    ];
    let (constraints, visible) = compute_smart_table_layout(&columns, 140, 1);
    assert_eq!(visible, vec![0, 1, 2]);
    assert_eq!(constraints[1], Constraint::Fill(1));
    let (_, visible) = compute_smart_table_layout(&columns, 5, 1);
    assert_eq!(visible, vec![1]);
}
