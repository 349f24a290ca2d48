//! The panes of the settings screen.
use crate::geometry::{
    all_fixed, asked_by_all, content_rect, horizontal_spans, inset, min_int, monus, one_minimum,
    split_horizontal, split_vertical, vertical_spans, Constraint, Rect,
};
use vstd::prelude::*;

verus! {

pub const PANE_GAP: u16 = 1;

pub const STACKED_LIST_PERCENT: u32 = 35;

pub const STACKED_LIST_MIN_HEIGHT: u16 = 13;

pub const STACKED_DETAILS_MIN_HEIGHT: u16 = 14;

/// How the user wants panes to be arranged.
#[derive(Clone, Copy, Debug, PartialEq, Eq, Structural)]
pub enum UiLayoutMode {
    Auto,
    Horizontal,
    Vertical,
    Square,
}

#[derive(Clone, Copy, Debug, PartialEq, Eq, Structural)]
pub enum ConfigLayoutKind {
    /// The list beside the details.
    Wide,
    /// The list above the details.
    Stacked,
    /// One pane at a time.
    Compact,
}

#[derive(Clone, Copy, Debug, PartialEq, Eq, Structural)]
pub struct ConfigLayoutPlan {
    pub kind: ConfigLayoutKind,
    pub panel_outer: Rect,
    pub content_area: Rect,
    pub list_pane: Rect,
    pub details_pane: Rect,
    pub footer_area: Rect,
}

/// The heights of two panes one above the other: a gap lies between them, the
/// list has 35 per cent of the rest, rounded, and neither has less than its
/// minimum. Without room for both minimums there are none.
pub open spec fn stacked_heights(total_height: int) -> Option<(int, int)> {
    let available = total_height - PANE_GAP;
    if available < STACKED_LIST_MIN_HEIGHT + STACKED_DETAILS_MIN_HEIGHT {
        None
    } else {
        let share = (available * 35 + 50) / 100;
        let list = if share < STACKED_LIST_MIN_HEIGHT {
            STACKED_LIST_MIN_HEIGHT as int
        } else if share > available - STACKED_DETAILS_MIN_HEIGHT {
            available - STACKED_DETAILS_MIN_HEIGHT
        } else {
            share
        };
        Some((list, available - list))
    }
}

/// The heights of the stacked panes, if both fit.
pub fn stacked_pane_heights(total_height: u16) -> (heights: Option<(u16, u16)>)
    ensures
        heights is Some == (stacked_heights(total_height as int) is Some),
        heights matches Some((list, details)) ==> stacked_heights(total_height as int) == Some(
            (list as int, details as int),
        ),
{
    if total_height < PANE_GAP {
        return None;
    }
    let available: u16 = total_height - PANE_GAP;
    if available < STACKED_LIST_MIN_HEIGHT + STACKED_DETAILS_MIN_HEIGHT {
        return None;
    }
    let share: u32 = (available as u32 * STACKED_LIST_PERCENT + 50) / 100;
    let max_list_height: u16 = available - STACKED_DETAILS_MIN_HEIGHT;
    let list_height: u16 = if share < STACKED_LIST_MIN_HEIGHT as u32 {
        STACKED_LIST_MIN_HEIGHT
    } else if share > max_list_height as u32 {
        max_list_height
    } else {
        share as u16
    };
    Some((list_height, available - list_height))
}

/// Two stacked panes and their gap fill the height, and neither is below its
/// minimum.
pub proof fn stacked_panes_fill_the_height(total_height: int)
    ensures
        stacked_heights(total_height) matches Some((list, details)) ==> {
            &&& list + PANE_GAP + details == total_height
            &&& list >= STACKED_LIST_MIN_HEIGHT
            &&& details >= STACKED_DETAILS_MIN_HEIGHT
        },
        stacked_heights(total_height) is Some <==> total_height >= PANE_GAP
            + STACKED_LIST_MIN_HEIGHT + STACKED_DETAILS_MIN_HEIGHT,
{
}

/// The part of the screen that the settings use.
pub open spec fn config_frame(area: Rect) -> Rect {
    content_rect(area, 70, 20)
}

/// The part of the screen that the settings use.
pub fn config_screen_area(area: Rect) -> (framed: Rect)
    requires
        area.valid(),
    ensures
        framed == config_frame(area),
        framed.valid(),
{
    if area.width < 70 || area.height < 20 {
        return area;
    }
    inset(area)
}

/// How the panes are arranged on a screen whose content has the given height.
/// A screen taller than three fifths of its width counts as upright.
pub open spec fn arrangement(area: Rect, content_height: int, mode: UiLayoutMode) -> ConfigLayoutKind {
    if area.width < 60 || area.height < 18 {
        ConfigLayoutKind::Compact
    } else {
        let upright = 5 * area.height > 3 * area.width;
        let preferred = match mode {
            UiLayoutMode::Vertical | UiLayoutMode::Square => ConfigLayoutKind::Stacked,
            UiLayoutMode::Horizontal => if area.width >= 100 {
                ConfigLayoutKind::Wide
            } else {
                ConfigLayoutKind::Stacked
            },
            UiLayoutMode::Auto => if area.width < 100 || upright {
                ConfigLayoutKind::Stacked
            } else {
                ConfigLayoutKind::Wide
            },
        };
        if preferred == ConfigLayoutKind::Stacked && stacked_heights(content_height) is None {
            ConfigLayoutKind::Compact
        } else {
            preferred
        }
    }
}

/// How the panes are arranged.
pub fn config_layout_kind(area: Rect, content_area: Rect, layout_mode: UiLayoutMode) -> (kind:
    ConfigLayoutKind)
    ensures
        kind == arrangement(area, content_area.height as int, layout_mode),
{
    if area.width < 60 || area.height < 18 {
        return ConfigLayoutKind::Compact;
    }
    let preferred = match layout_mode {
        UiLayoutMode::Vertical | UiLayoutMode::Square => ConfigLayoutKind::Stacked,
        UiLayoutMode::Horizontal => {
            if area.width >= 100 {
                ConfigLayoutKind::Wide
            } else {
                ConfigLayoutKind::Stacked
            }
        },
        UiLayoutMode::Auto => {
            let is_narrow = area.width < 100;
            let is_vertical_aspect = area.height as u32 * 5 > area.width as u32 * 3;
            if is_narrow || is_vertical_aspect {
                ConfigLayoutKind::Stacked
            } else {
                ConfigLayoutKind::Wide
            }
        },
    };
    if preferred == ConfigLayoutKind::Stacked && stacked_pane_heights(
        content_area.height,
    ).is_none() {
        ConfigLayoutKind::Compact
    } else {
        preferred
    }
}

/// The width of the list beside the details.
pub const WIDE_LIST_WIDTH: u16 = 38;

/// The places of all parts of the settings screen.
pub fn calculate_config_layout(area: Rect, layout_mode: UiLayoutMode) -> (plan: ConfigLayoutPlan)
    requires
        area.valid(),
    ensures
        plan.content_area == plan.panel_outer,
        plan.kind == arrangement(area, plan.content_area.height as int, layout_mode),
        plan.panel_outer.x == config_frame(area).x,
        plan.panel_outer.y == config_frame(area).y,
        plan.panel_outer.width == config_frame(area).width,
        plan.footer_area.x == config_frame(area).x,
        plan.footer_area.y == plan.panel_outer.y + plan.panel_outer.height,
        plan.footer_area.width == config_frame(area).width,
        plan.panel_outer.height + plan.footer_area.height == config_frame(area).height,
        plan.footer_area.height == min_int(monus(config_frame(area).height as int, 3), 1),
        plan.kind == ConfigLayoutKind::Compact ==> plan.list_pane == plan.content_area
            && plan.details_pane == plan.content_area,
        plan.kind == ConfigLayoutKind::Stacked ==> {
            &&& plan.list_pane.x == plan.content_area.x && plan.list_pane.width
                == plan.content_area.width
            &&& plan.details_pane.x == plan.content_area.x && plan.details_pane.width
                == plan.content_area.width
            &&& stacked_heights(plan.content_area.height as int) == Some(
                (plan.list_pane.height as int, plan.details_pane.height as int),
            )
            &&& plan.list_pane.y == plan.content_area.y
            &&& plan.details_pane.y == plan.list_pane.y + plan.list_pane.height + PANE_GAP
        },
        plan.kind == ConfigLayoutKind::Wide ==> {
            &&& plan.list_pane.y == plan.content_area.y && plan.list_pane.height
                == plan.content_area.height
            &&& plan.details_pane.y == plan.content_area.y && plan.details_pane.height
                == plan.content_area.height
            &&& plan.list_pane.x == plan.content_area.x && plan.list_pane.width == WIDE_LIST_WIDTH
            &&& plan.details_pane.x == plan.list_pane.x + plan.list_pane.width + PANE_GAP
            &&& plan.details_pane.x + plan.details_pane.width == plan.content_area.x
                + plan.content_area.width
        },
{
    let framed = config_screen_area(area);
    let mut parts: Vec<Constraint> = Vec::new();
    parts.push(Constraint::Min(3));
    parts.push(Constraint::Length(1));
    proof {
        reveal_with_fuel(asked_by_all, 3);
        assert(one_minimum(parts@, 0));
    }
    let main = split_vertical(framed, &parts);
    let ghost spans = vertical_spans(main@);
    assert(spans.len() == 2);
    let panel_outer = main[0];
    let footer_area = main[1];
    assert(spans[0] == (panel_outer.y as int, panel_outer.height as int));
    assert(spans[1] == (footer_area.y as int, footer_area.height as int));
    let content_area = panel_outer;
    let kind = config_layout_kind(area, content_area, layout_mode);
    let (list_pane, details_pane) = match kind {
        ConfigLayoutKind::Wide => {
            let mut parts: Vec<Constraint> = Vec::new();
            parts.push(Constraint::Length(WIDE_LIST_WIDTH));
            parts.push(Constraint::Length(PANE_GAP));
            parts.push(Constraint::Min(40));
            proof {
                reveal_with_fuel(asked_by_all, 4);
                assert(one_minimum(parts@, 2));
            }
            let panes = split_horizontal(content_area, &parts);
            let ghost spans = horizontal_spans(panes@);
            assert(spans.len() == 3);
            assert(spans[0] == (panes@[0].x as int, panes@[0].width as int));
            assert(spans[1] == (panes@[1].x as int, panes@[1].width as int));
            assert(spans[2] == (panes@[2].x as int, panes@[2].width as int));
            (panes[0], panes[2])
        },
        ConfigLayoutKind::Stacked => {
            let (list_height, details_height) = stacked_pane_heights(content_area.height).unwrap();
            let mut parts: Vec<Constraint> = Vec::new();
            parts.push(Constraint::Length(list_height));
            parts.push(Constraint::Length(PANE_GAP));
            parts.push(Constraint::Length(details_height));
            proof {
                reveal_with_fuel(asked_by_all, 4);
                assert(all_fixed(parts@));
            }
            let panes = split_vertical(content_area, &parts);
            let ghost spans = vertical_spans(panes@);
            assert(spans.len() == 3);
            assert(spans[0] == (panes@[0].y as int, panes@[0].height as int));
            assert(spans[1] == (panes@[1].y as int, panes@[1].height as int));
            assert(spans[2] == (panes@[2].y as int, panes@[2].height as int));
            (panes[0], panes[2])
        },
        ConfigLayoutKind::Compact => (content_area, content_area),
    };
    ConfigLayoutPlan { kind, panel_outer, content_area, list_pane, details_pane, footer_area }
}

} // verus!
