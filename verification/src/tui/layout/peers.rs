//! The panes of the peer management screen.
use crate::geometry::{
    asked_by_all, content_rect, inset, min_int, one_minimum, short_lengths, split_vertical,
    two_before_one_behind, vertical_spans, Constraint, Rect,
};
use vstd::prelude::*;

verus! {

#[derive(Clone, Copy, Debug, PartialEq, Eq, Structural)]
pub enum PeerBodyLayout {
    TableOnly { table: Rect },
    DetailsOnly { details: Rect },
}

#[derive(Clone, Copy, Debug, PartialEq, Eq, Structural)]
pub struct PeerScreenLayout {
    pub search: Option<Rect>,
    pub summary: Rect,
    pub body: PeerBodyLayout,
    pub footer: Rect,
}

/// The part of the screen that peer management uses.
pub open spec fn peer_frame(area: Rect) -> Rect {
    content_rect(area, 90, 18)
}

/// The part of the screen that peer management uses.
pub fn peer_content_area(area: Rect) -> (content: Rect)
    requires
        area.valid(),
    ensures
        content == peer_frame(area),
        content.valid(),
{
    if area.width < 90 || area.height < 18 {
        return area;
    }
    inset(area)
}

/// The height that search, summary, body and footer need.
pub open spec fn peer_screen_needs(search_visible: bool) -> int {
    (if search_visible { 3int } else { 0 }) + 2 + 5 + 1
}

/// The height of the body: what the other parts leave over, or five rows where
/// they leave less, as far as there are five.
pub open spec fn peer_body_height(content_height: int, search_visible: bool) -> int {
    if content_height >= peer_screen_needs(search_visible) {
        content_height - (peer_screen_needs(search_visible) - 5)
    } else {
        min_int(content_height, 5)
    }
}

/// The heights of search and summary, and of the footer. Where not all parts fit, the
/// search and the summary lose rows first.
pub open spec fn peer_side_heights(content_height: int, search_visible: bool) -> (int, int, int) {
    let search = if search_visible {
        3int
    } else {
        0
    };
    if content_height >= peer_screen_needs(search_visible) {
        (search, 2, 1)
    } else {
        short_lengths(search, 2, 5, 1, content_height)
    }
}

pub open spec fn body_area(body: PeerBodyLayout) -> Rect {
    match body {
        PeerBodyLayout::TableOnly { table } => table,
        PeerBodyLayout::DetailsOnly { details } => details,
    }
}

/// The places of all parts of the peer management screen. Below the height that
/// all parts need, the rows that are missing come off the parts around the body.
pub fn calculate_peer_screen_layout(area: Rect, search_visible: bool, show_details: bool) -> (layout:
    PeerScreenLayout)
    requires
        area.valid(),
    ensures
        layout.search is Some == search_visible,
        show_details == (layout.body is DetailsOnly),
        ({
            let content = peer_frame(area);
            let body = body_area(layout.body);
            &&& layout.summary.x == content.x && layout.summary.width == content.width
            &&& body.x == content.x && body.width == content.width
            &&& layout.footer.x == content.x && layout.footer.width == content.width
            &&& layout.search matches Some(search) ==> search.x == content.x && search.width
                == content.width && search.y == content.y && layout.summary.y == search.y
                + search.height
            &&& body.y == layout.summary.y + layout.summary.height
            &&& layout.footer.y == body.y + body.height
            &&& layout.footer.y + layout.footer.height == content.y + content.height
            &&& body.height == peer_body_height(content.height as int, search_visible)
            &&& ({
                let (search_height, summary, footer) = peer_side_heights(
                    content.height as int,
                    search_visible,
                );
                &&& layout.search matches Some(search) ==> search.height == search_height
                &&& layout.summary.y == content.y + search_height
                &&& layout.summary.height == summary
                &&& layout.footer.height == footer
            })
        }),
{
    let content = peer_content_area(area);
    let search_height: u16 = if search_visible {
        3
    } else {
        0
    };
    let mut parts: Vec<Constraint> = Vec::new();
    parts.push(Constraint::Length(search_height));
    parts.push(Constraint::Length(2));
    parts.push(Constraint::Min(5));
    parts.push(Constraint::Length(1));
    proof {
        reveal_with_fuel(asked_by_all, 5);
        assert(one_minimum(parts@, 2));
        assert(two_before_one_behind(search_height, 2, 5, 1) =~= parts@);
    }
    let vertical = split_vertical(content, &parts);
    let ghost spans = vertical_spans(vertical@);
    assert(spans.len() == 4);
    assert(spans[0] == (vertical@[0].y as int, vertical@[0].height as int));
    assert(spans[1] == (vertical@[1].y as int, vertical@[1].height as int));
    assert(spans[2] == (vertical@[2].y as int, vertical@[2].height as int));
    assert(spans[3] == (vertical@[3].y as int, vertical@[3].height as int));
    let search = if search_visible {
        Some(vertical[0])
    } else {
        None
    };
    let summary = vertical[1];
    let body_area = vertical[2];
    let footer = vertical[3];
    let body = if show_details {
        PeerBodyLayout::DetailsOnly { details: body_area }
    } else {
        PeerBodyLayout::TableOnly { table: body_area }
    };
    PeerScreenLayout { search, summary, body, footer }
}

} // verus!
