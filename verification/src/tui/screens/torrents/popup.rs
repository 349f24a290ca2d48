//! The review of queued changes, put together.
use crate::app::{ReviewView, TorrentManagementReviewCache};
use crate::geometry::{min_int, monus, Rect};
use crate::tui::screens::torrents::footer::{
    compact_summary, footer_views, management_review_action_footer,
    management_review_compact_summary, management_review_navigation,
    management_review_safety_detail, management_review_summary_items, navigation_text,
    review_footer, safety_text, summary_views, trailing, trailing_view, wide_summary, FooterItem,
    SummaryItem, SummaryView,
};
use crate::tui::screens::torrents::panel::{
    all_lines, line_views, management_review_compact_visible_range, management_review_popup_area,
    pending_management_review_line_count, pending_management_review_sections,
    pending_management_review_visible_lines, popup_width, range_text, review_width_limit,
    section_lines, sections_of, widest_line, window, ReviewLine,
};
use crate::tui::screens::torrents::review::{
    capped_size, management_review_regions, pending_management_review_total, popup_height,
    review_body_height, review_footer_height, review_inner, review_summary_height,
    ManagementReviewAction, ManagementReviewRegions,
};
use crate::text::middle_shortened;
use vstd::prelude::*;

verus! {

/// The first line of the summary.
pub enum ReviewHeadline {
    Nothing,
    Label(String),
    Counts(Vec<SummaryItem>),
}

#[verifier::ext_equal]
pub enum HeadlineView {
    Nothing,
    Label(Seq<char>),
    Counts(Seq<SummaryView>),
}

impl View for ReviewHeadline {
    type V = HeadlineView;

    open spec fn view(&self) -> HeadlineView {
        match *self {
            ReviewHeadline::Nothing => HeadlineView::Nothing,
            ReviewHeadline::Label(label) => HeadlineView::Label(label@),
            ReviewHeadline::Counts(items) => HeadlineView::Counts(summary_views(items@)),
        }
    }
}

/// The review as it is shown: where its parts are, and what they say.
pub struct ReviewPopup {
    pub area: Rect,
    pub regions: ManagementReviewRegions,
    pub scroll_offset: usize,
    pub max_scroll: usize,
    pub text_width: u16,
    pub lines: Vec<ReviewLine>,
    pub headline: ReviewHeadline,
    pub safety: Option<(String, Option<ManagementReviewAction>)>,
    pub navigation: Option<String>,
    pub keys: Vec<FooterItem>,
    pub trailing: Option<(bool, String)>,
}

/// The rows of the summary that hold text: a line below closes it where it has
/// more than one.
pub open spec fn summary_rows(height: int) -> int {
    if height > 1 {
        height - 1
    } else {
        height
    }
}

/// How many changes there are in all.
pub open spec fn total_of(review: ReviewView) -> int {
    capped_size(
        (review.pause.len() + review.resume.len() + review.delete.len()
            + review.purge.len()) as int,
    )
}

/// The first line of the summary in regions of the given kind.
pub open spec fn headline(
    review: ReviewView,
    size: Seq<char>,
    compact: bool,
    height: int,
    width: int,
) -> HeadlineView {
    let rows = summary_rows(height);
    if height == 0 {
        HeadlineView::Nothing
    } else if compact || rows == 1 {
        HeadlineView::Label(
            compact_summary(review, size, total_of(review), rows, width as usize),
        )
    } else {
        HeadlineView::Counts(wide_summary(review, total_of(review), width))
    }
}

fn review_headline(groups: &TorrentManagementReviewCache, purge_size: &str, regions: ManagementReviewRegions) -> (line:
    ReviewHeadline)
    ensures
        line@ == headline(
            groups@,
            purge_size@,
            regions.compact,
            regions.summary.height as int,
            regions.summary.width as int,
        ),
{
    let height = regions.summary.height;
    let width = regions.summary.width;
    if height == 0 {
        return ReviewHeadline::Nothing;
    }
    let rows: u16 = if height > 1 {
        height - 1
    } else {
        height
    };
    if regions.compact || rows == 1 {
        ReviewHeadline::Label(management_review_compact_summary(groups, purge_size, rows, width))
    } else {
        ReviewHeadline::Counts(management_review_summary_items(groups, width as usize))
    }
}

/// How far a review can be scrolled.
pub open spec fn depth_of(lines: int, body_height: int) -> int {
    monus(lines, body_height)
}

/// The review of some changes on a screen; `purge_size` is the size of what is
/// purged, in words, and `review_scroll_offset` how far it is scrolled.
pub fn management_review_popup(
    groups: &TorrentManagementReviewCache,
    purge_size: &str,
    review_scroll_offset: usize,
    frame_area: Rect,
) -> (popup: ReviewPopup)
    requires
        frame_area.valid(),
        section_lines(sections_of(groups@, purge_size@)) <= usize::MAX,
    ensures
        popup.area.width == popup_width(
            widest_line(sections_of(groups@, purge_size@)) as int,
            review_width_limit(frame_area.width as int),
        ),
        popup.area.height == popup_height(frame_area.height as int),
        popup.area.x == frame_area.x + (frame_area.width - popup.area.width) / 2,
        popup.area.y == frame_area.y + (frame_area.height - popup.area.height) / 2,
        ({
            let inner = review_inner(popup.area);
            let height = inner.height as int;
            let body = review_body_height(height);
            let sections = sections_of(groups@, purge_size@);
            let lines = section_lines(sections);
            let compact = popup.regions.compact;
            let total = total_of(groups@);
            &&& popup.regions.summary == (Rect {
                height: review_summary_height(height) as u16,
                ..inner
            })
            &&& popup.regions.body == (Rect {
                y: (inner.y + review_summary_height(height)) as u16,
                height: body as u16,
                ..inner
            })
            &&& popup.regions.footer == (Rect {
                y: (inner.y + review_summary_height(height) + body) as u16,
                height: review_footer_height(height) as u16,
                ..inner
            })
            &&& compact == (inner.width < 50 || review_summary_height(height) < 3
                || review_footer_height(height) < 2)
            &&& popup.max_scroll == depth_of(lines, body)
            &&& popup.scroll_offset == min_int(review_scroll_offset as int, depth_of(lines, body))
            &&& popup.text_width == if lines > body && inner.width > 1 {
                inner.width - 1
            } else {
                inner.width as int
            }
            &&& line_views(popup.lines@) == window(
                all_lines(sections, popup.text_width as usize),
                popup.scroll_offset as int,
                capped_size(popup.scroll_offset + body),
            )
            &&& popup.headline@ == headline(
                groups@,
                purge_size@,
                compact,
                review_summary_height(height),
                inner.width as int,
            )
            &&& popup.safety is Some == (summary_rows(review_summary_height(height)) >= 2)
            &&& popup.safety matches Some((text, action)) ==> text@ == middle_shortened(
                safety_text(groups@, purge_size@, inner.width as int),
                inner.width as usize,
            ) && action == if groups@.purge.len() > 0 {
                Some(ManagementReviewAction::Purge)
            } else if groups@.delete.len() > 0 {
                Some(ManagementReviewAction::Remove)
            } else {
                None
            }
            &&& popup.navigation is Some == (review_footer_height(height) > 1)
            &&& popup.navigation matches Some(text) ==> text@ == middle_shortened(
                navigation_text(compact, popup.scroll_offset as int, body, lines, total),
                inner.width as usize,
            )
            &&& review_footer_height(height) > 1 ==> {
                &&& footer_views(popup.keys@) == review_footer(
                    total,
                    compact,
                    inner.width as int,
                ).items
                &&& popup.trailing is None
            }
            &&& review_footer_height(height) == 1 ==> {
                &&& footer_views(popup.keys@) == review_footer(total, true, inner.width as int).items
                &&& trailing_view(popup.trailing) == trailing(
                    review_footer(total, true, inner.width as int).used,
                    inner.width as int,
                    if lines > body {
                        Some(
                            range_text(
                                popup.scroll_offset as int,
                                body,
                                lines,
                                "↕0/0"@,
                                "↕"@,
                                "/"@,
                            ),
                        )
                    } else {
                        None
                    },
                )
            }
            &&& review_footer_height(height) == 0 ==> popup.keys@.len() == 0
                && popup.trailing is None
        }),
{
    let area = management_review_popup_area(frame_area, groups, purge_size);
    let regions = management_review_regions(area);
    let sections = pending_management_review_sections(groups, purge_size);
    let line_count = pending_management_review_line_count(&sections);
    let body_height: usize = regions.body.height as usize;
    let max_scroll = line_count.saturating_sub(body_height);
    let scroll_offset: usize = if review_scroll_offset <= max_scroll {
        review_scroll_offset
    } else {
        max_scroll
    };
    let width = regions.body.width;
    let text_width: u16 = if max_scroll > 0 && width > 1 {
        width - 1
    } else {
        width
    };
    let lines = pending_management_review_visible_lines(
        &sections,
        scroll_offset,
        body_height,
        text_width as usize,
    );
    let headline = review_headline(groups, purge_size, regions);
    let safety = if regions.summary.height >= 3 {
        Some(management_review_safety_detail(groups, purge_size, regions.summary.width))
    } else {
        None
    };
    let total = pending_management_review_total(groups);
    let footer = regions.footer;
    let (navigation, keys, trailing) = if footer.height == 0 {
        let keys: Vec<FooterItem> = Vec::new();
        (None, keys, None)
    } else if footer.height > 1 {
        let navigation = management_review_navigation(regions, scroll_offset, line_count, total);
        let (keys, trailing) = management_review_action_footer(
            footer.width,
            total,
            regions.compact,
            None,
        );
        (Some(navigation), keys, trailing)
    } else if line_count > body_height {
        let range = management_review_compact_visible_range(
            scroll_offset,
            body_height,
            line_count,
        );
        let (keys, trailing) = management_review_action_footer(
            footer.width,
            total,
            true,
            Some(range.as_str()),
        );
        (None, keys, trailing)
    } else {
        let (keys, trailing) = management_review_action_footer(footer.width, total, true, None);
        (None, keys, trailing)
    };
    ReviewPopup {
        area,
        regions,
        scroll_offset,
        max_scroll,
        text_width,
        lines,
        headline,
        safety,
        navigation,
        keys,
        trailing,
    }
}

} // verus!
