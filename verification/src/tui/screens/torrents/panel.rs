//! The texts of the review and of the footers, fitted to the room there is.
use crate::app::{ReviewView, TorrentManagementReviewCache};
use crate::geometry::{max_int, min_int, monus, Rect};
use crate::lists::texts;
use crate::text::{
    decimal, format_number, join, join3, middle_shortened, owned, terminal_text_width, text_width,
    truncate_middle_with_ellipsis,
};
use crate::tui::screens::torrents::review::{
    action_title, capped_size, management_review_popup_height, popup_height, present, review_lines,
    ManagementReviewAction,
};
use vstd::prelude::*;
use vstd::string::{StrSliceExecFns, StringExecFns};

verus! {

// -------------------------------------------------------------- the sections

/// One kind of change under review: its names, and for a purge the size of what
/// it frees.
pub struct ManagementReviewSection<'a> {
    pub action: ManagementReviewAction,
    pub names: &'a Vec<String>,
    pub detail: Option<String>,
}

#[verifier::ext_equal]
pub struct SectionView {
    pub action: ManagementReviewAction,
    pub names: Seq<Seq<char>>,
    pub detail: Option<Seq<char>>,
}

impl<'a> View for ManagementReviewSection<'a> {
    type V = SectionView;

    open spec fn view(&self) -> SectionView {
        SectionView {
            action: self.action,
            names: texts(self.names@),
            detail: crate::app::text_view(self.detail),
        }
    }
}

pub open spec fn section_views(sections: Seq<ManagementReviewSection>) -> Seq<SectionView> {
    sections.map_values(|section: ManagementReviewSection| section@)
}

/// A section, if there are names for it.
pub open spec fn section_if_any(
    action: ManagementReviewAction,
    names: Seq<Seq<char>>,
    detail: Option<Seq<char>>,
) -> Seq<SectionView> {
    if names.len() == 0 {
        Seq::empty()
    } else {
        seq![SectionView { action, names, detail }]
    }
}

/// The sections of a review: one for each kind that occurs.
pub open spec fn sections_of(review: ReviewView, purge_size: Seq<char>) -> Seq<SectionView> {
    section_if_any(ManagementReviewAction::Pause, review.pause, None) + section_if_any(
        ManagementReviewAction::Resume,
        review.resume,
        None,
    ) + section_if_any(ManagementReviewAction::Remove, review.delete, None) + section_if_any(
        ManagementReviewAction::Purge,
        review.purge,
        Some(purge_size),
    )
}

/// The sections of a review; `purge_size` is the size of what is purged, in words.
pub fn pending_management_review_sections<'a>(
    groups: &'a TorrentManagementReviewCache,
    purge_size: &str,
) -> (sections: Vec<ManagementReviewSection<'a>>)
    ensures
        section_views(sections@) == sections_of(groups@, purge_size@),
        sections@.len() <= 4,
{
    let mut sections: Vec<ManagementReviewSection<'a>> = Vec::new();
    if groups.pause.len() > 0 {
        sections.push(
            ManagementReviewSection {
                action: ManagementReviewAction::Pause,
                names: &groups.pause,
                detail: None,
            },
        );
    }
    if groups.resume.len() > 0 {
        sections.push(
            ManagementReviewSection {
                action: ManagementReviewAction::Resume,
                names: &groups.resume,
                detail: None,
            },
        );
    }
    if groups.delete.len() > 0 {
        sections.push(
            ManagementReviewSection {
                action: ManagementReviewAction::Remove,
                names: &groups.delete,
                detail: None,
            },
        );
    }
    if groups.purge.len() > 0 {
        sections.push(
            ManagementReviewSection {
                action: ManagementReviewAction::Purge,
                names: &groups.purge,
                detail: Some(owned(purge_size)),
            },
        );
    }
    assert(section_views(sections@) =~= sections_of(groups@, purge_size@));
    sections
}

/// The names and headers of some sections.
pub open spec fn names_and_headers(sections: Seq<SectionView>) -> int
    decreases sections.len(),
{
    if sections.len() == 0 {
        0
    } else {
        names_and_headers(sections.drop_last()) + 1 + sections.last().names.len()
    }
}

/// The lines of some sections: headers, names, and a blank line between two.
pub open spec fn section_lines(sections: Seq<SectionView>) -> int {
    names_and_headers(sections) + monus(sections.len() as int, 1)
}

/// Fewer sections have fewer lines.
proof fn fewer_sections(sections: Seq<SectionView>, n: int)
    requires
        0 <= n <= sections.len(),
    ensures
        0 <= names_and_headers(sections.take(n)) <= names_and_headers(sections),
    decreases sections.len(),
{
    if n < sections.len() {
        fewer_sections(sections.drop_last(), n);
        assert(sections.drop_last().take(n) =~= sections.take(n));
    } else {
        assert(sections.take(n) =~= sections);
        if n > 0 {
            fewer_sections(sections.drop_last(), n - 1);
            assert(sections.drop_last().take(n - 1) =~= sections.drop_last());
        }
    }
}

/// The lines of a review.
pub fn pending_management_review_line_count(sections: &Vec<ManagementReviewSection>) -> (lines:
    usize)
    requires
        section_lines(section_views(sections@)) <= usize::MAX,
    ensures
        lines == section_lines(section_views(sections@)),
{
    let ghost all = section_views(sections@);
    let mut lines: usize = 0;
    let mut k: usize = 0;
    while k < sections.len()
        invariant
            k <= sections@.len(),
            all == section_views(sections@),
            section_lines(all) <= usize::MAX,
            lines == names_and_headers(all.take(k as int)),
        decreases sections@.len() - k,
    {
        proof {
            fewer_sections(all, k + 1);
            assert(all.take(k + 1).drop_last() =~= all.take(k as int));
            assert(all.take(k + 1).last() == sections@[k as int]@);
            assert(texts(sections@[k as int].names@).len() == sections@[k as int].names@.len());
        }
        lines = lines + 1 + sections[k].names.len();
        k = k + 1;
    }
    assert(all.take(k as int) =~= all);
    if sections.len() > 1 {
        lines = lines + (sections.len() - 1);
    }
    lines
}

/// Counting the lines of the sections and counting drafts give the same number.
pub proof fn section_lines_are_the_summary_lines(review: ReviewView, purge_size: Seq<char>)
    ensures
        section_lines(sections_of(review, purge_size)) == review_lines(
            review.pause.len() as int,
            review.resume.len() as int,
            review.delete.len() as int,
            review.purge.len() as int,
        ),
{
    let a = section_if_any(ManagementReviewAction::Pause, review.pause, None);
    let b = section_if_any(ManagementReviewAction::Resume, review.resume, None);
    let c = section_if_any(ManagementReviewAction::Remove, review.delete, None);
    let d = section_if_any(ManagementReviewAction::Purge, review.purge, Some(purge_size));
    sections_add_up(a, b);
    sections_add_up(a + b, c);
    sections_add_up(a + b + c, d);
    section_of_one(ManagementReviewAction::Pause, review.pause, None);
    section_of_one(ManagementReviewAction::Resume, review.resume, None);
    section_of_one(ManagementReviewAction::Remove, review.delete, None);
    section_of_one(ManagementReviewAction::Purge, review.purge, Some(purge_size));
}

proof fn section_of_one(
    action: ManagementReviewAction,
    names: Seq<Seq<char>>,
    detail: Option<Seq<char>>,
)
    ensures
        names_and_headers(section_if_any(action, names, detail)) == names.len() + present(
            names.len() as int,
        ),
{
    reveal_with_fuel(names_and_headers, 2);
}

proof fn sections_add_up(a: Seq<SectionView>, b: Seq<SectionView>)
    ensures
        names_and_headers(a + b) == names_and_headers(a) + names_and_headers(b),
    decreases b.len(),
{
    if b.len() == 0 {
        assert(a + b =~= a);
    } else {
        sections_add_up(a, b.drop_last());
        assert((a + b).drop_last() =~= a + b.drop_last());
    }
}

// ----------------------------------------------------------------- the lines

pub open spec fn torrents_noun(count: int) -> Seq<char> {
    if count == 1 {
        "Torrent"@
    } else {
        "Torrents"@
    }
}

pub open spec fn in_brackets(detail: Option<Seq<char>>) -> Seq<char> {
    match detail {
        Some(detail) => " ("@ + detail + ")"@,
        None => Seq::empty(),
    }
}

/// What follows the title in a header: how many torrents, and the detail.
pub open spec fn header_suffix(count: int, detail: Option<Seq<char>>) -> Seq<char> {
    ": "@ + decimal(count as nat) + " "@ + torrents_noun(count) + in_brackets(detail)
}

pub open spec fn str_view(text: Option<&str>) -> Option<Seq<char>> {
    match text {
        Some(text) => Some(text@),
        None => None,
    }
}

fn bracketed(detail: Option<&str>) -> (text: String)
    ensures
        text@ == in_brackets(str_view(detail)),
{
    match detail {
        Some(detail) => join3(" (", detail, ")"),
        None => String::new(),
    }
}

/// What follows the title in a header.
pub fn section_header_suffix(count: usize, detail: Option<&str>) -> (suffix: String)
    ensures
        suffix@ == header_suffix(count as int, str_view(detail)),
{
    let mut suffix = join3(": ", format_number(count as u64).as_str(), " ");
    suffix.append(
        if count == 1 {
            "Torrent"
        } else {
            "Torrents"
        },
    );
    suffix.append(bracketed(detail).as_str());
    suffix
}

pub open spec fn compact_suffix(count: int, detail: Option<Seq<char>>) -> Seq<char> {
    ": "@ + decimal(count as nat) + in_brackets(detail)
}

/// The two parts of a header for a number of columns: the full one if it fits,
/// or else one without the noun, or else that one shortened.
pub open spec fn header_parts(
    title: Seq<char>,
    count: int,
    detail: Option<Seq<char>>,
    max_width: usize,
) -> (Seq<char>, Seq<char>) {
    if text_width(title + header_suffix(count, detail)) <= max_width {
        (title, header_suffix(count, detail))
    } else if text_width(title + compact_suffix(count, detail)) <= max_width {
        (title, compact_suffix(count, detail))
    } else {
        (middle_shortened(title + compact_suffix(count, detail), max_width), Seq::empty())
    }
}

/// The two parts of a header for a number of columns.
pub fn management_review_header_parts(
    title: &str,
    count: usize,
    detail: Option<&str>,
    max_width: usize,
) -> (parts: (String, String))
    ensures
        (parts.0@, parts.1@) == header_parts(title@, count as int, str_view(detail), max_width),
{
    let full_suffix = section_header_suffix(count, detail);
    let full = join(title, full_suffix.as_str());
    if terminal_text_width(full.as_str()) <= max_width {
        return (owned(title), full_suffix);
    }
    let compact_suffix = join3(
        ": ",
        format_number(count as u64).as_str(),
        bracketed(detail).as_str(),
    );
    let compact = join(title, compact_suffix.as_str());
    if terminal_text_width(compact.as_str()) <= max_width {
        return (owned(title), compact_suffix);
    }
    (truncate_middle_with_ellipsis(compact.as_str(), max_width), String::new())
}

/// A line of the review.
#[derive(Clone, Debug, PartialEq, Eq)]
pub enum ReviewLine {
    Blank,
    Header { action: ManagementReviewAction, title: String, suffix: String },
    Name(String),
}

#[verifier::ext_equal]
pub enum LineView {
    Blank,
    Header(ManagementReviewAction, Seq<char>, Seq<char>),
    Name(Seq<char>),
}

impl View for ReviewLine {
    type V = LineView;

    open spec fn view(&self) -> LineView {
        match *self {
            ReviewLine::Blank => LineView::Blank,
            ReviewLine::Header { action, title, suffix } => LineView::Header(
                action,
                title@,
                suffix@,
            ),
            ReviewLine::Name(name) => LineView::Name(name@),
        }
    }
}

pub open spec fn line_views(lines: Seq<ReviewLine>) -> Seq<LineView> {
    lines.map_values(|line: ReviewLine| line@)
}

/// The lines of the names of a section, after a bullet of two columns.
pub open spec fn name_lines(names: Seq<Seq<char>>, width: usize) -> Seq<LineView> {
    names.map_values(
        |name: Seq<char>| LineView::Name(middle_shortened(name, monus(width as int, 2) as usize)),
    )
}

pub open spec fn header_line(section: SectionView, width: usize) -> LineView {
    let parts = header_parts(
        action_title(section.action),
        section.names.len() as int,
        section.detail,
        width,
    );
    LineView::Header(section.action, parts.0, parts.1)
}

/// All lines of a review, from top to bottom.
pub open spec fn all_lines(sections: Seq<SectionView>, width: usize) -> Seq<LineView>
    decreases sections.len(),
{
    if sections.len() == 0 {
        Seq::empty()
    } else {
        let head = all_lines(sections.drop_last(), width);
        let gap = if sections.len() > 1 {
            head.push(LineView::Blank)
        } else {
            head
        };
        gap.push(header_line(sections.last(), width)) + name_lines(sections.last().names, width)
    }
}

/// A review has as many lines as were counted.
pub proof fn all_lines_are_counted(sections: Seq<SectionView>, width: usize)
    ensures
        all_lines(sections, width).len() == section_lines(sections),
    decreases sections.len(),
{
    if sections.len() > 0 {
        all_lines_are_counted(sections.drop_last(), width);
    }
}

/// Those lines from one number on up to before another that there are.
pub open spec fn window(lines: Seq<LineView>, from: int, to: int) -> Seq<LineView> {
    let start = min_int(from, lines.len() as int);
    lines.subrange(start, max_int(start, min_int(to, lines.len() as int)))
}

proof fn window_grows(lines: Seq<LineView>, line: LineView, from: int, to: int)
    requires
        0 <= from <= to,
    ensures
        window(lines.push(line), from, to) == if from <= lines.len() < to {
            window(lines, from, to).push(line)
        } else {
            window(lines, from, to)
        },
{
    let more = lines.push(line);
    if from <= lines.len() < to {
        assert(window(more, from, to) =~= window(lines, from, to).push(line));
    } else {
        assert(window(more, from, to) =~= window(lines, from, to));
    }
}

/// Puts a line into the part that is on view, if it belongs there.
fn push_if_visible(
    body: &mut Vec<ReviewLine>,
    line: ReviewLine,
    index: usize,
    from: usize,
    to: usize,
    Ghost(lines): Ghost<Seq<LineView>>,
)
    requires
        from <= to,
        index == lines.len(),
        line_views(old(body)@) == window(lines, from as int, to as int),
    ensures
        line_views(final(body)@) == window(lines.push(line@), from as int, to as int),
{
    proof {
        window_grows(lines, line@, from as int, to as int);
    }
    if from <= index && index < to {
        let ghost was = line_views(body@);
        let ghost view = line@;
        body.push(line);
        assert(line_views(body@) =~= was.push(view));
    }
}

/// The lines of a review that are on view at a scroll position.
#[verifier::loop_isolation(false)]
pub fn pending_management_review_visible_lines(
    sections: &Vec<ManagementReviewSection>,
    scroll_offset: usize,
    max_lines: usize,
    max_line_width: usize,
) -> (body: Vec<ReviewLine>)
    requires
        section_lines(section_views(sections@)) <= usize::MAX,
    ensures
        line_views(body@) == window(
            all_lines(section_views(sections@), max_line_width),
            scroll_offset as int,
            capped_size(scroll_offset + max_lines),
        ),
{
    let ghost all = section_views(sections@);
    let end = scroll_offset.saturating_add(max_lines);
    let mut body: Vec<ReviewLine> = Vec::new();
    let mut index: usize = 0;
    let ghost mut lines: Seq<LineView> = Seq::empty();
    assert(line_views(body@) =~= window(lines, scroll_offset as int, end as int));
    let mut k: usize = 0;
    assert(all.take(0) =~= Seq::<SectionView>::empty());
    while k < sections.len()
        invariant
            k <= sections@.len(),
            lines == all_lines(all.take(k as int), max_line_width),
            index == lines.len(),
            line_views(body@) == window(lines, scroll_offset as int, end as int),
        decreases sections@.len() - k,
    {
        let section = &sections[k];
        let ghost view = section@;
        proof {
            fewer_sections(all, k + 1);
            assert(all.take(k + 1).drop_last() =~= all.take(k as int));
            assert(all.take(k + 1).last() == view);
            all_lines_are_counted(all.take(k as int), max_line_width);
            all_lines_are_counted(all.take(k + 1), max_line_width);
        }
        if k > 0 {
            push_if_visible(
                &mut body,
                ReviewLine::Blank,
                index,
                scroll_offset,
                end,
                Ghost(lines),
            );
            proof {
                lines = lines.push(LineView::Blank);
            }
            index = index + 1;
        }
        let detail = match &section.detail {
            Some(detail) => Some(detail.as_str()),
            None => None,
        };
        let (title, suffix) = management_review_header_parts(
            section.action.title(),
            section.names.len(),
            detail,
            max_line_width,
        );
        let header = ReviewLine::Header { action: section.action, title, suffix };
        assert(header@ == header_line(view, max_line_width));
        push_if_visible(&mut body, header, index, scroll_offset, end, Ghost(lines));
        proof {
            lines = lines.push(header_line(view, max_line_width));
        }
        index = index + 1;
        let ghost base = lines;
        let ghost names = name_lines(view.names, max_line_width);
        let mut j: usize = 0;
        assert(base + names.take(0) =~= base);
        while j < section.names.len()
            invariant
                j <= section.names@.len(),
                lines == base + names.take(j as int),
                index == lines.len(),
                line_views(body@) == window(lines, scroll_offset as int, end as int),
            decreases section.names@.len() - j,
        {
            let ghost line = names[j as int];
            assert(names.take(j + 1) =~= names.take(j as int).push(line));
            assert(base + names.take(j + 1) =~= lines.push(line));
            assert(texts(section.names@)[j as int] == section.names@[j as int]@);
            proof {
                window_grows(lines, line, scroll_offset as int, end as int);
            }
            if scroll_offset <= index && index < end {
                let name = ReviewLine::Name(
                    truncate_middle_with_ellipsis(
                        section.names[j].as_str(),
                        max_line_width.saturating_sub(2),
                    ),
                );
                push_if_visible(&mut body, name, index, scroll_offset, end, Ghost(lines));
            }
            proof {
                lines = lines.push(line);
            }
            index = index + 1;
            j = j + 1;
        }
        assert(names.take(j as int) =~= names);
        k = k + 1;
    }
    assert(all.take(k as int) =~= all);
    body
}

// ------------------------------------------------------------- the positions

/// The first and the last line on view, counted from one.
pub open spec fn visible_bounds(scroll: int, height: int, lines: int) -> (int, int) {
    let first = min_int(scroll, monus(lines, 1));
    (first + 1, max_int(min_int(capped_size(first + height), lines), first + 1))
}

/// Which lines are on view.
pub open spec fn range_text(
    scroll: int,
    height: int,
    lines: int,
    none: Seq<char>,
    before: Seq<char>,
    between: Seq<char>,
) -> Seq<char> {
    if lines == 0 || height == 0 {
        none
    } else {
        let (first, last) = visible_bounds(scroll, height, lines);
        before + decimal(first as nat) + "–"@ + decimal(last as nat) + between + decimal(
            lines as nat,
        )
    }
}

fn visible_range(
    scroll_offset: usize,
    viewport_height: usize,
    line_count: usize,
    none: &str,
    before: &str,
    between: &str,
) -> (text: String)
    ensures
        text@ == range_text(
            scroll_offset as int,
            viewport_height as int,
            line_count as int,
            none@,
            before@,
            between@,
        ),
{
    if line_count == 0 || viewport_height == 0 {
        return owned(none);
    }
    let first: usize = if scroll_offset <= line_count - 1 {
        scroll_offset
    } else {
        line_count - 1
    };
    let end: usize = first.saturating_add(viewport_height);
    let capped: usize = if end <= line_count {
        end
    } else {
        line_count
    };
    let last: usize = if capped >= first + 1 {
        capped
    } else {
        first + 1
    };
    let mut text = join3(before, format_number((first + 1) as u64).as_str(), "–");
    text.append(format_number(last as u64).as_str());
    text.append(between);
    text.append(format_number(line_count as u64).as_str());
    text
}

/// Which lines of a review are on view.
pub fn management_review_visible_range(
    scroll_offset: usize,
    viewport_height: usize,
    line_count: usize,
) -> (text: String)
    ensures
        text@ == range_text(
            scroll_offset as int,
            viewport_height as int,
            line_count as int,
            "0 / 0"@,
            ""@,
            " / "@,
        ),
{
    visible_range(scroll_offset, viewport_height, line_count, "0 / 0", "", " / ")
}

/// Which lines of a review are on view, in few columns.
pub fn management_review_compact_visible_range(
    scroll_offset: usize,
    viewport_height: usize,
    line_count: usize,
) -> (text: String)
    ensures
        text@ == range_text(
            scroll_offset as int,
            viewport_height as int,
            line_count as int,
            "↕0/0"@,
            "↕"@,
            "/"@,
        ),
{
    visible_range(scroll_offset, viewport_height, line_count, "↕0/0", "↕", "/")
}

// ------------------------------------------------------------------ the width

pub open spec fn wider(a: usize, b: usize) -> usize {
    if a >= b {
        a
    } else {
        b
    }
}

fn max_width_of(a: usize, b: usize) -> (most: usize)
    ensures
        most == wider(a, b),
{
    if a >= b {
        a
    } else {
        b
    }
}

/// The widest of some names, with their bullets, and a width from before.
pub open spec fn widest_name(names: Seq<Seq<char>>, before: usize) -> usize
    decreases names.len(),
{
    if names.len() == 0 {
        before
    } else {
        wider(widest_name(names.drop_last(), before), text_width("• "@ + names.last()))
    }
}

/// The widest line of some sections, and of the title of the review.
pub open spec fn widest_line(sections: Seq<SectionView>) -> usize
    decreases sections.len(),
{
    if sections.len() == 0 {
        text_width(" Review Queued Changes "@)
    } else {
        let section = sections.last();
        widest_name(
            section.names,
            wider(
                widest_line(sections.drop_last()),
                text_width(
                    action_title(section.action) + header_suffix(
                        section.names.len() as int,
                        section.detail,
                    ),
                ),
            ),
        )
    }
}

/// The widest line of a review.
#[verifier::loop_isolation(false)]
pub fn pending_management_review_longest_line_width(
    groups: &TorrentManagementReviewCache,
    purge_size: &str,
) -> (width: usize)
    ensures
        width == widest_line(sections_of(groups@, purge_size@)),
{
    let sections = pending_management_review_sections(groups, purge_size);
    let ghost all = section_views(sections@);
    let mut longest = terminal_text_width(" Review Queued Changes ");
    let mut k: usize = 0;
    assert(all.take(0) =~= Seq::<SectionView>::empty());
    while k < sections.len()
        invariant
            k <= sections@.len(),
            longest == widest_line(all.take(k as int)),
        decreases sections@.len() - k,
    {
        let section = &sections[k];
        proof {
            assert(all.take(k + 1).drop_last() =~= all.take(k as int));
            assert(all.take(k + 1).last() == section@);
        }
        let detail = match &section.detail {
            Some(detail) => Some(detail.as_str()),
            None => None,
        };
        let suffix = section_header_suffix(section.names.len(), detail);
        let header = join(section.action.title(), suffix.as_str());
        longest = max_width_of(longest, terminal_text_width(header.as_str()));
        let ghost before = longest;
        let ghost names = texts(section.names@);
        let mut j: usize = 0;
        assert(names.take(0) =~= Seq::<Seq<char>>::empty());
        while j < section.names.len()
            invariant
                j <= section.names@.len(),
                longest == widest_name(names.take(j as int), before),
            decreases section.names@.len() - j,
        {
            assert(names.take(j + 1).drop_last() =~= names.take(j as int));
            assert(names.take(j + 1).last() == section.names@[j as int]@);
            let line = join("• ", section.names[j].as_str());
            longest = max_width_of(longest, terminal_text_width(line.as_str()));
            j = j + 1;
        }
        assert(names.take(j as int) =~= names);
        k = k + 1;
    }
    assert(all.take(k as int) =~= all);
    longest
}

/// The width of the review: its widest line with frame and padding, but at least
/// 72 columns, and never more than there are.
pub open spec fn popup_width(longest: int, max_width: int) -> int {
    if max_width == 0 {
        0
    } else {
        max_int(
            max_int(min_int(capped_size(longest + 6), max_width), 1),
            min_int(72, max_width),
        )
    }
}

/// The width of a review whose widest line is known.
pub fn review_width_for(longest: usize, max_width: u16) -> (width: u16)
    ensures
        width == popup_width(longest as int, max_width as int),
        width <= max_width,
{
    if max_width == 0 {
        return 0;
    }
    let wanted: usize = longest.saturating_add(6);
    let desired: u16 = if wanted <= max_width as usize {
        wanted as u16
    } else {
        max_width
    };
    let least: u16 = if max_width >= 72 {
        72
    } else {
        max_width
    };
    if desired >= least {
        desired
    } else {
        least
    }
}

/// The width of the review.
pub fn pending_management_review_popup_width(
    groups: &TorrentManagementReviewCache,
    purge_size: &str,
    max_width: u16,
) -> (width: u16)
    ensures
        width == popup_width(
            widest_line(sections_of(groups@, purge_size@)) as int,
            max_width as int,
        ),
        width <= max_width,
{
    if max_width == 0 {
        return 0;
    }
    review_width_for(pending_management_review_longest_line_width(groups, purge_size), max_width)
}

/// The most columns that the review takes: 86 per cent, but no less than 72 as
/// far as there are as many.
pub open spec fn review_width_limit(frame_width: int) -> int {
    min_int(
        max_int(min_int(frame_width * 86, u16::MAX as int) / 100, min_int(frame_width, 72)),
        frame_width,
    )
}

/// Where the review stands: in the middle of the screen.
pub fn management_review_popup_area(
    frame_area: Rect,
    groups: &TorrentManagementReviewCache,
    purge_size: &str,
) -> (popup: Rect)
    requires
        frame_area.valid(),
    ensures
        popup.valid(),
        popup.width == popup_width(
            widest_line(sections_of(groups@, purge_size@)) as int,
            review_width_limit(frame_area.width as int),
        ),
        popup.height == popup_height(frame_area.height as int),
        popup.x == frame_area.x + (frame_area.width - popup.width) / 2,
        popup.y == frame_area.y + (frame_area.height - popup.height) / 2,
{
    let share: u32 = frame_area.width as u32 * 86;
    let share: u16 = if share > 65535 {
        655
    } else {
        (share / 100) as u16
    };
    let floor: u16 = if frame_area.width < 72 {
        frame_area.width
    } else {
        72
    };
    let wanted: u16 = if share >= floor {
        share
    } else {
        floor
    };
    let max_width: u16 = if wanted <= frame_area.width {
        wanted
    } else {
        frame_area.width
    };
    let height = management_review_popup_height(frame_area.height);
    let width = pending_management_review_popup_width(groups, purge_size, max_width);
    Rect::new(
        frame_area.x + (frame_area.width - width) / 2,
        frame_area.y + (frame_area.height - height) / 2,
        width,
        height,
    )
}

/// The middle line of an area.
pub fn centered_line_rect(area: Rect) -> (line: Rect)
    requires
        area.valid(),
    ensures
        line.x == area.x,
        line.y == area.y + monus(area.height as int, 1) / 2,
        line.width == area.width,
        line.height == min_int(1, u16::MAX - line.y),
{
    Rect::new(area.x, area.y + area.height.saturating_sub(1) / 2, area.width, 1)
}

} // verus!
