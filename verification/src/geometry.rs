//! Areas of the terminal, in cells, and how they are cut up.
use ratatui::layout::{Constraint as LayoutConstraint, Layout};
use ratatui::widgets::{Block, Borders, Padding};
use vstd::prelude::*;

verus! {

/// An area of the terminal: its top left cell, its width and its height.
#[derive(Clone, Copy, Debug, PartialEq, Eq, Structural)]
pub struct Rect {
    pub x: u16,
    pub y: u16,
    pub width: u16,
    pub height: u16,
}

pub open spec fn min_int(a: int, b: int) -> int {
    if a <= b {
        a
    } else {
        b
    }
}

pub open spec fn max_int(a: int, b: int) -> int {
    if a >= b {
        a
    } else {
        b
    }
}

/// `a - b`, but never below zero.
pub open spec fn monus(a: int, b: int) -> int {
    if a >= b {
        a - b
    } else {
        0
    }
}

impl Rect {
    /// The area ends within the range of coordinates.
    pub open spec fn valid(self) -> bool {
        self.x + self.width <= u16::MAX && self.y + self.height <= u16::MAX
    }

    /// An area, cut off where it would leave the range of coordinates.
    pub fn new(x: u16, y: u16, width: u16, height: u16) -> (area: Rect)
        ensures
            area.x == x,
            area.y == y,
            area.width == min_int(width as int, u16::MAX - x),
            area.height == min_int(height as int, u16::MAX - y),
            area.valid(),
    {
        let max_width: u16 = u16::MAX - x;
        let max_height: u16 = u16::MAX - y;
        Rect {
            x,
            y,
            width: if width > max_width { max_width } else { width },
            height: if height > max_height { max_height } else { height },
        }
    }

    /// The first column to the right of the area.
    pub fn right(self) -> (column: u16)
        ensures
            column == min_int(self.x + self.width, u16::MAX as int),
    {
        self.x.saturating_add(self.width)
    }

    /// The first row below the area.
    pub fn bottom(self) -> (row: u16)
        ensures
            row == min_int(self.y + self.height, u16::MAX as int),
    {
        self.y.saturating_add(self.height)
    }
}

/// The area without one cell on each side.
pub open spec fn inset_rect(area: Rect) -> Rect {
    let x = min_int(area.x + 1, u16::MAX as int);
    let y = min_int(area.y + 1, u16::MAX as int);
    Rect {
        x: x as u16,
        y: y as u16,
        width: min_int(monus(area.width as int, 2), u16::MAX - x) as u16,
        height: min_int(monus(area.height as int, 2), u16::MAX - y) as u16,
    }
}

/// The area without one cell on each side.
pub fn inset(area: Rect) -> (inner: Rect)
    ensures
        inner == inset_rect(area),
        inner.valid(),
{
    Rect::new(
        area.x.saturating_add(1),
        area.y.saturating_add(1),
        area.width.saturating_sub(2),
        area.height.saturating_sub(2),
    )
}

/// What a screen uses of its area: one cell on each side stays free where there
/// is room, that is from the given width and height on.
pub open spec fn content_rect(area: Rect, roomy_width: int, roomy_height: int) -> Rect {
    if area.width < roomy_width || area.height < roomy_height {
        area
    } else {
        inset_rect(area)
    }
}

/// How much of an area one part of a split asks for.
#[derive(Clone, Copy, Debug, PartialEq, Eq, Structural)]
pub enum Constraint {
    /// So many cells.
    Length(u16),
    /// At least so many cells, and a share of what is left over.
    Min(u16),
    /// A weighted share of what is left over.
    Fill(u16),
}

/// The cells that a part asks for in any case.
pub open spec fn asked(part: Constraint) -> int {
    match part {
        Constraint::Length(n) => n as int,
        Constraint::Min(n) => n as int,
        Constraint::Fill(_) => 0,
    }
}

/// The cells that a list of parts asks for in any case.
pub open spec fn asked_by_all(parts: Seq<Constraint>) -> int
    decreases parts.len(),
{
    if parts.len() == 0 {
        0
    } else {
        asked_by_all(parts.drop_last()) + asked(parts.last())
    }
}

/// All parts have a fixed length but the one at `flexible`, which has a minimum.
pub open spec fn one_minimum(parts: Seq<Constraint>, flexible: int) -> bool {
    &&& 0 <= flexible < parts.len()
    &&& parts[flexible] is Min
    &&& forall|i: int| 0 <= i < parts.len() && i != flexible ==> #[trigger] parts[i] is Length
}

/// All parts have a fixed length.
pub open spec fn all_fixed(parts: Seq<Constraint>) -> bool {
    forall|i: int| 0 <= i < parts.len() ==> #[trigger] parts[i] is Length
}

/// Two parts of fixed length, one with a minimum, and one more of fixed length.
pub open spec fn two_before_one_behind(a: u16, b: u16, least: u16, c: u16) -> Seq<Constraint> {
    seq![
        Constraint::Length(a),
        Constraint::Length(b),
        Constraint::Min(least),
        Constraint::Length(c),
    ]
}

/// The lengths of the three parts of fixed length where they do not fit beside the one
/// with a minimum, the longest of them: neighbours are as equal in length as can be. So
/// the part behind the minimum has its length first. The two before it have half of the
/// rest each, as far as their lengths go, and the first of them the odd cell.
pub open spec fn short_lengths(a: int, b: int, least: int, c: int, size: int) -> (int, int, int) {
    let rest = monus(size, least);
    let behind = min_int(rest, c);
    let first = min_int(a, max_int((rest - behind + 1) / 2, rest - behind - b));
    (first, rest - behind - first, behind)
}

/// Where the parts of a split along one axis begin and how long they are:
/// `spans` holds a start and a length for each part.
///
/// The parts lie side by side from the start of the area on and within it. With
/// one flexible part they fill the area, and as long as what they ask for fits,
/// every part of fixed length has that length. Where it does not fit, the
/// flexible part has its minimum, or the whole area if that is less, and no other
/// part has more than its length; of two parts before it and one behind it, that is
/// not too long, `short_lengths` says how long they are. Parts that
/// all have a fixed length have it as long as they fit.
pub open spec fn is_split(
    parts: Seq<Constraint>,
    start: int,
    size: int,
    spans: Seq<(int, int)>,
) -> bool {
    &&& spans.len() == parts.len()
    &&& forall|i: int|
        0 <= i < spans.len() ==> start <= (#[trigger] spans[i]).0 && 0 <= spans[i].1 && spans[i].0
            + spans[i].1 <= start + size
    &&& spans.len() > 0 ==> spans[0].0 == start
    &&& forall|i: int, j: int|
        0 <= i && j == i + 1 && j < spans.len() ==> (#[trigger] spans[j]).0 == (
        #[trigger] spans[i]).0 + spans[i].1
    &&& forall|flexible: int| #[trigger]
        one_minimum(parts, flexible) ==> {
            &&& spans.last().0 + spans.last().1 == start + size
            &&& asked_by_all(parts) <= size ==> forall|i: int|
                0 <= i < parts.len() && i != flexible ==> (#[trigger] spans[i]).1 == asked(parts[i])
            &&& asked_by_all(parts) > size ==> spans[flexible].1 == min_int(
                asked(parts[flexible]),
                size,
            )
            &&& forall|i: int|
                0 <= i < parts.len() && i != flexible ==> (#[trigger] spans[i]).1 <= asked(parts[i])
        }
    &&& forall|a: u16, b: u16, least: u16, c: u16| #[trigger]
        two_before_one_behind(a, b, least, c) == parts && b <= least && c <= least && asked_by_all(
            parts,
        ) > size ==> (spans[0].1, spans[1].1, spans[3].1) == short_lengths(
            a as int,
            b as int,
            least as int,
            c as int,
            size,
        )
    &&& all_fixed(parts) && asked_by_all(parts) <= size ==> forall|i: int|
        0 <= i < parts.len() ==> (#[trigger] spans[i]).1 == asked(parts[i])
}

/// No minimum is more than a signed coordinate can hold.
pub open spec fn within_reach(parts: Seq<Constraint>) -> bool {
    forall|i: int| 0 <= i < parts.len() && #[trigger] parts[i] is Min ==> asked(parts[i]) <= i16::MAX
}

pub open spec fn vertical_spans(areas: Seq<Rect>) -> Seq<(int, int)> {
    areas.map_values(|area: Rect| (area.y as int, area.height as int))
}

pub open spec fn horizontal_spans(areas: Seq<Rect>) -> Seq<(int, int)> {
    areas.map_values(|area: Rect| (area.x as int, area.width as int))
}

/// `ratatui`'s `Layout::vertical(..).split`: one area per part, each as wide as
/// the whole, and along the vertical axis as `is_split` says. How lengths that
/// do not fit share the shortage, and how several flexible parts share the rest,
/// its constraint solver leaves open: among solutions that are equally good, the
/// order decides in which it walks its hash maps.
#[verifier::external_body]
pub(crate) fn split_vertical(area: Rect, parts: &Vec<Constraint>) -> (areas: Vec<Rect>)
    requires
        area.valid(),
        within_reach(parts@),
    ensures
        is_split(parts@, area.y as int, area.height as int, vertical_spans(areas@)),
        forall|i: int|
            0 <= i < areas@.len() ==> (#[trigger] areas@[i]).x == area.x && areas@[i].width
                == area.width,
{
    let whole = ratatui::layout::Rect::new(area.x, area.y, area.width, area.height);
    let asked = parts.iter().map(|part| match *part {
        Constraint::Length(n) => LayoutConstraint::Length(n),
        Constraint::Min(n) => LayoutConstraint::Min(n),
        Constraint::Fill(n) => LayoutConstraint::Fill(n),
    });
    Layout::vertical(asked).split(whole).iter().map(
        |part| Rect { x: part.x, y: part.y, width: part.width, height: part.height },
    ).collect()
}

/// `ratatui`'s `Layout::horizontal(..).split`, as `split_vertical` along the
/// other axis.
#[verifier::external_body]
pub(crate) fn split_horizontal(area: Rect, parts: &Vec<Constraint>) -> (areas: Vec<Rect>)
    requires
        area.valid(),
        within_reach(parts@),
    ensures
        is_split(parts@, area.x as int, area.width as int, horizontal_spans(areas@)),
        forall|i: int|
            0 <= i < areas@.len() ==> (#[trigger] areas@[i]).y == area.y && areas@[i].height
                == area.height,
{
    let whole = ratatui::layout::Rect::new(area.x, area.y, area.width, area.height);
    let asked = parts.iter().map(|part| match *part {
        Constraint::Length(n) => LayoutConstraint::Length(n),
        Constraint::Min(n) => LayoutConstraint::Min(n),
        Constraint::Fill(n) => LayoutConstraint::Fill(n),
    });
    Layout::horizontal(asked).split(whole).iter().map(
        |part| Rect { x: part.x, y: part.y, width: part.width, height: part.height },
    ).collect()
}

/// What is left of an area inside a border of one cell and a padding on each
/// side.
pub open spec fn framed(area: Rect, horizontal: u16, vertical: u16) -> Rect {
    Rect {
        x: min_int(
            min_int(area.x + 1, area.x + area.width) + horizontal,
            u16::MAX as int,
        ) as u16,
        y: min_int(
            min_int(area.y + 1, area.y + area.height) + vertical,
            u16::MAX as int,
        ) as u16,
        width: monus(area.width as int, 2 + 2 * horizontal) as u16,
        height: monus(area.height as int, 2 + 2 * vertical) as u16,
    }
}

/// `ratatui`'s `Block::inner` for a block with all four borders, no title, and
/// the same padding left and right, and above and below.
#[verifier::external_body]
pub(crate) fn frame_inner(area: Rect, horizontal: u16, vertical: u16) -> (inner: Rect)
    requires
        area.valid(),
        horizontal <= 1000,
        vertical <= 1000,
    ensures
        inner == framed(area, horizontal, vertical),
{
    let whole = ratatui::layout::Rect::new(area.x, area.y, area.width, area.height);
    let inner = Block::default().borders(Borders::ALL).padding(
        Padding::new(horizontal, horizontal, vertical, vertical),
    ).inner(whole);
    Rect { x: inner.x, y: inner.y, width: inner.width, height: inner.height }
}

} // verus!
