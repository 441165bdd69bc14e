use vstd::prelude::*;

use ratatui::layout as tui;
use ratatui::widgets::Block;

verus! {

/// A rectangle of terminal cells.
#[derive(Debug, Clone, Copy, PartialEq, Eq, Structural, Hash)]
pub struct Rect {
    pub x: u16,
    pub y: u16,
    pub width: u16,
    pub height: u16,
}

impl Rect {
    /// The rectangle with the given corner and size.
    pub fn new(x: u16, y: u16, width: u16, height: u16) -> (r: Rect)
        ensures
            r == (Rect { x, y, width, height }),
    {
        Rect { x, y, width, height }
    }
}

/// The axis along which an area is split.
#[derive(Debug, Clone, Copy, PartialEq, Eq, Structural, Hash)]
pub enum Direction {
    Horizontal,
    Vertical,
}

/// A size rule for one part of a split area.
#[derive(Debug, Clone, Copy, PartialEq, Eq, Structural, Hash)]
pub enum Constraint {
    /// At least this many cells.
    Min(u16),
    /// This percentage of the area.
    Percentage(u16),
}

/// Where parts go when they do not fill the area.
#[derive(Debug, Clone, Copy, PartialEq, Eq, Structural, Hash)]
pub enum Flex {
    /// Parts are packed from the start of the area.
    Start,
    /// Parts are centered in the area.
    Center,
}

/// The column just past the right edge of `r`; the toolkit stops edges at the
/// largest coordinate.
pub open spec fn right_edge(r: Rect) -> int {
    if r.x + r.width > u16::MAX { u16::MAX as int } else { r.x + r.width }
}

/// The row just past the bottom edge of `r`; the toolkit stops edges at the
/// largest coordinate.
pub open spec fn bottom_edge(r: Rect) -> int {
    if r.y + r.height > u16::MAX { u16::MAX as int } else { r.y + r.height }
}

/// Whether `inner` lies inside `outer`.
pub open spec fn lies_within(inner: Rect, outer: Rect) -> bool {
    &&& outer.x <= inner.x
    &&& right_edge(inner) <= right_edge(outer)
    &&& outer.y <= inner.y
    &&& bottom_edge(inner) <= bottom_edge(outer)
}

/// Whether `part` is a part of `area` split along `direction`: it spans the
/// whole of `area` across the split and lies inside it along the split.
pub open spec fn split_part_of(area: Rect, direction: Direction, part: Rect) -> bool {
    match direction {
        Direction::Horizontal => {
            &&& part.y == area.y
            &&& part.height == area.height
            &&& area.x <= part.x
            &&& part.x + part.width <= right_edge(area)
        },
        Direction::Vertical => {
            &&& part.x == area.x
            &&& part.width == area.width
            &&& area.y <= part.y
            &&& part.y + part.height <= bottom_edge(area)
        },
    }
}

/// Whether `parts` is an outcome of the terminal toolkit's layout solver for
/// splitting `area` along `direction` by `constraints` with `flex`. It is a
/// relation, not a function: the solver may reach different outcomes for the
/// same arguments.
pub uninterp spec fn layout_outcome(
    area: Rect,
    direction: Direction,
    constraints: Seq<Constraint>,
    flex: Flex,
    parts: Seq<Rect>,
) -> bool;

/// Splits `area` into one part per constraint with the terminal toolkit's
/// constraint solver (`ratatui::layout::Layout::horizontal` or `vertical`, then
/// `flex` and `split`).
///
/// The contract claims what the toolkit's source fixes for every outcome: an
/// outcome of the solver for exactly these arguments, one rectangle per
/// constraint; across the split each rectangle keeps the area's
/// position and extent (the solver's positions are only used along the split,
/// and the layout has no margin); along the split each rectangle starts and
/// ends inside the area (the solver is given required constraints that keep
/// every boundary between the area's start and end and every part's start
/// before its end, and positions are rounded to whole cells). Where exactly
/// each rectangle starts and ends is left unsaid: the toolkit documents the
/// outcome of conflicting constraints as indeterminate, and its solver walks
/// hash maps to pick among equally good solutions.
#[verifier::external_body]
pub(crate) fn split_area(area: Rect, direction: Direction, constraints: &Vec<Constraint>, flex: Flex) -> (r: Vec<Rect>)
    ensures
        layout_outcome(area, direction, constraints@, flex, r@),
        r@.len() == constraints@.len(),
        forall|i: int| 0 <= i < r@.len() ==> split_part_of(area, direction, #[trigger] r@[i]),
{
    let cs = constraints.iter().map(|c| match *c {
        Constraint::Min(n) => tui::Constraint::Min(n),
        Constraint::Percentage(p) => tui::Constraint::Percentage(p),
    });
    let layout = match direction {
        Direction::Horizontal => tui::Layout::horizontal(cs),
        Direction::Vertical => tui::Layout::vertical(cs),
    };
    let fl = match flex {
        Flex::Start => tui::Flex::Start,
        Flex::Center => tui::Flex::Center,
    };
    layout.flex(fl).split(tui::Rect { x: area.x, y: area.y, width: area.width, height: area.height }).iter()
        .map(|r| Rect { x: r.x, y: r.y, width: r.width, height: r.height }).collect()
}

/// The smaller of two integers.
pub open spec fn min_int(a: int, b: int) -> int {
    if a <= b { a } else { b }
}

/// The area inside a frame bordered on all four sides: one cell in from
/// every side, with the position stopped at the frame's far edge and the
/// size at zero.
pub open spec fn bordered_inner_spec(area: Rect) -> Rect {
    Rect {
        x: min_int(min_int(area.x + 1, u16::MAX as int), right_edge(area)) as u16,
        y: min_int(min_int(area.y + 1, u16::MAX as int), bottom_edge(area)) as u16,
        width: if area.width >= 2 { (area.width - 2) as u16 } else { 0 },
        height: if area.height >= 2 { (area.height - 2) as u16 } else { 0 },
    }
}

/// The area inside a frame bordered on all four sides, as the terminal
/// toolkit computes it (`ratatui::widgets::Block::bordered` and
/// `Block::inner`).
///
/// The contract restates the toolkit's source: with borders on all sides
/// and no padding, the left border moves the start one cell right (not past
/// the right edge) and the top border one cell down (not past the bottom
/// edge), and each border takes one cell off the size, stopping at zero.
/// Titles and border symbols do not change the inner area of a frame
/// bordered on all sides.
#[verifier::external_body]
pub(crate) fn bordered_inner(area: Rect) -> (r: Rect)
    ensures
        r == bordered_inner_spec(area),
{
    let whole = tui::Rect { x: area.x, y: area.y, width: area.width, height: area.height };
    let inner = Block::bordered().inner(whole);
    Rect { x: inner.x, y: inner.y, width: inner.width, height: inner.height }
}

/// Arranges two rows of three rectangles into a grid.
pub fn grid_from_rows(row1: &Vec<Rect>, row2: &Vec<Rect>) -> (r: [[Rect; 3]; 2])
    requires
        row1@.len() == 3,
        row2@.len() == 3,
    ensures
        r[0]@ == row1@,
        r[1]@ == row2@,
{
    let r = [[row1[0], row1[1], row1[2]], [row2[0], row2[1], row2[2]]];
    assert(r[0]@ =~= row1@);
    assert(r[1]@ =~= row2@);
    r
}

} // verus!
