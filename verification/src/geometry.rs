//! Areas of the screen.

use vstd::prelude::*;

verus! {

/// An area of the screen, in character cells.
#[derive(Clone, Copy, Debug, PartialEq, Eq, Structural)]
pub struct Rect {
    pub x: u16,
    pub y: u16,
    pub width: u16,
    pub height: u16,
}

/// The direction along which an area is divided.
#[derive(Clone, Copy, Debug, PartialEq, Eq, Structural)]
pub enum Direction {
    Horizontal,
    Vertical,
}

impl Rect {
    /// Whether the right and the bottom edge are screen coordinates.
    pub open spec fn fits(self) -> bool {
        &&& self.x + self.width <= u16::MAX
        &&& self.y + self.height <= u16::MAX
    }

    /// Whether an area lies within this one.
    pub open spec fn encloses(self, other: Rect) -> bool {
        &&& self.x <= other.x
        &&& other.x + other.width <= self.x + self.width
        &&& self.y <= other.y
        &&& other.y + other.height <= self.y + self.height
    }

    /// The area within a border one cell wide.
    pub open spec fn bordered_inner(self) -> Rect {
        Rect {
            x: if self.width > 0 && self.x < u16::MAX { (self.x + 1) as u16 } else { self.x },
            y: if self.height > 0 && self.y < u16::MAX { (self.y + 1) as u16 } else { self.y },
            width: if self.width > 2 { (self.width - 2) as u16 } else { 0 },
            height: if self.height > 2 { (self.height - 2) as u16 } else { 0 },
        }
    }

    /// An area that ends at the largest coordinate where it would end past it.
    pub open spec fn clip(x: u16, y: u16, width: u16, height: u16) -> Rect {
        Rect {
            x,
            y,
            width: if x + width <= u16::MAX {
                width
            } else {
                (u16::MAX - x) as u16
            },
            height: if y + height <= u16::MAX {
                height
            } else {
                (u16::MAX - y) as u16
            },
        }
    }

    /// `ratatui::layout::Rect::new` keeps the position, and cuts the width and the height where
    /// the right or the bottom edge would lie past the largest coordinate.
    #[verifier::external_body]
    pub(crate) fn clipped(x: u16, y: u16, width: u16, height: u16) -> (r: Rect)
        ensures
            r == Rect::clip(x, y, width, height),
    {
        let r = ratatui::layout::Rect::new(x, y, width, height);
        Rect { x: r.x, y: r.y, width: r.width, height: r.height }
    }

    /// `ratatui::widgets::Block::inner`, of a block with all four borders and no padding: the
    /// area within the border. Titles do not change it, as each side has its border already.
    #[verifier::external_body]
    pub(crate) fn within_border(self) -> (r: Rect)
        ensures
            r == self.bordered_inner(),
    {
        let block = ratatui::widgets::Block::new()
            .borders(ratatui::widgets::Borders::ALL)
            .padding(ratatui::widgets::Padding::ZERO);
        let Rect { x, y, width, height } = self;
        let r = block.inner(ratatui::layout::Rect { x, y, width, height });
        Rect { x: r.x, y: r.y, width: r.width, height: r.height }
    }
}

/// The sum of the first `count` weights.
pub open spec fn weight_before(weights: Seq<u16>, count: int) -> nat
    decreases count,
{
    if count <= 0 {
        0
    } else {
        weight_before(weights, count - 1) + weights[count - 1] as nat
    }
}

/// The sum of all weights.
pub open spec fn total_weight(weights: Seq<u16>) -> nat {
    weight_before(weights, weights.len() as int)
}

/// Whether the cut behind the first `count` weights can lie `offset` cells into a length: at the
/// end of their share, rounded to the nearest cell, and halfway to the next one. Shares are
/// rounded to hundredths of a cell first, so that where the weights come to a hundred or more the
/// cut is only known to lie within a cell of the end of the share.
pub open spec fn cuts_at(offset: int, len: int, weights: Seq<u16>, count: int) -> bool {
    let total = total_weight(weights) as int;
    let share = len * weight_before(weights, count);
    if total < 100 {
        offset == (2 * share + total) / (2 * total)
    } else {
        share - total < offset * total < share + total
    }
}

/// Whether `parts` can come of dividing `area`: one part for each weight, each of which lies
/// within the area along the direction of the division, from one cut to the next, and spans the
/// area across.
pub open spec fn divides(
    direction: Direction,
    weights: Seq<u16>,
    area: Rect,
    parts: Seq<Rect>,
) -> bool {
    let extent = Rect::clip(area.x, area.y, area.width, area.height);
    &&& parts.len() == weights.len()
    &&& forall|i: int|
        0 <= i < parts.len() ==> {
            let part = #[trigger] parts[i];
            match direction {
                Direction::Horizontal => {
                    &&& part.y == area.y
                    &&& part.height == area.height
                    &&& area.x <= part.x
                    &&& part.x + part.width <= area.x + extent.width
                    &&& cuts_at(part.x - area.x, extent.width as int, weights, i)
                    &&& cuts_at(part.x + part.width - area.x, extent.width as int, weights, i + 1)
                },
                Direction::Vertical => {
                    &&& part.x == area.x
                    &&& part.width == area.width
                    &&& area.y <= part.y
                    &&& part.y + part.height <= area.y + extent.height
                    &&& cuts_at(part.y - area.y, extent.height as int, weights, i)
                    &&& cuts_at(part.y + part.height - area.y, extent.height as int, weights, i + 1)
                },
            }
        }
}

/// Whether each weight counts.
pub open spec fn are_positive(weights: Seq<u16>) -> bool {
    forall|i: int| 0 <= i < weights.len() ==> #[trigger] weights[i] > 0
}

/// `ratatui::layout::Layout::split`, where each constraint is a `Fill` of the given weight and
/// the layout has neither margin nor spacing. There is one part for each constraint. Across the
/// direction a part has the position and the size of the area; along it, both its ends lie
/// within the area, which is a required constraint of the layout. `Fill` shares the whole area
/// out in proportion to the weights: of what the layout asks for, no gap between the parts, all
/// of the area filled and proportional parts weigh the most and can be had together. The ends
/// are then rounded to hundredths of a cell, and these to cells.
#[verifier::external_body]
pub(crate) fn split(direction: Direction, weights: &Vec<u16>, area: Rect) -> (parts: Vec<Rect>)
    requires
        are_positive(weights@),
    ensures
        divides(direction, weights@, area, parts@),
{
    let direction = match direction {
        Direction::Horizontal => ratatui::layout::Direction::Horizontal,
        Direction::Vertical => ratatui::layout::Direction::Vertical,
    };
    let Rect { x, y, width, height } = area;
    let parts = ratatui::layout::Layout::default()
        .direction(direction)
        .constraints(weights.iter().map(|weight| ratatui::layout::Constraint::Fill(*weight)))
        .split(ratatui::layout::Rect { x, y, width, height });
    parts.iter().map(|r| Rect { x: r.x, y: r.y, width: r.width, height: r.height }).collect()
}

/// The left and the right half of an area; the left one has the cell that is left over.
pub fn h_stack(area: Rect) -> (halves: (Rect, Rect))
    ensures
        divides(Direction::Horizontal, seq![1, 1], area, seq![halves.0, halves.1]),
        ({
            let width = Rect::clip(area.x, area.y, area.width, area.height).width;
            let left = ((width + 1) / 2) as u16;
            &&& halves.0 == Rect { width: left, ..area }
            &&& halves.1 == Rect { x: (area.x + left) as u16, width: (width - left) as u16, ..area }
        }),
{
    let weights: Vec<u16> = vec![1, 1];
    let parts = split(Direction::Horizontal, &weights, area);
    proof {
        reveal_with_fuel(weight_before, 3);
        assert(parts@ =~= seq![parts@[0], parts@[1]]);
        let len = Rect::clip(area.x, area.y, area.width, area.height).width as int;
        assert(weight_before(weights@, 1) == 1 && total_weight(weights@) == 2);
        assert(len * 0 == 0 && len * 1 == len && len * 2 == len + len) by (nonlinear_arith);
    }
    (parts[0], parts[1])
}

/// The parts of an area lie within it, and so does what a border leaves of it.
pub proof fn law_parts_are_enclosed(
    direction: Direction,
    weights: Seq<u16>,
    area: Rect,
    parts: Seq<Rect>,
)
    requires
        area.fits(),
        divides(direction, weights, area, parts),
    ensures
        area.encloses(area.bordered_inner()),
        forall|i: int|
            0 <= i < parts.len() ==> area.encloses(#[trigger] parts[i]) && parts[i].fits(),
{
}

/// Where an area begins along a direction.
pub open spec fn start_along(direction: Direction, area: Rect) -> int {
    match direction {
        Direction::Horizontal => area.x as int,
        Direction::Vertical => area.y as int,
    }
}

/// Where an area ends along a direction.
pub open spec fn end_along(direction: Direction, area: Rect) -> int {
    match direction {
        Direction::Horizontal => area.x + area.width,
        Direction::Vertical => area.y + area.height,
    }
}

/// The parts of an area fill it without a gap: the first begins where the area begins, each
/// other one where the one before it ends, and the last ends where the area ends.
pub proof fn law_parts_fill_the_area(
    direction: Direction,
    weights: Seq<u16>,
    area: Rect,
    parts: Seq<Rect>,
)
    requires
        area.fits(),
        0 < total_weight(weights) < 100,
        divides(direction, weights, area, parts),
    ensures
        parts.len() > 0,
        start_along(direction, parts[0]) == start_along(direction, area),
        forall|i: int|
            0 < i < parts.len() ==> start_along(direction, #[trigger] parts[i]) == end_along(
                direction,
                parts[i - 1],
            ),
        end_along(direction, parts.last()) == end_along(direction, area),
{
    let total = total_weight(weights) as int;
    let len = end_along(direction, area) - start_along(direction, area);
    assert((2 * (len * 0) + total) / (2 * total) == 0) by (nonlinear_arith)
        requires
            total > 0,
    ;
    assert((2 * (len * total) + total) / (2 * total) == len) by (nonlinear_arith)
        requires
            total > 0,
            len >= 0,
    ;
    assert(parts[parts.len() - 1] == parts.last());
}

} // verus!
