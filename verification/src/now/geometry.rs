//! Areas of the screen.

use ratatui::layout::{Constraint, Direction, Layout, Rect};
use ratatui::widgets::{Block, Borders};
use vstd::prelude::*;

verus! {

/// A rectangle of cells.
#[derive(Debug, Clone, Copy, PartialEq, Eq, Structural)]
pub struct Area {
    pub x: u16,
    pub y: u16,
    pub width: u16,
    pub height: u16,
}

impl Area {
    /// The right and the lower edge have coordinates.
    pub open spec fn fits(self) -> bool {
        &&& self.x + self.width <= u16::MAX
        &&& self.y + self.height <= u16::MAX
    }

    /// `self` lies in `outer`.
    pub open spec fn lies_in(self, outer: Self) -> bool {
        &&& outer.x <= self.x
        &&& outer.y <= self.y
        &&& self.x + self.width <= outer.x + outer.width
        &&& self.y + self.height <= outer.y + outer.height
    }
}

/// The area at (`x`, `y`) with this size, cut where the coordinates end.
pub open spec fn area_at(x: u16, y: u16, width: u16, height: u16) -> Area {
    Area {
        x,
        y,
        width: if x + width > u16::MAX {
            (u16::MAX - x) as u16
        } else {
            width
        },
        height: if y + height > u16::MAX {
            (u16::MAX - y) as u16
        } else {
            height
        },
    }
}

/// Calls `ratatui::layout::Rect::new`, which holds the size down to the coordinates that are left.
#[verifier::external_body]
pub(crate) fn new_area(x: u16, y: u16, width: u16, height: u16) -> (area: Area)
    ensures
        area == area_at(x, y, width, height),
{
    let rect = Rect::new(x, y, width, height);
    Area { x: rect.x, y: rect.y, width: rect.width, height: rect.height }
}

/// No side of a block has a border.
pub const NO_BORDERS: u8 = 0;

/// Every side of a block has a border.
pub const ALL_BORDERS: u8 = 15;

/// `n` less `by`, but not below zero.
pub open spec fn lowered(n: u16, by: int) -> u16 {
    if n >= by {
        (n - by) as u16
    } else {
        0
    }
}

/// One step from `start`, within `size` cells and the coordinates there are.
pub open spec fn stepped(start: u16, size: u16) -> u16 {
    if size > 0 && start < u16::MAX {
        (start + 1) as u16
    } else {
        start
    }
}

/// What a titled block with these borders leaves of `area`.
pub open spec fn inside(area: Area, borders: u8) -> Area {
    if borders == ALL_BORDERS {
        Area {
            x: stepped(area.x, area.width),
            y: stepped(area.y, area.height),
            width: lowered(area.width, 2),
            height: lowered(area.height, 2),
        }
    } else {
        Area {
            y: stepped(area.y, area.height),
            height: lowered(area.height, 1),
            ..area
        }
    }
}

/// Calls `ratatui::widgets::Block::inner` on a block that has `title` at its top and either all
/// borders or none. A border takes the outermost cells of its side, the title the topmost row.
#[verifier::external_body]
pub(crate) fn block_inner(area: Area, borders: u8, title: &str) -> (inner: Area)
    requires
        borders == ALL_BORDERS || borders == NO_BORDERS,
    ensures
        inner == inside(area, borders),
{
    let outer = Rect { x: area.x, y: area.y, width: area.width, height: area.height };
    let sides = Borders::from_bits_truncate(borders);
    let inner = Block::default().borders(sides).title(title).inner(outer);
    Area { x: inner.x, y: inner.y, width: inner.width, height: inner.height }
}

/// What a titled block leaves of an area lies in it.
pub proof fn blocks_shrink_areas(area: Area, borders: u8)
    requires
        area.fits(),
    ensures
        inside(area, borders).fits(),
        inside(area, borders).lies_in(area),
{
}

/// The direction in which an area is split.
#[derive(Debug, Clone, Copy, PartialEq, Eq, Structural)]
pub enum Axis {
    Vertical,
    Horizontal,
}

/// How much of an area a part of it asks for.
#[derive(Debug, Clone, Copy, PartialEq, Eq, Structural)]
pub enum SizeRule {
    Length(u16),
    Min(u16),
    Percentage(u16),
}

/// `part` has the extent of `area` across `axis`.
pub open spec fn spans(part: Area, area: Area, axis: Axis) -> bool {
    match axis {
        Axis::Vertical => part.x == area.x && part.width == area.width,
        Axis::Horizontal => part.y == area.y && part.height == area.height,
    }
}

/// `parts` is an outcome that `ratatui::layout::Layout::split` can have for `area`, split along
/// `axis` by `rules`.
pub uninterp spec fn may_split_into(
    area: Area,
    axis: Axis,
    rules: Seq<SizeRule>,
    parts: Seq<Area>,
) -> bool;

/// `parts` is what `area` was split into along `axis` by `rules`: one part for each rule, each with
/// the extent of the area across the axis and within the area.
pub open spec fn is_split(
    area: Area,
    axis: Axis,
    rules: Seq<SizeRule>,
    parts: Seq<Area>,
) -> bool {
    &&& may_split_into(area, axis, rules, parts)
    &&& parts.len() == rules.len()
    &&& forall|i: int| 0 <= i < parts.len() ==> spans(#[trigger] parts[i], area, axis)
    &&& area.fits() ==> forall|i: int| 0 <= i < parts.len() ==> (#[trigger] parts[i]).lies_in(area)
}

/// Calls `ratatui::layout::Layout::split`. Claims one part for each rule, with the extent of the
/// area across the axis and within the area. How the rules share out the area along the axis is up
/// to a constraint solver, which leaves some of it open: of that it is only said that the parts are
/// an outcome for this area, axis and rules.
#[verifier::external_body]
pub(crate) fn split(area: Area, axis: Axis, rules: &Vec<SizeRule>) -> (parts: Vec<Area>)
    ensures
        may_split_into(area, axis, rules@, parts@),
        is_split(area, axis, rules@, parts@),
{
    let outer = Rect { x: area.x, y: area.y, width: area.width, height: area.height };
    let direction = match axis {
        Axis::Vertical => Direction::Vertical,
        Axis::Horizontal => Direction::Horizontal,
    };
    let rules = rules.iter().map(|rule| match rule {
        SizeRule::Length(n) => Constraint::Length(*n),
        SizeRule::Min(n) => Constraint::Min(*n),
        SizeRule::Percentage(n) => Constraint::Percentage(*n),
    });
    let parts = Layout::default().direction(direction).constraints(rules).split(outer);
    parts.iter().map(|part| Area { x: part.x, y: part.y, width: part.width, height: part.height }).collect()
}

/// Parts of an area that has coordinates have them too.
pub proof fn parts_fit(area: Area, part: Area)
    requires
        area.fits(),
        part.lies_in(area),
    ensures
        part.fits(),
{
}

/// `area`, or the middle `max_width` columns of it where it is wider.
pub open spec fn centered(area: Area, max_width: u16) -> Area {
    if area.width <= max_width {
        area
    } else {
        Area { x: (area.x + (area.width - max_width) / 2) as u16, width: max_width, ..area }
    }
}

/// `area`, or the middle `max_width` columns of it where it is wider.
pub fn centered_content_rect(area: Area, max_width: u16) -> (content: Area)
    requires
        area.fits(),
    ensures
        content == centered(area, max_width),
        content.fits(),
        content.lies_in(area),
{
    if area.width <= max_width {
        area
    } else {
        let margin = (area.width - max_width) / 2;
        new_area(area.x + margin, area.y, max_width, area.height)
    }
}

} // verus!
