//! Areas of the screen, and how one is split into several.

use vstd::prelude::*;

verus! {

/// A rectangle of cells of the screen.
#[derive(Debug, Clone, Copy, PartialEq, Eq, Structural)]
pub struct Area {
    pub x: u16,
    pub y: u16,
    pub width: u16,
    pub height: u16,
}

/// The direction in which the panes of a split follow each other.
#[derive(Debug, Clone, Copy, PartialEq, Eq, Structural)]
pub enum Direction {
    Horizontal,
    Vertical,
}

impl Area {
    /// The first column or row.
    pub open spec fn start(self, direction: Direction) -> int {
        match direction {
            Direction::Horizontal => self.x as int,
            Direction::Vertical => self.y as int,
        }
    }

    /// The number of columns or rows.
    pub open spec fn size(self, direction: Direction) -> int {
        match direction {
            Direction::Horizontal => self.width as int,
            Direction::Vertical => self.height as int,
        }
    }

    /// The first column or row that is no longer part of the area, but no more
    /// than the screen can have.
    pub open spec fn end(self, direction: Direction) -> int {
        if self.start(direction) + self.size(direction) <= u16::MAX {
            self.start(direction) + self.size(direction)
        } else {
            u16::MAX as int
        }
    }

    /// The cell at a column and row is part of the area.
    pub open spec fn has_cell(self, column: int, row: int) -> bool {
        &&& self.x <= column < self.x + self.width
        &&& self.y <= row < self.y + self.height
    }

    /// Every cell of this area is one of the other.
    pub open spec fn is_inside(self, other: Area) -> bool {
        forall|column: int, row: int| #[trigger]
            self.has_cell(column, row) ==> other.has_cell(column, row)
    }

    /// The areas have no cell in common.
    pub open spec fn is_apart_from(self, other: Area) -> bool {
        forall|column: int, row: int| #[trigger]
            self.has_cell(column, row) ==> !other.has_cell(column, row)
    }
}

/// The sum of the first `n` limits.
pub open spec fn total(limits: Seq<u16>, n: nat) -> nat
    decreases n,
{
    if n == 0 {
        0
    } else {
        total(limits, (n - 1) as nat) + limits[n - 1] as nat
    }
}

/// How far from the start of an extent of cells the pane `i` begins, or, behind the
/// last pane, how far the extent goes.
///
/// Each pane takes its limit out of what the panes before it have left, or all of
/// that if it is less. The last pane takes whatever is left.
pub open spec fn edge(limits: Seq<u16>, extent: int, i: int) -> int {
    if i < limits.len() && total(limits, i as nat) < extent {
        total(limits, i as nat) as int
    } else {
        extent
    }
}

/// The pane `i` of an area that is split. Across the direction of the split it is
/// as wide as the area.
pub open spec fn split_pane(direction: Direction, limits: Seq<u16>, area: Area, i: int) -> Area {
    let extent = area.end(direction) - area.start(direction);
    let start = area.start(direction) + edge(limits, extent, i);
    let size = edge(limits, extent, i + 1) - edge(limits, extent, i);
    match direction {
        Direction::Horizontal => Area {
            x: start as u16,
            y: area.y,
            width: size as u16,
            height: area.height,
        },
        Direction::Vertical => Area {
            x: area.x,
            y: start as u16,
            width: area.width,
            height: size as u16,
        },
    }
}

/// The panes of an area that is split, one for each limit.
pub open spec fn split_panes(direction: Direction, limits: Seq<u16>, area: Area) -> Seq<Area> {
    Seq::new(limits.len(), |i: int| split_pane(direction, limits, area, i))
}

/// The sum of more limits is no less.
proof fn lemma_total_grows(limits: Seq<u16>, m: nat, n: nat)
    requires
        m <= n,
    ensures
        total(limits, m) <= total(limits, n),
    decreases n,
{
    if m < n {
        lemma_total_grows(limits, m, (n - 1) as nat);
    }
}

/// A split has a pane for each limit. The first pane begins where the area begins, each
/// other where the one before it ends, and the last ends where the area ends. A pane
/// other than the last has its limit, or all that is left where that is less. Across
/// the direction of the split all of them are as wide as the area.
pub proof fn law_panes_take_their_limits_in_turn(
    direction: Direction,
    limits: Seq<u16>,
    area: Area,
    i: int,
)
    requires
        0 <= i < limits.len(),
    ensures
        ({
            let panes = split_panes(direction, limits, area);
            let first = |a: Area| if direction is Horizontal { a.x as int } else { a.y as int };
            let size = |a: Area|
                if direction is Horizontal { a.width as int } else { a.height as int };
            let behind = if first(area) + size(area) < 65535 {
                first(area) + size(area)
            } else {
                65535
            };
            let left = behind - first(panes[i]);
            &&& panes.len() == limits.len()
            &&& i == 0 ==> first(panes[i]) == first(area)
            &&& i > 0 ==> first(panes[i]) == first(panes[i - 1]) + size(panes[i - 1])
            &&& i < limits.len() - 1 ==> size(panes[i]) == if left < limits[i] {
                left
            } else {
                limits[i] as int
            }
            &&& i == limits.len() - 1 ==> size(panes[i]) == left
            &&& direction is Horizontal ==> panes[i].y == area.y && panes[i].height == area.height
            &&& direction is Vertical ==> panes[i].x == area.x && panes[i].width == area.width
        }),
{
    lemma_total_grows(limits, i as nat, (i + 1) as nat);
    if i > 0 {
        lemma_total_grows(limits, (i - 1) as nat, i as nat);
    }
    reveal_with_fuel(total, 2);
}

/// `ratatui::layout::Layout::split`, for a layout without margin all of whose
/// constraints are a `Constraint::Max`.
///
/// The layout requires its panes to tile the area. It then asks its solver for the
/// limits one after the other, and the solver keeps a solution as long as no other
/// is better: so an earlier pane has its limit before a later one has anything,
/// and what no limit asks for goes to the last pane.
#[verifier::external_body]
pub(crate) fn split(direction: Direction, limits: &Vec<u16>, area: Area) -> (panes: Vec<Area>)
    ensures
        panes@ == split_panes(direction, limits@, area),
{
    let direction = match direction {
        Direction::Horizontal => ratatui::layout::Direction::Horizontal,
        Direction::Vertical => ratatui::layout::Direction::Vertical,
    };
    let constraints: Vec<ratatui::layout::Constraint> =
        limits.iter().map(|limit| ratatui::layout::Constraint::Max(*limit)).collect();
    let Area { x, y, width, height } = area;
    let rect = ratatui::layout::Rect { x, y, width, height };
    let layout = ratatui::layout::Layout::default().direction(direction);
    let panes = layout.constraints(constraints).split(rect);
    panes.iter().map(|p| Area { x: p.x, y: p.y, width: p.width, height: p.height }).collect()
}

} // verus!
