//! The playing field: cell coordinates, travel directions, and the arena
//! with its (possibly inset) playable region.

use vstd::prelude::*;

verus! {

/// One cell of the arena grid.
#[derive(Clone, Copy, PartialEq, Eq, Structural, Debug)]
pub struct Position {
    pub x: u32,
    pub y: u32,
}

/// A direction of travel on the grid.
#[derive(Clone, Copy, PartialEq, Eq, Structural, Debug)]
pub enum Direction {
    Left,
    Up,
    Right,
    Down,
}

impl Direction {
    /// The 180-degree reversal of a direction.
    pub open spec fn opposite_spec(self) -> Direction {
        match self {
            Direction::Left => Direction::Right,
            Direction::Right => Direction::Left,
            Direction::Up => Direction::Down,
            Direction::Down => Direction::Up,
        }
    }

    /// No direction is its own reversal.
    pub proof fn lemma_opposite_differs(self)
        ensures
            self != self.opposite_spec(),
    {
    }

    pub fn opposite(self) -> (r: Direction)
        ensures
            r == self.opposite_spec(),
    {
        match self {
            Direction::Left => Direction::Right,
            Direction::Right => Direction::Left,
            Direction::Up => Direction::Down,
            Direction::Down => Direction::Up,
        }
    }
}

/// The arena: `width * height` cells, of which the region inset by `border`
/// cells on every side is playable.  A `border` of zero means the whole
/// arena is playable; a `border` of one keeps a one-cell rim that ends the
/// game when the snake's head would enter it.
#[derive(Clone, Copy, PartialEq, Eq, Structural, Debug)]
pub struct ArenaConfig {
    pub width: u32,
    pub height: u32,
    pub border: u32,
}

impl ArenaConfig {
    /// The playable region is nonempty.
    pub open spec fn valid(self) -> bool {
        2 * self.border < self.width && 2 * self.border < self.height
    }

    /// Width of the playable region, in cells.
    pub open spec fn playable_width(self) -> int {
        self.width - 2 * self.border
    }

    /// Height of the playable region, in cells.
    pub open spec fn playable_height(self) -> int {
        self.height - 2 * self.border
    }

    /// Whether a cell lies in the playable region.
    pub open spec fn in_playable(self, p: Position) -> bool {
        &&& self.border <= p.x < self.width - self.border
        &&& self.border <= p.y < self.height - self.border
    }
}

/// The x coordinate one unit-step from `p` in direction `d`, as a
/// mathematical integer so that a step off the arena's left edge is
/// representable.
pub open spec fn step_x(p: Position, d: Direction) -> int {
    match d {
        Direction::Left => p.x - 1,
        Direction::Right => p.x + 1,
        Direction::Up => p.x as int,
        Direction::Down => p.x as int,
    }
}

/// The y coordinate one unit-step from `p` in direction `d`.
pub open spec fn step_y(p: Position, d: Direction) -> int {
    match d {
        Direction::Left => p.y as int,
        Direction::Right => p.y as int,
        Direction::Up => p.y + 1,
        Direction::Down => p.y - 1,
    }
}

/// Whether the cell one unit-step from `p` in direction `d` lies in the
/// playable region of `cfg`.
pub open spec fn step_in_playable(cfg: ArenaConfig, p: Position, d: Direction) -> bool {
    &&& cfg.border <= step_x(p, d) < cfg.width - cfg.border
    &&& cfg.border <= step_y(p, d) < cfg.height - cfg.border
}

/// The cell one unit-step from `p` in direction `d`.  Meaningful only where
/// both stepped coordinates are nonnegative, as they are whenever
/// `step_in_playable` holds.
pub open spec fn stepped(p: Position, d: Direction) -> Position {
    Position { x: step_x(p, d) as u32, y: step_y(p, d) as u32 }
}

/// The cell one unit-step from `p` in direction `d`, or `None` where that
/// step would leave the playable region.
pub fn try_step(cfg: ArenaConfig, p: Position, d: Direction) -> (r: Option<Position>)
    requires
        cfg.valid(),
        cfg.in_playable(p),
    ensures
        r is Some <==> step_in_playable(cfg, p, d),
        r matches Some(q) ==> q == stepped(p, d),
{
    match d {
        Direction::Left => {
            if p.x > cfg.border {
                Some(Position { x: p.x - 1, y: p.y })
            } else {
                None
            }
        },
        Direction::Right => {
            if p.x < cfg.width - cfg.border - 1 {
                Some(Position { x: p.x + 1, y: p.y })
            } else {
                None
            }
        },
        Direction::Up => {
            if p.y < cfg.height - cfg.border - 1 {
                Some(Position { x: p.x, y: p.y + 1 })
            } else {
                None
            }
        },
        Direction::Down => {
            if p.y > cfg.border {
                Some(Position { x: p.x, y: p.y - 1 })
            } else {
                None
            }
        },
    }
}

} // verus!
