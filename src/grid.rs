use vstd::prelude::*;

verus! {

/// Width of the default map, in cells.
pub const MAP_WIDTH: i32 = 5;

/// Height of the default map, in cells.
pub const MAP_HEIGHT: i32 = 5;

/// Number of cells of the default map.
pub const MAP_SIZE: i32 = 25;

/// A cell of the grid, given by its column `x` and its row `y`.
#[derive(Clone, Copy, Debug, PartialEq, Eq, Structural)]
pub struct GridPosition {
    pub x: i32,
    pub y: i32,
}

/// The dimensions of a grid: the cells `[0, width) x [0, height)`.
#[derive(Clone, Copy, Debug, PartialEq, Eq, Structural)]
pub struct Grid {
    pub width: i32,
    pub height: i32,
}

/// One of the four directions in which a unit can act.
#[derive(Clone, Copy, Debug, PartialEq, Eq, Structural)]
pub enum Direction {
    Left,
    Right,
    Up,
    Down,
}

impl Grid {
    /// A grid is usable when it has at least one cell.
    pub open spec fn wf(self) -> bool {
        self.width > 0 && self.height > 0
    }

    /// Whether `p` lies on this grid.
    pub open spec fn contains(self, p: GridPosition) -> bool {
        0 <= p.x < self.width && 0 <= p.y < self.height
    }

    pub fn new(width: i32, height: i32) -> (r: Grid)
        ensures
            r.width == width,
            r.height == height,
    {
        Grid { width, height }
    }

    /// The default map, `MAP_WIDTH` by `MAP_HEIGHT`.
    pub open spec fn default_map_spec() -> Grid {
        Grid { width: MAP_WIDTH, height: MAP_HEIGHT }
    }

    /// The default map, `MAP_WIDTH` by `MAP_HEIGHT`.
    pub fn default_map() -> (r: Grid)
        ensures
            r == Grid::default_map_spec(),
            r.wf(),
    {
        Grid { width: MAP_WIDTH, height: MAP_HEIGHT }
    }

    /// Whether `p` lies on this grid.
    pub fn in_bounds(&self, p: GridPosition) -> (r: bool)
        ensures
            r == self.contains(p),
    {
        0 <= p.x && p.x < self.width && 0 <= p.y && p.y < self.height
    }
}

/// The displacement of one step in direction `d`.
pub open spec fn offset_of(d: Direction) -> (int, int) {
    match d {
        Direction::Left => (-1, 0),
        Direction::Right => (1, 0),
        Direction::Up => (0, 1),
        Direction::Down => (0, -1),
    }
}

/// The direction opposite to `d`.
pub open spec fn opposite_of(d: Direction) -> Direction {
    match d {
        Direction::Left => Direction::Right,
        Direction::Right => Direction::Left,
        Direction::Up => Direction::Down,
        Direction::Down => Direction::Up,
    }
}

/// The direction that an index in `[0, 4)` stands for.
pub open spec fn direction_of_index(n: u32) -> Direction {
    if n == 0 {
        Direction::Up
    } else if n == 1 {
        Direction::Down
    } else if n == 2 {
        Direction::Left
    } else {
        Direction::Right
    }
}

/// Whether `p + (dx, dy)` fits in `i32`.
pub open spec fn can_translate(p: GridPosition, dx: int, dy: int) -> bool {
    i32::MIN <= p.x + dx <= i32::MAX && i32::MIN <= p.y + dy <= i32::MAX
}

/// The cell one step from `p` in direction `d`.
pub open spec fn step(p: GridPosition, d: Direction) -> GridPosition
    recommends
        can_translate(p, offset_of(d).0, offset_of(d).1),
{
    GridPosition { x: (p.x + offset_of(d).0) as i32, y: (p.y + offset_of(d).1) as i32 }
}

impl GridPosition {
    pub fn new(x: i32, y: i32) -> (r: GridPosition)
        ensures
            r.x == x,
            r.y == y,
    {
        GridPosition { x, y }
    }

    /// Translation by `other`, with no wraparound.
    pub fn add(self, other: GridPosition) -> (r: GridPosition)
        requires
            can_translate(self, other.x as int, other.y as int),
        ensures
            r.x == self.x + other.x,
            r.y == self.y + other.y,
    {
        GridPosition { x: self.x + other.x, y: self.y + other.y }
    }

    /// Translates this position in place by `other`.
    pub fn add_assign(&mut self, other: GridPosition)
        requires
            can_translate(*old(self), other.x as int, other.y as int),
        ensures
            final(self).x == old(self).x + other.x,
            final(self).y == old(self).y + other.y,
    {
        self.x = self.x + other.x;
        self.y = self.y + other.y;
    }

    /// The coordinates of the cell one step away in `direction`.
    pub fn move_dir(&self, direction: Direction) -> (r: (i32, i32))
        requires
            can_translate(*self, offset_of(direction).0, offset_of(direction).1),
        ensures
            r.0 == self.x + offset_of(direction).0,
            r.1 == self.y + offset_of(direction).1,
    {
        match direction {
            Direction::Up => (self.x, self.y + 1),
            Direction::Down => (self.x, self.y - 1),
            Direction::Left => (self.x - 1, self.y),
            Direction::Right => (self.x + 1, self.y),
        }
    }

    /// Sets the coordinates to `(x, y)`.
    pub fn set(&mut self, xy: (i32, i32))
        ensures
            final(self).x == xy.0,
            final(self).y == xy.1,
    {
        self.x = xy.0;
        self.y = xy.1;
    }

    /// The coordinates as a pair `(x, y)`.
    pub fn get(&self) -> (r: (i32, i32))
        ensures
            r == (self.x, self.y),
    {
        (self.x, self.y)
    }

    /// The cell one step away in `direction`, when it lies on `grid`.
    pub fn neighbor(&self, direction: Direction, grid: Grid) -> (r: Option<GridPosition>)
        requires
            grid.contains(*self),
        ensures
            can_translate(*self, offset_of(direction).0, offset_of(direction).1),
            r == (if grid.contains(step(*self, direction)) {
                Some(step(*self, direction))
            } else {
                None
            }),
    {
        let (x, y) = self.move_dir(direction);
        let p = GridPosition { x, y };
        if grid.in_bounds(p) {
            Some(p)
        } else {
            None
        }
    }
}

impl Direction {
    /// The direction pointing the other way.
    pub fn opposite(&self) -> (r: Direction)
        ensures
            r == opposite_of(*self),
    {
        match self {
            Direction::Left => Direction::Right,
            Direction::Right => Direction::Left,
            Direction::Up => Direction::Down,
            Direction::Down => Direction::Up,
        }
    }

    /// The unit displacement of this direction, as `(dx, dy)`.
    pub fn vector(&self) -> (r: (i32, i32))
        ensures
            r.0 == offset_of(*self).0,
            r.1 == offset_of(*self).1,
    {
        match self {
            Direction::Left => (-1, 0),
            Direction::Right => (1, 0),
            Direction::Up => (0, 1),
            Direction::Down => (0, -1),
        }
    }

    /// The unit displacement of this direction, as a position offset.
    pub fn as_grid_position(&self) -> (r: GridPosition)
        ensures
            r.x == offset_of(*self).0,
            r.y == offset_of(*self).1,
    {
        match self {
            Direction::Left => GridPosition::new(-1, 0),
            Direction::Right => GridPosition::new(1, 0),
            Direction::Up => GridPosition::new(0, 1),
            Direction::Down => GridPosition::new(0, -1),
        }
    }

    /// The direction that an index in `[0, 4)` stands for:
    /// up, down, left, right in that order.
    pub fn from_index(n: u32) -> (r: Direction)
        requires
            n < 4,
        ensures
            r == direction_of_index(n),
    {
        if n == 0 {
            Direction::Up
        } else if n == 1 {
            Direction::Down
        } else if n == 2 {
            Direction::Left
        } else {
            Direction::Right
        }
    }
}

/// Turning around twice faces the original direction.
pub proof fn lemma_opposite_involution(d: Direction)
    ensures
        opposite_of(opposite_of(d)) == d,
{
}

/// Stepping in a direction and then in its opposite returns to the start.
pub proof fn lemma_step_opposite_returns(p: GridPosition, d: Direction)
    requires
        can_translate(p, offset_of(d).0, offset_of(d).1),
    ensures
        step(step(p, d), opposite_of(d)) == p,
{
}

} // verus!
