//! Grid coordinates and the four cardinal moves.
use vstd::prelude::*;

verus! {

/// A cell of the grid: the origin is the bottom-left corner, `x` grows to the
/// right and `y` grows upwards.
#[derive(Debug, Clone, Copy, PartialEq, Eq, Structural, PartialOrd, Ord)]
pub struct Coord {
    pub x: i32,
    pub y: i32,
}

impl View for Coord {
    type V = (int, int);

    open spec fn view(&self) -> (int, int) {
        (self.x as int, self.y as int)
    }
}

impl Coord {
    pub fn new(x: i32, y: i32) -> (r: Coord)
        ensures
            r.x == x,
            r.y == y,
    {
        Coord { x, y }
    }

    /// Component-wise sum; defined where both sums fit in `i32`.
    pub fn add(self, rhs: Coord) -> (r: Coord)
        requires
            i32::MIN <= self.x + rhs.x <= i32::MAX,
            i32::MIN <= self.y + rhs.y <= i32::MAX,
        ensures
            r@ == (self@.0 + rhs@.0, self@.1 + rhs@.1),
    {
        Coord { x: self.x + rhs.x, y: self.y + rhs.y }
    }
}

/// Manhattan distance between two cells.
pub open spec fn manhattan(a: (int, int), b: (int, int)) -> int {
    abs(a.0 - b.0) + abs(a.1 - b.1)
}

pub open spec fn abs(v: int) -> int {
    if v < 0 { -v } else { v }
}

/// One of the four cardinal moves.
#[derive(Debug, Clone, Copy, PartialEq, Eq, Structural)]
pub enum Movements {
    Up,
    Down,
    Left,
    Right,
}

impl Movements {
    /// The unit step of a move.
    pub open spec fn delta(self) -> (int, int) {
        match self {
            Movements::Up => (0, 1),
            Movements::Down => (0, -1),
            Movements::Left => (-1, 0),
            Movements::Right => (1, 0),
        }
    }

    /// Position of a move in the fixed order Up, Down, Left, Right, which
    /// breaks ties between equally good moves.
    pub open spec fn rank(self) -> int {
        match self {
            Movements::Up => 0,
            Movements::Down => 1,
            Movements::Left => 2,
            Movements::Right => 3,
        }
    }

    /// The move at a position of the fixed order.
    pub open spec fn at_rank(i: int) -> Movements {
        if i == 0 {
            Movements::Up
        } else if i == 1 {
            Movements::Down
        } else if i == 2 {
            Movements::Left
        } else {
            Movements::Right
        }
    }

    /// The cell that a move from `from` leads to.
    pub open spec fn project(self, from: (int, int)) -> (int, int) {
        (from.0 + self.delta().0, from.1 + self.delta().1)
    }

    pub fn coords(&self) -> (r: Coord)
        ensures
            r@ == self.delta(),
    {
        match self {
            Movements::Up => Coord::new(0, 1),
            Movements::Down => Coord::new(0, -1),
            Movements::Left => Coord::new(-1, 0),
            Movements::Right => Coord::new(1, 0),
        }
    }

    /// The four moves in their fixed order.
    pub fn all() -> (r: [Movements; 4])
        ensures
            forall|i: int| 0 <= i < 4 ==> #[trigger] r@[i] == Movements::at_rank(i),
    {
        [Movements::Up, Movements::Down, Movements::Left, Movements::Right]
    }

    /// The cell that this move leads to from `from`, or `None` where that
    /// cell lies outside the range of `i32` (and so outside any grid).
    pub fn step(&self, from: Coord) -> (r: Option<Coord>)
        ensures
            match r {
                Some(c) => c@ == self.project(from@),
                None => !(i32::MIN <= self.project(from@).0 <= i32::MAX
                    && i32::MIN <= self.project(from@).1 <= i32::MAX),
            },
    {
        let d = self.coords();
        let fits = match self {
            Movements::Up => from.y < i32::MAX,
            Movements::Down => from.y > i32::MIN,
            Movements::Left => from.x > i32::MIN,
            Movements::Right => from.x < i32::MAX,
        };
        if fits {
            Some(from.add(d))
        } else {
            None
        }
    }
}

} // verus!
