use vstd::prelude::*;

verus! {

/// The four directions in which the snake can travel.
#[derive(Debug, Clone, Copy, PartialEq, Eq, Structural)]
pub enum Direction {
    North,
    South,
    East,
    West,
}

impl Direction {
    /// The unit offset of one move in this direction (y grows downwards).
    pub open spec fn offset(self) -> (int, int) {
        match self {
            Direction::West => (-1, 0),
            Direction::East => (1, 0),
            Direction::North => (0, -1),
            Direction::South => (0, 1),
        }
    }

    /// The direction pointing the other way.
    pub open spec fn opposite(self) -> Direction {
        match self {
            Direction::West => Direction::East,
            Direction::East => Direction::West,
            Direction::North => Direction::South,
            Direction::South => Direction::North,
        }
    }

    pub fn get_offset(&self) -> (r: (i32, i32))
        ensures
            r.0 as int == self.offset().0,
            r.1 as int == self.offset().1,
    {
        match *self {
            Direction::West => (-1, 0),
            Direction::East => (1, 0),
            Direction::North => (0, -1),
            Direction::South => (0, 1),
        }
    }

    pub fn get_opposite(&self) -> (r: Direction)
        ensures
            r == self.opposite(),
    {
        match *self {
            Direction::West => Direction::East,
            Direction::East => Direction::West,
            Direction::North => Direction::South,
            Direction::South => Direction::North,
        }
    }
}

/// One cell of the playing field, as (column, row).
#[derive(Debug, Clone, Copy, PartialEq, Eq, Structural)]
pub struct Point(pub u16, pub u16);

/// Why a coordinate was not accepted as a cell of the field.
#[derive(Debug, Clone, Copy, PartialEq, Eq, Structural)]
pub enum Error {
    OutOfBounds,
}

/// The rectangular playing field. The first `inset` rows and the first
/// `inset` columns are reserved: no play and no food happens there.
#[derive(Debug, Clone, Copy, PartialEq, Eq, Structural)]
pub struct Grid {
    pub width: u16,
    pub height: u16,
    pub inset: u16,
}

impl Grid {
    /// `(x, y)` lies in the playable part of the field.
    pub open spec fn holds_xy(self, x: int, y: int) -> bool {
        &&& self.inset <= x < self.width
        &&& self.inset <= y < self.height
    }

    pub open spec fn holds(self, p: Point) -> bool {
        self.holds_xy(p.0 as int, p.1 as int)
    }

    /// Exact range check: inclusive at the low edge, exclusive at the high one.
    pub fn is_in_bounds(&self, x: i32, y: i32) -> (r: bool)
        ensures
            r == self.holds_xy(x as int, y as int),
    {
        self.inset as i32 <= x && x < self.width as i32 && self.inset as i32 <= y && y
            < self.height as i32
    }
}

impl Point {
    /// The cell at `(x, y)`, or `OutOfBounds` when that lies off the playable field.
    pub fn new(x: i32, y: i32, grid: &Grid) -> (r: Result<Point, Error>)
        ensures
            r is Ok <==> grid.holds_xy(x as int, y as int),
            r matches Ok(p) ==> p.0 as int == x && p.1 as int == y,
            r matches Err(e) ==> e == Error::OutOfBounds,
    {
        if grid.is_in_bounds(x, y) {
            Ok(Point(x as u16, y as u16))
        } else {
            Err(Error::OutOfBounds)
        }
    }

    /// Terminal cells are about twice as high as wide: a cell is drawn two
    /// characters wide.
    pub fn to_screen_coord(&self) -> (r: (u32, u32))
        ensures
            r.0 == 2 * self.0 as int,
            r.1 == self.1 as int,
    {
        let Point(x, y) = *self;
        (x as u32 * 2, y as u32)
    }
}

/// ASCII codes of the keys that steer the snake: vi keys and WASD.
pub const KEY_H: u8 = 104;
pub const KEY_J: u8 = 106;
pub const KEY_K: u8 = 107;
pub const KEY_L: u8 = 108;
pub const KEY_A: u8 = 97;
pub const KEY_D: u8 = 100;
pub const KEY_S: u8 = 115;
pub const KEY_W: u8 = 119;

/// The direction a key asks for, if it is one of the steering keys.
pub open spec fn key_direction(key: u8) -> Option<Direction> {
    if key == KEY_J || key == KEY_S {
        Some(Direction::South)
    } else if key == KEY_K || key == KEY_W {
        Some(Direction::North)
    } else if key == KEY_H || key == KEY_A {
        Some(Direction::West)
    } else if key == KEY_L || key == KEY_D {
        Some(Direction::East)
    } else {
        None
    }
}

pub fn direction_for_key(key: u8) -> (r: Option<Direction>)
    ensures
        r == key_direction(key),
{
    if key == KEY_J || key == KEY_S {
        Some(Direction::South)
    } else if key == KEY_K || key == KEY_W {
        Some(Direction::North)
    } else if key == KEY_H || key == KEY_A {
        Some(Direction::West)
    } else if key == KEY_L || key == KEY_D {
        Some(Direction::East)
    } else {
        None
    }
}

} // verus!
