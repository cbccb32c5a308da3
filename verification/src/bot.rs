//! The 8-point compass direction of a bot.
//!
//! The eight values carry the 3-bit codes 0 through 7, in 45-degree
//! counter-clockwise steps starting from north, and form the cyclic
//! group Z/8 under addition of codes modulo 8. Each direction also maps
//! to a unit displacement vector in image coordinates (`+y` points
//! downward), and exactly those eight unit vectors classify back to a
//! direction.

use crate::geom::Point;
use vstd::prelude::*;

verus! {

#[derive(Copy, Clone, PartialEq, Eq, Structural, Hash, Debug)]
pub enum Direction {
    N,
    NW,
    W,
    SW,
    S,
    SE,
    E,
    NE,
}

impl Direction {
    /// The 3-bit code of the direction, 0 through 7.
    pub open spec fn spec_code(self) -> int {
        match self {
            Direction::N => 0,
            Direction::NW => 1,
            Direction::W => 2,
            Direction::SW => 3,
            Direction::S => 4,
            Direction::SE => 5,
            Direction::E => 6,
            Direction::NE => 7,
        }
    }

    /// The direction carrying code `c`, for `c` in 0..8.
    pub open spec fn spec_from_code(c: int) -> Direction {
        if c == 0 {
            Direction::N
        } else if c == 1 {
            Direction::NW
        } else if c == 2 {
            Direction::W
        } else if c == 3 {
            Direction::SW
        } else if c == 4 {
            Direction::S
        } else if c == 5 {
            Direction::SE
        } else if c == 6 {
            Direction::E
        } else {
            Direction::NE
        }
    }

    /// The sum of two directions: codes added modulo 8.
    pub open spec fn spec_add(self, rhs: Direction) -> Direction {
        Direction::spec_from_code((self.spec_code() + rhs.spec_code()) % 8)
    }

    /// The unit displacement vector of the direction, each component in
    /// {-1, 0, 1}, with `+y` pointing downward.
    pub open spec fn spec_unit_vector(self) -> Point<i32> {
        match self {
            Direction::N => Point { x: 0i32, y: -1i32 },
            Direction::S => Point { x: 0i32, y: 1i32 },
            Direction::E => Point { x: 1i32, y: 0i32 },
            Direction::W => Point { x: -1i32, y: 0i32 },
            Direction::NE => Point { x: 1i32, y: -1i32 },
            Direction::SE => Point { x: 1i32, y: 1i32 },
            Direction::SW => Point { x: -1i32, y: 1i32 },
            Direction::NW => Point { x: -1i32, y: -1i32 },
        }
    }

    /// The direction whose unit vector is exactly `point`, if there is
    /// one. Only the eight canonical unit vectors classify; the zero
    /// vector and every longer displacement are rejected.
    pub open spec fn spec_classify(point: Point<i32>) -> Result<Direction, ()> {
        if point == (Point { x: 0i32, y: -1i32 }) {
            Ok(Direction::N)
        } else if point == (Point { x: 0i32, y: 1i32 }) {
            Ok(Direction::S)
        } else if point == (Point { x: 1i32, y: 0i32 }) {
            Ok(Direction::E)
        } else if point == (Point { x: -1i32, y: 0i32 }) {
            Ok(Direction::W)
        } else if point == (Point { x: 1i32, y: -1i32 }) {
            Ok(Direction::NE)
        } else if point == (Point { x: 1i32, y: 1i32 }) {
            Ok(Direction::SE)
        } else if point == (Point { x: -1i32, y: 1i32 }) {
            Ok(Direction::SW)
        } else if point == (Point { x: -1i32, y: -1i32 }) {
            Ok(Direction::NW)
        } else {
            Err(())
        }
    }

    /// The 3-bit code of the direction.
    pub fn code(self) -> (r: u32)
        ensures
            r == self.spec_code(),
    {
        match self {
            Direction::N => 0,
            Direction::NW => 1,
            Direction::W => 2,
            Direction::SW => 3,
            Direction::S => 4,
            Direction::SE => 5,
            Direction::E => 6,
            Direction::NE => 7,
        }
    }

    /// The direction carrying the given 3-bit code; codes 8 and above
    /// are rejected.
    pub fn try_from_code(value: u32) -> (r: Result<Direction, ()>)
        ensures
            r == (if value < 8 {
                Ok::<Direction, ()>(Direction::spec_from_code(value as int))
            } else {
                Err::<Direction, ()>(())
            }),
    {
        match value {
            0 => Ok(Direction::N),
            1 => Ok(Direction::NW),
            2 => Ok(Direction::W),
            3 => Ok(Direction::SW),
            4 => Ok(Direction::S),
            5 => Ok(Direction::SE),
            6 => Ok(Direction::E),
            7 => Ok(Direction::NE),
            _ => Err(()),
        }
    }

    /// Rotate `self` by `rhs`: the codes are added modulo 8, so the sum
    /// is again one of the eight directions.
    pub fn add(self, rhs: Direction) -> (r: Direction)
        ensures
            r == self.spec_add(rhs),
    {
        let c: u32 = (self.code() + rhs.code()) % 8;
        let r = Direction::try_from_code(c);
        match r {
            Ok(direction) => direction,
            Err(()) => self,
        }
    }

    /// The unit displacement vector of the direction.
    pub fn to_unit_vector(self) -> (r: Point<i32>)
        ensures
            r == self.spec_unit_vector(),
    {
        match self {
            Direction::N => Point { x: 0, y: -1 },
            Direction::S => Point { x: 0, y: 1 },
            Direction::E => Point { x: 1, y: 0 },
            Direction::W => Point { x: -1, y: 0 },
            Direction::NE => Point { x: 1, y: -1 },
            Direction::SE => Point { x: 1, y: 1 },
            Direction::SW => Point { x: -1, y: 1 },
            Direction::NW => Point { x: -1, y: -1 },
        }
    }

    /// Classify a displacement vector as a direction. Exactly the eight
    /// canonical unit vectors succeed; the zero vector and every other
    /// displacement (such as one of length two) are rejected.
    pub fn try_from_vector(point: Point<i32>) -> (r: Result<Direction, ()>)
        ensures
            r == Direction::spec_classify(point),
    {
        match (point.x, point.y) {
            (0, -1) => Ok(Direction::N),
            (0, 1) => Ok(Direction::S),
            (1, 0) => Ok(Direction::E),
            (-1, 0) => Ok(Direction::W),
            (1, -1) => Ok(Direction::NE),
            (1, 1) => Ok(Direction::SE),
            (-1, 1) => Ok(Direction::SW),
            (-1, -1) => Ok(Direction::NW),
            _ => Err(()),
        }
    }

    /// Rotate `direction` by the direction classified from `rotate_to`;
    /// a displacement that classifies to no direction (the zero vector
    /// or any non-canonical one) leaves the direction unchanged.
    pub fn change_rotation(direction: Direction, rotate_to: Point<i32>) -> (r: Direction)
        ensures
            Direction::spec_classify(rotate_to) matches Ok(shift)
                ==> r == direction.spec_add(shift),
            Direction::spec_classify(rotate_to) is Err ==> r == direction,
    {
        match Direction::try_from_vector(rotate_to) {
            Ok(direction_shift) => direction.add(direction_shift),
            _ => direction,
        }
    }

    /// The English name of the direction.
    pub fn name(self) -> (r: &'static str)
        ensures
            self is N ==> r@ == "North"@,
            self is NW ==> r@ == "North-West"@,
            self is W ==> r@ == "West"@,
            self is SW ==> r@ == "South-West"@,
            self is S ==> r@ == "South"@,
            self is SE ==> r@ == "South-East"@,
            self is E ==> r@ == "East"@,
            self is NE ==> r@ == "North-East"@,
    {
        match self {
            Direction::N => "North",
            Direction::NW => "North-West",
            Direction::W => "West",
            Direction::SW => "South-West",
            Direction::S => "South",
            Direction::SE => "South-East",
            Direction::E => "East",
            Direction::NE => "North-East",
        }
    }
}

/// Codes and directions are inverse to each other: the direction of a
/// code in 0..8 carries that code back.
pub proof fn lemma_code_round_trip(c: int)
    requires
        0 <= c < 8,
    ensures
        Direction::spec_from_code(c).spec_code() == c,
{
}

/// Direction addition is associative.
pub proof fn lemma_direction_add_assoc(a: Direction, b: Direction, c: Direction)
    ensures
        a.spec_add(b).spec_add(c) == a.spec_add(b.spec_add(c)),
{
    let x: int = a.spec_code();
    let y: int = b.spec_code();
    let z: int = c.spec_code();
    lemma_code_round_trip((x + y) % 8);
    lemma_code_round_trip((y + z) % 8);
    assert(((x + y) % 8 + z) % 8 == (x + (y + z) % 8) % 8) by (nonlinear_arith)
        requires
            0 <= x < 8,
            0 <= y < 8,
            0 <= z < 8,
    ;
}

/// North, the direction with code 0, is the identity of direction
/// addition.
pub proof fn lemma_direction_add_identity(d: Direction)
    ensures
        Direction::N.spec_add(d) == d,
        d.spec_add(Direction::N) == d,
{
}

/// Adding a direction to itself gives the direction two 45-degree steps
/// further: the code doubles, modulo 8.
pub proof fn lemma_direction_add_self(d: Direction)
    ensures
        d.spec_add(d) == Direction::spec_from_code((2 * d.spec_code()) % 8),
{
}

/// The round trip direction -> unit vector -> direction restores the
/// direction, for each of the eight values.
pub proof fn lemma_unit_vector_round_trip(d: Direction)
    ensures
        Direction::spec_classify(d.spec_unit_vector()) == Ok::<Direction, ()>(d),
{
}

/// Classification fails on the zero vector and on every displacement
/// that is not one of the eight canonical unit vectors.
pub proof fn lemma_classify_rejects_non_canonical(p: Point<i32>)
    requires
        (p.x == 0 && p.y == 0) || p.x < -1 || p.x > 1 || p.y < -1 || p.y > 1,
    ensures
        Direction::spec_classify(p) is Err,
{
}

} // verus!
