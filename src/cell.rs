//! The values a grid is made of: coordinates, facings, powerups and cells.
use vstd::prelude::*;

verus! {

/// A grid coordinate; `x` grows to the right and `y` grows downwards.
#[derive(Clone, Copy, PartialEq, Eq, Structural, Debug, Hash, PartialOrd, Ord)]
pub struct Point {
    pub x: i8,
    pub y: i8,
}

/// A facing, used by enemies and by the player's input.
#[derive(Clone, Copy, PartialEq, Eq, Structural, Debug, Hash)]
pub enum Direction {
    Up,
    Down,
    Left,
    Right,
}

/// The player's temporary ability: none, or invincibility for a number of
/// further moves.
#[derive(Clone, Copy, PartialEq, Eq, Structural, Debug, Hash)]
pub enum Powerup {
    Regular,
    Invincible(u8),
}

/// The contents of one grid coordinate.
#[derive(Clone, Copy, PartialEq, Eq, Structural, Debug, Hash)]
pub enum Cell {
    Empty,
    Player(Powerup),
    Exit,
    HorizontalWall,
    VerticalWall,
    CounterClockwiseEnemy(Direction),
    Void,
    Switch(u8),
    Door(u8),
    OneWayTeleporter(Point),
    BreakableGround,
    Invincibility,
}

/// The number of moves that an invincibility pickup grants.
pub const INVINCIBLE_MOVES: u8 = 5;

/// The powerup after one accepted move: invincibility counts down by one,
/// and `Invincible(0)` runs out.
pub open spec fn spec_decay(p: Powerup) -> Powerup {
    match p {
        Powerup::Regular => Powerup::Regular,
        Powerup::Invincible(n) => if n == 0 {
            Powerup::Regular
        } else {
            Powerup::Invincible((n - 1) as u8)
        },
    }
}

/// Computes `spec_decay`.
pub fn decay(p: Powerup) -> (r: Powerup)
    ensures
        r == spec_decay(p),
{
    match p {
        Powerup::Regular => Powerup::Regular,
        Powerup::Invincible(n) => if n == 0 {
            Powerup::Regular
        } else {
            Powerup::Invincible(n - 1)
        },
    }
}

/// The facing an enemy turns to when it cannot go on: a quarter turn
/// counter-clockwise.
pub open spec fn spec_rotate(d: Direction) -> Direction {
    match d {
        Direction::Up => Direction::Left,
        Direction::Down => Direction::Right,
        Direction::Left => Direction::Down,
        Direction::Right => Direction::Up,
    }
}

/// Computes `spec_rotate`.
pub fn rotate(d: Direction) -> (r: Direction)
    ensures
        r == spec_rotate(d),
{
    match d {
        Direction::Up => Direction::Left,
        Direction::Down => Direction::Right,
        Direction::Left => Direction::Down,
        Direction::Right => Direction::Up,
    }
}

/// The coordinate one step from `p` towards `d`, if it can be written as a
/// `Point`.
pub open spec fn spec_step(p: Point, d: Direction) -> Option<Point> {
    let (nx, ny) = match d {
        Direction::Up => (p.x as int, p.y - 1),
        Direction::Down => (p.x as int, p.y + 1),
        Direction::Left => (p.x - 1, p.y as int),
        Direction::Right => (p.x + 1, p.y as int),
    };
    if i8::MIN <= nx <= i8::MAX && i8::MIN <= ny <= i8::MAX {
        Some(Point { x: nx as i8, y: ny as i8 })
    } else {
        None
    }
}

/// Computes `spec_step`.
pub fn step(p: Point, d: Direction) -> (r: Option<Point>)
    ensures
        r == spec_step(p, d),
{
    match d {
        Direction::Up => if p.y > i8::MIN {
            Some(Point { x: p.x, y: p.y - 1 })
        } else {
            None
        },
        Direction::Down => if p.y < i8::MAX {
            Some(Point { x: p.x, y: p.y + 1 })
        } else {
            None
        },
        Direction::Left => if p.x > i8::MIN {
            Some(Point { x: p.x - 1, y: p.y })
        } else {
            None
        },
        Direction::Right => if p.x < i8::MAX {
            Some(Point { x: p.x + 1, y: p.y })
        } else {
            None
        },
    }
}

} // verus!
