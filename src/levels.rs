//! The five levels of the game, in the order they are played.
use vstd::prelude::*;
use crate::cell::{Cell, Direction, Point, Powerup};
use crate::level::Level;

verus! {

/// The five levels, in the order they are played.
pub fn levels() -> (r: Vec<Level>)
    ensures
        r@.len() == 5,
        forall|i: int| 0 <= i < 5 ==> (#[trigger] r@[i]).wf(),
        r@[0]@[Point { x: 0, y: 0 }] == Cell::Player(Powerup::Regular),
        r@[1]@[Point { x: 0, y: 4 }] == Cell::Player(Powerup::Regular),
        r@[2]@[Point { x: 0, y: 1 }] == Cell::Player(Powerup::Regular),
        r@[3]@[Point { x: 24, y: 4 }] == Cell::Player(Powerup::Regular),
        r@[4]@[Point { x: 6, y: 9 }] == Cell::Player(Powerup::Regular),
{
    vec![level_1(), level_2(), level_3(), level_4(), level_5()]
}

/// An open 4 × 4 room: the player in one corner, the exit in the other.
pub fn level_1() -> (r: Level)
    ensures
        r.wf(),
        r@ == crate::level::empty_map(4, 4).insert(
            Point { x: 0, y: 0 },
            Cell::Player(Powerup::Regular),
        ).insert(Point { x: 3, y: 3 }, Cell::Exit),
{
    let mut level_data = Level::empty(4, 4);
    level_data.update(Point { x: 0, y: 0 }, Cell::Player(Powerup::Regular));
    level_data.update(Point { x: 3, y: 3 }, Cell::Exit);
    level_data
}

/// A 5 × 5 level whose exit sits behind a door; its switch lies between two
/// walls, beyond a column of void.
pub fn level_2() -> (r: Level)
    ensures
        r.wf(),
        r@.dom() == crate::level::empty_map(5, 5).dom(),
        r@[Point { x: 0, y: 4 }] == Cell::Player(Powerup::Regular),
        r@[Point { x: 2, y: 1 }] == Cell::Switch(1),
        r@[Point { x: 4, y: 3 }] == Cell::Door(1),
        r@[Point { x: 4, y: 4 }] == Cell::Exit,
{
    let mut level_data = Level::empty(5, 5);
    level_data.update(Point { x: 0, y: 4 }, Cell::Player(Powerup::Regular));

    level_data.update(Point { x: 1, y: 1 }, Cell::VerticalWall);
    level_data.update(Point { x: 1, y: 2 }, Cell::VerticalWall);
    level_data.update(Point { x: 1, y: 3 }, Cell::VerticalWall);
    level_data.update(Point { x: 1, y: 4 }, Cell::VerticalWall);

    level_data.update(Point { x: 2, y: 1 }, Cell::Switch(1));
    level_data.update(Point { x: 2, y: 2 }, Cell::Void);
    level_data.update(Point { x: 2, y: 3 }, Cell::Void);
    level_data.update(Point { x: 2, y: 4 }, Cell::Void);

    level_data.update(Point { x: 3, y: 1 }, Cell::VerticalWall);
    level_data.update(Point { x: 3, y: 2 }, Cell::VerticalWall);
    level_data.update(Point { x: 3, y: 3 }, Cell::VerticalWall);
    level_data.update(Point { x: 3, y: 4 }, Cell::VerticalWall);

    level_data.update(Point { x: 4, y: 3 }, Cell::Door(1));
    level_data.update(Point { x: 4, y: 4 }, Cell::Exit);
    level_data
}

/// An 8 × 3 corridor over void, guarded by three enemies.
pub fn level_3() -> (r: Level)
    ensures
        r.wf(),
        r@.dom() == crate::level::empty_map(8, 3).dom(),
        r@[Point { x: 0, y: 1 }] == Cell::Player(Powerup::Regular),
        r@[Point { x: 7, y: 1 }] == Cell::Exit,
{
    let mut level_data = Level::empty(8, 3);
    level_data.update(Point { x: 0, y: 0 }, Cell::Void);
    level_data.update(Point { x: 0, y: 1 }, Cell::Player(Powerup::Regular));
    level_data.update(Point { x: 0, y: 2 }, Cell::Void);

    level_data.update(Point { x: 1, y: 0 }, Cell::Void);
    level_data.update(Point { x: 1, y: 2 }, Cell::Void);

    level_data.update(
        Point { x: 3, y: 0 },
        Cell::CounterClockwiseEnemy(Direction::Left),
    );
    level_data.update(Point { x: 3, y: 1 }, Cell::Void);
    level_data.update(
        Point { x: 3, y: 2 },
        Cell::CounterClockwiseEnemy(Direction::Right),
    );

    level_data.update(Point { x: 4, y: 1 }, Cell::Void);

    level_data.update(
        Point { x: 5, y: 1 },
        Cell::CounterClockwiseEnemy(Direction::Up),
    );

    level_data.update(Point { x: 6, y: 0 }, Cell::Void);
    level_data.update(Point { x: 6, y: 2 }, Cell::Void);

    level_data.update(Point { x: 7, y: 0 }, Cell::Void);
    level_data.update(Point { x: 7, y: 1 }, Cell::Exit);
    level_data.update(Point { x: 7, y: 2 }, Cell::Void);

    level_data
}

/// Three rows of teleporters that spell a date; only the right one in each
/// row leads on.
pub fn level_4() -> (r: Level)
    ensures
        r.wf(),
        r@[Point { x: 24, y: 4 }] == Cell::Player(Powerup::Regular),
        r@[Point { x: 30, y: 23 }] == Cell::Exit,
{
    let mut level_data = Level::empty(31, 23);
    let mut i: i8 = 0;
    while i < 23
        invariant
            level_data.wf(),
        decreases 23 - i,
    {
        level_data.update(Point { x: 26, y: i }, Cell::Void);
        level_data.update(Point { x: 28, y: i }, Cell::Void);
        i += 1;
    }
    let mut i: i8 = 0;
    while i < 30
        invariant
            level_data.wf(),
        decreases 30 - i,
    {
        level_data.update(Point { x: i, y: 0 }, Cell::HorizontalWall);
        level_data.update(Point { x: i, y: 7 }, Cell::HorizontalWall);
        level_data.update(Point { x: i, y: 8 }, Cell::Void);
        level_data.update(Point { x: i, y: 9 }, Cell::HorizontalWall);
        level_data.update(Point { x: i, y: 13 }, Cell::HorizontalWall);
        level_data.update(Point { x: i, y: 14 }, Cell::Void);
        level_data.update(Point { x: i, y: 15 }, Cell::HorizontalWall);
        level_data.update(Point { x: i, y: 23 }, Cell::HorizontalWall);
        i += 1;
    }
    let mut i: i8 = 0;
    while i < 23
        invariant
            level_data.wf(),
        decreases 23 - i,
    {
        level_data.update(Point { x: 25, y: i }, Cell::VerticalWall);
        level_data.update(Point { x: 29, y: i }, Cell::VerticalWall);
        i += 1;
    }
    // The wrong teleporters of the "day" rows.
    let mut i: i8 = 1;
    while i < 21
        invariant
            level_data.wf(),
            1 <= i <= 22,
        decreases 22 - i,
    {
        level_data.update(Point { x: i, y: 2 }, Cell::OneWayTeleporter(Point { x: 27, y: 2 }));
        level_data.update(Point { x: i, y: 4 }, Cell::OneWayTeleporter(Point { x: 27, y: 4 }));
        level_data.update(Point { x: i, y: 6 }, Cell::OneWayTeleporter(Point { x: 27, y: 6 }));
        i += 2;
    }
    level_data.update(Point { x: 21, y: 6 }, Cell::OneWayTeleporter(Point { x: 27, y: 6 }));
    // The wrong teleporters of the "month" row.
    let mut i: i8 = 1;
    while i < 25
        invariant
            level_data.wf(),
            1 <= i <= 26,
        decreases 26 - i,
    {
        level_data.update(Point { x: i, y: 11 }, Cell::OneWayTeleporter(Point { x: 27, y: 11 }));
        i += 2;
    }
    // The wrong teleporters of the "year" rows.
    let mut i: i8 = 1;
    while i < 21
        invariant
            level_data.wf(),
            1 <= i <= 22,
        decreases 22 - i,
    {
        level_data.update(Point { x: i, y: 17 }, Cell::OneWayTeleporter(Point { x: 27, y: 16 }));
        level_data.update(Point { x: i, y: 19 }, Cell::OneWayTeleporter(Point { x: 27, y: 18 }));
        level_data.update(Point { x: i, y: 21 }, Cell::OneWayTeleporter(Point { x: 27, y: 20 }));
        i += 2;
    }
    // Day leads to month, month to year, and year to the exit.
    level_data.update(Point { x: 9, y: 2 }, Cell::OneWayTeleporter(Point { x: 24, y: 11 }));
    level_data.update(Point { x: 15, y: 11 }, Cell::OneWayTeleporter(Point { x: 24, y: 18 }));
    level_data.update(Point { x: 5, y: 21 }, Cell::OneWayTeleporter(Point { x: 30, y: 0 }));
    level_data.update(Point { x: 24, y: 4 }, Cell::Player(Powerup::Regular));
    level_data.update(Point { x: 30, y: 23 }, Cell::Exit);
    level_data
}

/// A 13 × 18 maze of switches, doors, breakable ground, candy and enemies,
/// with the exit at the bottom of an enemy-filled shaft.
#[verifier::rlimit(40)]
pub fn level_5() -> (r: Level)
    ensures
        r.wf(),
        r@[Point { x: 6, y: 9 }] == Cell::Player(Powerup::Regular),
        r@[Point { x: 6, y: 17 }] == Cell::Exit,
{
    let mut l = Level::empty(13, 18);

    l.update(
        Point { x: 0, y: 0 },
        Cell::CounterClockwiseEnemy(Direction::Right),
    );
    l.update(Point { x: 7, y: 0 }, Cell::Switch(3));
    l.update(Point { x: 8, y: 0 }, Cell::VerticalWall);
    l.update(Point { x: 9, y: 0 }, Cell::Void);
    l.update(Point { x: 11, y: 0 }, Cell::Door(1));

    l.update(Point { x: 0, y: 1 }, Cell::HorizontalWall);
    l.update(Point { x: 1, y: 1 }, Cell::HorizontalWall);
    l.update(Point { x: 2, y: 1 }, Cell::BreakableGround);
    l.update(Point { x: 3, y: 1 }, Cell::VerticalWall);
    l.update(Point { x: 5, y: 1 }, Cell::HorizontalWall);
    l.update(Point { x: 6, y: 1 }, Cell::HorizontalWall);
    l.update(Point { x: 7, y: 1 }, Cell::HorizontalWall);
    l.update(Point { x: 8, y: 1 }, Cell::VerticalWall);
    l.update(Point { x: 9, y: 1 }, Cell::Void);
    l.update(Point { x: 11, y: 1 }, Cell::VerticalWall);

    l.update(Point { x: 0, y: 2 }, Cell::Void);
    l.update(Point { x: 1, y: 2 }, Cell::BreakableGround);
    l.update(Point { x: 2, y: 2 }, Cell::BreakableGround);
    l.update(Point { x: 3, y: 2 }, Cell::VerticalWall);
    l.update(Point { x: 8, y: 2 }, Cell::VerticalWall);
    l.update(Point { x: 9, y: 2 }, Cell::Void);
    l.update(Point { x: 11, y: 2 }, Cell::VerticalWall);
    l.update(Point { x: 12, y: 2 }, Cell::Switch(1));

    l.update(Point { x: 0, y: 3 }, Cell::HorizontalWall);
    l.update(Point { x: 1, y: 3 }, Cell::Door(2));
    l.update(Point { x: 2, y: 3 }, Cell::HorizontalWall);
    l.update(Point { x: 3, y: 3 }, Cell::HorizontalWall);
    l.update(Point { x: 4, y: 3 }, Cell::HorizontalWall);
    l.update(Point { x: 5, y: 3 }, Cell::HorizontalWall);
    l.update(Point { x: 6, y: 3 }, Cell::VerticalWall);
    l.update(Point { x: 8, y: 3 }, Cell::Void);
    l.update(Point { x: 9, y: 3 }, Cell::Void);
    l.update(Point { x: 11, y: 3 }, Cell::VerticalWall);
    l.update(
        Point { x: 12, y: 3 },
        Cell::CounterClockwiseEnemy(Direction::Up),
    );

    l.update(
        Point { x: 0, y: 4 },
        Cell::CounterClockwiseEnemy(Direction::Right),
    );

    l.update(Point { x: 5, y: 4 }, Cell::Void);
    l.update(Point { x: 6, y: 4 }, Cell::VerticalWall);
    l.update(Point { x: 7, y: 4 }, Cell::Switch(2));
    l.update(Point { x: 8, y: 4 }, Cell::VerticalWall);
    l.update(Point { x: 9, y: 4 }, Cell::Void);
    l.update(Point { x: 11, y: 4 }, Cell::VerticalWall);
    l.update(
        Point { x: 12, y: 4 },
        Cell::CounterClockwiseEnemy(Direction::Up),
    );

    l.update(Point { x: 6, y: 5 }, Cell::VerticalWall);
    l.update(Point { x: 7, y: 5 }, Cell::HorizontalWall);
    l.update(Point { x: 8, y: 5 }, Cell::VerticalWall);
    l.update(Point { x: 9, y: 5 }, Cell::Void);
    l.update(Point { x: 11, y: 5 }, Cell::VerticalWall);
    l.update(
        Point { x: 12, y: 5 },
        Cell::CounterClockwiseEnemy(Direction::Down),
    );
    l.update(Point { x: 7, y: 6 }, Cell::Invincibility);
    l.update(Point { x: 8, y: 6 }, Cell::VerticalWall);
    l.update(Point { x: 9, y: 6 }, Cell::Void);
    l.update(Point { x: 10, y: 6 }, Cell::Invincibility);
    l.update(Point { x: 11, y: 6 }, Cell::VerticalWall);
    l.update(
        Point { x: 12, y: 6 },
        Cell::CounterClockwiseEnemy(Direction::Up),
    );

    l.update(Point { x: 2, y: 7 }, Cell::Switch(6));
    l.update(Point { x: 5, y: 7 }, Cell::VerticalWall);
    l.update(Point { x: 6, y: 7 }, Cell::Door(3));
    l.update(Point { x: 7, y: 7 }, Cell::HorizontalWall);
    l.update(Point { x: 8, y: 7 }, Cell::HorizontalWall);
    l.update(Point { x: 9, y: 7 }, Cell::HorizontalWall);
    l.update(Point { x: 10, y: 7 }, Cell::HorizontalWall);
    l.update(Point { x: 11, y: 7 }, Cell::VerticalWall);
    l.update(
        Point { x: 12, y: 7 },
        Cell::CounterClockwiseEnemy(Direction::Down),
    );

    l.update(Point { x: 5, y: 8 }, Cell::VerticalWall);
    l.update(Point { x: 6, y: 8 }, Cell::BreakableGround);
    l.update(Point { x: 12, y: 8 }, Cell::Invincibility);

    l.update(Point { x: 0, y: 9 }, Cell::HorizontalWall);
    l.update(Point { x: 1, y: 9 }, Cell::HorizontalWall);
    l.update(Point { x: 2, y: 9 }, Cell::HorizontalWall);
    l.update(Point { x: 3, y: 9 }, Cell::HorizontalWall);
    l.update(Point { x: 4, y: 9 }, Cell::HorizontalWall);
    l.update(Point { x: 5, y: 9 }, Cell::VerticalWall);
    l.update(Point { x: 6, y: 9 }, Cell::Player(Powerup::Regular));
    l.update(Point { x: 7, y: 9 }, Cell::HorizontalWall);
    l.update(Point { x: 8, y: 9 }, Cell::HorizontalWall);
    l.update(Point { x: 9, y: 9 }, Cell::HorizontalWall);
    l.update(Point { x: 10, y: 9 }, Cell::HorizontalWall);
    l.update(Point { x: 11, y: 9 }, Cell::HorizontalWall);
    l.update(Point { x: 12, y: 9 }, Cell::HorizontalWall);

    l.update(Point { x: 0, y: 11 }, Cell::HorizontalWall);
    l.update(Point { x: 1, y: 11 }, Cell::HorizontalWall);
    l.update(Point { x: 2, y: 11 }, Cell::HorizontalWall);
    l.update(Point { x: 3, y: 11 }, Cell::HorizontalWall);
    l.update(Point { x: 4, y: 11 }, Cell::HorizontalWall);
    l.update(Point { x: 5, y: 11 }, Cell::HorizontalWall);
    l.update(Point { x: 6, y: 11 }, Cell::Door(6));
    l.update(Point { x: 7, y: 11 }, Cell::HorizontalWall);
    l.update(Point { x: 8, y: 11 }, Cell::HorizontalWall);
    l.update(Point { x: 9, y: 11 }, Cell::HorizontalWall);
    l.update(Point { x: 10, y: 11 }, Cell::HorizontalWall);
    l.update(Point { x: 11, y: 11 }, Cell::HorizontalWall);
    l.update(Point { x: 12, y: 11 }, Cell::HorizontalWall);

    l.update(Point { x: 4, y: 12 }, Cell::HorizontalWall);
    l.update(
        Point { x: 5, y: 12 },
        Cell::CounterClockwiseEnemy(Direction::Down),
    );
    l.update(Point { x: 6, y: 12 }, Cell::Invincibility);
    l.update(
        Point { x: 7, y: 12 },
        Cell::CounterClockwiseEnemy(Direction::Up),
    );
    l.update(Point { x: 8, y: 12 }, Cell::HorizontalWall);

    l.update(Point { x: 4, y: 13 }, Cell::HorizontalWall);
    l.update(
        Point { x: 5, y: 13 },
        Cell::CounterClockwiseEnemy(Direction::Up),
    );
    l.update(
        Point { x: 6, y: 13 },
        Cell::CounterClockwiseEnemy(Direction::Up),
    );
    l.update(
        Point { x: 7, y: 13 },
        Cell::CounterClockwiseEnemy(Direction::Up),
    );
    l.update(Point { x: 8, y: 13 }, Cell::HorizontalWall);

    l.update(Point { x: 4, y: 14 }, Cell::HorizontalWall);
    l.update(
        Point { x: 5, y: 14 },
        Cell::CounterClockwiseEnemy(Direction::Up),
    );
    l.update(
        Point { x: 6, y: 14 },
        Cell::CounterClockwiseEnemy(Direction::Up),
    );
    l.update(
        Point { x: 7, y: 14 },
        Cell::CounterClockwiseEnemy(Direction::Up),
    );
    l.update(Point { x: 8, y: 14 }, Cell::HorizontalWall);

    l.update(Point { x: 4, y: 15 }, Cell::HorizontalWall);
    l.update(
        Point { x: 5, y: 15 },
        Cell::CounterClockwiseEnemy(Direction::Up),
    );
    l.update(
        Point { x: 6, y: 15 },
        Cell::CounterClockwiseEnemy(Direction::Up),
    );
    l.update(
        Point { x: 7, y: 15 },
        Cell::CounterClockwiseEnemy(Direction::Up),
    );
    l.update(Point { x: 8, y: 15 }, Cell::HorizontalWall);
    l.update(Point { x: 4, y: 16 }, Cell::HorizontalWall);
    l.update(
        Point { x: 5, y: 16 },
        Cell::CounterClockwiseEnemy(Direction::Up),
    );
    l.update(
        Point { x: 6, y: 16 },
        Cell::CounterClockwiseEnemy(Direction::Up),
    );
    l.update(
        Point { x: 7, y: 16 },
        Cell::CounterClockwiseEnemy(Direction::Up),
    );
    l.update(Point { x: 8, y: 16 }, Cell::HorizontalWall);
    l.update(Point { x: 4, y: 17 }, Cell::HorizontalWall);
    l.update(
        Point { x: 5, y: 17 },
        Cell::CounterClockwiseEnemy(Direction::Up),
    );
    l.update(Point { x: 6, y: 17 }, Cell::Exit);
    l.update(
        Point { x: 7, y: 17 },
        Cell::CounterClockwiseEnemy(Direction::Up),
    );
    l.update(Point { x: 8, y: 17 }, Cell::HorizontalWall);
    l
}

} // verus!
