//! A level: a sparse map from coordinates to cells, with the player's
//! movement rules and the enemies' tick.
use vstd::prelude::*;
use crate::cell::{
    decay, rotate, spec_decay, spec_rotate, spec_step, step, Cell, Direction, Point, Powerup,
    INVINCIBLE_MOVES,
};
use crate::grid::{
    lemma_point_at_slot, lemma_slot_injective, lemma_slot_of_point, point_at, point_of_slot, slot,
    slot_of, SLOTS,
};

verus! {

/// What a search over a level looks for.
#[derive(Clone, Copy, PartialEq, Eq, Structural, Debug)]
pub enum Seek {
    /// The door that a switch with this id opens.
    Door(u8),
    /// The exit.
    Exit,
    /// The player, with or without a powerup.
    Player,
}

/// Whether `c` is what `s` looks for.
pub open spec fn spec_sought(s: Seek, c: Cell) -> bool {
    match s {
        Seek::Door(id) => c == Cell::Door(id),
        Seek::Exit => c == Cell::Exit,
        Seek::Player => c is Player,
    }
}

/// `p` holds what `s` looks for, and no point before it in scan order does.
pub open spec fn is_first(m: Map<Point, Cell>, s: Seek, p: Point) -> bool {
    &&& m.contains_key(p)
    &&& spec_sought(s, m[p])
    &&& forall|q: Point|
        #![trigger m.contains_key(q), slot_of(q)]
        m.contains_key(q) && spec_sought(s, m[q]) ==> slot_of(p) <= slot_of(q)
}

/// The first point in scan order that holds what `s` looks for.
pub open spec fn first_of(m: Map<Point, Cell>, s: Seek) -> Option<Point> {
    if exists|p: Point| is_first(m, s, p) {
        Some(choose|p: Point| is_first(m, s, p))
    } else {
        None
    }
}

/// The cell at `p`, or `None` where `p` was never populated.
pub open spec fn lookup(m: Map<Point, Cell>, p: Point) -> Option<Cell> {
    if m.contains_key(p) {
        Some(m[p])
    } else {
        None
    }
}

/// Whether `p` lies in `[0, max_x] × [0, max_y]`.
pub open spec fn in_bounds(p: Point, max_x: i8, max_y: i8) -> bool {
    0 <= p.x <= max_x && 0 <= p.y <= max_y
}

/// A mover whose cell becomes `mover` steps from `from` onto `to`, by the
/// kind of cell that `to` holds. Kinds that block leave the map as it is.
pub open spec fn spec_step_onto(m: Map<Point, Cell>, from: Point, to: Point, mover: Cell) -> Map<
    Point,
    Cell,
> {
    if !m.contains_key(to) {
        m
    } else {
        match m[to] {
            Cell::Empty | Cell::Exit => m.insert(from, Cell::Empty).insert(to, mover),
            Cell::Switch(id) => {
                let moved = m.insert(from, Cell::Empty).insert(to, mover);
                match first_of(moved, Seek::Door(id)) {
                    Some(door) => moved.insert(door, Cell::Empty),
                    None => moved,
                }
            },
            Cell::OneWayTeleporter(dest) => m.insert(from, Cell::Empty).insert(
                to,
                Cell::Empty,
            ).insert(dest, mover),
            Cell::Invincibility => m.insert(from, Cell::Empty).insert(
                to,
                Cell::Player(Powerup::Invincible(INVINCIBLE_MOVES)),
            ),
            Cell::BreakableGround => m.insert(from, Cell::Void).insert(to, mover),
            _ => m,
        }
    }
}

/// The map after the player at `from` asks to move to `to` in a level whose
/// bounds are `max_x` and `max_y`.
pub open spec fn spec_move(m: Map<Point, Cell>, from: Point, to: Point, max_x: i8, max_y: i8) -> Map<
    Point,
    Cell,
> {
    if !in_bounds(to, max_x, max_y) || !m.contains_key(from) {
        m
    } else {
        match m[from] {
            Cell::Player(Powerup::Regular) => spec_step_onto(
                m,
                from,
                to,
                Cell::Player(Powerup::Regular),
            ),
            Cell::Player(Powerup::Invincible(n)) => {
                let mover = Cell::Player(spec_decay(Powerup::Invincible(n)));
                if m.contains_key(to) && (m[to] is Void || m[to] is CounterClockwiseEnemy) {
                    m.insert(from, Cell::Empty).insert(to, mover)
                } else {
                    spec_step_onto(m, from, to, mover)
                }
            },
            _ => m,
        }
    }
}

/// The facing opposite `d`.
pub open spec fn spec_opposite(d: Direction) -> Direction {
    match d {
        Direction::Up => Direction::Down,
        Direction::Down => Direction::Up,
        Direction::Left => Direction::Right,
        Direction::Right => Direction::Left,
    }
}

/// What the coordinate of an enemy at `p` facing `d` holds after a tick, as
/// the cell in front of it in `m` decides: it leaves (onto an empty cell or a
/// player without a powerup), it is destroyed (by an invincible player), it
/// turns (before walls, void, doors, switches and the edge of the map), or it
/// stays as it is (before anything else).
pub open spec fn enemy_outcome(m: Map<Point, Cell>, p: Point, d: Direction) -> Cell {
    let turned = Cell::CounterClockwiseEnemy(spec_rotate(d));
    match spec_step(p, d) {
        None => turned,
        Some(f) => if !m.contains_key(f) {
            turned
        } else {
            match m[f] {
                Cell::Empty | Cell::Player(_) => Cell::Empty,
                Cell::VerticalWall | Cell::HorizontalWall | Cell::Void | Cell::Door(_)
                | Cell::Switch(_) => turned,
                _ => Cell::CounterClockwiseEnemy(d),
            }
        },
    }
}

/// The enemy at `src`, facing `d`, walks onto `q` during a tick from `m`.
pub open spec fn walks_onto(m: Map<Point, Cell>, src: Point, d: Direction, q: Point) -> bool {
    &&& m.contains_key(src)
    &&& m[src] == Cell::CounterClockwiseEnemy(d)
    &&& spec_step(src, d) == Some(q)
    &&& m.contains_key(q)
    &&& (m[q] == Cell::Empty || m[q] == Cell::Player(Powerup::Regular))
}

/// An enemy facing `d` walks onto `q` during a tick from `m`, from a slot
/// before `bound`.
pub open spec fn enters_before(m: Map<Point, Cell>, q: Point, d: Direction, bound: int) -> bool {
    match spec_step(q, spec_opposite(d)) {
        Some(src) => walks_onto(m, src, d, q) && slot_of(src) < bound,
        None => false,
    }
}

/// What `q` holds once the enemies in the slots before `bound` have taken
/// their step from `m`. Where several enemies walk onto one cell, the one
/// in the latest slot stays there.
pub open spec fn tick_cell_before(m: Map<Point, Cell>, q: Point, bound: int) -> Cell {
    if m[q] is CounterClockwiseEnemy {
        if slot_of(q) < bound {
            enemy_outcome(m, q, m[q]->CounterClockwiseEnemy_0)
        } else {
            m[q]
        }
    } else if enters_before(m, q, Direction::Left, bound) {
        Cell::CounterClockwiseEnemy(Direction::Left)
    } else if enters_before(m, q, Direction::Up, bound) {
        Cell::CounterClockwiseEnemy(Direction::Up)
    } else if enters_before(m, q, Direction::Down, bound) {
        Cell::CounterClockwiseEnemy(Direction::Down)
    } else if enters_before(m, q, Direction::Right, bound) {
        Cell::CounterClockwiseEnemy(Direction::Right)
    } else {
        m[q]
    }
}

/// The map after every enemy of `m` has taken one step, all of them
/// deciding from `m` itself.
pub open spec fn spec_tick(m: Map<Point, Cell>) -> Map<Point, Cell> {
    Map::new(|q: Point| m.contains_key(q), |q: Point| tick_cell_before(m, q, SLOTS as int))
}

/// The rectangle `[0, width) × [0, height)`, every cell `Empty`.
pub open spec fn empty_map(width: int, height: int) -> Map<Point, Cell> {
    Map::new(
        |p: Point| 0 <= p.x < width && 0 <= p.y < height,
        |p: Point| Cell::Empty,
    )
}

/// The largest `x` of the populated points, or 0 if none is larger.
pub open spec fn is_max_x(m: Map<Point, Cell>, v: i8) -> bool {
    &&& 0 <= v
    &&& forall|p: Point| #[trigger] m.contains_key(p) ==> p.x <= v
    &&& (v == 0 || exists|p: Point| #[trigger] m.contains_key(p) && p.x == v)
}

/// The largest `y` of the populated points, or 0 if none is larger.
pub open spec fn is_max_y(m: Map<Point, Cell>, v: i8) -> bool {
    &&& 0 <= v
    &&& forall|p: Point| #[trigger] m.contains_key(p) ==> p.y <= v
    &&& (v == 0 || exists|p: Point| #[trigger] m.contains_key(p) && p.y == v)
}

/// Taking the slot `i`, which holds no enemy, into a tick changes no cell.
proof fn lemma_tick_no_enemy(m: Map<Point, Cell>, i: int)
    requires
        0 <= i < SLOTS,
        !(m.contains_key(point_at(i)) && m[point_at(i)] is CounterClockwiseEnemy),
    ensures
        forall|q: Point|
            #[trigger] m.contains_key(q) ==> tick_cell_before(m, q, i + 1) == tick_cell_before(
                m,
                q,
                i,
            ),
{
    lemma_point_at_slot(i);
    assert forall|q: Point| #[trigger] m.contains_key(q) implies tick_cell_before(m, q, i + 1)
        == tick_cell_before(m, q, i) by {
        lemma_slot_of_point(q);
        if slot_of(q) == i {
            lemma_slot_injective(q, point_at(i));
        }
        assert forall|d: Direction| enters_before(m, q, d, i + 1) == enters_before(m, q, d, i) by {
            if let Some(src) = spec_step(q, spec_opposite(d)) {
                if slot_of(src) == i {
                    lemma_slot_injective(src, point_at(i));
                }
            }
        }
    }
}

/// Taking the slot `i`, which holds an enemy, into a tick changes the
/// enemy's own cell and the cell it walks onto, if any.
proof fn lemma_tick_slot(m: Map<Point, Cell>, i: int)
    requires
        0 <= i < SLOTS,
        m.contains_key(point_at(i)),
        m[point_at(i)] is CounterClockwiseEnemy,
    ensures
        ({
            let p = point_at(i);
            let d = m[p]->CounterClockwiseEnemy_0;
            &&& tick_cell_before(m, p, i + 1) == enemy_outcome(m, p, d)
            &&& tick_cell_before(m, p, i) == m[p]
            &&& forall|f: Point|
                walks_onto(m, p, d, f) ==> #[trigger] tick_cell_before(m, f, i + 1)
                    == Cell::CounterClockwiseEnemy(d)
            &&& forall|q: Point|
                #[trigger] m.contains_key(q) && q != p && !walks_onto(m, p, d, q)
                    ==> tick_cell_before(m, q, i + 1) == tick_cell_before(m, q, i)
        }),
{
    let p = point_at(i);
    let d = m[p]->CounterClockwiseEnemy_0;
    lemma_point_at_slot(i);
    assert forall|f: Point| walks_onto(m, p, d, f) implies #[trigger] tick_cell_before(
        m,
        f,
        i + 1,
    ) == Cell::CounterClockwiseEnemy(d) by {
        lemma_slot_of_point(f);
        assert(spec_step(f, spec_opposite(d)) == Some(p));
        assert forall|e: Direction| e != d implies !(#[trigger] enters_before(m, f, e, i + 1)
            && slot_of(spec_step(f, spec_opposite(e))->Some_0) > i) by {
        }
    }
    assert forall|q: Point|
        #[trigger] m.contains_key(q) && q != p && !walks_onto(m, p, d, q) implies tick_cell_before(
        m,
        q,
        i + 1,
    ) == tick_cell_before(m, q, i) by {
        lemma_slot_of_point(q);
        if slot_of(q) == i {
            lemma_slot_injective(q, p);
        }
        assert forall|e: Direction| enters_before(m, q, e, i + 1) == enters_before(m, q, e, i) by {
            if let Some(src) = spec_step(q, spec_opposite(e)) {
                if slot_of(src) == i {
                    lemma_slot_injective(src, p);
                }
            }
        }
    }
}

/// A level's grid. Its view is the map from each populated coordinate to
/// its cell.
#[derive(Clone)]
pub struct Level {
    slots: Vec<Option<Cell>>,
}

impl View for Level {
    type V = Map<Point, Cell>;

    closed spec fn view(&self) -> Map<Point, Cell> {
        Map::new(
            |p: Point| self.slots@[slot_of(p)] is Some,
            |p: Point| self.slots@[slot_of(p)]->Some_0,
        )
    }
}

impl Level {
    /// The storage holds one slot per point.
    pub closed spec fn wf(&self) -> bool {
        self.slots@.len() == SLOTS
    }

    /// A `width` × `height` rectangle of `Empty` cells with its corner at
    /// the origin.
    pub fn empty(width: u8, height: u8) -> (r: Level)
        requires
            width <= 128,
            height <= 128,
        ensures
            r.wf(),
            r@ == empty_map(width as int, height as int),
    {
        let mut slots: Vec<Option<Cell>> = Vec::with_capacity(SLOTS);
        let mut i: usize = 0;
        while i < SLOTS
            invariant
                i <= SLOTS,
                slots@.len() == i,
                forall|j: int|
                    0 <= j < i ==> #[trigger] slots@[j] == if 0 <= point_at(j).x < width
                        && 0 <= point_at(j).y < height {
                        Some(Cell::Empty)
                    } else {
                        None::<Cell>
                    },
            decreases SLOTS - i,
        {
            let p = point_of_slot(i);
            if 0 <= p.x && (p.x as i16) < width as i16 && 0 <= p.y && (p.y as i16) < height as i16 {
                slots.push(Some(Cell::Empty));
            } else {
                slots.push(None);
            }
            i += 1;
        }
        let r = Level { slots };
        assert forall|p: Point| #[trigger] r@.contains_key(p) == empty_map(
            width as int,
            height as int,
        ).contains_key(p) by {
            lemma_slot_of_point(p);
        }
        assert forall|p: Point| #[trigger] r@.contains_key(p) implies r@[p] == empty_map(
            width as int,
            height as int,
        )[p] by {
            lemma_slot_of_point(p);
        }
        assert(r@ =~= empty_map(width as int, height as int));
        r
    }

    /// The cell at `p`, or `None` where `p` was never populated.
    pub fn get(&self, p: Point) -> (r: Option<Cell>)
        requires
            self.wf(),
        ensures
            r == lookup(self@, p),
    {
        self.slots[slot(p)]
    }

    /// Writes `cell` at `p`, populating `p` if it was not.
    pub fn update(&mut self, point: Point, cell: Cell)
        requires
            old(self).wf(),
        ensures
            final(self).wf(),
            final(self)@ == old(self)@.insert(point, cell),
    {
        let i = slot(point);
        self.slots.set(i, Some(cell));
        proof {
            assert forall|q: Point| #[trigger] self@.contains_key(q) == old(self)@.insert(
                point,
                cell,
            ).contains_key(q) by {
                lemma_slot_injective(q, point);
            }
            assert forall|q: Point| #[trigger] self@.contains_key(q) implies self@[q] == old(
                self,
            )@.insert(point, cell)[q] by {
                lemma_slot_injective(q, point);
            }
            assert(self@ =~= old(self)@.insert(point, cell));
        }
    }

    /// The first point in scan order that holds what `s` looks for.
    pub fn find_first(&self, s: Seek) -> (r: Option<Point>)
        requires
            self.wf(),
        ensures
            r == first_of(self@, s),
    {
        let mut i: usize = 0;
        while i < SLOTS
            invariant
                self.wf(),
                i <= SLOTS,
                forall|j: int|
                    0 <= j < i ==> !(#[trigger] self.slots@[j] matches Some(c) && spec_sought(
                        s,
                        c,
                    )),
            decreases SLOTS - i,
        {
            let found = match self.slots[i] {
                Some(c) => match s {
                    Seek::Door(id) => match c {
                        Cell::Door(d) => d == id,
                        _ => false,
                    },
                    Seek::Exit => match c {
                        Cell::Exit => true,
                        _ => false,
                    },
                    Seek::Player => match c {
                        Cell::Player(_) => true,
                        _ => false,
                    },
                },
                None => false,
            };
            if found {
                let p = point_of_slot(i);
                proof {
                    assert forall|q: Point|
                        self@.contains_key(q) && spec_sought(s, self@[q]) implies slot_of(p)
                        <= slot_of(q) by {
                        lemma_slot_of_point(q);
                        if slot_of(q) < i {
                            assert(self.slots@[slot_of(q)] matches Some(c) && spec_sought(s, c));
                        }
                    }
                    assert(is_first(self@, s, p));
                    let w = choose|w: Point| is_first(self@, s, w);
                    lemma_slot_injective(w, p);
                }
                return Some(p);
            }
            i += 1;
        }
        proof {
            assert forall|p: Point| !is_first(self@, s, p) by {
                lemma_slot_of_point(p);
                if self@.contains_key(p) && spec_sought(s, self@[p]) {
                    assert(self.slots@[slot_of(p)] matches Some(c) && spec_sought(s, c));
                }
            }
        }
        None
    }

    /// The first door in scan order that a switch with `switch_id` opens.
    pub fn door_position(&self, switch_id: u8) -> (r: Option<Point>)
        requires
            self.wf(),
        ensures
            r == first_of(self@, Seek::Door(switch_id)),
    {
        self.find_first(Seek::Door(switch_id))
    }

    /// The first exit in scan order.
    pub fn finish_position(&self) -> (r: Option<Point>)
        requires
            self.wf(),
        ensures
            r == first_of(self@, Seek::Exit),
    {
        self.find_first(Seek::Exit)
    }

    /// The first player cell in scan order, with or without a powerup.
    pub fn player_position(&self) -> (r: Option<Point>)
        requires
            self.wf(),
        ensures
            r == first_of(self@, Seek::Player),
    {
        self.find_first(Seek::Player)
    }

    /// Resolves a step of the player at `player` onto `new_position` by the
    /// kind of cell found there, writing `player_struct` as the player's new
    /// cell.
    fn move_player_regular(&mut self, player: Point, new_position: Point, player_struct: Cell)
        requires
            old(self).wf(),
        ensures
            final(self).wf(),
            final(self)@ == spec_step_onto(old(self)@, player, new_position, player_struct),
    {
        if let Some(cell) = self.get(new_position) {
            match cell {
                Cell::Empty | Cell::Exit => {
                    self.update(player, Cell::Empty);
                    self.update(new_position, player_struct);
                },
                Cell::Switch(switch_id) => {
                    self.update(player, Cell::Empty);
                    self.update(new_position, player_struct);
                    if let Some(door_position) = self.door_position(switch_id) {
                        self.update(door_position, Cell::Empty);
                    }
                },
                Cell::OneWayTeleporter(destination_point) => {
                    self.update(player, Cell::Empty);
                    self.update(new_position, Cell::Empty);
                    self.update(destination_point, player_struct);
                },
                Cell::Invincibility => {
                    self.update(player, Cell::Empty);
                    self.update(new_position, Cell::Player(Powerup::Invincible(INVINCIBLE_MOVES)));
                },
                Cell::BreakableGround => {
                    self.update(player, Cell::Void);
                    self.update(new_position, player_struct);
                },
                _ => {},
            }
        }
    }

    /// Resolves a move of an invincible player: void and enemies give way,
    /// everything else is resolved as for a player without a powerup.
    fn move_player_invincible(&mut self, player: Point, new_position: Point, moves: u8)
        requires
            old(self).wf(),
        ensures
            final(self).wf(),
            final(self)@ == ({
                let m = old(self)@;
                let mover = Cell::Player(spec_decay(Powerup::Invincible(moves)));
                if m.contains_key(new_position) && (m[new_position] is Void
                    || m[new_position] is CounterClockwiseEnemy) {
                    m.insert(player, Cell::Empty).insert(new_position, mover)
                } else {
                    spec_step_onto(m, player, new_position, mover)
                }
            }),
    {
        let new_player_struct = Cell::Player(decay(Powerup::Invincible(moves)));
        match self.get(new_position) {
            Some(Cell::Void) | Some(Cell::CounterClockwiseEnemy(_)) => {
                self.update(player, Cell::Empty);
                self.update(new_position, new_player_struct);
            },
            _ => self.move_player_regular(player, new_position, new_player_struct),
        }
    }

    /// Moves the player at `player` towards `new_position` in a level whose
    /// bounds are `max_x` and `max_y`. A move out of bounds, onto a cell
    /// that blocks, or from a point that holds no player changes nothing.
    pub fn move_player(&mut self, player: Point, new_position: Point, max_x: i8, max_y: i8)
        requires
            old(self).wf(),
        ensures
            final(self).wf(),
            final(self)@ == spec_move(old(self)@, player, new_position, max_x, max_y),
    {
        if new_position.x >= 0 && new_position.x <= max_x && new_position.y >= 0
            && new_position.y <= max_y {
            match self.get(player) {
                Some(Cell::Player(Powerup::Regular)) => {
                    self.move_player_regular(player, new_position, Cell::Player(Powerup::Regular))
                },
                Some(Cell::Player(Powerup::Invincible(moves))) => {
                    self.move_player_invincible(player, new_position, moves)
                },
                _ => {},
            }
        }
    }

    /// A copy of this level.
    pub fn copy(&self) -> (r: Level)
        requires
            self.wf(),
        ensures
            r.wf(),
            r@ == self@,
    {
        let r = Level { slots: self.slots.clone() };
        assert(r.slots@ =~= self.slots@);
        r
    }

    /// Advances every enemy by one step. Each enemy decides from the level
    /// as it was before the tick, so that no enemy sees another's move.
    pub fn update_enemies(&mut self)
        requires
            old(self).wf(),
        ensures
            final(self).wf(),
            final(self)@ == spec_tick(old(self)@),
    {
        let snapshot = self.copy();
        let ghost m = snapshot@;
        let mut i: usize = 0;
        while i < SLOTS
            invariant
                self.wf(),
                snapshot.wf(),
                snapshot@ == m,
                i <= SLOTS,
                forall|q: Point| #[trigger] self@.contains_key(q) == m.contains_key(q),
                forall|q: Point|
                    #[trigger] m.contains_key(q) ==> self@[q] == tick_cell_before(m, q, i as int),
            decreases SLOTS - i,
        {
            let ghost before = self@;
            if let Some(Cell::CounterClockwiseEnemy(d)) = snapshot.slots[i] {
                let p = point_of_slot(i);
                let turned = Cell::CounterClockwiseEnemy(rotate(d));
                match step(p, d) {
                    None => self.update(p, turned),
                    Some(f) => match snapshot.get(f) {
                        Some(Cell::Empty) | Some(Cell::Player(Powerup::Regular)) => {
                            self.update(p, Cell::Empty);
                            self.update(f, Cell::CounterClockwiseEnemy(d));
                        },
                        Some(Cell::Player(Powerup::Invincible(_))) => self.update(p, Cell::Empty),
                        Some(Cell::VerticalWall) | Some(Cell::HorizontalWall) | Some(Cell::Void)
                        | Some(Cell::Door(_)) | Some(Cell::Switch(_)) => self.update(p, turned),
                        Some(_) => {},
                        None => self.update(p, turned),
                    },
                }
                proof {
                    lemma_tick_slot(m, i as int);
                }
            } else {
                proof {
                    lemma_tick_no_enemy(m, i as int);
                }
            }
            i += 1;
        }
        proof {
            assert(self@ =~= spec_tick(m));
        }
    }

    /// Every populated point with its cell, in scan order (by `x`, then by
    /// `y`).
    pub fn cells(&self) -> (r: Vec<(Point, Cell)>)
        requires
            self.wf(),
        ensures
            forall|k: int|
                0 <= k < r@.len() ==> self@.contains_key(#[trigger] r@[k].0) && r@[k].1
                    == self@[r@[k].0],
            forall|k1: int, k2: int|
                0 <= k1 < k2 < r@.len() ==> slot_of(#[trigger] r@[k1].0) < slot_of(
                    #[trigger] r@[k2].0,
                ),
            forall|p: Point|
                #[trigger] self@.contains_key(p) ==> exists|k: int|
                    0 <= k < r@.len() && #[trigger] r@[k].0 == p,
    {
        let mut r: Vec<(Point, Cell)> = Vec::new();
        let mut i: usize = 0;
        while i < SLOTS
            invariant
                self.wf(),
                i <= SLOTS,
                forall|k: int|
                    0 <= k < r@.len() ==> self@.contains_key(#[trigger] r@[k].0) && r@[k].1
                        == self@[r@[k].0] && slot_of(r@[k].0) < i,
                forall|k1: int, k2: int|
                    0 <= k1 < k2 < r@.len() ==> slot_of(#[trigger] r@[k1].0) < slot_of(
                        #[trigger] r@[k2].0,
                    ),
                forall|j: int|
                    0 <= j < i && #[trigger] self.slots@[j] is Some ==> exists|k: int|
                        0 <= k < r@.len() && #[trigger] r@[k].0 == point_at(j),
            decreases SLOTS - i,
        {
            let ghost before = r@;
            if let Some(c) = self.slots[i] {
                let p = point_of_slot(i);
                proof {
                    lemma_point_at_slot(i as int);
                }
                r.push((p, c));
                proof {
                    assert(r@[r@.len() - 1].0 == point_at(i as int));
                }
            }
            proof {
                assert forall|j: int|
                    0 <= j < i + 1 && #[trigger] self.slots@[j] is Some implies exists|k: int|
                        0 <= k < r@.len() && #[trigger] r@[k].0 == point_at(j) by {
                    if j < i {
                        let k = choose|k: int|
                            0 <= k < before.len() && #[trigger] before[k].0 == point_at(j);
                        assert(r@[k] == before[k]);
                    } else {
                        assert(r@[r@.len() - 1].0 == point_at(j));
                    }
                }
            }
            i += 1;
        }
        proof {
            assert forall|p: Point| #[trigger] self@.contains_key(p) implies exists|k: int|
                0 <= k < r@.len() && #[trigger] r@[k].0 == p by {
                lemma_slot_of_point(p);
                assert(self.slots@[slot_of(p)] is Some);
            }
        }
        r
    }

    /// The largest `x` and the largest `y` among the populated points, each
    /// at least 0.
    pub fn size(&self) -> (r: (i8, i8))
        requires
            self.wf(),
        ensures
            is_max_x(self@, r.0),
            is_max_y(self@, r.1),
    {
        let mut max_x: i8 = 0;
        let mut max_y: i8 = 0;
        let mut i: usize = 0;
        while i < SLOTS
            invariant
                self.wf(),
                i <= SLOTS,
                0 <= max_x,
                0 <= max_y,
                forall|j: int|
                    0 <= j < i && #[trigger] self.slots@[j] is Some ==> point_at(j).x <= max_x
                        && point_at(j).y <= max_y,
                max_x == 0 || exists|j: int|
                    0 <= j < i && #[trigger] self.slots@[j] is Some && point_at(j).x == max_x,
                max_y == 0 || exists|j: int|
                    0 <= j < i && #[trigger] self.slots@[j] is Some && point_at(j).y == max_y,
            decreases SLOTS - i,
        {
            if self.slots[i].is_some() {
                let p = point_of_slot(i);
                if p.x > max_x {
                    max_x = p.x;
                }
                if p.y > max_y {
                    max_y = p.y;
                }
            }
            i += 1;
        }
        proof {
            assert forall|p: Point| #[trigger] self@.contains_key(p) implies p.x <= max_x
                && p.y <= max_y by {
                lemma_slot_of_point(p);
                assert(self.slots@[slot_of(p)] is Some);
            }
            if max_x != 0 {
                let j = choose|j: int|
                    0 <= j < SLOTS && #[trigger] self.slots@[j] is Some && point_at(j).x == max_x;
                lemma_point_at_slot(j);
                assert(self@.contains_key(point_at(j)));
            }
            if max_y != 0 {
                let j = choose|j: int|
                    0 <= j < SLOTS && #[trigger] self.slots@[j] is Some && point_at(j).y == max_y;
                lemma_point_at_slot(j);
                assert(self@.contains_key(point_at(j)));
            }
        }
        (max_x, max_y)
    }
}

} // verus!
