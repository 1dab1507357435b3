//! What holds of every move and every tick, stated over the specifications
//! that `Level::move_player` and `Level::update_enemies` meet.
use vstd::prelude::*;
use crate::cell::{spec_decay, spec_rotate, spec_step, Cell, Direction, Point, Powerup};
use crate::grid::lemma_slot_injective;
use crate::grid::lemma_slot_of_point;
use crate::grid::SLOTS;
use crate::level::{first_of, in_bounds, is_first, spec_move, spec_tick, Seek};

verus! {

/// A cell that the mover `mover` cannot enter.
pub open spec fn blocks(mover: Cell, target: Cell) -> bool {
    match target {
        Cell::HorizontalWall | Cell::VerticalWall | Cell::Door(_) | Cell::Player(_) => true,
        Cell::Void | Cell::CounterClockwiseEnemy(_) => mover == Cell::Player(Powerup::Regular),
        _ => false,
    }
}

/// A move that is rejected, because its target is out of bounds, was never
/// populated, or blocks the player, leaves the level exactly as it was.
pub proof fn lemma_rejected_move_changes_nothing(
    m: Map<Point, Cell>,
    from: Point,
    to: Point,
    max_x: i8,
    max_y: i8,
)
    requires
        m.contains_key(from),
        m[from] is Player,
        !in_bounds(to, max_x, max_y) || !m.contains_key(to) || blocks(m[from], m[to]),
    ensures
        spec_move(m, from, to, max_x, max_y) == m,
{
}

/// A move out of bounds leaves the level as it was, the player at its
/// origin included.
pub proof fn lemma_out_of_bounds_move_changes_nothing(
    m: Map<Point, Cell>,
    from: Point,
    to: Point,
    max_x: i8,
    max_y: i8,
)
    requires
        to.x < 0 || to.x > max_x || to.y < 0 || to.y > max_y,
    ensures
        spec_move(m, from, to, max_x, max_y) == m,
        m.contains_key(from) ==> spec_move(m, from, to, max_x, max_y)[from] == m[from],
{
}

/// Stepping on a switch opens the one door with the switch's id, and the
/// player stands on the switch.
pub proof fn lemma_switch_opens_its_door(
    m: Map<Point, Cell>,
    from: Point,
    switch: Point,
    door: Point,
    id: u8,
    max_x: i8,
    max_y: i8,
)
    requires
        m.contains_key(from),
        m[from] is Player,
        m.contains_key(switch),
        m[switch] == Cell::Switch(id),
        m.contains_key(door),
        m[door] == Cell::Door(id),
        forall|q: Point| #[trigger] m.contains_key(q) && m[q] == Cell::Door(id) ==> q == door,
        in_bounds(switch, max_x, max_y),
    ensures
        spec_move(m, from, switch, max_x, max_y)[door] == Cell::Empty,
        spec_move(m, from, switch, max_x, max_y)[switch] == Cell::Player(
            spec_decay(m[from]->Player_0),
        ),
{
    let mover = Cell::Player(spec_decay(m[from]->Player_0));
    let moved = m.insert(from, Cell::Empty).insert(switch, mover);
    assert forall|q: Point|
        moved.contains_key(q) && moved[q] == Cell::Door(id) implies q == door by {
        if q != from && q != switch {
            assert(m.contains_key(q));
        }
    }
    assert forall|q: Point| #![trigger moved.contains_key(q)]
        moved.contains_key(q) && moved[q] == Cell::Door(id) implies crate::grid::slot_of(door)
        <= crate::grid::slot_of(q) by {
        if q != from && q != switch {
            assert(m.contains_key(q));
        }
    }
    assert(is_first(moved, Seek::Door(id), door));
    let w = choose|w: Point| is_first(moved, Seek::Door(id), w);
    lemma_slot_injective(w, door);
    assert(first_of(moved, Seek::Door(id)) == Some(door));
}

/// A one-way teleporter carries the player to its destination once: its
/// own cell becomes `Empty`, so a player who later steps there (from any
/// other cell) simply moves onto it.
pub proof fn lemma_teleporter_is_one_shot(
    m: Map<Point, Cell>,
    from: Point,
    teleporter: Point,
    dest: Point,
    later: Point,
    max_x: i8,
    max_y: i8,
)
    requires
        m.contains_key(from),
        m[from] is Player,
        m.contains_key(teleporter),
        m[teleporter] == Cell::OneWayTeleporter(dest),
        dest != teleporter,
        in_bounds(teleporter, max_x, max_y),
        later != teleporter,
    ensures
        ({
            let once = spec_move(m, from, teleporter, max_x, max_y);
            let again = once.insert(later, Cell::Player(Powerup::Regular));
            &&& once[teleporter] == Cell::Empty
            &&& once.contains_key(dest)
            &&& once[dest] == Cell::Player(spec_decay(m[from]->Player_0))
            &&& spec_move(again, later, teleporter, max_x, max_y) == again.insert(
                later,
                Cell::Empty,
            ).insert(teleporter, Cell::Player(Powerup::Regular))
        }),
{
}

/// Stepping onto breakable ground turns the cell the player leaves into
/// `Void`.
pub proof fn lemma_breakable_ground_collapses(
    m: Map<Point, Cell>,
    from: Point,
    ground: Point,
    max_x: i8,
    max_y: i8,
)
    requires
        m.contains_key(from),
        m[from] is Player,
        m.contains_key(ground),
        m[ground] == Cell::BreakableGround,
        in_bounds(ground, max_x, max_y),
    ensures
        spec_move(m, from, ground, max_x, max_y)[from] == Cell::Void,
        spec_move(m, from, ground, max_x, max_y)[ground] == Cell::Player(
            spec_decay(m[from]->Player_0),
        ),
{
}

/// The powerup after `k` accepted moves.
pub open spec fn decay_times(p: Powerup, k: nat) -> Powerup
    decreases k,
{
    if k == 0 {
        p
    } else {
        spec_decay(decay_times(p, (k - 1) as nat))
    }
}

/// An accepted move onto a cell that is not a pickup leaves the player
/// there with its powerup counted down once.
pub proof fn lemma_accepted_move_counts_down(
    m: Map<Point, Cell>,
    from: Point,
    to: Point,
    max_x: i8,
    max_y: i8,
)
    requires
        m.contains_key(from),
        m[from] is Player,
        m.contains_key(to),
        m[to] is Empty || m[to] is Exit || m[to] is BreakableGround || (m[from]
            != Cell::Player(Powerup::Regular) && (m[to] is Void
            || m[to] is CounterClockwiseEnemy)),
        in_bounds(to, max_x, max_y),
    ensures
        spec_move(m, from, to, max_x, max_y)[to] == Cell::Player(spec_decay(m[from]->Player_0)),
{
}

/// Invincibility for `n` moves reads `Invincible(n - k)` after `k <= n`
/// accepted moves and runs out on the next one; from a pickup, five moves
/// read 4, 3, 2, 1, 0 and the sixth ends it.
pub proof fn lemma_invincibility_runs_out(n: u8, k: nat)
    requires
        k <= n,
    ensures
        decay_times(Powerup::Invincible(n), k) == Powerup::Invincible((n - k) as u8),
        decay_times(Powerup::Invincible(n), (n + 1) as nat) == Powerup::Regular,
        decay_times(Powerup::Invincible(5), 1) == Powerup::Invincible(4),
        decay_times(Powerup::Invincible(5), 2) == Powerup::Invincible(3),
        decay_times(Powerup::Invincible(5), 3) == Powerup::Invincible(2),
        decay_times(Powerup::Invincible(5), 4) == Powerup::Invincible(1),
        decay_times(Powerup::Invincible(5), 5) == Powerup::Invincible(0),
        decay_times(Powerup::Invincible(5), 6) == Powerup::Regular,
    decreases k,
{
    if k > 0 {
        lemma_invincibility_runs_out(n, (k - 1) as nat);
    }
    lemma_decay_to_zero(n, n as nat);
    reveal_with_fuel(decay_times, 7);
}

proof fn lemma_decay_to_zero(n: u8, k: nat)
    requires
        k <= n,
    ensures
        decay_times(Powerup::Invincible(n), k) == Powerup::Invincible((n - k) as u8),
    decreases k,
{
    if k > 0 {
        lemma_decay_to_zero(n, (k - 1) as nat);
    }
}

/// An invincible player survives stepping on void or on an enemy: it stands
/// there with its powerup counted down, the enemy is gone, and the cell it
/// left is `Empty`.
pub proof fn lemma_invincible_player_survives(
    m: Map<Point, Cell>,
    from: Point,
    to: Point,
    n: u8,
    max_x: i8,
    max_y: i8,
)
    requires
        m.contains_key(from),
        m[from] == Cell::Player(Powerup::Invincible(n)),
        m.contains_key(to),
        m[to] is Void || m[to] is CounterClockwiseEnemy,
        in_bounds(to, max_x, max_y),
    ensures
        spec_move(m, from, to, max_x, max_y)[to] == Cell::Player(
            spec_decay(Powerup::Invincible(n)),
        ),
        spec_move(m, from, to, max_x, max_y)[from] == Cell::Empty,
        spec_move(m, from, to, max_x, max_y).dom() == m.dom(),
{
    assert(spec_move(m, from, to, max_x, max_y).dom() =~= m.dom());
}

/// An enemy that cannot go on, before a wall, void, a door, a switch or the
/// edge of the map, turns a quarter counter-clockwise where it stands: Up
/// to Left, Down to Right, Left to Down, Right to Up.
pub proof fn lemma_blocked_enemy_turns(m: Map<Point, Cell>, p: Point, d: Direction)
    requires
        m.contains_key(p),
        m[p] == Cell::CounterClockwiseEnemy(d),
        match spec_step(p, d) {
            None => true,
            Some(f) => !m.contains_key(f) || m[f] is VerticalWall || m[f] is HorizontalWall
                || m[f] is Void || m[f] is Door || m[f] is Switch,
        },
    ensures
        spec_tick(m)[p] == Cell::CounterClockwiseEnemy(spec_rotate(d)),
        spec_rotate(Direction::Up) == Direction::Left,
        spec_rotate(Direction::Down) == Direction::Right,
        spec_rotate(Direction::Left) == Direction::Down,
        spec_rotate(Direction::Right) == Direction::Up,
{
    lemma_slot_of_point(p);
    assert(crate::grid::slot_of(p) < SLOTS);
}

/// No two points of `m` hold a player.
pub open spec fn at_most_one_player(m: Map<Point, Cell>) -> bool {
    forall|p: Point, q: Point|
        #[trigger] m.contains_key(p) && #[trigger] m.contains_key(q) && m[p] is Player
            && m[q] is Player ==> p == q
}

/// A move keeps a level with at most one player so.
pub proof fn lemma_move_keeps_one_player(
    m: Map<Point, Cell>,
    from: Point,
    to: Point,
    max_x: i8,
    max_y: i8,
)
    requires
        at_most_one_player(m),
    ensures
        at_most_one_player(spec_move(m, from, to, max_x, max_y)),
{
    let r = spec_move(m, from, to, max_x, max_y);
    assert forall|p: Point, q: Point|
        #[trigger] r.contains_key(p) && #[trigger] r.contains_key(q) && r[p] is Player
            && r[q] is Player implies p == q by {
        if p != q {
            if m.contains_key(from) && m[from] is Player {
                assert(m.contains_key(p) && m[p] is Player ==> p == from);
                assert(m.contains_key(q) && m[q] is Player ==> q == from);
            }
        }
    }
}

/// A tick never makes a player: a level with at most one player keeps at
/// most one.
pub proof fn lemma_tick_keeps_one_player(m: Map<Point, Cell>)
    requires
        at_most_one_player(m),
    ensures
        at_most_one_player(spec_tick(m)),
        forall|q: Point|
            #[trigger] spec_tick(m).contains_key(q) && spec_tick(m)[q] is Player ==> m.contains_key(
                q,
            ) && spec_tick(m)[q] == m[q],
{
}

} // verus!
