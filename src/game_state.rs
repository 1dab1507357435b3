//! The turn state of a play-through, and the decisions taken on each key
//! press and each enemy tick. Reading keys, keeping time and drawing are
//! left to the caller.
use vstd::prelude::*;
use crate::cell::{spec_step, step, Cell, Direction, Point, Powerup};
use crate::level::{first_of, spec_move, spec_tick, Level, Seek};

verus! {

/// A key press, as far as the game tells keys apart.
#[derive(Clone, Copy, PartialEq, Eq, Structural, Debug)]
pub enum Key {
    Up,
    Down,
    Left,
    Right,
    Esc,
    Char(char),
    Other,
}

/// The flags of a play-through and the point the player is at, or asks to
/// move to.
#[derive(Clone, Copy, PartialEq, Eq, Structural, Debug)]
pub struct GameState {
    /// The last key press kept with the state.
    pub event: Option<Key>,
    /// Ends the whole game.
    pub terminate: bool,
    /// Keeps the current level going.
    pub run: bool,
    /// Shows the help overlay.
    pub help: bool,
    /// The player's position, or the position it asks to move to.
    pub point: Point,
    /// Restarts the current level.
    pub restart: bool,
}

/// The state at the start of a play-through.
pub open spec fn spec_new() -> GameState {
    GameState {
        event: None,
        terminate: false,
        run: true,
        restart: false,
        help: false,
        point: Point { x: 0, y: 0 },
    }
}

/// The state at the start of a level.
pub open spec fn spec_running(s: GameState) -> GameState {
    GameState {
        terminate: false,
        run: true,
        help: false,
        point: Point { x: 0, y: 0 },
        ..s
    }
}

/// The state with the point replaced.
pub open spec fn spec_new_point(s: GameState, point: Point) -> GameState {
    GameState { point, ..s }
}

/// The state once a restart of the level is asked for.
pub open spec fn spec_restart(s: GameState) -> GameState {
    GameState { run: true, restart: true, ..s }
}

/// The state with the help overlay toggled.
pub open spec fn spec_help(s: GameState) -> GameState {
    GameState { help: !s.help, ..s }
}

/// The state once the game is to end.
pub open spec fn spec_terminate(s: GameState) -> GameState {
    GameState { terminate: true, run: false, restart: false, ..s }
}

/// The state once the current level is over.
pub open spec fn spec_stop(s: GameState) -> GameState {
    GameState { run: false, ..s }
}

/// The point is the exit.
pub open spec fn spec_is_finish(s: GameState, finish_position: Option<Point>) -> bool {
    finish_position == Some(s.point)
}

/// The facing that an arrow key asks for.
pub open spec fn key_direction(key: Key) -> Option<Direction> {
    match key {
        Key::Up => Some(Direction::Up),
        Key::Down => Some(Direction::Down),
        Key::Left => Some(Direction::Left),
        Key::Right => Some(Direction::Right),
        _ => None,
    }
}

/// The state after a key press: an arrow key moves the point one step
/// (where the step can be written as a `Point`), Esc and `q` end the game,
/// `r` restarts the level, `h` toggles the help, and any other key keeps
/// the point where it is.
pub open spec fn spec_on_key(s: GameState, key: Key) -> GameState {
    match key {
        Key::Esc | Key::Char('q') => spec_terminate(s),
        Key::Char('r') => spec_restart(s),
        Key::Char('h') => spec_help(s),
        _ => match key_direction(key) {
            Some(d) => match spec_step(s.point, d) {
                Some(p) => spec_new_point(s, p),
                None => s,
            },
            None => s,
        },
    }
}

/// Stepping from `from` onto `to` kills a player without a powerup.
pub open spec fn is_lethal(m: Map<Point, Cell>, from: Point, to: Point) -> bool {
    &&& m.contains_key(from)
    &&& m[from] == Cell::Player(Powerup::Regular)
    &&& m.contains_key(to)
    &&& (m[to] is Void || m[to] is CounterClockwiseEnemy)
}

/// The state after one turn of the player at `player` with `key`, where the
/// level held `before` and holds `after` once the move is resolved.
pub open spec fn spec_turn(
    s: GameState,
    before: Map<Point, Cell>,
    after: Map<Point, Cell>,
    player: Point,
    finish_position: Option<Point>,
    key: Key,
) -> GameState {
    let asked = spec_on_key(s, key);
    let ended = if spec_is_finish(asked, finish_position) {
        spec_stop(asked)
    } else {
        asked
    };
    let checked = if is_lethal(before, player, asked.point) {
        spec_restart(ended)
    } else {
        ended
    };
    match first_of(after, Seek::Player) {
        Some(p) => spec_new_point(checked, p),
        None => checked,
    }
}

/// The state at the start of a level attempt, with the point at the level's
/// player, if it has one.
pub open spec fn spec_placed(s: GameState, level: Map<Point, Cell>) -> GameState {
    match first_of(level, Seek::Player) {
        Some(p) => spec_new_point(s, p),
        None => s,
    }
}

impl GameState {
    /// The state at the start of a play-through.
    pub fn new() -> (r: GameState)
        ensures
            r == spec_new(),
    {
        GameState {
            event: None,
            terminate: false,
            run: true,
            restart: false,
            help: false,
            point: Point { x: 0, y: 0 },
        }
    }

    pub fn is_terminate(&self) -> (r: bool)
        ensures
            r == self.terminate,
    {
        self.terminate
    }

    pub fn is_run(&self) -> (r: bool)
        ensures
            r == self.run,
    {
        self.run
    }

    pub fn is_help(&self) -> (r: bool)
        ensures
            r == self.help,
    {
        self.help
    }

    /// The state at the start of a level.
    pub fn running(&self) -> (r: GameState)
        ensures
            r == spec_running(*self),
    {
        GameState {
            event: self.event,
            terminate: false,
            run: true,
            help: false,
            point: Point { x: 0, y: 0 },
            restart: self.restart,
        }
    }

    pub fn point(&self) -> (r: Point)
        ensures
            r == self.point,
    {
        self.point
    }

    /// The state with the point replaced.
    pub fn new_point(&self, point: Point) -> (r: GameState)
        ensures
            r == spec_new_point(*self, point),
    {
        GameState {
            event: self.event,
            terminate: self.terminate,
            run: self.run,
            point,
            help: self.help,
            restart: self.restart,
        }
    }

    /// The state once a restart of the level is asked for.
    pub fn restart(&self) -> (r: GameState)
        ensures
            r == spec_restart(*self),
    {
        GameState {
            event: self.event,
            terminate: self.terminate,
            run: true,
            help: self.help,
            point: self.point,
            restart: true,
        }
    }

    /// The state with the help overlay toggled.
    pub fn help(&self) -> (r: GameState)
        ensures
            r == spec_help(*self),
    {
        GameState {
            event: self.event,
            terminate: self.terminate,
            run: self.run,
            point: self.point,
            help: !self.help,
            restart: self.restart,
        }
    }

    /// The state once the game is to end.
    pub fn terminate(&self) -> (r: GameState)
        ensures
            r == spec_terminate(*self),
    {
        GameState {
            event: self.event,
            terminate: true,
            run: false,
            point: self.point,
            help: self.help,
            restart: false,
        }
    }

    /// The state once the current level is over.
    pub fn stop(&self) -> (r: GameState)
        ensures
            r == spec_stop(*self),
    {
        GameState {
            event: self.event,
            terminate: self.terminate,
            run: false,
            point: self.point,
            help: self.help,
            restart: self.restart,
        }
    }

    pub fn is_restart(&self) -> (r: bool)
        ensures
            r == self.restart,
    {
        self.restart
    }

    /// Whether the point is the exit.
    pub fn is_finish(&self, finish_position: Option<Point>) -> (r: bool)
        ensures
            r == spec_is_finish(*self, finish_position),
    {
        if let Some(finish) = finish_position {
            finish.x == self.point.x && finish.y == self.point.y
        } else {
            false
        }
    }

    /// The state after a key press.
    pub fn update_player_position(&self, key: Key) -> (r: GameState)
        ensures
            r == spec_on_key(*self, key),
    {
        let direction = match key {
            Key::Up => Direction::Up,
            Key::Down => Direction::Down,
            Key::Left => Direction::Left,
            Key::Right => Direction::Right,
            Key::Esc => {
                return self.terminate();
            },
            Key::Char(c) => {
                if c == 'q' {
                    return self.terminate();
                } else if c == 'r' {
                    return self.restart();
                } else if c == 'h' {
                    return self.help();
                } else {
                    return *self;
                }
            },
            Key::Other => {
                return *self;
            },
        };
        match step(self.point, direction) {
            Some(p) => self.new_point(p),
            None => *self,
        }
    }

    /// One turn of the player at `player` with `key`, in a level whose exit
    /// is `finish_position` and whose bounds are `max_x` and `max_y`. The
    /// key gives the point asked for; reaching it ends the level, and the
    /// move is still resolved. A player without a powerup that asks to step
    /// on void or an enemy has the level restarted instead of moving. The
    /// point then follows the player. The flag that comes back tells whether
    /// the exit was reached.
    pub fn take_turn(
        &self,
        level: &mut Level,
        player: Point,
        finish_position: Option<Point>,
        key: Key,
        max_x: i8,
        max_y: i8,
    ) -> (r: (GameState, bool))
        requires
            old(level).wf(),
        ensures
            final(level).wf(),
            final(level)@ == if is_lethal(old(level)@, player, spec_on_key(*self, key).point) {
                old(level)@
            } else {
                spec_move(old(level)@, player, spec_on_key(*self, key).point, max_x, max_y)
            },
            r.1 == spec_is_finish(spec_on_key(*self, key), finish_position),
            r.0 == spec_turn(*self, old(level)@, final(level)@, player, finish_position, key),
    {
        let mut state = self.update_player_position(key);
        let new_position = state.point();
        let finished = state.is_finish(finish_position);
        if finished {
            state = state.stop();
        }
        let lethal = match level.get(player) {
            Some(Cell::Player(Powerup::Regular)) => match level.get(new_position) {
                Some(Cell::CounterClockwiseEnemy(_)) | Some(Cell::Void) => true,
                _ => false,
            },
            _ => false,
        };
        if lethal {
            state = state.restart();
        } else {
            level.move_player(player, new_position, max_x, max_y);
        }
        if let Some(moved_player_position) = level.player_position() {
            state = state.new_point(moved_player_position);
        }
        (state, finished)
    }

    /// One enemy tick: the enemies move while the level has a player;
    /// without one the level is restarted instead.
    pub fn enemy_turn(&self, level: &mut Level) -> (r: GameState)
        requires
            old(level).wf(),
        ensures
            final(level).wf(),
            first_of(old(level)@, Seek::Player) is Some ==> final(level)@ == spec_tick(
                old(level)@,
            ) && r == *self,
            first_of(old(level)@, Seek::Player) is None ==> final(level)@ == old(level)@ && r
                == spec_restart(*self),
    {
        if level.player_position().is_some() {
            level.update_enemies();
            *self
        } else {
            self.restart()
        }
    }

    /// Starts a level: a working copy of `template`, and the state with the
    /// flags of a running level and the point at the level's player.
    pub fn begin_level(&self, template: &Level) -> (r: (Level, GameState))
        requires
            template.wf(),
        ensures
            r.0.wf(),
            r.0@ == template@,
            r.1 == spec_placed(spec_running(*self), template@),
    {
        let level = template.copy();
        let mut state = self.running();
        if let Some(p) = level.player_position() {
            state = state.new_point(p);
        }
        (level, state)
    }

    /// Restarts a level: a fresh working copy of `template`, and a fresh
    /// state with the point at the level's player.
    pub fn restart_level(template: &Level) -> (r: (Level, GameState))
        requires
            template.wf(),
        ensures
            r.0.wf(),
            r.0@ == template@,
            r.1 == spec_placed(spec_new(), template@),
    {
        let level = template.copy();
        let mut state = GameState::new();
        if let Some(p) = level.player_position() {
            state = state.new_point(p);
        }
        (level, state)
    }
}

} // verus!
