//! The pet's state and the two ways it changes: a key press and a tick.
//!
//! Positions are kept in half-cell units (twice the drawn coordinate), so
//! that the half-cell vertical drift of the tick update stays exact in
//! integer arithmetic. The drawn coordinate is the stored one divided by
//! two; the playground rectangle itself is kept in whole cells.

use vstd::math::{max, min};
use vstd::prelude::*;

verus! {

/// The marker style the pet is drawn with; it cycles in a fixed order.
#[derive(Clone, Copy, Debug, PartialEq, Eq, Structural)]
pub enum Marker {
    Dot,
    Braille,
    Block,
    HalfBlock,
    Bar,
}

impl Marker {
    /// The successor in the fixed cycle Dot -> Braille -> Block -> HalfBlock -> Bar -> Dot.
    pub open spec fn next_spec(self) -> Marker {
        match self {
            Marker::Dot => Marker::Braille,
            Marker::Braille => Marker::Block,
            Marker::Block => Marker::HalfBlock,
            Marker::HalfBlock => Marker::Bar,
            Marker::Bar => Marker::Dot,
        }
    }

    pub fn next(self) -> (r: Marker)
        ensures
            r == self.next_spec(),
    {
        match self {
            Marker::Dot => Marker::Braille,
            Marker::Braille => Marker::Block,
            Marker::Block => Marker::HalfBlock,
            Marker::HalfBlock => Marker::Bar,
            Marker::Bar => Marker::Dot,
        }
    }
}

/// The fixed cycle as a list: element 0 is Dot, 1 Braille, 2 Block,
/// 3 HalfBlock, 4 Bar.
pub open spec fn cycle_at(i: int) -> Marker {
    if i == 0 {
        Marker::Dot
    } else if i == 1 {
        Marker::Braille
    } else if i == 2 {
        Marker::Block
    } else if i == 3 {
        Marker::HalfBlock
    } else {
        Marker::Bar
    }
}

/// The fixed play area, in whole cells: left edge `x`, top edge `y`.
#[derive(Clone, Copy, Debug, PartialEq, Eq, Structural)]
pub struct Playground {
    pub x: u16,
    pub y: u16,
    pub width: u16,
    pub height: u16,
}

/// The pet's position in half-cell units.
#[derive(Clone, Copy, Debug, PartialEq, Eq, Structural)]
pub struct Position {
    pub x: i32,
    pub y: i32,
}

/// One key press, as the state machine reads it.
#[derive(Clone, Copy, Debug, PartialEq, Eq, Structural)]
pub enum Key {
    Up,
    Down,
    Left,
    Right,
    Char(char),
    Other,
}

/// What a key press asks for.
#[derive(Clone, Copy, Debug, PartialEq, Eq, Structural)]
pub enum Command {
    MoveUp,
    MoveDown,
    MoveLeft,
    MoveRight,
    Quit,
    Nothing,
}

/// The mathematical model of the whole state. Positions are in half-cell
/// units; the playground edges are in whole cells.
#[verifier::ext_equal]
pub ghost struct Model {
    pub x: int,
    pub y: int,
    pub left: int,
    pub top: int,
    pub right: int,
    pub bottom: int,
    pub hunger: int,
    pub happiness: int,
    pub ticks: nat,
    pub marker: Marker,
}

/// The state of the pet and its world.
pub struct AppState {
    pub position: Position,
    pub playground: Playground,
    pub hunger: u32,
    pub happiness: u32,
    pub tick_count: u64,
    pub marker: Marker,
}

impl View for AppState {
    type V = Model;

    open spec fn view(&self) -> Model {
        Model {
            x: self.position.x as int,
            y: self.position.y as int,
            left: self.playground.x as int,
            top: self.playground.y as int,
            right: self.playground.x + self.playground.width,
            bottom: self.playground.y + self.playground.height,
            hunger: self.hunger as int,
            happiness: self.happiness as int,
            ticks: self.tick_count as nat,
            marker: self.marker,
        }
    }
}

pub open spec fn clamp_spec(v: int, lo: int, hi: int) -> int {
    if v < lo {
        lo
    } else if v > hi {
        hi
    } else {
        v
    }
}

/// The position-related part of well-formedness: the playground leaves
/// room for the pet's five-cell radius, and the pet sits inside the
/// playground minus that margin (all in half-cell units).
pub open spec fn pos_wf(m: Model) -> bool {
    &&& m.left + 5 <= m.right
    &&& m.top + 5 <= m.bottom
    &&& 2 * m.left <= m.x <= 2 * m.right - 10
    &&& 2 * m.top <= m.y <= 2 * m.bottom - 10
}

/// Every state the program ever holds satisfies this.
pub open spec fn wf_model(m: Model) -> bool {
    &&& pos_wf(m)
    &&& 0 <= m.hunger <= 100
    &&& 0 <= m.happiness <= 100
}

/// The state a new pet starts in: the middle of a 200 x 100 playground
/// whose top-left corner is at (10, 10), well fed and fully happy.
pub open spec fn fresh_model() -> Model {
    Model {
        x: 200,
        y: 100,
        left: 10,
        top: 10,
        right: 210,
        bottom: 110,
        hunger: 0,
        happiness: 100,
        ticks: 0,
        marker: Marker::Dot,
    }
}

/// Move by `(dx, dy)` half-cells, then clamp both axes into the playground
/// minus the pet's margin.
pub open spec fn move_spec(m: Model, dx: int, dy: int) -> Model {
    Model {
        x: clamp_spec(m.x + dx, 2 * m.left, 2 * m.right - 10),
        y: clamp_spec(m.y + dy, 2 * m.top, 2 * m.bottom - 10),
        ..m
    }
}

/// The key map: arrows and `h`/`j`/`k`/`l` move one whole cell, `q` quits,
/// everything else does nothing.
pub open spec fn command_of_spec(k: Key) -> Command {
    match k {
        Key::Up => Command::MoveUp,
        Key::Down => Command::MoveDown,
        Key::Left => Command::MoveLeft,
        Key::Right => Command::MoveRight,
        Key::Char(c) => if c == 'k' {
            Command::MoveUp
        } else if c == 'j' {
            Command::MoveDown
        } else if c == 'h' {
            Command::MoveLeft
        } else if c == 'l' {
            Command::MoveRight
        } else if c == 'q' {
            Command::Quit
        } else {
            Command::Nothing
        },
        Key::Other => Command::Nothing,
    }
}

/// What one command does to the state. One whole cell is two half-cells.
pub open spec fn command_spec(m: Model, c: Command) -> Model {
    match c {
        Command::MoveUp => move_spec(m, 0, -2),
        Command::MoveDown => move_spec(m, 0, 2),
        Command::MoveLeft => move_spec(m, -2, 0),
        Command::MoveRight => move_spec(m, 2, 0),
        Command::Quit => m,
        Command::Nothing => m,
    }
}

/// What one key press does to the state.
pub open spec fn key_spec(m: Model, k: Key) -> Model {
    command_spec(m, command_of_spec(k))
}

/// One tick: the counter advances; every 60th tick hunger rises by one
/// (capped at 100); every 120th tick happiness falls by one (floored at
/// 0); every 180th tick the marker advances; and the pet drifts by
/// (1, -1/2) cells, clamped to the playground.
pub open spec fn tick_spec(m: Model) -> Model {
    let t = (m.ticks + 1) as nat;
    let moved = move_spec(m, 2, -1);
    Model {
        ticks: t,
        hunger: if t % 60 == 0 {
            min(m.hunger + 1, 100)
        } else {
            m.hunger
        },
        happiness: if t % 120 == 0 {
            max(m.happiness - 1, 0)
        } else {
            m.happiness
        },
        marker: if t % 180 == 0 {
            m.marker.next_spec()
        } else {
            m.marker
        },
        x: moved.x,
        y: moved.y,
        ..m
    }
}

/// The state after `n` ticks from `m`, with no key pressed in between.
pub open spec fn run_ticks(m: Model, n: nat) -> Model
    decreases n,
{
    if n == 0 {
        m
    } else {
        tick_spec(run_ticks(m, (n - 1) as nat))
    }
}

/// How long the loop may wait for input before the next tick is due:
/// the tick interval minus the time already elapsed, and zero once the
/// interval has passed. Both are in nanoseconds.
pub fn wait_budget(tick_interval: u128, elapsed: u128) -> (r: u128)
    ensures
        r == if elapsed >= tick_interval {
            0int
        } else {
            tick_interval - elapsed
        },
{
    if elapsed >= tick_interval {
        0
    } else {
        tick_interval - elapsed
    }
}

fn clamp_i32(v: i32, lo: i32, hi: i32) -> (r: i32)
    requires
        lo <= hi,
    ensures
        r == clamp_spec(v as int, lo as int, hi as int),
{
    if v < lo {
        lo
    } else if v > hi {
        hi
    } else {
        v
    }
}

impl AppState {
    /// The invariant every reachable state satisfies.
    pub open spec fn wf(&self) -> bool {
        wf_model(self@)
    }

    /// A fresh state with the fixed defaults.
    pub fn new() -> (r: AppState)
        ensures
            r@ == fresh_model(),
            r.wf(),
    {
        AppState {
            position: Position { x: 200, y: 100 },
            playground: Playground { x: 10, y: 10, width: 200, height: 100 },
            hunger: 0,
            happiness: 100,
            tick_count: 0,
            marker: Marker::Dot,
        }
    }

    /// Runtime check of the invariant, for callers outside verified code.
    pub fn is_well_formed(&self) -> (b: bool)
        ensures
            b == self.wf(),
    {
        let lo_x: i32 = 2 * (self.playground.x as i32);
        let hi_x: i32 = 2 * (self.playground.x as i32 + self.playground.width as i32) - 10;
        let lo_y: i32 = 2 * (self.playground.y as i32);
        let hi_y: i32 = 2 * (self.playground.y as i32 + self.playground.height as i32) - 10;
        self.playground.width >= 5 && self.playground.height >= 5 && lo_x <= self.position.x
            && self.position.x <= hi_x && lo_y <= self.position.y && self.position.y <= hi_y
            && self.hunger <= 100 && self.happiness <= 100
    }

    fn step_position(&mut self, dx: i32, dy: i32)
        requires
            pos_wf(old(self)@),
            -3 <= dx <= 3,
            -3 <= dy <= 3,
        ensures
            final(self)@ == move_spec(old(self)@, dx as int, dy as int),
    {
        let lo_x: i32 = 2 * (self.playground.x as i32);
        let hi_x: i32 = 2 * (self.playground.x as i32 + self.playground.width as i32) - 10;
        let lo_y: i32 = 2 * (self.playground.y as i32);
        let hi_y: i32 = 2 * (self.playground.y as i32 + self.playground.height as i32) - 10;
        self.position.x = clamp_i32(self.position.x + dx, lo_x, hi_x);
        self.position.y = clamp_i32(self.position.y + dy, lo_y, hi_y);
        assert(self@ =~= move_spec(old(self)@, dx as int, dy as int));
    }

    /// The exec side of the key map.
    pub fn command_of(key: Key) -> (c: Command)
        ensures
            c == command_of_spec(key),
    {
        match key {
            Key::Up => Command::MoveUp,
            Key::Down => Command::MoveDown,
            Key::Left => Command::MoveLeft,
            Key::Right => Command::MoveRight,
            Key::Char(c) => if c == 'k' {
                Command::MoveUp
            } else if c == 'j' {
                Command::MoveDown
            } else if c == 'h' {
                Command::MoveLeft
            } else if c == 'l' {
                Command::MoveRight
            } else if c == 'q' {
                Command::Quit
            } else {
                Command::Nothing
            },
            Key::Other => Command::Nothing,
        }
    }

    /// Apply one key press. Returns true when the key asks to quit; the
    /// state is then unchanged.
    pub fn handle_key(&mut self, key: Key) -> (quit: bool)
        requires
            old(self).wf(),
        ensures
            final(self)@ == key_spec(old(self)@, key),
            final(self).wf(),
            quit == (command_of_spec(key) == Command::Quit),
    {
        let c = Self::command_of(key);
        match c {
            Command::MoveUp => {
                self.step_position(0, -2);
                false
            },
            Command::MoveDown => {
                self.step_position(0, 2);
                false
            },
            Command::MoveLeft => {
                self.step_position(-2, 0);
                false
            },
            Command::MoveRight => {
                self.step_position(2, 0);
                false
            },
            Command::Quit => true,
            Command::Nothing => false,
        }
    }

    /// Advance simulated time by one tick.
    pub fn on_tick(&mut self)
        requires
            old(self).wf(),
            old(self).tick_count < u64::MAX,
        ensures
            final(self)@ == tick_spec(old(self)@),
            final(self).wf(),
    {
        self.tick_count = self.tick_count + 1;
        if self.tick_count % 60 == 0 {
            if self.hunger < 100 {
                self.hunger = self.hunger + 1;
            }
        }
        if self.tick_count % 120 == 0 {
            if self.happiness > 0 {
                self.happiness = self.happiness - 1;
            }
        }
        if self.tick_count % 180 == 0 {
            self.marker = self.marker.next();
        }
        self.step_position(2, -1);
        assert(self@ =~= tick_spec(old(self)@));
    }
}

} // verus!
