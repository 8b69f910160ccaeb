//! The player's physics body: vertical velocity under gravity, flap
//! impulses, and the per-step movement rule.

use vstd::prelude::*;

use crate::command::{Command, Shade};

verus! {

/// Velocity gained per physics step, in tenths of a cell.
pub const GRAVITY_STEP: i32 = 2;

/// Cap on downward velocity, in tenths of a cell per step.
pub const TERMINAL_VELOCITY: i32 = 20;

/// Velocity set by a flap (upward), in tenths of a cell per step.
pub const FLAP_VELOCITY: i32 = -20;

/// The player's physics body. `velocity` is the vertical speed in tenths of
/// a cell per physics step; positive is downward.
#[derive(Clone, Copy, PartialEq, Eq, Debug)]
pub struct Player {
    pub x: i32,
    pub y: i32,
    pub velocity: i32,
}

/// Velocity after one physics step: gravity pulls it toward the terminal
/// velocity by one increment.
pub open spec fn next_velocity(v: int) -> int {
    if v < TERMINAL_VELOCITY { v + GRAVITY_STEP } else { v }
}

/// Whole cells fallen in one step at velocity `v` (in tenths), truncated
/// toward zero.
pub open spec fn cells_moved(v: int) -> int {
    if v >= 0 { v / 10 } else { -((-v) / 10) }
}

/// The player after one physics step: gravity raises the velocity, the body
/// falls by the whole cells of that velocity, advances one column, and is
/// clamped at the top of the world.
pub open spec fn stepped(p: Player) -> Player {
    let v = next_velocity(p.velocity as int);
    let yy = p.y as int + cells_moved(v);
    Player {
        x: (p.x + 1) as i32,
        y: if yy < 0 { 0i32 } else { yy as i32 },
        velocity: v as i32,
    }
}

/// The player after `n` physics steps.
pub open spec fn stepped_n(p: Player, n: nat) -> Player
    decreases n,
{
    if n == 0 {
        p
    } else {
        stepped(stepped_n(p, (n - 1) as nat))
    }
}

/// The draw command for the player glyph: always column 0, at its row.
pub open spec fn player_cell(p: Player) -> Command {
    Command::Cell { x: 0, y: p.y, fg: Shade::Yellow, bg: Shade::Black, glyph: '@' }
}

impl Player {
    /// The velocity stays between the flap impulse and the terminal
    /// velocity and keeps the parity of the gravity increment, and the body
    /// never sits above the top of the world.
    pub open spec fn wf(self) -> bool {
        &&& FLAP_VELOCITY <= self.velocity <= TERMINAL_VELOCITY
        &&& self.velocity % 2 == 0
        &&& self.y >= 0
    }

    /// A fresh player. The starting position is fixed; the arguments are
    /// ignored.
    pub fn new(_x: i32, _y: i32) -> (p: Player)
        ensures
            p == (Player { x: 0, y: 0, velocity: 0 }),
            p.wf(),
    {
        Player { x: 0, y: 0, velocity: 0 }
    }

    /// One physics step.
    pub fn gravity_and_move(&mut self)
        requires
            old(self).wf(),
            old(self).x < i32::MAX,
            old(self).y <= i32::MAX - 2,
        ensures
            *final(self) == stepped(*old(self)),
            final(self).wf(),
            final(self).velocity <= TERMINAL_VELOCITY,
            old(self).velocity <= final(self).velocity,
            final(self).y >= 0,
            final(self).y <= old(self).y + 2,
            final(self).x == old(self).x + 1,
    {
        if self.velocity < TERMINAL_VELOCITY {
            self.velocity = self.velocity + GRAVITY_STEP;
        }
        let moved: i32 = if self.velocity >= 0 {
            self.velocity / 10
        } else {
            -((-self.velocity) / 10)
        };
        self.y = self.y + moved;
        self.x = self.x + 1;
        if self.y < 0 {
            self.y = 0;
        }
    }

    /// Point the player upward: the velocity is set to the flap impulse
    /// outright, whatever it was.
    pub fn flap(&mut self)
        ensures
            final(self).velocity == FLAP_VELOCITY,
            final(self).x == old(self).x,
            final(self).y == old(self).y,
    {
        self.velocity = FLAP_VELOCITY;
    }

    /// Draw the player glyph at the left edge of the screen.
    pub fn render(&self, out: &mut Vec<Command>)
        ensures
            final(out)@ == old(out)@.push(player_cell(*self)),
    {
        out.push(Command::Cell { x: 0, y: self.y, fg: Shade::Yellow, bg: Shade::Black, glyph: '@' });
    }
}

/// Law: over any number of physics steps the velocity never exceeds the
/// terminal velocity and never decreases (only a flap lowers it), the player
/// advances exactly one column per step, and never leaves the top of the
/// world.
pub proof fn lemma_physics_steps(p: Player, n: nat)
    requires
        p.wf(),
        p.x + n <= i32::MAX,
        p.y + 2 * n <= i32::MAX,
    ensures
        stepped_n(p, n).wf(),
        stepped_n(p, n).velocity <= TERMINAL_VELOCITY,
        p.velocity <= stepped_n(p, n).velocity,
        stepped_n(p, n).x == p.x + n,
        stepped_n(p, n).y >= 0,
        stepped_n(p, n).y <= p.y + 2 * n,
    decreases n,
{
    if n > 0 {
        lemma_physics_steps(p, (n - 1) as nat);
    }
}

} // verus!
