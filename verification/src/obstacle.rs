//! Gap obstacles: random gap center, score-derived gap size, wall drawing
//! and the collision test.

use vstd::prelude::*;

use crate::command::{Command, Shade};
use crate::player::Player;
use crate::SCREEN_HEIGHT;

verus! {

/// Lowest row the gap center can be drawn at (inclusive).
pub const GAP_Y_MIN: i32 = 10;

/// Highest row the gap center can be drawn at (exclusive).
pub const GAP_Y_MAX: i32 = 40;

/// Smallest gap the game ever opens.
pub const MIN_GAP_SIZE: i32 = 2;

/// Gap size at score zero; the gap shrinks by one per point.
pub const BASE_GAP_SIZE: i32 = 20;

/// A wall with a gap in it. `x` is the wall's world-space column, `gap_y`
/// the center row of the gap, `size` the gap's total vertical extent.
#[derive(Clone, Copy, PartialEq, Eq, Debug)]
pub struct Obstacle {
    pub x: i32,
    pub gap_y: i32,
    pub size: i32,
}

/// Gap size for a score: shrinks linearly with the score, floored at the
/// minimum.
pub open spec fn gap_size(score: int) -> int {
    if BASE_GAP_SIZE - score < MIN_GAP_SIZE {
        MIN_GAP_SIZE as int
    } else {
        BASE_GAP_SIZE - score
    }
}

/// True when the player stands at the obstacle's column and outside the gap
/// band `[gap_y - size / 2, gap_y + size / 2]`.
pub open spec fn hits(o: Obstacle, p: Player) -> bool {
    let half = o.size as int / 2;
    &&& p.x == o.x
    &&& (p.y < o.gap_y - half || p.y > o.gap_y + half)
}

/// A wall cell drawn at screen column `sx`, row `y`.
pub open spec fn wall_cell(sx: int, y: int) -> Command {
    Command::Cell { x: sx as i32, y: y as i32, fg: Shade::Red, bg: Shade::Black, glyph: '|' }
}

/// The wall drawing commands for an obstacle as seen from player column
/// `px`: one cell for every row above the gap band, then one for every row
/// from below the band to the bottom of the screen.
pub open spec fn wall_cmds(o: Obstacle, px: int) -> Seq<Command> {
    let sx = o.x - px;
    let half = o.size as int / 2;
    let top = o.gap_y - half;
    let bottom = o.gap_y + half;
    Seq::new(top as nat, |i: int| wall_cell(sx, i))
        + Seq::new((SCREEN_HEIGHT - bottom) as nat, |i: int| wall_cell(sx, bottom + i))
}

/// Relies on bracket_lib's `RandomNumberGenerator` (the bracket-random
/// crate): `new` seeds a fresh generator and `range(min, max)` returns a
/// value inclusive of `min` and exclusive of `max`; it panics on an empty
/// range, which the precondition rules out.
#[verifier::external_body]
fn random_in_range(min: i32, max: i32) -> (r: i32)
    requires
        min < max,
    ensures
        min <= r < max,
{
    let mut rng = bracket_lib::prelude::RandomNumberGenerator::new();
    rng.range(min, max)
}

impl Obstacle {
    /// The gap center lies in the random band and the size within its two
    /// bounds.
    pub open spec fn wf(self) -> bool {
        &&& GAP_Y_MIN <= self.gap_y < GAP_Y_MAX
        &&& MIN_GAP_SIZE <= self.size <= BASE_GAP_SIZE
    }

    /// A new obstacle at column `x`: the gap center is an independent random
    /// draw from the fixed band, the gap size shrinks with the score.
    pub fn new(x: i32, score: i32) -> (o: Obstacle)
        requires
            0 <= score,
        ensures
            o.x == x,
            GAP_Y_MIN <= o.gap_y < GAP_Y_MAX,
            o.size == gap_size(score as int),
            o.wf(),
    {
        let gap_y: i32 = random_in_range(GAP_Y_MIN, GAP_Y_MAX);
        let shrunk: i32 = BASE_GAP_SIZE - score;
        let size: i32 = if shrunk < MIN_GAP_SIZE { MIN_GAP_SIZE } else { shrunk };
        Obstacle { x, gap_y, size }
    }

    /// Draw the wall: every row outside the gap band, at the obstacle's
    /// screen column as seen from player column `player_x`.
    pub fn render(&self, player_x: i32, out: &mut Vec<Command>)
        requires
            self.wf(),
            i32::MIN <= self.x - player_x <= i32::MAX,
        ensures
            final(out)@ == old(out)@ + wall_cmds(*self, player_x as int),
    {
        let screen_x: i32 = self.x - player_x;
        let half_size: i32 = self.size / 2;
        let top: i32 = self.gap_y - half_size;
        let bottom: i32 = self.gap_y + half_size;

        let ghost sx: int = screen_x as int;
        let mut y: i32 = 0;
        while y < top
            invariant
                0 <= y <= top,
                top == self.gap_y - self.size as int / 2,
                sx == self.x - player_x as int,
                screen_x == sx,
                out@ == old(out)@ + Seq::new(y as nat, |i: int| wall_cell(sx, i)),
            decreases top - y,
        {
            out.push(Command::Cell { x: screen_x, y, fg: Shade::Red, bg: Shade::Black, glyph: '|' });
            proof {
                assert(Seq::new((y + 1) as nat, |i: int| wall_cell(sx, i))
                    =~= Seq::new(y as nat, |i: int| wall_cell(sx, i)).push(wall_cell(sx, y as int)));
            }
            y = y + 1;
        }

        let ghost mid = out@;
        let mut row: i32 = bottom;
        while row < SCREEN_HEIGHT
            invariant
                bottom <= row <= SCREEN_HEIGHT,
                bottom == self.gap_y + self.size as int / 2,
                bottom <= SCREEN_HEIGHT,
                sx == self.x - player_x as int,
                screen_x == sx,
                out@ == mid + Seq::new((row - bottom) as nat, |i: int| wall_cell(sx, bottom + i)),
            decreases SCREEN_HEIGHT - row,
        {
            out.push(Command::Cell { x: screen_x, y: row, fg: Shade::Red, bg: Shade::Black, glyph: '|' });
            proof {
                assert(Seq::new((row + 1 - bottom) as nat, |i: int| wall_cell(sx, bottom + i))
                    =~= Seq::new((row - bottom) as nat, |i: int| wall_cell(sx, bottom + i))
                        .push(wall_cell(sx, row as int)));
            }
            row = row + 1;
        }

        proof {
            assert(out@ =~= old(out)@ + wall_cmds(*self, player_x as int));
        }
    }

    /// The collision test: true exactly when the player's column equals the
    /// obstacle's and the player's row is outside the gap band.
    pub fn hit_obstacle(&self, player: &Player) -> (r: bool)
        requires
            self.wf(),
        ensures
            r == hits(*self, *player),
    {
        let half_size: i32 = self.size / 2;
        let does_x_match: bool = player.x == self.x;
        let player_above_gap: bool = player.y < self.gap_y - half_size;
        let player_below_gap: bool = player.y > self.gap_y + half_size;
        does_x_match && (player_above_gap || player_below_gap)
    }
}

} // verus!
