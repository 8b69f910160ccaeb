//! The orchestrator: one mode state machine (menu, playing, dead) with the
//! per-tick dispatch, the physics-step accumulator, scoring, obstacle
//! replacement and the death check.

use vstd::prelude::*;

use crate::command::{Command, Key, Message, Shade};
use crate::obstacle::{gap_size, hits, wall_cmds, Obstacle, GAP_Y_MAX, GAP_Y_MIN};
use crate::player::{player_cell, stepped, Player, FLAP_VELOCITY};
use crate::{FRAME_DURATION, SCREEN_HEIGHT, SCREEN_WIDTH};

verus! {

/// The game's mode; exactly one is active at a time.
#[derive(Clone, Copy, PartialEq, Eq, Debug)]
pub enum GameMode {
    Menu,
    Playing,
    End,
}

/// The whole game state: mode, the owned player and obstacle, the time
/// accumulated toward the next physics step (in tenths of a millisecond),
/// and the score.
pub struct State {
    pub mode: GameMode,
    pub player: Player,
    pub frame_time: u32,
    pub obstacle: Obstacle,
    pub score: i32,
}

/// What `restart` establishes, from any prior mode: a fresh Playing round
/// with score zero, the fixed starting player, and an obstacle at the right
/// edge of the screen with the full starting gap.
pub open spec fn restarted(post: State) -> bool {
    &&& post.mode == GameMode::Playing
    &&& post.player == (Player { x: 0, y: 0, velocity: 0 })
    &&& post.frame_time == 0
    &&& post.score == 0
    &&& post.obstacle.x == SCREEN_WIDTH
    &&& post.obstacle.size == gap_size(0)
    &&& GAP_Y_MIN <= post.obstacle.gap_y < GAP_Y_MAX
}

/// The drawing commands of one Menu tick: clear, the three menu lines, and
/// a quit request if the quit key was pressed.
pub open spec fn menu_cmds(key: Option<Key>) -> Seq<Command> {
    let base = seq![
        Command::Clear,
        (Command::PrintCentered { y: 5, msg: Message::Title }),
        (Command::PrintCentered { y: 8, msg: Message::PlayOption }),
        (Command::PrintCentered { y: 9, msg: Message::QuitOption }),
    ];
    if key == Some(Key::Q) {
        base.push(Command::Quit)
    } else {
        base
    }
}

/// The drawing commands of one Dead tick: clear, the death report with the
/// final score, the two options, and a quit request if the quit key was
/// pressed.
pub open spec fn dead_cmds(score: i32, key: Option<Key>) -> Seq<Command> {
    let base = seq![
        Command::Clear,
        (Command::PrintCentered { y: 5, msg: Message::DeadLine }),
        (Command::PrintCentered { y: 6, msg: Message::Earned(score) }),
        (Command::PrintCentered { y: 8, msg: Message::PlayAgainOption }),
        (Command::PrintCentered { y: 9, msg: Message::QuitOption }),
    ];
    if key == Some(Key::Q) {
        base.push(Command::Quit)
    } else {
        base
    }
}

/// Everything one Menu tick promises: the menu is drawn, the play key
/// restarts, the quit key asks the driver to quit, and any other input
/// leaves the state as it was.
pub open spec fn menu_step_ok(pre: State, post: State, key: Option<Key>, out: Seq<Command>) -> bool {
    &&& out == menu_cmds(key)
    &&& if key == Some(Key::P) {
            restarted(post)
        } else {
            post == pre
        }
}

/// Everything one Dead tick promises; it differs from the Menu tick only in
/// what is printed.
pub open spec fn dead_step_ok(pre: State, post: State, key: Option<Key>, out: Seq<Command>) -> bool {
    &&& out == dead_cmds(pre.score, key)
    &&& if key == Some(Key::P) {
            restarted(post)
        } else {
            post == pre
        }
}

/// The player after the per-frame physics of one Playing tick: a physics
/// step fires only when the accumulator passes the threshold, and a flap is
/// sampled every display frame, whether or not the step fired.
pub open spec fn played_player(pre: State, key: Option<Key>, delta: int) -> Player {
    let moved = if pre.frame_time + delta > FRAME_DURATION {
        stepped(pre.player)
    } else {
        pre.player
    };
    if key == Some(Key::Space) {
        Player { velocity: FLAP_VELOCITY, ..moved }
    } else {
        moved
    }
}

/// The drawing commands of one Playing tick: clear to the background color,
/// the player glyph, the two HUD lines (the score shown is the score before
/// this tick), then the obstacle's wall as seen from the player's column.
pub open spec fn play_cmds(pre: State, p: Player) -> Seq<Command> {
    seq![
        Command::ClearBg(Shade::Navy),
        player_cell(p),
        (Command::Print { x: 0, y: 0, msg: Message::FlapHint }),
        (Command::Print { x: 0, y: 1, msg: Message::Score(pre.score) }),
    ] + wall_cmds(pre.obstacle, p.x as int)
}

/// Everything one Playing tick promises: the gated physics step and flap,
/// the accumulator reset, the drawing list, scoring with obstacle
/// replacement one column after the wall is passed, and the death check
/// against the obstacle that is in place at the end of the tick.
pub open spec fn play_step_ok(pre: State, post: State, key: Option<Key>, delta: int, out: Seq<Command>) -> bool {
    let fired = pre.frame_time + delta > FRAME_DURATION;
    let p = played_player(pre, key, delta);
    let scored = p.x > pre.obstacle.x;
    &&& post.player == p
    &&& post.frame_time == if fired { 0int } else { pre.frame_time + delta }
    &&& if scored {
            &&& post.score == pre.score + 1
            &&& post.obstacle.x == p.x + SCREEN_WIDTH
            &&& post.obstacle.size == gap_size(pre.score + 1)
            &&& GAP_Y_MIN <= post.obstacle.gap_y < GAP_Y_MAX
        } else {
            &&& post.score == pre.score
            &&& post.obstacle == pre.obstacle
        }
    &&& post.mode == if p.y > SCREEN_HEIGHT || hits(post.obstacle, p) {
            GameMode::End
        } else {
            pre.mode
        }
    &&& out == play_cmds(pre, p)
}

impl State {
    /// The parts are well formed, the score is a count, the accumulator
    /// never holds more than one pending step, and the obstacle stands
    /// between the player's column and one screen ahead of it.
    pub open spec fn wf(self) -> bool {
        &&& self.player.wf()
        &&& self.obstacle.wf()
        &&& 0 <= self.score
        &&& self.frame_time <= FRAME_DURATION
        &&& self.player.x <= self.obstacle.x
        &&& self.obstacle.x <= self.player.x + SCREEN_WIDTH
    }

    /// A fresh game: at the menu, score zero, the fixed starting player,
    /// and a first obstacle at the right edge of the screen.
    pub fn new() -> (s: State)
        ensures
            s.mode == GameMode::Menu,
            s.player == (Player { x: 0, y: 0, velocity: 0 }),
            s.frame_time == 0,
            s.score == 0,
            s.obstacle.x == SCREEN_WIDTH,
            s.obstacle.size == gap_size(0),
            GAP_Y_MIN <= s.obstacle.gap_y < GAP_Y_MAX,
            s.wf(),
    {
        State {
            player: Player::new(10, 25),
            frame_time: 0,
            mode: GameMode::Menu,
            obstacle: Obstacle::new(SCREEN_WIDTH, 0),
            score: 0,
        }
    }

    /// Begin a fresh round, from any mode.
    pub fn restart(&mut self)
        ensures
            restarted(*final(self)),
            final(self).wf(),
    {
        self.player = Player::new(5, 25);
        self.frame_time = 0;
        self.mode = GameMode::Playing;
        self.score = 0;
        self.obstacle = Obstacle::new(SCREEN_WIDTH, 0);
    }

    /// One Menu tick: draw the menu, then dispatch on the pressed key; an
    /// unrecognized key is a no-op.
    pub fn main_menu(&mut self, key: Option<Key>) -> (out: Vec<Command>)
        ensures
            menu_step_ok(*old(self), *final(self), key, out@),
            old(self).wf() ==> final(self).wf(),
    {
        let mut out: Vec<Command> = Vec::new();
        out.push(Command::Clear);
        out.push(Command::PrintCentered { y: 5, msg: Message::Title });
        out.push(Command::PrintCentered { y: 8, msg: Message::PlayOption });
        out.push(Command::PrintCentered { y: 9, msg: Message::QuitOption });
        match key {
            Some(Key::P) => self.restart(),
            Some(Key::Q) => out.push(Command::Quit),
            _ => {}
        }
        proof {
            assert(out@ =~= menu_cmds(key));
        }
        out
    }

    /// One Dead tick: draw the death report and the options, then dispatch
    /// on the pressed key; an unrecognized key is a no-op.
    pub fn dead(&mut self, key: Option<Key>) -> (out: Vec<Command>)
        ensures
            dead_step_ok(*old(self), *final(self), key, out@),
            old(self).wf() ==> final(self).wf(),
    {
        let mut out: Vec<Command> = Vec::new();
        out.push(Command::Clear);
        out.push(Command::PrintCentered { y: 5, msg: Message::DeadLine });
        out.push(Command::PrintCentered { y: 6, msg: Message::Earned(self.score) });
        out.push(Command::PrintCentered { y: 8, msg: Message::PlayAgainOption });
        out.push(Command::PrintCentered { y: 9, msg: Message::QuitOption });
        match key {
            Some(Key::P) => self.restart(),
            Some(Key::Q) => out.push(Command::Quit),
            _ => {}
        }
        proof {
            assert(out@ =~= dead_cmds(old(self).score, key));
        }
        out
    }

    /// One Playing tick: accumulate frame time and run at most one physics
    /// step, sample the flap key, draw, score a passed obstacle and replace
    /// it one screen ahead, and die on a fall or a collision.
    pub fn play(&mut self, key: Option<Key>, delta: u32) -> (out: Vec<Command>)
        requires
            old(self).wf(),
            old(self).player.x <= i32::MAX - 1 - SCREEN_WIDTH,
            old(self).player.y <= i32::MAX - 2,
            old(self).score < i32::MAX,
            delta <= u32::MAX - FRAME_DURATION,
        ensures
            play_step_ok(*old(self), *final(self), key, delta as int, out@),
            final(self).wf(),
    {
        let mut out: Vec<Command> = Vec::new();
        out.push(Command::ClearBg(Shade::Navy));

        self.frame_time = self.frame_time + delta;
        if self.frame_time > FRAME_DURATION {
            self.frame_time = 0;
            self.player.gravity_and_move();
        }

        if let Some(Key::Space) = key {
            self.player.flap();
        }

        self.player.render(&mut out);
        out.push(Command::Print { x: 0, y: 0, msg: Message::FlapHint });
        out.push(Command::Print { x: 0, y: 1, msg: Message::Score(self.score) });
        self.obstacle.render(self.player.x, &mut out);

        if self.player.x > self.obstacle.x {
            self.score = self.score + 1;
            self.obstacle = Obstacle::new(self.player.x + SCREEN_WIDTH, self.score);
        }

        if self.player.y > SCREEN_HEIGHT || self.obstacle.hit_obstacle(&self.player) {
            self.mode = GameMode::End;
        }

        proof {
            assert(out@ =~= play_cmds(*old(self), played_player(*old(self), key, delta as int)));
        }
        out
    }

    /// One frame: dispatch to the handler of the current mode.
    pub fn tick(&mut self, key: Option<Key>, delta: u32) -> (out: Vec<Command>)
        requires
            old(self).wf(),
            old(self).mode == GameMode::Playing ==> old(self).player.x <= i32::MAX - 1 - SCREEN_WIDTH,
            old(self).mode == GameMode::Playing ==> old(self).player.y <= i32::MAX - 2,
            old(self).mode == GameMode::Playing ==> old(self).score < i32::MAX,
            old(self).mode == GameMode::Playing ==> delta <= u32::MAX - FRAME_DURATION,
        ensures
            final(self).wf(),
            old(self).mode == GameMode::Menu
                ==> menu_step_ok(*old(self), *final(self), key, out@),
            old(self).mode == GameMode::End
                ==> dead_step_ok(*old(self), *final(self), key, out@),
            old(self).mode == GameMode::Playing
                ==> play_step_ok(*old(self), *final(self), key, delta as int, out@),
    {
        match self.mode {
            GameMode::Menu => self.main_menu(key),
            GameMode::End => self.dead(key),
            GameMode::Playing => self.play(key, delta),
        }
    }
}

} // verus!
