use flappy::command::{Command, Key, Message, Shade};
use flappy::game::{GameMode, State};
use flappy::obstacle::{Obstacle, GAP_Y_MAX, GAP_Y_MIN};
use flappy::player::Player;
use flappy::{FRAME_DURATION, SCREEN_HEIGHT, SCREEN_WIDTH};

/// A Playing state put together by hand, for ticks that need a particular
/// player or obstacle.
fn playing(player: Player, obstacle: Obstacle, score: i32) -> State {
    State { mode: GameMode::Playing, player, frame_time: 0, obstacle, score }
}

#[test]
fn new_game_starts_at_menu() {
    let s = State::new();
    assert_eq!(s.mode, GameMode::Menu);
    assert_eq!(s.score, 0);
    assert_eq!(s.frame_time, 0);
    assert_eq!(s.player.x, 0);
    assert_eq!(s.player.y, 0);
    assert_eq!(s.player.velocity, 0);
    assert_eq!(s.obstacle.x, SCREEN_WIDTH);
    assert_eq!(s.obstacle.size, 20);
}

#[test]
fn restart_from_menu() {
    // Round trip: restarting from the menu lands in Playing with score 0,
    // a fresh player, and an obstacle at the screen's right edge.
    let mut s = State::new();
    s.restart();
    assert_eq!(s.mode, GameMode::Playing);
    assert_eq!(s.score, 0);
    assert_eq!(s.frame_time, 0);
    assert_eq!(s.player.x, 0);
    assert_eq!(s.player.y, 0);
    assert_eq!(s.player.velocity, 0);
    assert_eq!(s.obstacle.x, SCREEN_WIDTH);
    assert_eq!(s.obstacle.size, 20);
    assert!(GAP_Y_MIN <= s.obstacle.gap_y && s.obstacle.gap_y < GAP_Y_MAX);
}

#[test]
fn restart_from_dead_mode() {
    let mut s = playing(Player { x: 7, y: 60, velocity: 20 }, Obstacle { x: 50, gap_y: 20, size: 4 }, 9);
    s.mode = GameMode::End;
    s.restart();
    assert_eq!(s.mode, GameMode::Playing);
    assert_eq!(s.score, 0);
    assert_eq!(s.obstacle.x, SCREEN_WIDTH);
}

#[test]
fn menu_draws_and_ignores_unknown_keys() {
    let mut s = State::new();
    let out = s.tick(None, 0);
    assert_eq!(
        out,
        vec![
            Command::Clear,
            Command::PrintCentered { y: 5, msg: Message::Title },
            Command::PrintCentered { y: 8, msg: Message::PlayOption },
            Command::PrintCentered { y: 9, msg: Message::QuitOption },
        ]
    );
    assert_eq!(s.mode, GameMode::Menu);

    let out = s.tick(Some(Key::Other), 0);
    assert_eq!(out.len(), 4);
    assert_eq!(s.mode, GameMode::Menu);
}

#[test]
fn menu_play_key_starts_round() {
    let mut s = State::new();
    let out = s.tick(Some(Key::P), 0);
    assert_eq!(s.mode, GameMode::Playing);
    assert_eq!(s.score, 0);
    assert!(!out.contains(&Command::Quit));
}

#[test]
fn menu_quit_key_requests_quit() {
    let mut s = State::new();
    let out = s.tick(Some(Key::Q), 0);
    assert_eq!(out.last(), Some(&Command::Quit));
    assert_eq!(s.mode, GameMode::Menu);
}

#[test]
fn dead_screen_reports_score_and_dispatches() {
    let mut s = playing(Player { x: 3, y: 0, velocity: 0 }, Obstacle { x: 50, gap_y: 20, size: 10 }, 7);
    s.mode = GameMode::End;
    let out = s.tick(None, 0);
    assert_eq!(
        out,
        vec![
            Command::Clear,
            Command::PrintCentered { y: 5, msg: Message::DeadLine },
            Command::PrintCentered { y: 6, msg: Message::Earned(7) },
            Command::PrintCentered { y: 8, msg: Message::PlayAgainOption },
            Command::PrintCentered { y: 9, msg: Message::QuitOption },
        ]
    );
    assert_eq!(s.mode, GameMode::End);

    let out = s.tick(Some(Key::Q), 0);
    assert_eq!(out.last(), Some(&Command::Quit));
    assert_eq!(s.mode, GameMode::End);

    s.tick(Some(Key::P), 0);
    assert_eq!(s.mode, GameMode::Playing);
    assert_eq!(s.score, 0);
}

#[test]
fn no_physics_step_below_threshold() {
    // The accumulator holds frame time until it passes the threshold; the
    // player does not move on such frames.
    let mut s = State::new();
    s.restart();
    let before = s.player;
    s.tick(None, 300);
    assert_eq!(s.frame_time, 300);
    assert_eq!(s.player.x, before.x);
    assert_eq!(s.player.y, before.y);
    assert_eq!(s.player.velocity, before.velocity);
    s.tick(None, 450);
    // 300 + 450 equals the threshold exactly and still does not fire.
    assert_eq!(s.frame_time, FRAME_DURATION);
    assert_eq!(s.player.x, before.x);
}

#[test]
fn physics_step_fires_past_threshold() {
    let mut s = State::new();
    s.restart();
    s.tick(None, FRAME_DURATION + 10);
    assert_eq!(s.frame_time, 0);
    assert_eq!(s.player.x, 1);
    assert_eq!(s.player.velocity, 2);
}

#[test]
fn flap_is_sampled_every_frame() {
    // A flap lands even on a frame whose accumulated time fires no
    // physics step.
    let mut s = State::new();
    s.restart();
    s.tick(Some(Key::Space), 10);
    assert_eq!(s.player.velocity, -20);
    assert_eq!(s.player.x, 0);
}

#[test]
fn passing_an_obstacle_scores_and_respawns() {
    // The player scores one tick after its column passes the wall: the step
    // puts it one past the wall, the score rises, and a new obstacle
    // appears one screen ahead with a tighter gap.
    let o = Obstacle { x: 10, gap_y: 20, size: 14 };
    let mut s = playing(Player { x: 10, y: 20, velocity: 0 }, o, 6);
    s.tick(None, FRAME_DURATION + 1);
    assert_eq!(s.player.x, 11);
    assert_eq!(s.score, 7);
    assert_eq!(s.obstacle.x, 11 + SCREEN_WIDTH);
    assert_eq!(s.obstacle.size, 20 - 7);
    assert_eq!(s.mode, GameMode::Playing);
}

#[test]
fn no_score_while_short_of_the_wall() {
    let o = Obstacle { x: 10, gap_y: 20, size: 14 };
    let mut s = playing(Player { x: 8, y: 20, velocity: 0 }, o, 6);
    s.tick(None, FRAME_DURATION + 1);
    assert_eq!(s.player.x, 9);
    assert_eq!(s.score, 6);
    assert_eq!(s.obstacle.x, 10);
}

#[test]
fn falling_off_the_screen_ends_the_round() {
    let o = Obstacle { x: 70, gap_y: 20, size: 10 };
    let mut s = playing(Player { x: 0, y: 49, velocity: 20 }, o, 0);
    s.tick(None, FRAME_DURATION + 1);
    assert!(s.player.y > SCREEN_HEIGHT);
    assert_eq!(s.mode, GameMode::End);
}

#[test]
fn hitting_the_wall_ends_the_round() {
    // The step carries the player onto the wall's column, above the gap.
    let o = Obstacle { x: 5, gap_y: 20, size: 10 };
    let mut s = playing(Player { x: 4, y: 0, velocity: 0 }, o, 0);
    s.tick(None, FRAME_DURATION + 1);
    assert_eq!(s.player.x, 5);
    assert_eq!(s.mode, GameMode::End);
}

#[test]
fn passing_through_the_gap_survives() {
    let o = Obstacle { x: 5, gap_y: 20, size: 10 };
    let mut s = playing(Player { x: 4, y: 18, velocity: 0 }, o, 0);
    s.tick(None, FRAME_DURATION + 1);
    assert_eq!(s.player.x, 5);
    assert_eq!(s.player.y, 18);
    assert_eq!(s.mode, GameMode::Playing);
}

#[test]
fn playing_tick_draw_order() {
    let o = Obstacle { x: 6, gap_y: 20, size: 10 };
    let mut s = playing(Player { x: 2, y: 18, velocity: 0 }, o, 3);
    let out = s.tick(None, 0);
    assert_eq!(out[0], Command::ClearBg(Shade::Navy));
    assert_eq!(
        out[1],
        Command::Cell { x: 0, y: 18, fg: Shade::Yellow, bg: Shade::Black, glyph: '@' }
    );
    assert_eq!(out[2], Command::Print { x: 0, y: 0, msg: Message::FlapHint });
    assert_eq!(out[3], Command::Print { x: 0, y: 1, msg: Message::Score(3) });
    // The wall at world column 6 seen from player column 2: screen column 4,
    // rows 0..15 and 25..50.
    assert_eq!(out.len(), 4 + 15 + 25);
    assert_eq!(
        out[4],
        Command::Cell { x: 4, y: 0, fg: Shade::Red, bg: Shade::Black, glyph: '|' }
    );
    assert_eq!(
        out[out.len() - 1],
        Command::Cell { x: 4, y: 49, fg: Shade::Red, bg: Shade::Black, glyph: '|' }
    );
}
