use pong::court::{
    BALL_MAX_VELOCITY, BALL_VELOCITY, COUNTDOWN, NUDGE, PADDLE_H, WALL_THICKNESS,
};
use pong::geometry::{push_decimal, UNIT};
use pong::main_menu::{HIGHLIGHT_QUIT_Y, HIGHLIGHT_START_Y};
use pong::scene::{KEY_DOWN, KEY_ENTER, KEY_S, KEY_UP, KEY_W};
use pong::timer::millis;
use pong::{App, Court, Draw, EndGame, KeyEvent, MainMenu, Rectangle, Scene, Text, TextSize, Timer};
use std::time::Duration;

fn units(s: &str) -> Vec<u16> {
    s.encode_utf16().collect()
}

/// A court whose countdown is over, so that the next tick runs physics.
fn running_court() -> Court {
    let mut c = Court::new();
    c.play.countdown = 0;
    c
}

fn expect_court(s: Scene) -> Court {
    match s {
        Scene::Court(c) => c,
        _ => panic!("expected the court"),
    }
}

#[test]
fn rectangles_overlap_but_touching_edges_do_not() {
    let a = Rectangle { x: 0, y: 0, w: 10, h: 10 };
    let b = Rectangle { x: 5, y: 5, w: 10, h: 10 };
    let c = Rectangle { x: 10, y: 0, w: 10, h: 10 };
    assert!(a.collides(&b));
    assert!(b.collides(&a));
    assert!(!a.collides(&c));
    assert!(!c.collides(&a));
}

#[test]
fn set_text_writes_decimal_digits() {
    let mut t = Text { x: 1, y: 2, text: Vec::new(), size: TextSize::Small };
    t.set_text(0);
    assert_eq!(t.text, units("0"));
    t.set_text(10);
    assert_eq!(t.text, units("10"));
    t.set_text(255);
    assert_eq!(t.text, units("255"));
    assert_eq!((t.x, t.y, t.size), (1, 2, TextSize::Small));
    let mut v: Vec<u16> = units("a");
    push_decimal(&mut v, 907);
    assert_eq!(v, units("a907"));
}

#[test]
fn menu_labels_are_utf16() {
    let m = MainMenu::new();
    assert_eq!(m.topic.text, units("PONG"));
    assert_eq!(m.start.text, units("START"));
    assert_eq!(m.quit.text, units("QUIT"));
}

#[test]
fn end_game_result_shows_right_then_left() {
    let e = EndGame::new(3, 10);
    assert_eq!(e.result.text, units("10 - 3"));
    assert_eq!(e.topic.text, units("GAME OVER"));
    assert!(!e.selected);
}

#[test]
fn tenth_point_ends_the_match() {
    let mut c = running_court();
    c.play.right.points = 9;
    c.right_score.set_text(9);
    c.play.left.points = 4;
    c.left_score.set_text(4);
    c.play.ball.x = 1_000;
    c.play.ball_x_movement = -BALL_VELOCITY;
    match c.tick(10) {
        Scene::EndGame(e) => {
            assert_eq!(e.r_score, 10);
            assert_eq!(e.l_score, 4);
            assert_eq!(e.result.text, units("10 - 4"));
        }
        _ => panic!("expected the end of the match"),
    }
}

#[test]
fn ball_bounces_off_left_paddle_edge() {
    let mut c = running_court();
    let edge = c.play.l_paddle.x + c.play.l_paddle.w;
    c.play.ball.x = edge + 500;
    c.play.ball_x_movement = -BALL_VELOCITY;
    c.play.ball_y_movement = BALL_VELOCITY;
    let n = expect_court(c.tick(2));
    assert_eq!(n.play.ball.x, edge + NUDGE);
    assert_eq!(n.play.ball_x_movement, 330);
    assert_eq!(n.play.ball_y_movement, 330);
}

#[test]
fn menu_up_then_enter_quits() {
    let m = MainMenu::new();
    assert_eq!(m.highlighter.y, HIGHLIGHT_START_Y);
    let m = m.key_up(KEY_UP);
    assert_eq!(m.highlighter.y, HIGHLIGHT_QUIT_Y);
    let m = m.key_up(KEY_ENTER);
    assert!(m.selected);
    assert!(m.tick(16).is_none());
}

#[test]
fn menu_toggles_back_and_latch_freezes_it() {
    let m = MainMenu::new().key_up(KEY_DOWN).key_up(KEY_DOWN);
    assert_eq!(m.highlighter.y, HIGHLIGHT_START_Y);
    let m = m.key_up(KEY_ENTER).key_up(KEY_UP);
    assert_eq!(m.highlighter.y, HIGHLIGHT_START_Y);
    let m = m.key_down(KEY_UP).key_up(0x41);
    assert_eq!(m.highlighter.y, HIGHLIGHT_START_Y);
}

#[test]
fn menu_start_then_enter_gives_fresh_court() {
    let m = MainMenu::new().key_up(KEY_ENTER);
    let fresh = Court::new();
    match m.tick(0) {
        Some(Scene::Court(c)) => {
            assert_eq!(c.play, fresh.play);
            assert_eq!(c.play.left.points, 0);
            assert_eq!(c.play.right.points, 0);
            assert_eq!(c.play.ball.x, UNIT / 2 - c.play.ball.w / 2);
            assert_eq!(c.play.l_paddle.y, UNIT / 2 - PADDLE_H / 2);
            assert_eq!(c.play.r_paddle.y, UNIT / 2 - PADDLE_H / 2);
        }
        _ => panic!("expected a new court"),
    }
}

#[test]
fn menu_without_enter_stays() {
    match MainMenu::new().tick(100) {
        Some(Scene::MainMenu(m)) => assert!(!m.selected),
        _ => panic!("expected the menu"),
    }
}

#[test]
fn advance_zero_changes_nothing() {
    let c = Court::new();
    let before = c.play;
    let c = expect_court(c.tick(0));
    assert_eq!(c.play, before);
    let mut c = running_court();
    c.play.right.movement = 1;
    let before = c.play;
    let c = expect_court(c.tick(0));
    assert_eq!(c.play, before);
}

#[test]
fn countdown_suspends_physics() {
    let c = Court::new();
    let before = c.play;
    let c = expect_court(c.tick(200));
    assert_eq!(c.play.ball, before.ball);
    assert_eq!(c.play.countdown, COUNTDOWN - 200);
    let c = expect_court(c.tick(400));
    assert_eq!(c.play.countdown, 0);
    assert_eq!(c.play.ball.x, before.ball.x + BALL_VELOCITY * 400);
    assert_eq!(c.play.ball.y, before.ball.y - BALL_VELOCITY * 400);
}

#[test]
fn paddle_stops_at_top_wall() {
    let mut c = running_court().key_down(KEY_UP);
    for _ in 0..20 {
        c = expect_court(c.tick(30));
        let y = c.play.r_paddle.y;
        assert!(y >= WALL_THICKNESS && y <= UNIT - WALL_THICKNESS - PADDLE_H);
    }
    assert_eq!(c.play.r_paddle.y, WALL_THICKNESS + NUDGE);
}

#[test]
fn paddle_stops_at_bottom_wall() {
    let mut c = running_court().key_down(KEY_S);
    for _ in 0..20 {
        c = expect_court(c.tick(30));
    }
    assert_eq!(c.play.l_paddle.y, UNIT - WALL_THICKNESS - PADDLE_H - NUDGE);
}

#[test]
fn ball_speed_is_capped() {
    let mut c = running_court();
    c.play.ball_x_movement = 590;
    c.play.ball_y_movement = -590;
    c.play.ball.y = WALL_THICKNESS + 100;
    let c = expect_court(c.tick(1));
    assert_eq!(c.play.ball_y_movement, BALL_MAX_VELOCITY);
    assert_eq!(c.play.ball_x_movement, BALL_MAX_VELOCITY);
    assert_eq!(c.play.ball.y, WALL_THICKNESS + NUDGE);
}

#[test]
fn ball_bounces_off_bottom_wall() {
    let mut c = running_court();
    c.play.ball.y = UNIT - WALL_THICKNESS - c.play.ball.h - 100;
    c.play.ball_y_movement = BALL_VELOCITY;
    let c = expect_court(c.tick(1));
    assert_eq!(c.play.ball.y, UNIT - WALL_THICKNESS - c.play.ball.h - NUDGE);
    assert_eq!(c.play.ball_y_movement, -330);
}

#[test]
fn left_player_scores_and_round_restarts() {
    let mut c = running_court();
    c.play.ball.x = UNIT - c.play.ball.w - 100;
    c.play.ball.y = 100_000;
    c.play.ball_x_movement = BALL_VELOCITY;
    c.play.ball_y_movement = -BALL_VELOCITY;
    let c = expect_court(c.tick(1));
    assert_eq!(c.play.left.points, 1);
    assert_eq!(c.left_score.text, units("1"));
    assert_eq!(c.right_score.text, units("0"));
    assert_eq!(c.play.countdown, COUNTDOWN);
    assert_eq!(c.play.ball_x_movement, BALL_VELOCITY);
    assert_eq!(c.play.ball_y_movement, BALL_VELOCITY);
    assert_eq!(c.play.ball, Court::new().play.ball);
}

#[test]
fn stale_release_keeps_active_direction() {
    let c = running_court().key_down(KEY_UP).key_down(KEY_DOWN).key_up(KEY_UP);
    assert_eq!(c.play.right.movement, 1);
    let c = c.key_up(KEY_DOWN);
    assert_eq!(c.play.right.movement, 0);
    let c = c.key_down(KEY_W).key_up(KEY_S);
    assert_eq!(c.play.left.movement, -1);
    let c = c.key_up(0x41).key_down(0x41);
    assert_eq!(c.play.left.movement, -1);
    assert_eq!(c.play.right.movement, 0);
}

#[test]
fn end_game_enter_returns_to_menu() {
    let e = EndGame::new(10, 2);
    let s = e.key_down(KEY_ENTER);
    let s = match s {
        Scene::EndGame(e) => e.tick(50),
        _ => panic!("expected the results"),
    };
    let e = match s {
        Scene::EndGame(e) => e,
        _ => panic!("expected the results"),
    };
    match e.key_up(KEY_ENTER) {
        Scene::EndGame(e) => match e.tick(0) {
            Scene::MainMenu(m) => {
                assert!(!m.selected);
                assert_eq!(m.highlighter.y, HIGHLIGHT_START_Y);
            }
            _ => panic!("expected the menu"),
        },
        _ => panic!("expected the results"),
    }
}

#[test]
fn court_draws_in_fixed_order() {
    let c = Court::new();
    let d = c.draw();
    assert_eq!(d.len(), 7);
    match &d[0] {
        Draw::Rect(r) => assert_eq!(*r, c.play.ball),
        _ => panic!("expected the ball"),
    }
    match &d[3] {
        Draw::Rect(r) => assert_eq!(*r, c.top_wall),
        _ => panic!("expected the top wall"),
    }
    match &d[6] {
        Draw::Label(t) => assert_eq!(t.text, units("0")),
        _ => panic!("expected the right score"),
    }
}

#[test]
fn app_runs_until_quit() {
    let mut app = App::new();
    assert!(app.running());
    assert_eq!(app.draw().len(), 7);
    app.key_up(KEY_DOWN);
    app.key_up(KEY_ENTER);
    app.advance(5);
    assert!(!app.running());
    assert_eq!(app.draw().len(), 0);
    app.key_down(KEY_UP);
    app.tick();
    assert!(!app.running());
}

#[test]
fn app_starts_a_match() {
    let mut app = App::new();
    app.key_up(KEY_ENTER);
    app.tick();
    assert!(app.running());
    match &app.scene {
        Some(Scene::Court(c)) => assert_eq!(c.play.left.points, 0),
        _ => panic!("expected a court"),
    }
    app.key_down(KEY_W);
    match &app.scene {
        Some(Scene::Court(c)) => assert_eq!(c.play.left.movement, -1),
        _ => panic!("expected a court"),
    }
    let s = Scene::new();
    assert_eq!(s.draw().len(), 7);
}

#[test]
fn frame_advances_before_delivering_keys() {
    let mut app = App::new();
    let events = vec![KeyEvent::Release(KEY_DOWN), KeyEvent::Release(KEY_ENTER)];
    app.step(0, &events);
    assert!(app.running());
    match &app.scene {
        Some(Scene::MainMenu(m)) => {
            assert!(m.selected);
            assert_eq!(m.highlighter.y, HIGHLIGHT_QUIT_Y);
        }
        _ => panic!("expected the menu"),
    }
    app.step(0, &Vec::new());
    assert!(!app.running());
    app.frame(&vec![KeyEvent::Press(KEY_UP)]);
    assert!(!app.running());
}

#[test]
fn frame_delivers_keys_in_order() {
    let mut app = App::new();
    app.step(0, &vec![KeyEvent::Release(KEY_ENTER)]);
    let events = vec![
        KeyEvent::Press(KEY_UP),
        KeyEvent::Press(KEY_DOWN),
        KeyEvent::Release(KEY_UP),
        KeyEvent::Press(KEY_S),
    ];
    app.step(0, &events);
    match &app.scene {
        Some(Scene::Court(c)) => {
            assert_eq!(c.play.right.movement, 1);
            assert_eq!(c.play.left.movement, 1);
        }
        _ => panic!("expected a court"),
    }
}

#[test]
fn timer_measures_whole_milliseconds() {
    assert_eq!(millis(&Duration::from_millis(1234)), 1234);
    assert_eq!(millis(&Duration::from_micros(2999)), 2);
    assert_eq!(millis(&Duration::from_secs(u64::MAX)), u64::MAX);
    let mut t = Timer::new();
    let first = t.time();
    assert!(first < Duration::from_secs(60));
}

#[test]
fn long_frame_keeps_paddle_inside() {
    let c = Court::new().key_down(KEY_UP).key_down(KEY_S);
    let c = expect_court(c.tick(500));
    let c = expect_court(c.tick(1000));
    assert_eq!(c.play.r_paddle.y, WALL_THICKNESS + NUDGE);
    assert_eq!(c.play.l_paddle.y, UNIT - WALL_THICKNESS - PADDLE_H - NUDGE);
}

#[test]
fn menu_draws_text_last() {
    let m = MainMenu::new();
    let d = m.draw();
    assert_eq!(d.len(), 7);
    for (i, command) in d.iter().enumerate() {
        match command {
            Draw::Rect(_) => assert!(i < 3),
            Draw::Label(_) => assert!(i >= 3),
        }
    }
    match &d[2] {
        Draw::Rect(r) => assert_eq!(*r, m.highlighter),
        _ => panic!("expected the highlighter"),
    }
    match &d[6] {
        Draw::Label(t) => assert_eq!(t.text, units("QUIT")),
        _ => panic!("expected the quit label"),
    }
}

#[test]
fn end_game_texts_are_fixed() {
    let e = EndGame::new(0, 10);
    assert_eq!(e.help.text, units("Press ENTER to go back to main menu"));
    assert_eq!((e.topic.x, e.topic.y, e.topic.size), (500_000, 250_000, TextSize::Big));
    assert_eq!(e.help.size, TextSize::Small);
    assert_eq!(e.result.text, units("10 - 0"));
}
