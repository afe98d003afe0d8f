use rs_squash::game::{App, Keys, Policy, BALL_SPEED, PALLET_SPEED, WHITE};
use rs_squash::model::Direction;

fn no_keys() -> Keys {
    Keys { start: false, up: false, down: false, speed_up: false, speed_down: false }
}

fn running(width: u32, height: u32) -> App {
    let mut app = App::new(width, height, 40, 4);
    app.started = true;
    app
}

fn gap(a: i64, b: i64) -> i64 {
    (a - b).abs()
}

#[test]
fn new_places_entities_from_viewport() {
    let app = App::new(600, 400, 40, 4);
    assert_eq!(app.resolution, [600, 400]);
    assert_eq!(app.scale_milli, 1000);
    assert!(!app.started);
    assert_eq!(app.round, 0);
    assert_eq!((app.pallet.x, app.pallet.y, app.pallet.size), (75, 200, 40));
    assert_eq!(app.pallet.speed, PALLET_SPEED);
    assert_eq!(app.pallet.color, WHITE);
    assert_eq!((app.ball.x, app.ball.y, app.ball.size), (300, 200, 4));
    assert_eq!(app.ball.speed, BALL_SPEED);
    assert_eq!(app.ball.target, [0, 200]);
    assert!(app.policy.escalating && app.policy.random_rows);
}

#[test]
fn bounds_of_entities() {
    let app = App::new(400, 400, 40, 4);
    assert_eq!(app.pallet.left_bound(), 10);
    assert_eq!(app.pallet.right_bound(), 90);
    assert_eq!(app.pallet.top_bound(), 160);
    assert_eq!(app.pallet.bottom_bound(), 240);
    assert_eq!(app.ball.left_bound(), 196);
    assert_eq!(app.ball.right_bound(), 204);
    assert_eq!(app.ball.top_bound(), 196);
    assert_eq!(app.ball.bottom_bound(), 204);
}

#[test]
fn direction_follows_target_column() {
    let mut app = App::new(400, 400, 40, 4);
    app.ball.target = [0, 200];
    assert_eq!(app.ball.direction(), Direction::Left);
    app.ball.target = [200, 200];
    assert_eq!(app.ball.direction(), Direction::Right);
    app.ball.target = [400, 200];
    assert_eq!(app.ball.direction(), Direction::Right);
    app.ball.x = 401;
    assert_eq!(app.ball.direction(), Direction::Left);
}

#[test]
fn scenario_leftward_travel_without_escalation() {
    let mut app = running(400, 400);
    app.policy.escalating = false;
    app.tick(1000, &no_keys(), 0, 0);
    assert_eq!(app.ball.x, 0);
    assert_eq!(app.ball.y, 200);
}

#[test]
fn leftward_travel_with_escalation() {
    let mut app = running(400, 400);
    app.tick(1000, &no_keys(), 0, 0);
    // (50 + 1 + 0) hundredths of 400 over one second
    assert_eq!(app.ball.x, -4);
}

#[test]
fn escalation_grows_with_round() {
    let mut app = running(1000, 400);
    app.round = 5;
    app.tick(100, &no_keys(), 0, 0);
    // (50 + 1 + 5) hundredths of 1000 over a tenth of a second
    assert_eq!(app.ball.x, 500 - 56);
}

#[test]
fn scenario_far_wall_bounce() {
    let mut app = running(400, 400);
    app.ball.x = 396;
    app.ball.target = [400, 200];
    app.tick(10, &no_keys(), 7, 123);
    assert_eq!(app.round, 1);
    assert_eq!(app.ball.target, [0, 123]);
    assert_eq!(app.ball.x, 394);
    assert_eq!(app.ball.y, 200);
}

#[test]
fn far_wall_bounce_with_middle_row_policy() {
    let mut app = running(400, 400);
    app.policy.random_rows = false;
    app.ball.x = 398;
    app.ball.target = [400, 50];
    app.tick(0, &no_keys(), 7, 123);
    assert_eq!(app.round, 1);
    assert_eq!(app.ball.target, [0, 200]);
}

#[test]
fn paddle_contact_retargets_to_far_wall() {
    let mut app = running(400, 400);
    app.ball.x = 40;
    app.tick(0, &no_keys(), 77, 5);
    assert_eq!(app.ball.target, [400, 77]);
    assert_eq!(app.ball.x, 40);
    assert_eq!(app.round, 0);
}

#[test]
fn no_contact_in_front_of_paddle() {
    let mut app = running(400, 400);
    app.ball.x = 41;
    app.tick(0, &no_keys(), 77, 5);
    assert_eq!(app.ball.target, [0, 200]);
}

#[test]
fn scenario_start_key_latches() {
    let mut app = App::new(400, 400, 40, 4);
    let start = Keys { start: true, ..no_keys() };
    app.tick(16, &start, 0, 0);
    assert!(app.started);
    app.tick(16, &start, 0, 0);
    assert!(app.started);
}

#[test]
fn idle_game_keeps_ball_still() {
    let mut app = App::new(400, 400, 40, 4);
    app.tick(16, &no_keys(), 0, 0);
    assert!(!app.started);
    assert_eq!((app.ball.x, app.ball.y), (200, 200));
}

#[test]
fn scenario_miss_resets() {
    let mut app = running(400, 300);
    app.round = 3;
    app.ball.x = 4;
    app.ball.y = 17;
    app.ball.target = [0, 90];
    app.pallet.y = 250;
    app.tick(16, &no_keys(), 0, 0);
    assert_eq!(app.round, 0);
    assert!(!app.started);
    // reset to the centre, then one step left at (50 + 1) hundredths of 400 over 16 ms
    assert_eq!((app.ball.x, app.ball.y), (197, 150));
    assert_eq!(app.ball.target, [0, 150]);
    assert_eq!(app.pallet.y, 150);
}

#[test]
fn miss_then_full_second_step() {
    let mut app = running(400, 400);
    app.ball.x = 2;
    app.tick(1000, &no_keys(), 0, 0);
    assert!(!app.started);
    assert_eq!(app.round, 0);
    assert_eq!((app.ball.x, app.ball.y), (-4, 200));
}

#[test]
fn miss_with_zero_step_leaves_ball_at_centre() {
    let mut app = running(400, 400);
    app.round = 2;
    app.ball.x = 4;
    app.tick(0, &no_keys(), 0, 0);
    assert_eq!(app.round, 0);
    assert_eq!((app.ball.x, app.ball.y), (200, 200));
    assert_eq!(app.ball.target, [0, 200]);
}

#[test]
fn reset_twice_same_as_once() {
    let mut app = running(500, 300);
    app.round = 9;
    app.ball.x = 17;
    app.ball.target = [500, 3];
    app.pallet.y = 60;
    app.reset();
    let once = app;
    app.reset();
    assert_eq!(app.round, once.round);
    assert_eq!(app.started, once.started);
    assert_eq!((app.ball.x, app.ball.y, app.ball.target), (once.ball.x, once.ball.y, once.ball.target));
    assert_eq!((app.pallet.x, app.pallet.y), (once.pallet.x, once.pallet.y));
    assert_eq!((app.ball.x, app.ball.y, app.ball.target), (250, 150, [0, 150]));
}

#[test]
fn paddle_move_that_overshoots_is_ignored() {
    let mut app = App::new(400, 400, 40, 4);
    let down = Keys { down: true, ..no_keys() };
    let up = Keys { up: true, ..no_keys() };
    // 100 hundredths of 400 over a tenth of a second: 40 units
    app.pallet.y = 350;
    app.tick(100, &down, 0, 0);
    assert_eq!(app.pallet.y, 350);
    app.pallet.y = 320;
    app.tick(100, &down, 0, 0);
    assert_eq!(app.pallet.y, 360);
    app.pallet.y = 60;
    app.tick(100, &up, 0, 0);
    assert_eq!(app.pallet.y, 60);
    app.pallet.y = 80;
    app.tick(100, &up, 0, 0);
    assert_eq!(app.pallet.y, 40);
}

#[test]
fn both_move_keys_apply_in_turn() {
    let mut app = App::new(400, 400, 40, 4);
    let both = Keys { up: true, down: true, ..no_keys() };
    app.tick(100, &both, 0, 0);
    assert_eq!(app.pallet.y, 200);
    app.pallet.y = 330;
    app.tick(100, &both, 0, 0);
    assert_eq!(app.pallet.y, 290);
}

#[test]
fn paddle_stays_in_range_under_held_keys() {
    let mut app = App::new(400, 400, 40, 4);
    let down = Keys { down: true, ..no_keys() };
    let up = Keys { up: true, ..no_keys() };
    for i in 0..200u32 {
        let keys = if (i / 50) % 2 == 0 { down } else { up };
        app.tick(7 + i % 13, &keys, 0, 0);
        assert!(app.pallet.y >= 40 && app.pallet.y <= 360);
    }
}

#[test]
fn speed_keys_step_by_one_hundredth() {
    let mut app = App::new(400, 400, 40, 4);
    app.tick(0, &Keys { speed_down: true, ..no_keys() }, 0, 0);
    assert_eq!(app.pallet.speed, 99);
    app.tick(0, &Keys { speed_up: true, ..no_keys() }, 0, 0);
    app.tick(0, &Keys { speed_up: true, ..no_keys() }, 0, 0);
    assert_eq!(app.pallet.speed, 101);
    app.tick(0, &Keys { speed_up: true, speed_down: true, ..no_keys() }, 0, 0);
    assert_eq!(app.pallet.speed, 101);
    app.pallet.speed = 1;
    app.tick(0, &Keys { speed_down: true, ..no_keys() }, 0, 0);
    assert_eq!(app.pallet.speed, 1);
}

#[test]
fn round_only_rises_by_bounces() {
    let mut app = running(400, 400);
    let mut last = app.round;
    for row in [10u32, 390, 200, 0, 400] {
        app.ball.x = 396;
        app.ball.target = [400, 200];
        app.tick(0, &no_keys(), 0, row);
        assert_eq!(app.round, last + 1);
        last = app.round;
        app.ball.x = 200;
        app.tick(16, &no_keys(), 0, row);
        assert_eq!(app.round, last);
    }
    assert_eq!(app.round, 5);
    app.ball.x = 3;
    app.tick(16, &no_keys(), 0, 0);
    assert_eq!(app.round, 0);
}

#[test]
fn homing_distance_never_grows() {
    let mut app = running(100000, 1000);
    app.ball.x = 50000;
    app.ball.y = 900;
    app.ball.target = [100000, 100];
    let mut last = gap(app.ball.y, 100);
    for _ in 0..20 {
        app.tick(16, &no_keys(), 0, 0);
        assert_eq!(app.ball.target, [100000, 100]);
        let now = gap(app.ball.y, 100);
        assert!(now <= last);
        last = now;
    }
    assert!(last < 800);
}

#[test]
fn homing_step_exact_value() {
    let mut app = running(100000, 1000);
    app.ball.x = 50000;
    app.ball.y = 900;
    app.ball.target = [100000, 100];
    app.tick(1000, &no_keys(), 0, 0);
    // (50 + 1) hundredths of the 800 left over one second: 408
    assert_eq!(app.ball.y, 492);
    assert_eq!(app.ball.x, 50000 + 51000);
}

#[test]
fn large_step_overshoots_target_row() {
    let mut app = running(100000, 1000);
    app.ball.x = 50000;
    app.ball.y = 300;
    app.ball.target = [100000, 200];
    app.tick(10000, &no_keys(), 0, 0);
    // 5.1 times the 100 left: 510 past the start
    assert_eq!(app.ball.y, 300 - 510);
}

#[test]
fn resize_scales_and_resets() {
    let mut app = running(400, 400);
    app.round = 4;
    app.ball.x = 17;
    app.on_resize(300, 200, 2000);
    assert_eq!(app.resolution, [600, 400]);
    assert_eq!(app.scale_milli, 2000);
    assert!(!app.started);
    assert_eq!(app.round, 0);
    assert_eq!((app.ball.x, app.ball.y), (300, 200));
    assert_eq!(app.ball.target, [0, 200]);
    assert_eq!(app.pallet.y, 200);
}

#[test]
fn update_refuses_a_tick_out_of_range() {
    let mut app = running(400, 400);
    app.ball.y = i64::MAX - 10;
    app.ball.target = [0, 0];
    assert!(!app.can_tick(16));
    assert!(!app.update(16, &no_keys()));
    assert_eq!(app.ball.y, i64::MAX - 10);
    assert_eq!(app.ball.x, 200);
    let mut full = running(400, 400);
    full.round = u32::MAX;
    assert!(!full.can_tick(0));
    assert!(running(400, 400).can_tick(16));
    assert!(running(400, 400).can_tick(u32::MAX));
}

#[test]
fn update_draws_rows_within_court() {
    let mut rows = Vec::new();
    for _ in 0..40 {
        let mut app = running(400, 400);
        app.ball.x = 396;
        app.ball.target = [400, 200];
        assert!(app.update(0, &no_keys()));
        assert_eq!(app.round, 1);
        assert_eq!(app.ball.target[0], 0);
        assert!(app.ball.target[1] >= 0 && app.ball.target[1] <= 400);
        rows.push(app.ball.target[1]);
    }
    assert!(rows.iter().any(|r| *r != 400));
    assert!(rows.iter().any(|r| *r != rows[0]));
}

#[test]
fn update_moves_like_tick() {
    let mut app = running(400, 400);
    app.policy = Policy { escalating: false, random_rows: true };
    assert!(app.update(1000, &no_keys()));
    assert_eq!((app.ball.x, app.ball.y), (0, 200));
}
