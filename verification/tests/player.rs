use flappy_pixel::palette::Cor;
use flappy_pixel::plr::Player;
use flappy_pixel::HIGHLIGHT_DURATION;

#[test]
fn new_player_is_fresh_and_lit() {
    let p = Player::new(5, 25);
    assert_eq!(p.x, 5);
    assert_eq!(p.y, 25);
    assert_eq!(p.velocity, 0);
    assert_eq!(p.time, 0);
    assert_eq!(p.highlight_countdown, HIGHLIGHT_DURATION);
}

#[test]
fn flap_sets_impulse_and_resets_clock_regardless_of_prior_state() {
    let mut p = Player { x: 40, y: 12, velocity: 88, time: 31, highlight_countdown: 0 };
    p.flap();
    assert_eq!(p.velocity, -20);
    assert_eq!(p.time, 0);
    assert_eq!(p.highlight_countdown, HIGHLIGHT_DURATION);
    assert_eq!(p.x, 40);
    assert_eq!(p.y, 12);

    // flapping again simply re-arms the same impulse
    p.flap();
    assert_eq!(p.velocity, -20);
    assert_eq!(p.time, 0);
}

#[test]
fn trajectory_after_one_flap_is_deterministic() {
    // From y == 25 with one flap and no further input the fixed-point
    // kinematics give this exact arc: up while the impulse dominates, then a
    // quadratic fall back down.
    let mut p = Player::new(5, 25);
    p.flap();
    let expected_y = [24, 23, 22, 21, 20, 19, 18, 17, 16, 16, 16, 16, 16, 17];
    for (k, want) in expected_y.iter().enumerate() {
        p.gravity_and_move();
        assert_eq!(p.y, *want, "step {}", k + 1);
        assert_eq!(p.time, (k + 1) as u32);
        assert_eq!(p.velocity, -20 + 2 * (k as i32 + 1));
        assert_eq!(p.x, 5 + (k as i32 + 1));
    }
}

#[test]
fn y_is_clamped_at_zero() {
    let mut p = Player::new(5, 0);
    p.flap();
    for _ in 0..10 {
        p.gravity_and_move();
        assert!(p.y >= 0);
    }
    // right after a flap at the ceiling the displacement points up, so the
    // clamp holds the player at zero
    let mut q = Player::new(5, 0);
    q.flap();
    q.gravity_and_move();
    assert_eq!(q.y, 0);
}

#[test]
fn y_stays_nonnegative_with_repeated_flaps() {
    let mut p = Player::new(5, 3);
    for step in 0..50 {
        if step % 4 == 0 {
            p.flap();
        }
        p.gravity_and_move();
        assert!(p.y >= 0);
    }
}

#[test]
fn render_color_decays_highlight_and_blends() {
    let mut p = Player::new(5, 25);
    assert_eq!(p.highlight_countdown, 500);
    let c = p.render_color(100);
    assert_eq!(p.highlight_countdown, 400);
    assert_eq!(c, Cor { r: 255, g: 200, b: 100 });
}

#[test]
fn render_color_settles_on_base_color() {
    let mut p = Player::new(5, 25);
    let _ = p.render_color(1000);
    assert_eq!(p.highlight_countdown, 0);
    let c = p.render_color(10);
    // countdown exhausted: the base bird color stands
    assert_eq!(c, Cor { r: 255, g: 96, b: 0 });
}
