use bevy::input::keyboard::KeyCode;
use bevy::input::Input;
use pong::keys::Key;
use pong::paddle::{
    direction, down_key, move_paddle, paddle_delta, paddle_direction, paddle_spacing,
    setup_paddles, translate_vertical, up_key, vertical_delta, Paddle, PaddleBundle, PaddleType,
    Translation, NANO_UNITS_PER_UNIT, PADDLE_HEIGHT, PADDLE_SPACING_MARGIN, PADDLE_SPEED,
    PADDLE_WIDTH,
};

const LEFT: Paddle = Paddle { paddle_type: PaddleType::Left };
const RIGHT: Paddle = Paddle { paddle_type: PaddleType::Right };
const SIXTIETH_OF_A_SECOND: u64 = 16_666_667;

fn keys(pressed: &[KeyCode]) -> Input<KeyCode> {
    let mut input = Input::<KeyCode>::default();
    for k in pressed {
        input.press(*k);
    }
    input
}

#[test]
fn spawns_one_paddle_per_side() {
    let v = setup_paddles(800);
    assert_eq!(v.len(), 2);
    assert_eq!(v[0].paddle.paddle_type, PaddleType::Left);
    assert_eq!(v[1].paddle.paddle_type, PaddleType::Right);
    let offset = paddle_spacing(800, PADDLE_WIDTH, PADDLE_SPACING_MARGIN);
    assert_eq!(v[0].translation, Translation { x: -offset, y: 0, z: 0 });
    assert_eq!(v[1].translation, Translation { x: offset, y: 0, z: 0 });
    assert_eq!((v[0].width, v[0].height), (16, 128));
    assert_eq!((v[1].width, v[1].height), (PADDLE_WIDTH, PADDLE_HEIGHT));
}

#[test]
fn window_800_spawns_at_plus_minus_360() {
    let v = setup_paddles(800);
    assert_eq!(v[0].translation.x, -360 * NANO_UNITS_PER_UNIT);
    assert_eq!(v[1].translation.x, 360 * NANO_UNITS_PER_UNIT);
}

#[test]
fn spacing_is_half_window_less_half_paddle_less_margin() {
    assert_eq!(paddle_spacing(800, 16, 32), 360_000_000_000);
    assert_eq!(paddle_spacing(801, 15, 0), 393_000_000_000);
    assert_eq!(paddle_spacing(10, 10, 10), -10_000_000_000);
    assert_eq!(paddle_spacing(0, 0, 0), 0);
    assert_eq!(
        paddle_spacing(u32::MAX, 0, 0),
        u32::MAX as i64 * 500_000_000
    );
}

#[test]
fn bundle_has_standard_size() {
    let t = Translation { x: 5, y: -7, z: 1 };
    let b = PaddleBundle::new(RIGHT, t);
    assert_eq!(
        b,
        PaddleBundle { paddle: RIGHT, translation: t, width: 16, height: 128 }
    );
}

#[test]
fn key_table() {
    assert_eq!(up_key(PaddleType::Left), Key::W);
    assert_eq!(down_key(PaddleType::Left), Key::S);
    assert_eq!(up_key(PaddleType::Right), Key::Up);
    assert_eq!(down_key(PaddleType::Right), Key::Down);
}

#[test]
fn opposing_keys_cancel() {
    assert_eq!(direction(true, false), 1);
    assert_eq!(direction(false, true), -1);
    assert_eq!(direction(true, true), 0);
    assert_eq!(direction(false, false), 0);
}

#[test]
fn left_paddle_follows_w_and_s() {
    let dt: u64 = 1_000_000;
    let step = PADDLE_SPEED as i128 * dt as i128;
    assert_eq!(paddle_delta(&LEFT, &keys(&[KeyCode::W]), dt), step);
    assert_eq!(paddle_delta(&LEFT, &keys(&[KeyCode::S]), dt), -step);
    assert_eq!(paddle_delta(&LEFT, &keys(&[KeyCode::W, KeyCode::S]), dt), 0);
    assert_eq!(paddle_delta(&LEFT, &keys(&[]), dt), 0);
}

#[test]
fn right_paddle_follows_arrows() {
    let dt: u64 = 2_500_000;
    let step = PADDLE_SPEED as i128 * dt as i128;
    assert_eq!(paddle_delta(&RIGHT, &keys(&[KeyCode::Up]), dt), step);
    assert_eq!(paddle_delta(&RIGHT, &keys(&[KeyCode::Down]), dt), -step);
    assert_eq!(paddle_delta(&RIGHT, &keys(&[KeyCode::Up, KeyCode::Down]), dt), 0);
    assert_eq!(paddle_delta(&RIGHT, &keys(&[]), dt), 0);
}

#[test]
fn each_paddle_ignores_the_other_keys() {
    let arrows = keys(&[KeyCode::Up, KeyCode::Space]);
    let letters = keys(&[KeyCode::S, KeyCode::A]);
    assert_eq!(paddle_direction(&LEFT, &arrows), 0);
    assert_eq!(paddle_direction(&RIGHT, &letters), 0);
    assert_eq!(paddle_direction(&LEFT, &letters), -1);
    assert_eq!(paddle_direction(&RIGHT, &arrows), 1);
}

#[test]
fn released_key_stops_the_paddle() {
    let mut input = keys(&[KeyCode::W]);
    assert_eq!(paddle_direction(&LEFT, &input), 1);
    input.release(KeyCode::W);
    assert_eq!(paddle_direction(&LEFT, &input), 0);
}

#[test]
fn idle_ticks_leave_paddles_in_place() {
    let input = keys(&[]);
    let start = Translation { x: -360_000_000_000, y: 12_345, z: 0 };
    let mut t = start;
    for dt in [SIXTIETH_OF_A_SECOND, 1, 0, 1_000_000_000, u64::MAX] {
        assert!(move_paddle(&LEFT, &mut t, &input, dt));
        assert!(move_paddle(&RIGHT, &mut t, &input, dt));
    }
    assert_eq!(t, start);
}

#[test]
fn displacement_is_linear_in_tick_length() {
    let input = keys(&[KeyCode::Down]);
    let d1 = paddle_delta(&RIGHT, &input, 7_000);
    let d2 = paddle_delta(&RIGHT, &input, 11_000);
    assert_eq!(paddle_delta(&RIGHT, &input, 18_000), d1 + d2);
    assert_eq!(paddle_delta(&RIGHT, &input, 3 * 7_000), 3 * d1);
    assert_eq!(d1, -256 * 7_000);
}

#[test]
fn sixtieth_of_a_second_moves_about_4_2667_units() {
    let mut t = Translation { x: 0, y: 0, z: 0 };
    assert!(move_paddle(&LEFT, &mut t, &keys(&[KeyCode::W]), SIXTIETH_OF_A_SECOND));
    assert_eq!(t, Translation { x: 0, y: 4_266_666_752, z: 0 });
    let units = t.y as f64 / NANO_UNITS_PER_UNIT as f64;
    assert!((units - 4.2667).abs() < 1e-4);
}

#[test]
fn vertical_delta_at_the_extremes() {
    let big = u32::MAX as i128 * u64::MAX as i128;
    assert_eq!(vertical_delta(1, u32::MAX, u64::MAX), big);
    assert_eq!(vertical_delta(-1, u32::MAX, u64::MAX), -big);
    assert_eq!(vertical_delta(0, u32::MAX, u64::MAX), 0);
    assert_eq!(vertical_delta(1, 256, 0), 0);
}

#[test]
fn translate_moves_only_the_height() {
    let mut t = Translation { x: 3, y: 10, z: -4 };
    translate_vertical(&mut t, -25);
    assert_eq!(t, Translation { x: 3, y: -15, z: -4 });
}

#[test]
fn move_that_would_overflow_is_refused() {
    let start = Translation { x: 1, y: i64::MAX - 10, z: 2 };
    let mut t = start;
    assert!(!move_paddle(&RIGHT, &mut t, &keys(&[KeyCode::Up]), 1));
    assert_eq!(t, start);
    assert!(move_paddle(&RIGHT, &mut t, &keys(&[KeyCode::Down]), 1));
    assert_eq!(t.y, i64::MAX - 10 - 256);
}
