//! Paddle spawning and movement.
//!
//! Lengths are counted in nano-units (a billionth of a world unit) and time in
//! nanoseconds, so that a speed in units per second times an elapsed time is an
//! exact displacement.

use crate::keys::{held_keys, key_held, Key};
use bevy::input::keyboard::KeyCode;
use bevy::input::Input;
use vstd::prelude::*;

verus! {

/// Nano-units in one world unit.
pub const NANO_UNITS_PER_UNIT: i64 = 1_000_000_000;

/// Bound on the size of a displacement over one tick: a `u32` speed times a
/// `u64` time stays under it.
pub const DELTA_BOUND: i128 = 0x1_0000_0000_0000_0000_0000_0000;

/// Width of a paddle, in world units.
pub const PADDLE_WIDTH: u32 = 16;

/// Height of a paddle, in world units.
pub const PADDLE_HEIGHT: u32 = 128;

/// Gap between a paddle's outer edge and the window's side, in world units.
pub const PADDLE_SPACING_MARGIN: u32 = 32;

/// Speed of a paddle, in world units per second.
pub const PADDLE_SPEED: u32 = 256;

/// The side a paddle plays on.
#[derive(Debug, Clone, Copy, PartialEq, Eq, Structural)]
pub enum PaddleType {
    Left,
    Right,
}

/// The tag that marks an entity as a paddle.
#[derive(Debug, Clone, Copy, PartialEq, Eq, Structural)]
pub struct Paddle {
    pub paddle_type: PaddleType,
}

/// A position, in nano-units.
#[derive(Debug, Clone, Copy, PartialEq, Eq, Structural)]
pub struct Translation {
    pub x: i64,
    pub y: i64,
    pub z: i64,
}

/// Everything a paddle entity is spawned with: its tag, its position and its
/// size in world units.
#[derive(Debug, Clone, Copy, PartialEq, Eq, Structural)]
pub struct PaddleBundle {
    pub paddle: Paddle,
    pub translation: Translation,
    pub width: u32,
    pub height: u32,
}

/// Horizontal distance from the centre to each paddle, in nano-units:
/// half the window, less half a paddle, less the margin.
pub open spec fn spacing_of(window_width: int, paddle_width: int, margin: int) -> int {
    window_width * NANO_UNITS_PER_UNIT / 2 - paddle_width * NANO_UNITS_PER_UNIT / 2 - margin
        * NANO_UNITS_PER_UNIT
}

/// The key that moves a paddle up.
pub open spec fn up_key_of(side: PaddleType) -> Key {
    match side {
        PaddleType::Left => Key::W,
        PaddleType::Right => Key::Up,
    }
}

/// The key that moves a paddle down.
pub open spec fn down_key_of(side: PaddleType) -> Key {
    match side {
        PaddleType::Left => Key::S,
        PaddleType::Right => Key::Down,
    }
}

/// +1 for the up key, -1 for the down key; held together they cancel.
pub open spec fn direction_of(up_held: bool, down_held: bool) -> int {
    (if up_held { 1int } else { 0int }) - (if down_held { 1int } else { 0int })
}

/// The direction a paddle on `side` takes while the keys in `held` are pressed.
pub open spec fn paddle_direction_of(side: PaddleType, held: Set<Key>) -> int {
    direction_of(held.contains(up_key_of(side)), held.contains(down_key_of(side)))
}

/// Vertical displacement in nano-units over `dt_nanos` nanoseconds, at `speed`
/// world units per second.
pub open spec fn delta_of(direction: int, speed: int, dt_nanos: int) -> int {
    direction * speed * dt_nanos
}

/// Vertical displacement of a paddle on `side` over one tick.
pub open spec fn tick_delta_of(side: PaddleType, held: Set<Key>, speed: int, dt_nanos: int) -> int {
    delta_of(paddle_direction_of(side, held), speed, dt_nanos)
}

/// Whether an integer fits in an `i64`.
pub open spec fn fits_i64(v: int) -> bool {
    i64::MIN <= v <= i64::MAX
}

/// The position moved vertically by `delta`.
pub open spec fn shifted(t: Translation, delta: int) -> Translation {
    Translation { y: (t.y + delta) as i64, ..t }
}

/// The two paddles spawned at startup in a window `window_width` units wide.
pub open spec fn spawned_paddles(window_width: int) -> Seq<PaddleBundle> {
    let s = spacing_of(window_width, PADDLE_WIDTH as int, PADDLE_SPACING_MARGIN as int);
    seq![
        PaddleBundle {
            paddle: Paddle { paddle_type: PaddleType::Left },
            translation: Translation { x: (-s) as i64, y: 0, z: 0 },
            width: PADDLE_WIDTH,
            height: PADDLE_HEIGHT,
        },
        PaddleBundle {
            paddle: Paddle { paddle_type: PaddleType::Right },
            translation: Translation { x: s as i64, y: 0, z: 0 },
            width: PADDLE_WIDTH,
            height: PADDLE_HEIGHT,
        },
    ]
}

/// Horizontal distance from the centre to each paddle, in nano-units.
pub fn paddle_spacing(window_width: u32, paddle_width: u32, margin: u32) -> (r: i64)
    ensures
        r == spacing_of(window_width as int, paddle_width as int, margin as int),
{
    let half_window: i64 = window_width as i64 * (NANO_UNITS_PER_UNIT / 2);
    let half_paddle: i64 = paddle_width as i64 * (NANO_UNITS_PER_UNIT / 2);
    let gap: i64 = margin as i64 * NANO_UNITS_PER_UNIT;
    half_window - half_paddle - gap
}

impl PaddleBundle {
    /// A paddle of the standard size with the given tag and position.
    pub fn new(paddle: Paddle, translation: Translation) -> (b: PaddleBundle)
        ensures
            b == (PaddleBundle { paddle, translation, width: PADDLE_WIDTH, height: PADDLE_HEIGHT }),
    {
        PaddleBundle { paddle, translation, width: PADDLE_WIDTH, height: PADDLE_HEIGHT }
    }
}

/// The two paddles to spawn at startup: the left one at minus the spacing, the
/// right one at plus the spacing, both vertically centred.
pub fn setup_paddles(window_width: u32) -> (v: Vec<PaddleBundle>)
    ensures
        v@ == spawned_paddles(window_width as int),
        v.len() == 2,
        v[0].paddle.paddle_type == PaddleType::Left,
        v[1].paddle.paddle_type == PaddleType::Right,
        v[0].translation.x == -spacing_of(
            window_width as int,
            PADDLE_WIDTH as int,
            PADDLE_SPACING_MARGIN as int,
        ),
        v[1].translation.x == spacing_of(
            window_width as int,
            PADDLE_WIDTH as int,
            PADDLE_SPACING_MARGIN as int,
        ),
{
    let spacing = paddle_spacing(window_width, PADDLE_WIDTH, PADDLE_SPACING_MARGIN);
    let mut v: Vec<PaddleBundle> = Vec::new();
    v.push(
        PaddleBundle::new(
            Paddle { paddle_type: PaddleType::Left },
            Translation { x: -spacing, y: 0, z: 0 },
        ),
    );
    v.push(
        PaddleBundle::new(
            Paddle { paddle_type: PaddleType::Right },
            Translation { x: spacing, y: 0, z: 0 },
        ),
    );
    assert(v@ =~= spawned_paddles(window_width as int));
    v
}

/// The key that moves a paddle on `side` up.
pub fn up_key(side: PaddleType) -> (k: Key)
    ensures
        k == up_key_of(side),
{
    match side {
        PaddleType::Left => Key::W,
        PaddleType::Right => Key::Up,
    }
}

/// The key that moves a paddle on `side` down.
pub fn down_key(side: PaddleType) -> (k: Key)
    ensures
        k == down_key_of(side),
{
    match side {
        PaddleType::Left => Key::S,
        PaddleType::Right => Key::Down,
    }
}

/// Direction from the state of a paddle's two keys: 1 up, -1 down, 0 still.
pub fn direction(up_held: bool, down_held: bool) -> (d: i8)
    ensures
        d == direction_of(up_held, down_held),
        -1 <= d <= 1,
{
    let mut d: i8 = 0;
    if up_held {
        d += 1;
    }
    if down_held {
        d -= 1;
    }
    d
}

/// Direction of `paddle` under the keys pressed in `input`.
pub fn paddle_direction(paddle: &Paddle, input: &Input<KeyCode>) -> (d: i8)
    ensures
        d == paddle_direction_of(paddle.paddle_type, held_keys(*input)),
        -1 <= d <= 1,
{
    let up_held = key_held(input, up_key(paddle.paddle_type));
    let down_held = key_held(input, down_key(paddle.paddle_type));
    direction(up_held, down_held)
}

/// Vertical displacement in nano-units of a paddle going in `direction` at
/// `speed` units per second for `dt_nanos` nanoseconds.
pub fn vertical_delta(direction: i8, speed: u32, dt_nanos: u64) -> (r: i128)
    requires
        -1 <= direction <= 1,
    ensures
        r == delta_of(direction as int, speed as int, dt_nanos as int),
        -DELTA_BOUND <= r <= DELTA_BOUND,
{
    assert(0 <= speed * dt_nanos <= DELTA_BOUND) by (nonlinear_arith);
    let magnitude: i128 = speed as i128 * dt_nanos as i128;
    if direction > 0 {
        assert(delta_of(direction as int, speed as int, dt_nanos as int) == magnitude)
            by (nonlinear_arith)
            requires
                direction == 1,
                magnitude == speed * dt_nanos,
        ;
        magnitude
    } else if direction < 0 {
        assert(delta_of(direction as int, speed as int, dt_nanos as int) == -magnitude)
            by (nonlinear_arith)
            requires
                direction == -1,
                magnitude == speed * dt_nanos,
        ;
        -magnitude
    } else {
        assert(delta_of(direction as int, speed as int, dt_nanos as int) == 0)
            by (nonlinear_arith)
            requires
                direction == 0,
        ;
        0
    }
}

/// Vertical displacement in nano-units of `paddle` over a tick of `dt_nanos`
/// nanoseconds, under the keys pressed in `input`.
pub fn paddle_delta(paddle: &Paddle, input: &Input<KeyCode>, dt_nanos: u64) -> (r: i128)
    ensures
        r == tick_delta_of(
            paddle.paddle_type,
            held_keys(*input),
            PADDLE_SPEED as int,
            dt_nanos as int,
        ),
        -DELTA_BOUND <= r <= DELTA_BOUND,
{
    let d = paddle_direction(paddle, input);
    vertical_delta(d, PADDLE_SPEED, dt_nanos)
}

/// Moves a position vertically by `delta` nano-units.
pub fn translate_vertical(translation: &mut Translation, delta: i128)
    requires
        fits_i64(old(translation).y + delta),
    ensures
        *final(translation) == shifted(*old(translation), delta as int),
{
    translation.y = (translation.y as i128 + delta) as i64;
}

/// Moves `paddle` at its position `translation` over one tick of `dt_nanos`
/// nanoseconds, under the keys pressed in `input`. Returns false, leaving the
/// position as it was, when the new height does not fit in an `i64`.
pub fn move_paddle(
    paddle: &Paddle,
    translation: &mut Translation,
    input: &Input<KeyCode>,
    dt_nanos: u64,
) -> (moved: bool)
    ensures
        moved == fits_i64(
            old(translation).y + tick_delta_of(
                paddle.paddle_type,
                held_keys(*input),
                PADDLE_SPEED as int,
                dt_nanos as int,
            ),
        ),
        moved ==> *final(translation) == shifted(
            *old(translation),
            tick_delta_of(
                paddle.paddle_type,
                held_keys(*input),
                PADDLE_SPEED as int,
                dt_nanos as int,
            ),
        ),
        !moved ==> *final(translation) == *old(translation),
{
    let delta = paddle_delta(paddle, input, dt_nanos);
    let y = translation.y as i128 + delta;
    if y < i64::MIN as i128 || y > i64::MAX as i128 {
        return false;
    }
    translate_vertical(translation, delta);
    true
}

} // verus!
