//! Properties of paddle movement that hold for every input.

use crate::keys::Key;
use crate::paddle::{
    delta_of, down_key_of, paddle_direction_of, tick_delta_of, up_key_of, PaddleType,
};
use vstd::prelude::*;

verus! {

/// Height of a paddle after a run of ticks, each given by the keys held
/// during it and its length in nanoseconds.
pub open spec fn y_after_ticks(
    y: int,
    side: PaddleType,
    speed: int,
    ticks: Seq<(Set<Key>, int)>,
) -> int
    decreases ticks.len(),
{
    if ticks.len() == 0 {
        y
    } else {
        y_after_ticks(
            y + tick_delta_of(side, ticks[0].0, speed, ticks[0].1),
            side,
            speed,
            ticks.drop_first(),
        )
    }
}

/// The left paddle goes up by `speed * dt` while only W is held, down by as
/// much while only S is held, and stays put while both or neither are held.
pub proof fn lemma_left_keys(held: Set<Key>, speed: int, dt_nanos: int)
    ensures
        held.contains(Key::W) && !held.contains(Key::S) ==> tick_delta_of(
            PaddleType::Left,
            held,
            speed,
            dt_nanos,
        ) == speed * dt_nanos,
        !held.contains(Key::W) && held.contains(Key::S) ==> tick_delta_of(
            PaddleType::Left,
            held,
            speed,
            dt_nanos,
        ) == -(speed * dt_nanos),
        held.contains(Key::W) == held.contains(Key::S) ==> tick_delta_of(
            PaddleType::Left,
            held,
            speed,
            dt_nanos,
        ) == 0,
{
    lemma_direction_scales(speed, dt_nanos);
}

/// The right paddle goes up by `speed * dt` while only the up arrow is held,
/// down by as much while only the down arrow is held, and stays put while
/// both or neither are held.
pub proof fn lemma_right_keys(held: Set<Key>, speed: int, dt_nanos: int)
    ensures
        held.contains(Key::Up) && !held.contains(Key::Down) ==> tick_delta_of(
            PaddleType::Right,
            held,
            speed,
            dt_nanos,
        ) == speed * dt_nanos,
        !held.contains(Key::Up) && held.contains(Key::Down) ==> tick_delta_of(
            PaddleType::Right,
            held,
            speed,
            dt_nanos,
        ) == -(speed * dt_nanos),
        held.contains(Key::Up) == held.contains(Key::Down) ==> tick_delta_of(
            PaddleType::Right,
            held,
            speed,
            dt_nanos,
        ) == 0,
{
    lemma_direction_scales(speed, dt_nanos);
}

/// A displacement in direction 1, -1 or 0 is `speed * dt`, its negation, or 0.
proof fn lemma_direction_scales(speed: int, dt_nanos: int)
    ensures
        delta_of(1, speed, dt_nanos) == speed * dt_nanos,
        delta_of(-1, speed, dt_nanos) == -(speed * dt_nanos),
        delta_of(0, speed, dt_nanos) == 0,
{
    assert(1 * speed * dt_nanos == speed * dt_nanos) by (nonlinear_arith);
    assert(-1 * speed * dt_nanos == -(speed * dt_nanos)) by (nonlinear_arith);
    assert(0 * speed * dt_nanos == 0) by (nonlinear_arith);
}

/// While neither of a paddle's keys is held, any number of ticks leaves its
/// height unchanged.
pub proof fn lemma_idle_ticks_keep_height(
    y: int,
    side: PaddleType,
    speed: int,
    ticks: Seq<(Set<Key>, int)>,
)
    requires
        forall|i: int|
            0 <= i < ticks.len() ==> !(#[trigger] ticks[i]).0.contains(up_key_of(side))
                && !ticks[i].0.contains(down_key_of(side)),
    ensures
        y_after_ticks(y, side, speed, ticks) == y,
    decreases ticks.len(),
{
    if ticks.len() > 0 {
        lemma_direction_scales(speed, ticks[0].1);
        let rest = ticks.drop_first();
        assert forall|i: int| 0 <= i < rest.len() implies !(#[trigger] rest[i]).0.contains(
            up_key_of(side),
        ) && !rest[i].0.contains(down_key_of(side)) by {
            assert(rest[i] == ticks[i + 1]);
        }
        lemma_idle_ticks_keep_height(y, side, speed, rest);
    }
}

/// For fixed keys, the displacement over a tick is linear in the tick's
/// length: it adds over two lengths and scales with a factor.
pub proof fn lemma_delta_linear_in_time(
    side: PaddleType,
    held: Set<Key>,
    speed: int,
    dt1: int,
    dt2: int,
    factor: int,
)
    ensures
        tick_delta_of(side, held, speed, dt1 + dt2) == tick_delta_of(side, held, speed, dt1)
            + tick_delta_of(side, held, speed, dt2),
        tick_delta_of(side, held, speed, factor * dt1) == factor * tick_delta_of(
            side,
            held,
            speed,
            dt1,
        ),
{
    let d = paddle_direction_of(side, held);
    assert(d * speed * (dt1 + dt2) == d * speed * dt1 + d * speed * dt2) by (nonlinear_arith);
    assert(d * speed * (factor * dt1) == factor * (d * speed * dt1)) by (nonlinear_arith);
}

} // verus!
