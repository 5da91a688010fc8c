//! Orientation angles and the turning rate.
//!
//! Angles are whole nanoradians in `[0, TAU)`, counted counter-clockwise.
//! Turning covers `TURN_RATE` nanoradians in a nanosecond, whatever the length
//! of the tick, so that a key held for a given time turns the ship by the same
//! angle however that time is cut into ticks.

use vstd::prelude::*;

verus! {

/// A full turn, in nanoradians.
pub const TAU: u64 = 6_283_185_307;

/// A quarter of a turn, in nanoradians.
pub const QUARTER_TURN: i64 = 1_570_796_326;

/// Nanoradians turned in one nanosecond while a turning key is held: twelve
/// radians a second, which is a fifth of a radian in each sixtieth of a second.
pub const TURN_RATE: u64 = 12;

/// The angle covered while a turning key is held for `elapsed` nanoseconds,
/// reduced to less than a full turn.
pub open spec fn swept(elapsed: int) -> int {
    (TURN_RATE * elapsed) % (TAU as int)
}

/// `angle` after turning counter-clockwise for `elapsed` nanoseconds.
pub open spec fn turned_left(angle: int, elapsed: int) -> int {
    (angle + swept(elapsed)) % (TAU as int)
}

/// `angle` after turning clockwise for `elapsed` nanoseconds.
pub open spec fn turned_right(angle: int, elapsed: int) -> int {
    (angle + TAU - swept(elapsed)) % (TAU as int)
}

/// `angle` after a tick of `elapsed` nanoseconds with the given turning keys
/// held: first the turn to the left, then the turn to the right.
pub open spec fn steered(angle: int, left: bool, right: bool, elapsed: int) -> int {
    let after_left = if left {
        turned_left(angle, elapsed)
    } else {
        angle
    };
    if right {
        turned_right(after_left, elapsed)
    } else {
        after_left
    }
}

/// The angle covered in `elapsed` nanoseconds of turning.
pub fn sweep(elapsed: u64) -> (angle: u64)
    ensures
        angle == swept(elapsed as int),
        angle < TAU,
{
    let wide: u128 = (TURN_RATE as u128) * (elapsed as u128);
    (wide % (TAU as u128)) as u64
}

/// Turns `angle` counter-clockwise for `elapsed` nanoseconds.
pub fn turn_left(angle: u64, elapsed: u64) -> (turned: u64)
    ensures
        turned == turned_left(angle as int, elapsed as int),
        turned < TAU,
{
    (angle % TAU + sweep(elapsed)) % TAU
}

/// Turns `angle` clockwise for `elapsed` nanoseconds.
pub fn turn_right(angle: u64, elapsed: u64) -> (turned: u64)
    ensures
        turned == turned_right(angle as int, elapsed as int),
        turned < TAU,
{
    (angle % TAU + TAU - sweep(elapsed)) % TAU
}

/// Applies the turning keys of one tick to `angle`.
pub fn steer(angle: u64, left: bool, right: bool, elapsed: u64) -> (turned: u64)
    ensures
        turned == steered(angle as int, left, right, elapsed as int),
        angle < TAU ==> turned < TAU,
{
    let after_left: u64 = if left {
        turn_left(angle, elapsed)
    } else {
        angle
    };
    if right {
        turn_right(after_left, elapsed)
    } else {
        after_left
    }
}

/// Two numbers that differ by a multiple of a full turn name the same angle.
proof fn lemma_same_angle(x: int, y: int, turns: int)
    requires
        x == y + turns * TAU,
    ensures
        x % (TAU as int) == y % (TAU as int),
{
    vstd::arithmetic::div_mod::lemma_mod_multiples_vanish(turns, y, TAU as int);
}

/// The angle covered in two stretches of time is the sum of the two angles,
/// up to full turns.
proof fn lemma_swept_adds_up(first: int, second: int)
    ensures
        swept(first + second) == (swept(first) + swept(second)) % (TAU as int),
{
    let t = TAU as int;
    let a = TURN_RATE * first;
    let b = TURN_RATE * second;
    vstd::arithmetic::div_mod::lemma_fundamental_div_mod(a, t);
    vstd::arithmetic::div_mod::lemma_fundamental_div_mod(b, t);
    lemma_same_angle(a + b, a % t + b % t, a / t + b / t);
}

/// Two turns to the left in a row are one turn to the left of their joint
/// length.
proof fn lemma_left_adds_up(angle: int, first: int, second: int)
    ensures
        turned_left(turned_left(angle, first), second) == turned_left(angle, first + second),
{
    let t = TAU as int;
    let s1 = swept(first);
    let s2 = swept(second);
    lemma_swept_adds_up(first, second);
    vstd::arithmetic::div_mod::lemma_fundamental_div_mod(angle + s1, t);
    vstd::arithmetic::div_mod::lemma_fundamental_div_mod(s1 + s2, t);
    lemma_same_angle(
        (angle + s1) % t + s2,
        angle + (s1 + s2) % t,
        (s1 + s2) / t - (angle + s1) / t,
    );
}

/// Two turns to the right in a row are one turn to the right of their joint
/// length.
proof fn lemma_right_adds_up(angle: int, first: int, second: int)
    ensures
        turned_right(turned_right(angle, first), second) == turned_right(angle, first + second),
{
    let t = TAU as int;
    let s1 = swept(first);
    let s2 = swept(second);
    lemma_swept_adds_up(first, second);
    vstd::arithmetic::div_mod::lemma_fundamental_div_mod(angle + t - s1, t);
    vstd::arithmetic::div_mod::lemma_fundamental_div_mod(s1 + s2, t);
    lemma_same_angle(
        (angle + t - s1) % t + t - s2,
        angle + t - (s1 + s2) % t,
        1 - (s1 + s2) / t - (angle + t - s1) / t,
    );
}

/// A turn to the left followed by a turn to the right of the same length
/// leaves the angle where it was.
proof fn lemma_left_then_right(angle: int, elapsed: int)
    requires
        0 <= angle < TAU,
    ensures
        turned_right(turned_left(angle, elapsed), elapsed) == angle,
{
    let t = TAU as int;
    let s = swept(elapsed);
    vstd::arithmetic::div_mod::lemma_fundamental_div_mod(angle + s, t);
    lemma_same_angle((angle + s) % t + t - s, angle, 1 - (angle + s) / t);
    vstd::arithmetic::div_mod::lemma_small_mod(angle as nat, t as nat);
}

/// Turning does not depend on the frame rate: two ticks in a row with the same
/// keys held leave the angle that one tick of their joint length leaves.
pub proof fn lemma_turning_adds_up(angle: int, left: bool, right: bool, first: int, second: int)
    requires
        0 <= angle < TAU,
    ensures
        steered(steered(angle, left, right, first), left, right, second) == steered(
            angle,
            left,
            right,
            first + second,
        ),
{
    if left && right {
        lemma_left_then_right(angle, first);
        lemma_left_then_right(angle, second);
        lemma_left_then_right(angle, first + second);
    } else if left {
        lemma_left_adds_up(angle, first, second);
    } else if right {
        lemma_right_adds_up(angle, first, second);
    }
}

/// Both turning keys held together cancel: the angle stays as it was.
pub proof fn lemma_opposite_turns_cancel(angle: int, elapsed: int)
    requires
        0 <= angle < TAU,
        0 <= elapsed,
    ensures
        steered(angle, true, true, elapsed) == angle,
{
    lemma_left_then_right(angle, elapsed);
}

/// A key held for no time at all turns nothing.
pub proof fn lemma_no_time_no_turn(angle: int, left: bool, right: bool)
    requires
        0 <= angle < TAU,
    ensures
        steered(angle, left, right, 0) == angle,
{
}

} // verus!
