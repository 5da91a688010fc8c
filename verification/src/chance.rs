//! What chance decides when a wave of asteroids is launched.

use crate::angle::{QUARTER_TURN, TAU};
use crate::vector::Vec2;
use vstd::prelude::*;

verus! {

/// The number of spins an asteroid can be given: every whole number of
/// nanoradians from a quarter turn one way to a quarter turn the other way.
pub const SPIN_CHOICES: u64 = 3_141_592_653;

/// What chance decides for one asteroid: the heading it drifts along, in
/// nanoradians, and its spin, in nanoradians per tick.
#[derive(Clone, Copy, Debug, PartialEq, Eq, Structural)]
pub struct Launch {
    pub heading: u64,
    pub spin: i64,
}

/// What an asteroid is launched with: its displacement in one tick, and its
/// spin.
#[derive(Clone, Copy, Debug, PartialEq, Eq, Structural)]
pub struct Drift {
    pub velocity: Vec2,
    pub spin: i64,
}

/// A word from `rand::random`, which draws from rand's generator of the
/// current thread. Trusted; nothing is claimed of the word. The call fails
/// only where the operating system cannot seed the generator.
#[verifier::external_body]
fn random_word() -> (word: u64) {
    rand::random::<u64>()
}

impl Launch {
    /// The heading that a random word stands for: the word reduced to less
    /// than a full turn.
    pub open spec fn heading_of(word: u64) -> u64 {
        word % TAU
    }

    /// The spin that a random word stands for: the word reduced to the number
    /// of choices, counted up from a quarter turn clockwise.
    pub open spec fn spin_of(word: u64) -> i64 {
        ((word % SPIN_CHOICES) - QUARTER_TURN) as i64
    }

    /// The launch that two random words stand for.
    pub open spec fn of_words(first: u64, second: u64) -> Launch {
        Launch { heading: Launch::heading_of(first), spin: Launch::spin_of(second) }
    }

    /// Whether the heading is less than a full turn and the spin at most a
    /// quarter turn either way.
    pub open spec fn in_range(self) -> bool {
        &&& self.heading < TAU
        &&& -QUARTER_TURN <= self.spin <= QUARTER_TURN
    }

    /// Turns two random words into a launch.
    pub fn from_words(first: u64, second: u64) -> (launch: Launch)
        ensures
            launch == Launch::of_words(first, second),
            launch.in_range(),
    {
        let heading: u64 = first % TAU;
        let spin: i64 = (second % SPIN_CHOICES) as i64 - QUARTER_TURN;
        Launch { heading, spin }
    }

    /// Draws a launch at random. Whatever the generator hands back, the
    /// launch is in range.
    pub fn draw() -> (launch: Launch)
        ensures
            launch.in_range(),
    {
        let first: u64 = random_word();
        let second: u64 = random_word();
        Launch::from_words(first, second)
    }
}

} // verus!
