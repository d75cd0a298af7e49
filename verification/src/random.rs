//! The random stream: a ChaCha generator with eight rounds, held as its
//! seed and its place in the stream, so that a stream is a plain value and
//! equal streams draw equal numbers.

use rand::{Rng, SeedableRng};
use rand_chacha::ChaCha8Rng;
use vstd::prelude::*;

verus! {

/// The number that `rand::Rng::gen_range` draws from `low..=high` on a
/// `rand_chacha::ChaCha8Rng` that was made by `seed_from_u64(seed)` and
/// moved to the word `position` of its stream.
pub uninterp spec fn chacha8_sample(seed: u64, position: u128, low: i64, high: i64) -> i64;

/// The word of its stream at which `get_word_pos` finds that generator
/// after that draw.
pub uninterp spec fn chacha8_position_after(seed: u64, position: u128, low: i64, high: i64) -> u128;

/// Draws one number from `low..=high` at a given place of the stream of a
/// seed, and tells where the stream stands afterwards.
///
/// Calls `ChaCha8Rng::seed_from_u64`, `ChaCha8Rng::set_word_pos`,
/// `Rng::gen_range` on an inclusive range of `i64` and
/// `ChaCha8Rng::get_word_pos`. Assumed, not proved: that the two results
/// depend on the four arguments alone, and that the number drawn lies in
/// the range. `gen_range` panics on an empty range, which the precondition
/// leaves out.
#[verifier::external_body]
fn chacha8_draw(seed: u64, position: u128, low: i64, high: i64) -> (drawn: (i64, u128))
    requires
        low <= high,
    ensures
        drawn.0 == chacha8_sample(seed, position, low, high),
        drawn.1 == chacha8_position_after(seed, position, low, high),
        low <= drawn.0 <= high,
{
    let mut generator = ChaCha8Rng::seed_from_u64(seed);
    generator.set_word_pos(position);
    let value: i64 = generator.gen_range(low..=high);
    (value, generator.get_word_pos())
}

/// A place in the stream of a seed.
#[derive(Clone, Copy, Debug, PartialEq, Eq, Structural)]
pub struct RandomStream {
    pub seed: u64,
    pub position: u128,
}

impl RandomStream {
    /// The stream of `seed` at its start.
    pub open spec fn start(seed: u64) -> RandomStream {
        RandomStream { seed, position: 0 }
    }

    /// The number that the next draw from `low..=high` gives.
    pub open spec fn next_value(self, low: i64, high: i64) -> i64 {
        chacha8_sample(self.seed, self.position, low, high)
    }

    /// The stream after a draw from `low..=high`.
    pub open spec fn after_draw(self, low: i64, high: i64) -> RandomStream {
        RandomStream {
            seed: self.seed,
            position: chacha8_position_after(self.seed, self.position, low, high),
        }
    }

    /// The stream of `seed` at its start.
    pub fn seeded(seed: u64) -> (stream: RandomStream)
        ensures
            stream == RandomStream::start(seed),
    {
        RandomStream { seed, position: 0 }
    }

    /// Draws a number from `low..=high` and moves the stream on.
    pub fn draw(&mut self, low: i64, high: i64) -> (value: i64)
        requires
            low <= high,
        ensures
            value == old(self).next_value(low, high),
            *final(self) == old(self).after_draw(low, high),
            low <= value <= high,
    {
        let drawn = chacha8_draw(self.seed, self.position, low, high);
        self.position = drawn.1;
        drawn.0
    }
}

} // verus!
