//! A seeded deterministic pseudo-random stream.
//!
//! Reseeding with the same seed and replaying the same number of draws
//! reproduces the same values exactly: the state advances by a fixed odd
//! increment before every draw, and the draw is a bijective mix of the state.
//! Both steps are written out here and verified, so the whole stream is a
//! spec-level function of the seed and the draw index.

use vstd::prelude::*;

verus! {

/// Odd increment added to the stream state before each draw.
pub const STATE_GAMMA: u64 = 0x9E37_79B9_7F4A_7C15;
/// First multiplier of the output mixer.
pub const MIX_MUL_1: u64 = 0xBF58_476D_1CE4_E5B9;
/// Second multiplier of the output mixer.
pub const MIX_MUL_2: u64 = 0x94D0_49BB_1331_11EB;

/// Number of distinct jitter values; one jitter unit stands for
/// `1 / JITTER_RANGE` of a cell, so jitter draws cover `[-0.5, 0.5)` cells.
pub const JITTER_RANGE: u64 = 1_048_576;
/// Half of `JITTER_RANGE`: jitter draws lie in `[-JITTER_HALF, JITTER_HALF)`.
pub const JITTER_HALF: i64 = 524_288;

/// Number of distinct rotation values, in millionths of a radian; covers a
/// quarter turn `[-pi/4, pi/4)` centred on zero.
pub const ROT_RANGE: u64 = 1_570_796;
/// Half of `ROT_RANGE`: rotation draws lie in `[-ROT_HALF, ROT_HALF)`.
pub const ROT_HALF: i64 = 785_398;

/// The output mixer: scrambles one state word into one draw.
pub open spec fn mix64(z: u64) -> u64 {
    let z1 = vstd::wrapping::u64_specs::wrapping_mul(z ^ (z >> 30), MIX_MUL_1);
    let z2 = vstd::wrapping::u64_specs::wrapping_mul(z1 ^ (z1 >> 27), MIX_MUL_2);
    z2 ^ (z2 >> 31)
}

/// Stream state after `n` advances from `seed`.
pub open spec fn stream_state(seed: u64, n: nat) -> u64
    decreases n,
{
    if n == 0 {
        seed
    } else {
        vstd::wrapping::u64_specs::wrapping_add(stream_state(seed, (n - 1) as nat), STATE_GAMMA)
    }
}

/// The `n`-th raw draw of the stream seeded with `seed`; draws are numbered
/// from 0, and the `n`-th draw is taken from the state advanced `n + 1` times.
pub open spec fn draw_at(seed: u64, n: nat) -> u64 {
    mix64(stream_state(seed, n + 1))
}

/// Jitter value carried by a raw draw: its low bits, recentred on zero.
pub open spec fn jitter_from(r: u64) -> int {
    (r % JITTER_RANGE) - JITTER_HALF
}

/// Rotation value carried by a raw draw, recentred on zero.
pub open spec fn rot_from(r: u64) -> int {
    (r % ROT_RANGE) - ROT_HALF
}

/// Advancing the state once more appends one increment.
pub proof fn lemma_stream_state_succ(seed: u64, n: nat)
    ensures
        stream_state(seed, n + 1) == vstd::wrapping::u64_specs::wrapping_add(
            stream_state(seed, n),
            STATE_GAMMA,
        ),
{
}

/// A seeded deterministic generator of jitter and rotation draws.
pub struct RandomField {
    /// Current stream state; equals `stream_state(seed, n)` after `n` draws.
    pub state: u64,
}

impl RandomField {
    /// Start the stream at `seed`, before any draw.
    pub fn new(seed: u64) -> (r: Self)
        ensures
            r.state == stream_state(seed, 0),
    {
        RandomField { state: seed }
    }

    /// One raw draw: advance the state by the fixed increment, mix it.
    pub fn next_raw(&mut self) -> (r: u64)
        ensures
            final(self).state == vstd::wrapping::u64_specs::wrapping_add(
                old(self).state,
                STATE_GAMMA,
            ),
            r == mix64(final(self).state),
    {
        self.state = self.state.wrapping_add(STATE_GAMMA);
        let z = self.state;
        let z1 = (z ^ (z >> 30u64)).wrapping_mul(MIX_MUL_1);
        let z2 = (z1 ^ (z1 >> 27u64)).wrapping_mul(MIX_MUL_2);
        z2 ^ (z2 >> 31u64)
    }

    /// One jitter draw, uniform in `[-JITTER_HALF, JITTER_HALF)`.
    pub fn next_jitter(&mut self) -> (j: i64)
        ensures
            final(self).state == vstd::wrapping::u64_specs::wrapping_add(
                old(self).state,
                STATE_GAMMA,
            ),
            j == jitter_from(mix64(final(self).state)),
            -JITTER_HALF <= j < JITTER_HALF,
    {
        let r = self.next_raw();
        (r % JITTER_RANGE) as i64 - JITTER_HALF
    }

    /// One rotation draw, uniform in `[-ROT_HALF, ROT_HALF)`.
    pub fn next_rot(&mut self) -> (j: i64)
        ensures
            final(self).state == vstd::wrapping::u64_specs::wrapping_add(
                old(self).state,
                STATE_GAMMA,
            ),
            j == rot_from(mix64(final(self).state)),
            -ROT_HALF <= j < ROT_HALF,
    {
        let r = self.next_raw();
        (r % ROT_RANGE) as i64 - ROT_HALF
    }
}

} // verus!
