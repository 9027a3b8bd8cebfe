//! A play-by-play baseball game simulator.
//!
//! The engine turns a stream of decisions drawn from a [`Decider`] into a
//! fully replayable tree of records: every pitch, hit, fielding play and
//! base-running move of a nine-plus-inning game. All quantities are held in
//! fixed-point integer units (thousandths of feet, seconds and degrees), so
//! every rule of the simulation is stated and checked exactly.
//!
//! Randomness is a capability, not a global: every stochastic step funnels
//! through the [`Decider`] trait, so a replayed script of draws reproduces a
//! game decision for decision. A decider carries a ghost budget of remaining
//! draws, its [`Decider::entropy`]; each draw consumes from it, which is what
//! lets every simulation loop be proved terminating.

use vstd::prelude::*;

pub mod at_bat;
pub mod avg;
pub mod base_running;
pub mod consts;
pub mod fielding;
pub mod game;
pub mod half_inning;
pub mod hit;
pub mod inning;
pub mod levels;
pub mod location;
pub mod pitch;
pub mod player;
pub mod ring_buffer;
pub mod script;
pub mod stat;

use crate::pitch::PitchLocation;
use crate::stat::{Skill, Stat};

verus! {

/// A team's run total.
pub type Score = u16;

/// How a decider's ghost budget moves across one draw: it never grows, and it
/// shrinks whenever it was not already spent.
pub open spec fn decides(pre: nat, post: nat) -> bool {
    post <= pre && (pre > 0 ==> post < pre)
}

/// The randomness capability every simulation step consumes.
///
/// Implementations may replay a recorded script of draws ([`crate::script`]),
/// or wrap a live random number generator outside the verified engine. Each
/// method spends at least one unit of the decider's remaining [`entropy`]
/// budget while any is left, and results that stand for a stat sample are
/// clamped to the stat's range.
///
/// [`entropy`]: Decider::entropy
pub trait Decider {
    /// Ghost count of draws still available. An implementation outside the
    /// verifier may leave the default, which claims no draws: nothing is
    /// proved about it anyway.
    open spec fn entropy(&self) -> nat {
        0
    }

    /// The number of draws still available, for the engine to test at run
    /// time.
    fn draws_left(&self) -> (n: usize)
        ensures
            n == self.entropy(),
    ;

    /// A draw that succeeds when a uniform roll over `0..count` lands under
    /// `check + adjust`.
    fn roll(&mut self, check: u64, count: u64, adjust: u64) -> (r: bool)
        ensures
            decides(old(self).entropy(), final(self).entropy()),
    ;

    /// A draw over the three-by-three pitch grid, shifted by the pitcher's
    /// height and width biases.
    fn roll_pitch_location(&mut self, height_bias: i8, width_bias: i8) -> (r: PitchLocation)
        ensures
            decides(old(self).entropy(), final(self).entropy()),
    ;

    /// A uniform draw of an index in `start..end`.
    fn roll_index(&mut self, start: usize, end: usize) -> (r: usize)
        requires
            start < end,
        ensures
            start <= r < end,
            decides(old(self).entropy(), final(self).entropy()),
    ;

    /// A Bernoulli draw: true with the given probability (in parts per
    /// million), shifted by `bias / 128`.
    fn flip(&mut self, probability_ppm: u32, bias: i8) -> (r: bool)
        ensures
            decides(old(self).entropy(), final(self).entropy()),
    ;

    /// A uniform draw over the half-open fixed-point range `lo..hi`.
    fn roll_uniform(&mut self, lo: i64, hi: i64) -> (r: i64)
        requires
            lo < hi,
        ensures
            lo <= r < hi,
            decides(old(self).entropy(), final(self).entropy()),
    ;

    /// A draw from `stat`'s distribution transformed by `skill`, clamped to
    /// `stat`'s range.
    fn roll_stat(&mut self, stat: Stat, skill: Skill) -> (r: i64)
        requires
            stat.wf(),
        ensures
            stat.range_lo <= r <= stat.range_hi,
            decides(old(self).entropy(), final(self).entropy()),
    ;

    /// A draw from `stat` with its mean shifted by `bias / 128` standard
    /// deviations.
    fn roll_std_dev_skill_stat(&mut self, stat: Stat, bias: i8) -> (r: i64)
        requires
            stat.wf(),
        ensures
            stat.range_lo <= r <= stat.range_hi,
            decides(old(self).entropy(), final(self).entropy()),
    {
        let skill = Skill::std_dev_bias_skill(bias, stat);
        self.roll_stat(stat, skill)
    }

    /// A draw from `stat` with its mean shifted by `bias / 128` standard
    /// deviations and its deviation scaled by `mult_milli / 1000`.
    fn roll_std_dev_mult_skill_stat(&mut self, stat: Stat, bias: i8, mult_milli: i64) -> (r: i64)
        requires
            stat.wf(),
        ensures
            stat.range_lo <= r <= stat.range_hi,
            decides(old(self).entropy(), final(self).entropy()),
    {
        let base = Skill::std_dev_bias_skill(bias, stat);
        let skill = Skill {
            average_multiplier_milli: base.average_multiplier_milli,
            average_shift: base.average_shift,
            std_dev_multiplier_milli: mult_milli,
        };
        self.roll_stat(stat, skill)
    }
}

} // verus!
