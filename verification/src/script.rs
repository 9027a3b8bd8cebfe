//! A decider that replays a recorded script of draws.
//!
//! Each call takes the next value of the script and shapes it into the range
//! the caller asked for; a spent script answers with zeros. Replaying the
//! same script reproduces a simulation decision for decision, which is what
//! makes every scenario of the engine testable.

use vstd::prelude::*;

use crate::decides;
use crate::location::clamp;
use crate::pitch::{PitchHeight, PitchLocation, PitchWidth};
use crate::stat::{Skill, Stat};
use crate::Decider;

verus! {

/// A [`Decider`] backed by a finite list of recorded draws.
pub struct ScriptDecider {
    script: Vec<i64>,
    cursor: usize,
}

impl ScriptDecider {
    /// A decider that will replay `script` front to back.
    pub fn new(script: Vec<i64>) -> (r: ScriptDecider)
        ensures
            r.entropy() == script@.len(),
    {
        ScriptDecider { script, cursor: 0 }
    }

    /// Takes the next scripted value, or zero when the script is spent.
    fn take(&mut self) -> (r: i64)
        ensures
            decides(old(self).entropy(), final(self).entropy()),
            old(self).entropy() > 0 ==> r == old(self).script@[old(self).cursor as int],
            old(self).entropy() == 0 ==> r == 0,
    {
        if self.cursor < self.script.len() {
            let v = self.script[self.cursor];
            self.cursor = self.cursor + 1;
            v
        } else {
            0
        }
    }
}

impl Decider for ScriptDecider {
    /// Draws left on the script.
    closed spec fn entropy(&self) -> nat {
        if self.cursor <= self.script@.len() {
            (self.script@.len() - self.cursor) as nat
        } else {
            0
        }
    }

    fn draws_left(&self) -> (n: usize) {
        if self.cursor <= self.script.len() {
            self.script.len() - self.cursor
        } else {
            0
        }
    }

    /// True when the scripted value is not zero.
    fn roll(&mut self, check: u64, count: u64, adjust: u64) -> (r: bool) {
        self.take() != 0
    }

    /// Reads the scripted value modulo nine as a grid cell: the high digit
    /// (0 to 2) is high, middle or low, the low digit left, centre or right.
    fn roll_pitch_location(&mut self, height_bias: i8, width_bias: i8) -> (r: PitchLocation) {
        let v: i64 = self.take();
        let cell: i64 = if 0 <= v && v < 9 {
            v
        } else {
            0
        };
        let height = if cell / 3 == 0 {
            PitchHeight::High
        } else if cell / 3 == 1 {
            PitchHeight::Middle
        } else {
            PitchHeight::Low
        };
        let width = if cell % 3 == 0 {
            PitchWidth::Left
        } else if cell % 3 == 1 {
            PitchWidth::Center
        } else {
            PitchWidth::Right
        };
        PitchLocation { height, width }
    }

    /// The scripted value clamped into `start..end`.
    fn roll_index(&mut self, start: usize, end: usize) -> (r: usize) {
        let v: i64 = self.take();
        let span: usize = end - start;
        let nonneg: usize = if v < 0 {
            0
        } else if v > 1_000_000_000 {
            1_000_000_000
        } else {
            v as usize
        };
        let off: usize = if nonneg < span {
            nonneg
        } else {
            span - 1
        };
        start + off
    }

    /// True when the scripted value is not zero.
    fn flip(&mut self, probability_ppm: u32, bias: i8) -> (r: bool) {
        self.take() != 0
    }

    /// The scripted value clamped into `lo..hi`.
    fn roll_uniform(&mut self, lo: i64, hi: i64) -> (r: i64) {
        let v: i64 = self.take();
        clamp(v, lo, hi - 1)
    }

    /// The scripted value clamped to the stat's range; the skill transform is
    /// already baked into a recorded draw.
    fn roll_stat(&mut self, stat: Stat, skill: Skill) -> (r: i64) {
        let v: i64 = self.take();
        clamp(v, stat.range_lo, stat.range_hi)
    }
}

} // verus!
