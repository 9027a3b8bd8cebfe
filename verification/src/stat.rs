use vstd::prelude::*;

verus! {

/// Largest magnitude any fixed-point quantity of the simulation may take.
/// Every stat's average, deviation and range stay within it, which keeps all
/// derived arithmetic inside `i64`.
pub const STAT_BOUND: i64 = 1_000_000_000_000;

/// A real-world statistical distribution over a fixed-point quantity
/// (thousandths of the quantity's natural unit): mean, standard deviation,
/// and the closed range samples are clamped to.
#[derive(Clone, Copy, Debug, PartialEq, Eq, Structural)]
pub struct Stat {
    pub average: i64,
    pub std_dev: i64,
    pub range_lo: i64,
    pub range_hi: i64,
}

impl Stat {
    /// A stat is well formed when its range is ordered and every field stays
    /// within the global fixed-point bound.
    pub open spec fn wf(self) -> bool {
        &&& self.range_lo <= self.range_hi
        &&& -STAT_BOUND <= self.range_lo
        &&& self.range_hi <= STAT_BOUND
        &&& -STAT_BOUND <= self.average <= STAT_BOUND
        &&& 0 <= self.std_dev <= STAT_BOUND
    }
}

/// A per-player bias transform applied to a [`Stat`] before sampling.
/// Multipliers are in thousandths (1000 leaves the stat unchanged); the shift
/// is in the stat's own fixed-point unit.
#[derive(Clone, Copy, Debug, PartialEq, Eq, Structural)]
pub struct Skill {
    pub average_multiplier_milli: i64,
    pub average_shift: i64,
    pub std_dev_multiplier_milli: i64,
}

impl Skill {
    /// The identity transform: sampling is driven by the stat alone.
    pub fn neutral() -> (r: Skill)
        ensures
            r == (Skill {
                average_multiplier_milli: 1000,
                average_shift: 0,
                std_dev_multiplier_milli: 1000,
            }),
    {
        Skill { average_multiplier_milli: 1000, average_shift: 0, std_dev_multiplier_milli: 1000 }
    }

    /// A skill that shifts the sampling mean by `bias / 128` standard
    /// deviations, leaving the deviation itself unchanged: the shift is
    /// exactly the bias's share of one deviation, carrying its sign.
    pub fn std_dev_bias_skill(bias: i8, stat: Stat) -> (r: Skill)
        requires
            stat.wf(),
        ensures
            r.average_multiplier_milli == 1000,
            r.std_dev_multiplier_milli == 1000,
            r.average_shift == if bias > 0 {
                bias * stat.std_dev / 128
            } else if bias < 0 {
                -((-(bias as int)) * stat.std_dev / 128)
            } else {
                0int
            },
            -stat.std_dev <= r.average_shift <= stat.std_dev,
    {
        let wide: i64 = if bias >= 0 {
            bias as i64
        } else {
            -(bias as i64)
        };
        proof {
            assert(0 <= wide * stat.std_dev <= 128 * STAT_BOUND) by (nonlinear_arith)
                requires 0 <= wide <= 128, 0 <= stat.std_dev <= STAT_BOUND;
            assert(wide * stat.std_dev / 128 <= stat.std_dev) by (nonlinear_arith)
                requires 0 <= wide <= 128, 0 <= stat.std_dev;
            assert(wide * stat.std_dev / 128 >= 0) by (nonlinear_arith)
                requires 0 <= wide, 0 <= stat.std_dev;
        }
        let magnitude: i64 = wide * stat.std_dev / 128;
        Skill {
            average_multiplier_milli: 1000,
            average_shift: if bias > 0 {
                magnitude
            } else if bias < 0 {
                -magnitude
            } else {
                0
            },
            std_dev_multiplier_milli: 1000,
        }
    }
}

} // verus!
