//! League-average rates and distributions that drive every decision draw.
//!
//! Rates are in parts per million of the events they condition on; the
//! distributions are fixed-point [`Stat`]s in thousandths of their natural
//! unit (feet per second, seconds, degrees).

use vstd::prelude::*;

use crate::stat::Stat;

verus! {

/// Pitches thrown in the league sample.
pub const TOTAL_PITCHES: u64 = 10_894_935;
/// Balls among [`TOTAL_PITCHES`].
pub const TOTAL_BALLS: u64 = 5_359_317;
/// Swings at balls among [`TOTAL_BALLS`].
pub const TOTAL_BALL_SWINGS: u64 = 1_593_720;
/// Contacts among [`TOTAL_BALL_SWINGS`].
pub const TOTAL_BALL_SWING_CONTACTS: u64 = 983_462;
/// Fouls among [`TOTAL_BALL_SWING_CONTACTS`].
pub const TOTAL_BALL_SWING_CONTACT_FOULS: u64 = 550_032;
/// Strikes in the league sample: every pitch that was not a ball.
pub const TOTAL_STRIKES: u64 = 5_535_618;
/// Swings at strikes among [`TOTAL_STRIKES`].
pub const TOTAL_STRIKE_SWINGS: u64 = 3_468_221;
/// Contacts among [`TOTAL_STRIKE_SWINGS`].
pub const TOTAL_STRIKE_SWING_CONTACTS: u64 = 2_905_144;
/// Fouls among [`TOTAL_STRIKE_SWING_CONTACTS`].
pub const TOTAL_STRIKE_SWING_CONTACT_FOULS: u64 = 1_363_718;

/// The ratio `num / den` in parts per million, rounded down.
pub fn ratio_ppm(num: u64, den: u64) -> (r: u32)
    requires
        0 < den <= 10_000_000_000,
        num <= den,
    ensures
        r == num as int * 1_000_000 / den as int,
        r <= 1_000_000,
{
    proof {
        let n = num as int;
        let d = den as int;
        assert(n * 1_000_000 <= d * 1_000_000) by (nonlinear_arith)
            requires n <= d;
        assert(n * 1_000_000 / d <= d * 1_000_000 / d) by (nonlinear_arith)
            requires n * 1_000_000 <= d * 1_000_000, 0 < d;
        assert(d * 1_000_000 / d == 1_000_000) by (nonlinear_arith)
            requires 0 < d;
        assert(n * 1_000_000 / d >= 0) by (nonlinear_arith)
            requires n >= 0, d > 0;
        assert(n * 1_000_000 <= 10_000_000_000_000_000int) by (nonlinear_arith)
            requires 0 <= n <= 10_000_000_000int;
    }
    (num * 1_000_000 / den) as u32
}

/// Rate of balls per pitch.
pub fn balls_per_pitch_ppm() -> (r: u32)
    ensures
        r == 491_909,
{
    ratio_ppm(TOTAL_BALLS, TOTAL_PITCHES)
}

/// Rate of swings per ball.
pub fn swings_per_ball_ppm() -> (r: u32)
    ensures
        r == 297_373,
{
    ratio_ppm(TOTAL_BALL_SWINGS, TOTAL_BALLS)
}

/// Rate of contact per swing at a ball.
pub fn contacts_per_ball_swing_ppm() -> (r: u32)
    ensures
        r == 617_085,
{
    ratio_ppm(TOTAL_BALL_SWING_CONTACTS, TOTAL_BALL_SWINGS)
}

/// Rate of fouls per contact on a ball.
pub fn fouls_per_ball_contact_ppm() -> (r: u32)
    ensures
        r == 559_281,
{
    ratio_ppm(TOTAL_BALL_SWING_CONTACT_FOULS, TOTAL_BALL_SWING_CONTACTS)
}

/// Rate of swings per strike.
pub fn swings_per_strike_ppm() -> (r: u32)
    ensures
        r == 626_528,
{
    ratio_ppm(TOTAL_STRIKE_SWINGS, TOTAL_STRIKES)
}

/// Rate of contact per swing at a strike.
pub fn contacts_per_strike_swing_ppm() -> (r: u32)
    ensures
        r == 837_646,
{
    ratio_ppm(TOTAL_STRIKE_SWING_CONTACTS, TOTAL_STRIKE_SWINGS)
}

/// Rate of fouls per contact on a strike.
pub fn fouls_per_strike_contact_ppm() -> (r: u32)
    ensures
        r == 469_414,
{
    ratio_ppm(TOTAL_STRIKE_SWING_CONTACT_FOULS, TOTAL_STRIKE_SWING_CONTACTS)
}

/// Exit speed of a batted ball, in thousandths of feet per second.
pub fn hit_exit_speed() -> (s: Stat)
    ensures
        s == (Stat { average: 125_000, std_dev: 35_000, range_lo: 0, range_hi: 250_000 }),
{
    Stat { average: 125_000, std_dev: 35_000, range_lo: 0, range_hi: 250_000 }
}

/// Launch angle of a batted ball, in thousandths of degrees.
pub fn hit_launch_angle() -> (s: Stat)
    ensures
        s == (Stat { average: 0, std_dev: 45_000, range_lo: -90_000i64, range_hi: 90_000 }),
{
    Stat { average: 0, std_dev: 45_000, range_lo: -90_000, range_hi: 90_000 }
}

/// Speed of a runner, in thousandths of feet per second.
pub fn baserunner_speed() -> (s: Stat)
    ensures
        s == (Stat { average: 27_000, std_dev: 4_000, range_lo: 0, range_hi: 40_000 }),
{
    Stat { average: 27_000, std_dev: 4_000, range_lo: 0, range_hi: 40_000 }
}

/// Speed of a fielder chasing a ball, in thousandths of feet per second.
pub fn fielder_speed() -> (s: Stat)
    ensures
        s == (Stat { average: 23_000, std_dev: 4_000, range_lo: 0, range_hi: 40_000 }),
{
    Stat { average: 23_000, std_dev: 4_000, range_lo: 0, range_hi: 40_000 }
}

/// Speed of a thrown ball, in thousandths of feet per second.
pub fn throw_speed() -> (s: Stat)
    ensures
        s == (Stat { average: 57_250, std_dev: 7_000, range_lo: 0, range_hi: 150_000 }),
{
    Stat { average: 57_250, std_dev: 7_000, range_lo: 0, range_hi: 150_000 }
}

/// Time a fielder takes to react to the hit, in thousandths of seconds.
pub fn player_reaction_time() -> (s: Stat)
    ensures
        s == (Stat { average: 1_850, std_dev: 100, range_lo: 1_250, range_hi: 2_500 }),
{
    Stat { average: 1_850, std_dev: 100, range_lo: 1_250, range_hi: 2_500 }
}

/// Time to move the ball from glove to throw, in thousandths of seconds.
pub fn fielder_transfer_time() -> (s: Stat)
    ensures
        s == (Stat { average: 1_500, std_dev: 200, range_lo: 1_000, range_hi: 3_000 }),
{
    Stat { average: 1_500, std_dev: 200, range_lo: 1_000, range_hi: 3_000 }
}

/// Time the batter takes to leave the box, in thousandths of seconds.
pub fn box_exit_time() -> (s: Stat)
    ensures
        s == (Stat { average: 2_000, std_dev: 300, range_lo: 1_500, range_hi: 3_500 }),
{
    Stat { average: 2_000, std_dev: 300, range_lo: 1_500, range_hi: 3_500 }
}

/// Delay before a runner leaves a base, in thousandths of seconds.
pub fn base_takeoff_delay() -> (s: Stat)
    ensures
        s == (Stat { average: 1_000, std_dev: 300, range_lo: 750, range_hi: 2_000 }),
{
    Stat { average: 1_000, std_dev: 300, range_lo: 750, range_hi: 2_000 }
}

} // verus!
