use vstd::prelude::*;

use crate::base_running::{br_record_ok, BaseState};
use crate::decides;
use crate::fielding::{simulate_fielding, BallLanding};
use crate::levels;
use crate::location::{clamp, spec_clamp, tdiv};
use crate::pitch::{PitchHeight, PitchLocation, PitchWidth};
use crate::player::{bias_sub, Team};
use crate::stat::Skill;
use crate::Decider;

verus! {

/// What the batter's trip around the bases amounted to.
#[derive(Clone, Copy, Debug, PartialEq, Eq, Structural)]
pub enum HitType {
    Out,
    FieldersChoice,
    Single,
    Double,
    Triple,
    HomeRun,
}

/// What became of a ball in play.
#[derive(Clone, Debug, PartialEq)]
pub enum HitOutcome {
    /// The ball stayed on the field; fielding and base running resolved it.
    InPlay(crate::fielding::FieldingRecord),
    /// The ball cleared the wall.
    HomeRun,
}

impl HitOutcome {
    /// The batter's hit type: over the wall, a caught ball, or whatever the
    /// base running resolved a landed ball to.
    pub fn hit_type(&self) -> (r: HitType)
        ensures
            self is HomeRun ==> r == HitType::HomeRun,
            self matches HitOutcome::InPlay(fr) ==> (fr.landing is Out ==> r == HitType::Out),
            self matches HitOutcome::InPlay(fr) ==> (fr.landing is Landed ==> r
                == fr.base_running_record.outcome.batter_hit_type),
    {
        match self {
            HitOutcome::HomeRun => HitType::HomeRun,
            HitOutcome::InPlay(record) => match &record.landing {
                BallLanding::Out(_, _) => HitType::Out,
                BallLanding::Landed(_, _) => record.base_running_record.outcome.batter_hit_type,
            },
        }
    }
}

/// One ball put in play: how it left the bat and what came of it.
#[derive(Clone, Debug, PartialEq)]
pub struct HitRecord {
    /// Thousandths of a degree off the left foul line.
    pub direction: i64,
    /// Thousandths of a degree above the horizontal.
    pub launch_angle: i64,
    /// Thousandths of a foot per second off the bat.
    pub exit_speed: i64,

    pub outcome: HitOutcome,
}


/// The laws a hit record obeys on the bases it was played against: whenever
/// the ball stayed in play, its base running satisfies the counting laws.
pub open spec fn hit_record_ok(hr: HitRecord, base_state: BaseState, batter: u8) -> bool {
    hr.outcome matches HitOutcome::InPlay(fr) ==> br_record_ok(
        fr.base_running_record,
        fr.landing,
        base_state,
        batter,
    )
}

/// A drawn direction shifted by the net direction bias: the bias pushes the
/// ball by up to half the field either way, clamped to the foul lines.
pub open spec fn spec_shifted_direction(raw: int, bias: int) -> int {
    spec_clamp(raw + tdiv(bias * 90_000, 256), 0, 90_000)
}

/// Computes [`spec_shifted_direction`].
pub fn shifted_direction(raw: i64, bias: i8) -> (r: i64)
    requires
        0 <= raw < 90_000,
    ensures
        r == spec_shifted_direction(raw as int, bias as int),
        0 <= r <= 90_000,
{
    let scaled: i64 = (bias as i64) * 90_000;
    let shift: i64 = if scaled >= 0 {
        scaled / 256
    } else {
        -((-scaled) / 256)
    };
    clamp(raw + shift, 0, 90_000)
}

/// How much of the exit speed a launch angle costs, in thousandths: nothing
/// within two degrees of the league-average angle, then a thousandth for
/// every five thousandths of a degree past it, up to a quarter.
pub open spec fn spec_launch_error(launch_angle: int) -> int {
    let off = if launch_angle < 0 {
        -launch_angle
    } else {
        launch_angle
    };
    if off <= 2_000 {
        0
    } else if (off - 2_000) / 200 > 250 {
        250
    } else {
        (off - 2_000) / 200
    }
}

/// The exit speed after the sweet-spot penalty: the rolled speed shrunk by
/// [`spec_launch_error`], never below three quarters of it.
pub fn sweet_spot_speed(rolled: i64, launch_angle: i64) -> (r: i64)
    requires
        0 <= rolled <= 250_000,
        -90_000 <= launch_angle <= 90_000,
    ensures
        r == rolled * (1000 - spec_launch_error(launch_angle as int)) / 1000,
        3 * rolled / 4 <= r <= rolled,
{
    let off: i64 = if launch_angle < 0 {
        -launch_angle
    } else {
        launch_angle
    };
    let error_milli: i64 = if off <= 2_000 {
        0
    } else if (off - 2_000) / 200 > 250 {
        250
    } else {
        (off - 2_000) / 200
    };
    proof {
        assert(0 <= rolled * (1000 - error_milli) <= 250_000_000int && rolled * (1000
            - error_milli) / 1000 <= rolled && rolled * (1000 - error_milli) / 1000 >= rolled
            * 750 / 1000) by (nonlinear_arith)
            requires
                0 <= rolled <= 250_000,
                0 <= error_milli <= 250,
        ;
        assert(rolled * 750 / 1000 >= 3 * rolled / 4) by (nonlinear_arith)
            requires rolled >= 0;
    }
    rolled * (1000 - error_milli) / 1000
}

/// A launch-angle draw: the bias scales the sampling mean (which sits at the
/// league-average angle) by up to a factor of two.
fn roll_launch_angle<D: Decider>(decider: &mut D, bias: i8) -> (r: i64)
    ensures
        decides(old(decider).entropy(), final(decider).entropy()),
        -90_000 <= r <= 90_000,
{
    let bias_positive: i64 = bias as i64 + 129;
    let skill = Skill {
        average_multiplier_milli: bias_positive * 2000 / 256,
        average_shift: 0,
        std_dev_multiplier_milli: 1000,
    };
    decider.roll_stat(levels::hit_launch_angle(), skill)
}

/// Simulates a ball put in play: rolls its direction (uniform across the
/// field, shifted by the direction duel and the pitch's width), launch angle
/// and exit speed, shrinks the speed when the launch angle misses the sweet
/// spot by more than two degrees (by up to a quarter), and hands the flight
/// to the fielding simulator.
pub fn simulate_hit<D: Decider>(
    pitch_location: &PitchLocation,
    is_ball: bool,
    batter_lineup_index: u8,
    batting_team: &Team,
    fielding_team: &Team,
    decider: &mut D,
    base_state: &BaseState,
) -> (r: HitRecord)
    requires
        batting_team.wf(),
        fielding_team.wf(),
        batter_lineup_index < 9,
    ensures
        decides(old(decider).entropy(), final(decider).entropy()),
        hit_record_ok(r, *base_state, batter_lineup_index),
        0 <= r.direction <= 90_000,
        -90_000 <= r.launch_angle <= 90_000,
        0 <= r.exit_speed <= 250_000,
{
    let batter = batting_team.player_at_batting_index(batter_lineup_index);
    let pitch_width_bias: i8 = match pitch_location.width {
        PitchWidth::Left => -42,
        PitchWidth::Center => 0,
        PitchWidth::Right => 42,
    };
    let direction_bias = bias_sub(
        bias_sub(
            batter.hitter_hit_direction_bias,
            fielding_team.pitcher().pitcher_hit_direction_bias,
        ),
        pitch_width_bias,
    );
    // A uniform draw across the field, pushed by the net bias by up to a
    // half-field either way.
    let raw_direction = decider.roll_uniform(0, 90_000);
    let direction = shifted_direction(raw_direction, direction_bias);

    let pitch_height_bias: i8 = match pitch_location.height {
        PitchHeight::High => -20,
        PitchHeight::Middle => 0,
        PitchHeight::Low => 20,
    };
    let launch_angle = roll_launch_angle(
        decider,
        bias_sub(
            bias_sub(
                batter.hitter_launch_angle_bias,
                fielding_team.pitcher().pitcher_launch_angle_bias,
            ),
            pitch_height_bias,
        ),
    );

    // Contact on a pitched ball comes off the bat slower.
    let is_ball_bias: i8 = if is_ball {
        30
    } else {
        0
    };
    let rolled_speed = decider.roll_std_dev_mult_skill_stat(
        levels::hit_exit_speed(),
        bias_sub(
            bias_sub(batter.hitter_hit_speed_bias, fielding_team.pitcher().pitcher_hit_speed_bias),
            is_ball_bias,
        ),
        1_500,
    );

    // Missing the league-average launch angle by more than two degrees costs
    // exit speed, up to a quarter of it.
    let exit_speed = sweet_spot_speed(rolled_speed, launch_angle);

    let outcome = simulate_fielding(
        direction,
        launch_angle,
        exit_speed,
        batter_lineup_index,
        batting_team,
        fielding_team,
        base_state,
        decider,
    );

    HitRecord { direction, launch_angle, exit_speed, outcome }
}
} // verus!
