use vstd::prelude::*;

use crate::levels;
use crate::player::{bias_sub, Player};
use crate::Decider;
use crate::decides;

verus! {

/// What one pitch came to.
#[derive(Clone, Copy, Debug, PartialEq, Eq, Structural)]
pub enum PitchOutcome {
    /// A strike; the flag is true when the batter swung and missed.
    Strike(bool),
    /// A pitch out of the zone that the batter let go.
    Ball,
    /// Contact out of play.
    Foul,
    /// The ball is in play; the flag is true when the pitch was a ball.
    Hit(bool),
}

/// Vertical third of the strike zone a pitch passed through.
#[derive(Clone, Copy, Debug, PartialEq, Eq, Structural)]
pub enum PitchHeight {
    High,
    Middle,
    Low,
}

/// Horizontal third of the strike zone a pitch passed through.
#[derive(Clone, Copy, Debug, PartialEq, Eq, Structural)]
pub enum PitchWidth {
    Left,
    Center,
    Right,
}

/// Cell of the three-by-three pitch grid.
#[derive(Clone, Copy, Debug, PartialEq, Eq, Structural)]
pub struct PitchLocation {
    pub height: PitchHeight,
    pub width: PitchWidth,
}

impl PitchLocation {
    /// True of the exact centre of the zone, where a true ball is never drawn.
    pub open spec fn is_heart(self) -> bool {
        self.height == PitchHeight::Middle && self.width == PitchWidth::Center
    }
}

/// One pitch of an at-bat: where it went and what it came to.
#[derive(Clone, Copy, Debug, PartialEq, Eq, Structural)]
pub struct PitchRecord {
    pub location: PitchLocation,
    pub outcome: PitchOutcome,
}

/// What a pitch comes to, given how its four draws fell: a batter who holds
/// off takes a ball or a called strike; a swing without contact is a swinging
/// strike; contact is a foul or puts the ball in play, remembering whether
/// the pitch was a ball.
pub open spec fn spec_pitch_outcome(
    is_ball: bool,
    swung: bool,
    contact: bool,
    fouled: bool,
) -> PitchOutcome {
    if !swung {
        if is_ball {
            PitchOutcome::Ball
        } else {
            PitchOutcome::Strike(false)
        }
    } else if !contact {
        PitchOutcome::Strike(true)
    } else if fouled {
        PitchOutcome::Foul
    } else {
        PitchOutcome::Hit(is_ball)
    }
}

/// Computes [`spec_pitch_outcome`].
pub fn pitch_outcome_of(is_ball: bool, swung: bool, contact: bool, fouled: bool) -> (r:
    PitchOutcome)
    ensures
        r == spec_pitch_outcome(is_ball, swung, contact, fouled),
{
    if !swung {
        if is_ball {
            PitchOutcome::Ball
        } else {
            PitchOutcome::Strike(false)
        }
    } else if !contact {
        PitchOutcome::Strike(true)
    } else if fouled {
        PitchOutcome::Foul
    } else {
        PitchOutcome::Hit(is_ball)
    }
}

/// Simulates a single pitch: a location draw, a ball-or-strike draw, then the
/// swing, contact and foul draws conditioned on it, each biased by the duel of
/// batter and pitcher; the outcome is [`spec_pitch_outcome`] of the four
/// draws.
///
/// Any outcome of a pitch that was a ball — a `Ball` taken, or contact on it
/// — never sits in the centre of the zone, and every pitch consumes at least
/// one decision.
pub fn simulate_pitch<D: Decider>(decider: &mut D, batter: &Player, pitcher: &Player) -> (r:
    PitchRecord)
    ensures
        decides(old(decider).entropy(), final(decider).entropy()),
        r.outcome == PitchOutcome::Ball ==> !r.location.is_heart(),
        r.outcome matches PitchOutcome::Hit(was_ball) ==> (was_ball ==> !r.location.is_heart()),
{
    let location = decider.roll_pitch_location(pitcher.pitch_height_bias, pitcher.pitch_width_bias);

    let is_ball = decider.flip(levels::balls_per_pitch_ppm(), pitcher.pitch_strike_bias);

    // A ball cannot be down the middle.
    let location = if is_ball && location.height == PitchHeight::Middle && location.width
        == PitchWidth::Center {
        PitchLocation { height: PitchHeight::Low, width: PitchWidth::Left }
    } else {
        location
    };

    let swung = if is_ball {
        decider.flip(
            levels::swings_per_ball_ppm(),
            bias_sub(batter.hitter_swing_on_ball_bias, pitcher.pitcher_swing_on_ball_bias),
        )
    } else {
        decider.flip(
            levels::swings_per_strike_ppm(),
            bias_sub(batter.hitter_swing_on_strike_bias, pitcher.pitcher_swing_on_strike_bias),
        )
    };

    let contact = if swung {
        if is_ball {
            decider.flip(
                levels::contacts_per_ball_swing_ppm(),
                bias_sub(
                    batter.hitter_contact_on_ball_bias,
                    pitcher.pitcher_contact_on_ball_bias,
                ),
            )
        } else {
            decider.flip(
                levels::contacts_per_strike_swing_ppm(),
                bias_sub(
                    batter.hitter_contact_on_strike_bias,
                    pitcher.pitcher_contact_on_strike_bias,
                ),
            )
        }
    } else {
        false
    };

    let fouled = if contact {
        if is_ball {
            decider.flip(
                levels::fouls_per_ball_contact_ppm(),
                bias_sub(
                    batter.hitter_foul_on_ball_contact_bias,
                    pitcher.pitcher_foul_on_ball_contact_bias,
                ),
            )
        } else {
            decider.flip(
                levels::fouls_per_strike_contact_ppm(),
                bias_sub(
                    batter.hitter_foul_on_strike_contact_bias,
                    pitcher.pitcher_foul_on_strike_contact_bias,
                ),
            )
        }
    } else {
        false
    };

    PitchRecord { location, outcome: pitch_outcome_of(is_ball, swung, contact, fouled) }
}

} // verus!
