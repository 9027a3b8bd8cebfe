//! The at-bat state machine: one pitch per step, balls and strikes counted
//! down, fouls never finishing a strikeout, until a hit, a walk or an out.

use vstd::prelude::*;

use crate::base_running::BaseState;
use crate::decides;
use crate::hit::{hit_record_ok, simulate_hit, HitRecord};
use crate::pitch::{simulate_pitch, PitchOutcome, PitchRecord};
use crate::player::{same_biases, Player, Team};
use crate::Decider;

verus! {

/// The count as it stood after a pitch.
#[derive(Clone, Copy, Debug, PartialEq, Eq, Structural)]
pub struct AtBatProgress {
    pub balls: u8,
    pub strikes: u8,
}

/// How an at-bat ended.
#[derive(Clone, Debug, PartialEq)]
pub enum AtBatOutcomeType {
    Hit(HitRecord),
    Walk,
    Out,
}

/// The ending of an at-bat.
#[derive(Clone, Debug, PartialEq)]
pub struct AtBatOutcome {
    pub outcome_type: AtBatOutcomeType,
}

/// One batter's full turn: every pitch with the count after it, and the
/// ending.
#[derive(Clone, Debug, PartialEq)]
pub struct AtBatRecord {
    pub batter_index: u8,
    pub player: Player,
    pub pitches: Vec<(PitchRecord, AtBatProgress)>,
    pub outcome: AtBatOutcome,
}

/// The count before the first pitch.
pub open spec fn start_progress() -> AtBatProgress {
    AtBatProgress { balls: 0, strikes: 0 }
}

/// How one pitch moves the count: a strike or a foul adds a strike — except
/// that a foul on a two-strike count changes nothing — a ball adds a ball,
/// and a ball in play freezes the count.
pub open spec fn count_after(prev: AtBatProgress, outcome: PitchOutcome) -> AtBatProgress {
    match outcome {
        PitchOutcome::Strike(_) => AtBatProgress {
            balls: prev.balls,
            strikes: (prev.strikes + 1) as u8,
        },
        PitchOutcome::Foul => if prev.strikes != 2 {
            AtBatProgress { balls: prev.balls, strikes: (prev.strikes + 1) as u8 }
        } else {
            prev
        },
        PitchOutcome::Ball => AtBatProgress { balls: (prev.balls + 1) as u8, strikes: prev.strikes },
        PitchOutcome::Hit(_) => prev,
    }
}

/// True when an at-bat is over after this pitch: the ball is in play, the
/// fourth ball walks the batter, or the third strike puts him out.
pub open spec fn pitch_terminal(p: (PitchRecord, AtBatProgress)) -> bool {
    ||| p.0.outcome is Hit
    ||| p.1.balls >= 4
    ||| p.1.strikes >= 3
}

/// A well-formed pitch sequence: every recorded count follows from the one
/// before it by [`count_after`], and only the last pitch may end the at-bat.
pub open spec fn valid_at_bat_pitches(pitches: Seq<(PitchRecord, AtBatProgress)>) -> bool {
    &&& forall|i: int|
        0 <= i < pitches.len() ==> #[trigger] pitches[i].1 == count_after(
            if i == 0 {
                start_progress()
            } else {
                pitches[i - 1].1
            },
            pitches[i].0.outcome,
        )
    &&& forall|i: int| 0 <= i < pitches.len() - 1 ==> !pitch_terminal(#[trigger] pitches[i])
}

/// Simulates one at-bat: pitches are thrown until the count walks the batter,
/// strikes him out, or a ball lands in play; each pitch is recorded with the
/// count after it. The recorded counts form a valid chain, never pass four
/// balls or three strikes, and fix the outcome. A decider that is out of
/// draws throws no pitch and the at-bat is recorded as an out.
pub fn simulate_at_bat<D: Decider>(
    batter_index: u8,
    batting_team: &Team,
    fielding_team: &Team,
    decider: &mut D,
    base_state: &BaseState,
) -> (r: AtBatRecord)
    requires
        batting_team.wf(),
        fielding_team.wf(),
        batter_index < 9,
    ensures
        decides(old(decider).entropy(), final(decider).entropy()),
        r.batter_index == batter_index,
        valid_at_bat_pitches(r.pitches@),
        forall|i: int|
            0 <= i < r.pitches@.len() ==> (#[trigger] r.pitches@[i]).1.balls <= 4
                && r.pitches@[i].1.strikes <= 3,
        old(decider).entropy() > 0 ==> r.pitches@.len() > 0,
        old(decider).entropy() == 0 ==> r.pitches@.len() == 0 && r.outcome.outcome_type
            matches AtBatOutcomeType::Out,
        r.outcome.outcome_type matches AtBatOutcomeType::Hit(hr) ==> hit_record_ok(
            hr,
            *base_state,
            batter_index,
        ),
        (r.outcome.outcome_type matches AtBatOutcomeType::Hit(hr)) <==> (r.pitches@.len() > 0
            && r.pitches@.last().0.outcome is Hit),
        (r.outcome.outcome_type matches AtBatOutcomeType::Walk) <==> (r.pitches@.len() > 0
            && r.pitches@.last().1.balls == 4 && !(r.pitches@.last().0.outcome is Hit)),
        final(decider).entropy() > 0 ==> ((r.outcome.outcome_type
            matches AtBatOutcomeType::Out) <==> (r.pitches@.len() > 0
            && r.pitches@.last().1.strikes == 3 && !(r.pitches@.last().0.outcome is Hit))),
        final(decider).entropy() > 0 && r.pitches@.len() > 0 ==> pitch_terminal(
            r.pitches@.last(),
        ),
        same_biases(
            r.player,
            batting_team.fielders@[batting_team.batting_order@[batter_index as int].spec_index()],
        ),
{
    let batter = batting_team.player_at_batting_index(batter_index);
    let mut balls_remaining: u8 = 4;
    let mut strikes_remaining: u8 = 3;
    let mut hit_record: Option<HitRecord> = None;
    let mut pitches: Vec<(PitchRecord, AtBatProgress)> = Vec::new();

    while hit_record.is_none() && balls_remaining > 0 && strikes_remaining > 0
        && decider.draws_left() > 0
        invariant
            batting_team.wf(),
            fielding_team.wf(),
            batter_index < 9,
            balls_remaining <= 4,
            strikes_remaining <= 3,
            valid_at_bat_pitches(pitches@),
            forall|i: int|
                0 <= i < pitches@.len() ==> (#[trigger] pitches@[i]).1.balls <= 4
                    && pitches@[i].1.strikes <= 3,
            pitches@.len() == 0 ==> balls_remaining == 4 && strikes_remaining == 3
                && hit_record is None,
            pitches@.len() > 0 ==> pitches@.last().1.balls == 4 - balls_remaining
                && pitches@.last().1.strikes == 3 - strikes_remaining,
            pitches@.len() > 0 ==> ((hit_record is Some) <==> pitches@.last().0.outcome is Hit),
            hit_record matches Some(h) ==> hit_record_ok(h, *base_state, batter_index),
            decider.entropy() <= old(decider).entropy(),
            pitches@.len() == 0 ==> decider.entropy() == old(decider).entropy(),
            pitches@.len() > 0 ==> decider.entropy() < old(decider).entropy(),
        decreases decider.entropy(),
    {
        let pitch_record = simulate_pitch(decider, batter, fielding_team.pitcher());

        match pitch_record.outcome {
            PitchOutcome::Strike(_) => {
                strikes_remaining = strikes_remaining - 1;
            },
            PitchOutcome::Foul => {
                if strikes_remaining != 1 {
                    strikes_remaining = strikes_remaining - 1;
                }
            },
            PitchOutcome::Ball => {
                balls_remaining = balls_remaining - 1;
            },
            PitchOutcome::Hit(is_ball) => {
                let hr = simulate_hit(
                    &pitch_record.location,
                    is_ball,
                    batter_index,
                    batting_team,
                    fielding_team,
                    decider,
                    base_state,
                );
                hit_record = Some(hr);
            },
        }

        let progress = AtBatProgress {
            balls: 4 - balls_remaining,
            strikes: 3 - strikes_remaining,
        };
        pitches.push((pitch_record, progress));
        proof {
            assert(pitches@.drop_last() =~= pitches@.subrange(0, pitches@.len() - 1));
        }
    }

    let outcome_type = match hit_record {
        Some(h) => AtBatOutcomeType::Hit(h),
        None => {
            if balls_remaining == 0 {
                AtBatOutcomeType::Walk
            } else {
                // A strikeout, or a decider out of draws: the at-bat is over
                // either way, and it is an out.
                AtBatOutcomeType::Out
            }
        },
    };

    AtBatRecord {
        batter_index,
        player: batter.duplicate(),
        pitches,
        outcome: AtBatOutcome { outcome_type },
    }
}

} // verus!
