//! An inning: the away team's half followed by the home team's, each side
//! keeping its own lineup position.

use vstd::prelude::*;

use crate::decides;
use crate::half_inning::{half_record_ok, simulate_half_inning, HalfInningOutcome, HalfInningRecord};
use crate::player::Team;
use crate::Decider;

verus! {

/// One full inning: both half innings and their outcomes side by side.
#[derive(Clone, Debug, PartialEq)]
pub struct InningRecord {
    pub away: HalfInningRecord,
    pub home: HalfInningRecord,
    pub outcome: InningOutcome,
}

/// The aggregate of an inning, one entry per side.
#[derive(Clone, Copy, Debug, PartialEq, Eq, Structural)]
pub struct InningOutcome {
    pub away: HalfInningOutcome,
    pub home: HalfInningOutcome,
}

/// The laws every finished inning obeys: each half obeys the half-inning
/// laws, and the outcome repeats theirs.
pub open spec fn inning_ok(r: InningRecord) -> bool {
    &&& half_record_ok(r.away)
    &&& half_record_ok(r.home)
    &&& r.outcome.away == r.away.outcome
    &&& r.outcome.home == r.home.outcome
}

/// Simulates one inning: the away side bats against the home defence, then
/// the home side against the away defence.
pub fn simulate_inning<D: Decider>(
    away_batting_index: u8,
    away_team: &Team,
    home_batting_index: u8,
    home_team: &Team,
    decider: &mut D,
) -> (r: InningRecord)
    requires
        away_team.wf(),
        home_team.wf(),
        away_batting_index < 9,
        home_batting_index < 9,
    ensures
        decides(old(decider).entropy(), final(decider).entropy()),
        inning_ok(r),
        r.away.at_bats@[0].0.batter_index == away_batting_index,
        r.home.at_bats@[0].0.batter_index == home_batting_index,
{
    let away = simulate_half_inning(away_batting_index, away_team, home_team, decider);
    let home = simulate_half_inning(home_batting_index, home_team, away_team, decider);
    let outcome = InningOutcome { away: away.outcome, home: home.outcome };

    InningRecord { away, home, outcome }
}

} // verus!
