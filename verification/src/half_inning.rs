//! The half-inning state machine: batters come up in lineup order until
//! three outs are in, the bases carrying over from play to play.
//!
//! Each at-bat is recorded with the half inning's progress after it. The
//! recorded progress forms a chain the contract pins down exactly: every
//! snapshot follows from the one before it by the at-bat between them, the
//! inning ends with exactly three outs on the board, and the runs scored
//! never exceed three more than the walks and hits that put runners on.

use vstd::prelude::*;

use crate::at_bat::{simulate_at_bat, AtBatOutcomeType, AtBatRecord};
use crate::base_running::{occupied_count, outs_in, runs_in, BaseState};
use crate::decides;
use crate::fielding::BallLanding;
use crate::hit::HitOutcome;
use crate::player::Team;
use crate::{Decider, Score};

verus! {

/// The half inning as it stood after an at-bat: which bases were occupied,
/// the runs in so far, and the outs.
#[derive(Clone, Copy, Debug, PartialEq, Eq)]
pub struct HalfInningProgress {
    pub bases: [bool; 3],
    pub score_change: Score,
    pub outs: u8,
}

/// The aggregate of a half inning.
#[derive(Clone, Copy, Debug, PartialEq, Eq, Structural)]
pub struct HalfInningOutcome {
    pub runs_scored: Score,
    pub total_hits: u8,
}

/// A full half inning: every at-bat with the progress after it.
#[derive(Clone, Debug, PartialEq)]
pub struct HalfInningRecord {
    pub at_bats: Vec<(AtBatRecord, HalfInningProgress)>,
    pub outcome: HalfInningOutcome,
}

/// A sum capped at the largest score.
pub open spec fn sat_score(x: int) -> int {
    if x <= 65535 {
        x
    } else {
        65535
    }
}

/// A sum capped at the largest hit tally.
pub open spec fn sat_tally(x: int) -> int {
    if x <= 255 {
        x
    } else {
        255
    }
}

/// The progress before any batter has come up.
pub open spec fn empty_progress() -> HalfInningProgress {
    HalfInningProgress { bases: [false, false, false], score_change: 0, outs: 0 }
}

/// The snapshot of a half inning in flight: which bases hold a runner, the
/// runs in, and the outs on the board.
pub open spec fn progress_of(bases: BaseState, runs: Score, outs_remaining: u8) -> HalfInningProgress {
    HalfInningProgress {
        bases: [bases[0] is Some, bases[1] is Some, bases[2] is Some],
        score_change: runs,
        outs: (3 - outs_remaining) as u8,
    }
}

/// How one at-bat moves a half inning forward.
///
/// A walk loads the batter onto first, pushing only forced runners, and
/// scores one when the bases were full. An out adds an out and moves nobody.
/// A home run clears the bases and scores every runner plus the batter. A
/// ball in play applies its base-running record: its ending bases, its runs,
/// and its outs — the board never passing three.
pub open spec fn half_inning_step(
    prev: HalfInningProgress,
    ab: AtBatRecord,
    next: HalfInningProgress,
) -> bool {
    match ab.outcome.outcome_type {
        AtBatOutcomeType::Walk => {
            &&& next.outs == prev.outs
            &&& next.score_change == sat_score(
                prev.score_change + if prev.bases[0] && prev.bases[1] && prev.bases[2] {
                    1int
                } else {
                    0int
                },
            )
            &&& next.bases[0]
            &&& next.bases[1] == (prev.bases[0] || prev.bases[1])
            &&& next.bases[2] == ((prev.bases[0] && prev.bases[1]) || prev.bases[2])
        },
        AtBatOutcomeType::Out => {
            &&& next.outs == prev.outs + 1
            &&& next.score_change == prev.score_change
            &&& next.bases[0] == prev.bases[0]
            &&& next.bases[1] == prev.bases[1]
            &&& next.bases[2] == prev.bases[2]
        },
        AtBatOutcomeType::Hit(hr) => match hr.outcome {
            HitOutcome::HomeRun => {
                &&& next.outs == prev.outs
                &&& next.score_change == sat_score(
                    prev.score_change + (if prev.bases[0] {
                        1int
                    } else {
                        0int
                    }) + (if prev.bases[1] {
                        1int
                    } else {
                        0int
                    }) + (if prev.bases[2] {
                        1int
                    } else {
                        0int
                    }) + 1,
                )
                &&& !next.bases[0]
                &&& !next.bases[1]
                &&& !next.bases[2]
            },
            HitOutcome::InPlay(fr) => {
                let play = fr.base_running_record.outcome;
                &&& next.outs == if prev.outs + play.outs_made <= 3 {
                    prev.outs + play.outs_made
                } else {
                    3int
                }
                &&& next.score_change == sat_score(prev.score_change + play.runs_scored)
                &&& next.bases[0] == (play.ending_base_state[0] is Some)
                &&& next.bases[1] == (play.ending_base_state[1] is Some)
                &&& next.bases[2] == (play.ending_base_state[2] is Some)
            },
        },
    }
}

/// Whether an at-bat puts a hit on the board: a ball that lands in play, or
/// a home run.
pub open spec fn ab_hit_credit(ab: AtBatRecord) -> int {
    match ab.outcome.outcome_type {
        AtBatOutcomeType::Hit(hr) => match hr.outcome {
            HitOutcome::HomeRun => 1,
            HitOutcome::InPlay(fr) => if fr.landing is Landed {
                1int
            } else {
                0int
            },
        },
        _ => 0,
    }
}

/// The hits put on the board over a half inning's at-bats.
pub open spec fn hits_in(at_bats: Seq<(AtBatRecord, HalfInningProgress)>) -> int
    decreases at_bats.len(),
{
    if at_bats.len() == 0 {
        0
    } else {
        hits_in(at_bats.drop_last()) + ab_hit_credit(at_bats.last().0)
    }
}

/// The walks over a half inning's at-bats.
pub open spec fn walks_in(at_bats: Seq<(AtBatRecord, HalfInningProgress)>) -> int
    decreases at_bats.len(),
{
    if at_bats.len() == 0 {
        0
    } else {
        walks_in(at_bats.drop_last()) + if at_bats.last().0.outcome.outcome_type is Walk {
            1int
        } else {
            0int
        }
    }
}

/// An at-bat's own play record is internally counted: on a ball in play, the
/// runs equal the movements that crossed home and the outs equal the out
/// movements, plus the catch after a caught fly.
pub open spec fn play_counts_ok(ab: AtBatRecord) -> bool {
    ab.outcome.outcome_type matches AtBatOutcomeType::Hit(hr) ==> (hr.outcome
        matches HitOutcome::InPlay(fr) ==> {
        &&& fr.base_running_record.outcome.runs_scored == runs_in(
            fr.base_running_record.movements@,
        )
        &&& fr.base_running_record.outcome.outs_made == outs_in(
            fr.base_running_record.movements@,
        ) + if fr.landing is Out {
            1int
        } else {
            0int
        }
    })
}

/// The runs one at-bat accounts for, given the bases as they stood: a walk
/// forces in a run only with the bases loaded, a home run scores every runner
/// and the batter, and a ball in play scores its movements that crossed home.
pub open spec fn ab_runs_delta(prev: HalfInningProgress, ab: AtBatRecord) -> int {
    match ab.outcome.outcome_type {
        AtBatOutcomeType::Walk => if prev.bases[0] && prev.bases[1] && prev.bases[2] {
            1int
        } else {
            0int
        },
        AtBatOutcomeType::Out => 0,
        AtBatOutcomeType::Hit(hr) => match hr.outcome {
            HitOutcome::HomeRun => (if prev.bases[0] {
                1int
            } else {
                0int
            }) + (if prev.bases[1] {
                1int
            } else {
                0int
            }) + (if prev.bases[2] {
                1int
            } else {
                0int
            }) + 1,
            HitOutcome::InPlay(fr) => runs_in(fr.base_running_record.movements@),
        },
    }
}

/// The runs a half inning's at-bats account for, summed in order.
pub open spec fn runs_accounted(at_bats: Seq<(AtBatRecord, HalfInningProgress)>) -> int
    decreases at_bats.len(),
{
    if at_bats.len() == 0 {
        0
    } else {
        runs_accounted(at_bats.drop_last()) + ab_runs_delta(
            if at_bats.len() >= 2 {
                at_bats[at_bats.len() - 2].1
            } else {
                empty_progress()
            },
            at_bats.last().0,
        )
    }
}

/// Score conservation law: over a valid half inning whose plays are
/// internally counted, the runs on the board after the last at-bat equal the
/// runs the at-bats account for — walks forced in with the bases loaded, home
/// runs with the runners aboard, and base-running movements that crossed home
/// — capped only at the score's width.
pub proof fn lemma_half_inning_score_conservation(at_bats: Seq<(AtBatRecord, HalfInningProgress)>)
    requires
        valid_half_inning(at_bats),
        forall|i: int| 0 <= i < at_bats.len() ==> play_counts_ok((#[trigger] at_bats[i]).0),
        at_bats.len() > 0,
    ensures
        at_bats.last().1.score_change == sat_score(runs_accounted(at_bats)),
    decreases at_bats.len(),
{
    let prev = if at_bats.len() >= 2 {
        at_bats[at_bats.len() - 2].1
    } else {
        empty_progress()
    };
    let delta = ab_runs_delta(prev, at_bats.last().0);
    assert(half_inning_step(prev, at_bats.last().0, at_bats.last().1));
    assert(at_bats.last().1.score_change == sat_score(prev.score_change + delta));
    if at_bats.len() == 1 {
        assert(at_bats.drop_last().len() == 0);
        assert(runs_accounted(at_bats.drop_last()) == 0);
        assert(runs_accounted(at_bats) == delta);
    } else {
        let prefix = at_bats.drop_last();
        assert(prefix =~= at_bats.subrange(0, at_bats.len() - 1));
        lemma_half_inning_score_conservation(prefix);
        assert(prefix.last() == at_bats[at_bats.len() - 2]);
        assert(prev.score_change == sat_score(runs_accounted(prefix)));
        assert(delta >= 0);
        // Saturation composes: capping a capped sum is capping the whole sum.
        assert(sat_score(sat_score(runs_accounted(prefix)) + delta) == sat_score(
            runs_accounted(prefix) + delta,
        ));
    }
}

/// The laws every finished half inning obeys: at least one batter came up,
/// the snapshots chain by [`half_inning_step`], exactly three outs end it,
/// the outcome repeats the last snapshot's score, the hit tally counts the
/// at-bats that put a hit on the board, and the runs never exceed three more
/// than the walks and hits.
pub open spec fn half_record_ok(r: HalfInningRecord) -> bool {
    &&& r.at_bats@.len() > 0
    &&& valid_half_inning(r.at_bats@)
    &&& r.at_bats@.last().1.outs == 3
    &&& r.outcome.runs_scored == r.at_bats@.last().1.score_change
    &&& r.outcome.total_hits == sat_tally(hits_in(r.at_bats@))
    &&& r.outcome.runs_scored <= 3 + walks_in(r.at_bats@) + hits_in(r.at_bats@)
}

/// The lineup slot after a given one, wrapping past the ninth batter.
pub open spec fn next_slot(i: u8) -> u8 {
    if i + 1 == 9 {
        0
    } else {
        (i + 1) as u8
    }
}

/// Every snapshot of the record follows from the one before it by the at-bat
/// between them, the first from an empty diamond.
pub open spec fn valid_half_inning(at_bats: Seq<(AtBatRecord, HalfInningProgress)>) -> bool {
    &&& forall|i: int|
        0 < i < at_bats.len() ==> half_inning_step(
            at_bats[i - 1].1,
            (#[trigger] at_bats[i]).0,
            at_bats[i].1,
        )
    &&& (at_bats.len() > 0 ==> half_inning_step(empty_progress(), at_bats[0].0, at_bats[0].1))
    &&& forall|i: int| 0 <= i < at_bats.len() - 1 ==> (#[trigger] at_bats[i]).1.outs < 3
    &&& forall|i: int| 0 <= i < at_bats.len() ==> (#[trigger] at_bats[i]).1.outs <= 3
}


/// Adds to a score, absorbing at the largest score.
fn sat_add_score(a: Score, b: Score) -> (r: Score)
    ensures
        r == sat_score(a + b),
{
    if b > 65535 - a {
        65535
    } else {
        a + b
    }
}

/// Adds to a hit tally, absorbing at the largest tally.
fn sat_add_tally(a: u8, b: u8) -> (r: u8)
    ensures
        r == sat_tally(a + b),
{
    if b > 255 - a {
        255
    } else {
        a + b
    }
}

/// How many bases are occupied.
fn occupied_of(bases: &BaseState) -> (r: u8)
    ensures
        r as int == occupied_count(*bases),
        r <= 3,
{
    let mut count: u8 = 0;
    if bases[0].is_some() {
        count = count + 1;
    }
    if bases[1].is_some() {
        count = count + 1;
    }
    if bases[2].is_some() {
        count = count + 1;
    }
    count
}

/// Applies one finished at-bat to the half inning's state, returning the new
/// bases, outs remaining, score and hit tally. The change is exactly one
/// [`half_inning_step`], and the running totals move by the at-bat's credit.
fn apply_at_bat(
    bases: BaseState,
    outs_remaining: u8,
    runs_scored: Score,
    total_hits: u8,
    batting_index: u8,
    at_bat_record: &AtBatRecord,
) -> (r: (BaseState, u8, Score, u8))
    requires
        1 <= outs_remaining <= 3,
        total_hits as int == sat_tally(total_hits as int),
        at_bat_record.outcome.outcome_type matches AtBatOutcomeType::Hit(hr)
            ==> crate::hit::hit_record_ok(hr, bases, at_bat_record.batter_index),
    ensures
        half_inning_step(
            progress_of(bases, runs_scored, outs_remaining),
            *at_bat_record,
            progress_of(r.0, r.2, r.1),
        ),
        at_bat_record.outcome.outcome_type is Walk ==> r.0[0] == Some(batting_index) && r.0[1]
            == (if bases[0] is Some {
            bases[0]
        } else {
            bases[1]
        }) && r.0[2] == (if bases[0] is Some && bases[1] is Some {
            bases[1]
        } else {
            bases[2]
        }),
        at_bat_record.outcome.outcome_type is Out ==> r.0 == bases,
        at_bat_record.outcome.outcome_type matches AtBatOutcomeType::Hit(hr) ==> (hr.outcome
            is HomeRun ==> r.0[0] is None && r.0[1] is None && r.0[2] is None),
        at_bat_record.outcome.outcome_type matches AtBatOutcomeType::Hit(hr) ==> (hr.outcome
            matches HitOutcome::InPlay(fr) ==> r.0
            == fr.base_running_record.outcome.ending_base_state),
        r.1 <= outs_remaining,
        r.3 as int == sat_tally(total_hits + ab_hit_credit(*at_bat_record)),
        r.2 + occupied_count(r.0) + r.1 <= runs_scored + occupied_count(bases) + outs_remaining
            + ab_hit_credit(*at_bat_record) + if at_bat_record.outcome.outcome_type is Walk {
            1int
        } else {
            0int
        },
{
    let mut bases = bases;
    let mut outs_remaining = outs_remaining;
    let mut runs_scored = runs_scored;
    let mut total_hits = total_hits;

    match &at_bat_record.outcome.outcome_type {
        AtBatOutcomeType::Hit(hit_record) => {
            match &hit_record.outcome {
                HitOutcome::HomeRun => {
                    total_hits = sat_add_tally(total_hits, 1);
                    let runners: u8 = occupied_of(&bases);
                    runs_scored = sat_add_score(runs_scored, runners as Score + 1);
                    bases = [None, None, None];
                },
                HitOutcome::InPlay(fielding) => {
                    let credit: u8 = match &fielding.landing {
                        BallLanding::Out(_, _) => 0,
                        BallLanding::Landed(_, _) => 1,
                    };
                    total_hits = sat_add_tally(total_hits, credit);
                    let play = &fielding.base_running_record.outcome;
                    outs_remaining = if play.outs_made >= outs_remaining {
                        0
                    } else {
                        outs_remaining - play.outs_made
                    };
                    runs_scored = sat_add_score(runs_scored, play.runs_scored as Score);
                    bases = play.ending_base_state;
                },
            }
        },
        AtBatOutcomeType::Walk => {
            let loaded = bases[0].is_some() && bases[1].is_some() && bases[2].is_some();
            if loaded {
                runs_scored = sat_add_score(runs_scored, 1);
            }
            let to_third = if bases[0].is_some() && bases[1].is_some() {
                bases[1]
            } else {
                bases[2]
            };
            let to_second = if bases[0].is_some() {
                bases[0]
            } else {
                bases[1]
            };
            bases = [Some(batting_index), to_second, to_third];
        },
        AtBatOutcomeType::Out => {
            outs_remaining = outs_remaining - 1;
        },
    }

    (bases, outs_remaining, runs_scored, total_hits)
}

/// Simulates a half inning: batters from `starting_index` onwards, wrapping
/// around the nine-man lineup, until three outs are in.
///
/// The recorded at-bats form a valid chain of progress snapshots
/// ([`valid_half_inning`]); the half inning ends with exactly three outs on
/// the board; the outcome repeats the last snapshot's score; and the runs
/// scored never exceed three more than the walks and hits of the half
/// inning. A decider out of draws strikes the remaining batters out.
#[verifier::rlimit(100)]
pub fn simulate_half_inning<D: Decider>(
    starting_index: u8,
    batting_team: &Team,
    fielding_team: &Team,
    decider: &mut D,
) -> (r: HalfInningRecord)
    requires
        batting_team.wf(),
        fielding_team.wf(),
        starting_index < 9,
    ensures
        decides(old(decider).entropy(), final(decider).entropy()),
        r.at_bats@.len() > 0,
        valid_half_inning(r.at_bats@),
        r.at_bats@[0].0.batter_index == starting_index,
        forall|i: int|
            0 < i < r.at_bats@.len() ==> (#[trigger] r.at_bats@[i]).0.batter_index == next_slot(
                r.at_bats@[i - 1].0.batter_index,
            ),
        r.at_bats@.last().1.outs == 3,
        r.outcome.runs_scored == r.at_bats@.last().1.score_change,
        r.outcome.total_hits == sat_tally(hits_in(r.at_bats@)),
        r.outcome.runs_scored <= 3 + walks_in(r.at_bats@) + hits_in(r.at_bats@),
        half_record_ok(r),
        forall|i: int| 0 <= i < r.at_bats@.len() ==> play_counts_ok((#[trigger] r.at_bats@[i]).0),
{
    let mut bases: BaseState = [None, None, None];
    let mut outs_remaining: u8 = 3;
    let mut runs_scored: Score = 0;
    let mut total_hits: u8 = 0;
    let mut at_bats: Vec<(AtBatRecord, HalfInningProgress)> = Vec::new();
    let mut batting_index: u8 = starting_index;

    while outs_remaining > 0
        invariant
            batting_team.wf(),
            fielding_team.wf(),
            starting_index < 9,
            batting_index < 9,
            outs_remaining <= 3,
            valid_half_inning(at_bats@),
            at_bats@.len() == 0 ==> batting_index == starting_index && outs_remaining == 3
                && runs_scored == 0 && total_hits == 0 && bases[0] is None && bases[1] is None
                && bases[2] is None,
            at_bats@.len() > 0 ==> at_bats@[0].0.batter_index == starting_index && batting_index
                == next_slot(at_bats@.last().0.batter_index),
            forall|i: int|
                0 < i < at_bats@.len() ==> (#[trigger] at_bats@[i]).0.batter_index == next_slot(
                    at_bats@[i - 1].0.batter_index,
                ),
            at_bats@.len() > 0 ==> at_bats@.last().1 == progress_of(
                bases,
                runs_scored,
                outs_remaining,
            ),
            total_hits as int == sat_tally(hits_in(at_bats@)),
            forall|i: int| 0 <= i < at_bats@.len() ==> play_counts_ok((#[trigger] at_bats@[i]).0),
            runs_scored + occupied_count(bases) <= walks_in(at_bats@) + hits_in(at_bats@) + 3
                - outs_remaining,
            decider.entropy() <= old(decider).entropy(),
            at_bats@.len() > 0 && old(decider).entropy() > 0 ==> decider.entropy() < old(
                decider,
            ).entropy(),
        decreases decider.entropy(), outs_remaining,
    {
        let ghost prev_progress = if at_bats@.len() == 0 {
            empty_progress()
        } else {
            at_bats@.last().1
        };
        let at_bat_record = simulate_at_bat(
            batting_index,
            batting_team,
            fielding_team,
            decider,
            &bases,
        );

        let (new_bases, new_outs, new_runs, new_hits) = apply_at_bat(
            bases,
            outs_remaining,
            runs_scored,
            total_hits,
            batting_index,
            &at_bat_record,
        );
        bases = new_bases;
        outs_remaining = new_outs;
        runs_scored = new_runs;
        total_hits = new_hits;

        let progress = HalfInningProgress {
            bases: [bases[0].is_some(), bases[1].is_some(), bases[2].is_some()],
            score_change: runs_scored,
            outs: 3 - outs_remaining,
        };
        proof {
            assert(progress == progress_of(bases, runs_scored, outs_remaining));
            assert(half_inning_step(prev_progress, at_bat_record, progress));
            assert(play_counts_ok(at_bat_record));
        }
        let ghost prior = at_bats@;
        at_bats.push((at_bat_record, progress));
        proof {
            assert(at_bats@.drop_last() =~= prior);
            assert(valid_half_inning(at_bats@));
        }
        batting_index = if batting_index + 1 == 9 {
            0
        } else {
            batting_index + 1
        };
    }

    let outcome = HalfInningOutcome { runs_scored, total_hits };

    HalfInningRecord { at_bats, outcome }
}

} // verus!
