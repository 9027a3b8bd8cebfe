//! The game: nine regulation innings, then extra innings while the score is
//! tied, each side's lineup position carrying over from inning to inning.

use vstd::arithmetic::div_mod::lemma_add_mod_noop_right;
use vstd::prelude::*;

use crate::decides;
use crate::inning::{inning_ok, simulate_inning, InningRecord};
use crate::player::Team;
use crate::{Decider, Score};

verus! {

/// The score of a game, in runs and hits per side.
#[derive(Clone, Copy, Debug, PartialEq, Eq, Structural)]
pub struct GameOutcome {
    pub home_score: Score,
    pub home_hits: u16,
    pub away_score: Score,
    pub away_hits: u16,
}

/// The running score after an inning: the same shape as the final outcome.
pub type GameProgress = GameOutcome;

/// A full game: every inning with the score after it, and the final score.
#[derive(Clone, Debug, PartialEq)]
pub struct GameRecord {
    pub innings: Vec<(InningRecord, GameProgress)>,
    pub outcome: GameOutcome,
}

/// A sum of scores or hit counts capped at the largest score.
pub open spec fn sat_wide(x: int) -> int {
    if x <= 65535 {
        x
    } else {
        65535
    }
}

/// The score before the first pitch.
pub open spec fn zero_progress() -> GameProgress {
    GameOutcome { home_score: 0, home_hits: 0, away_score: 0, away_hits: 0 }
}

/// How one inning moves the score forward: each side's runs and hits are
/// added to its totals.
pub open spec fn game_step(prev: GameProgress, inning: InningRecord, next: GameProgress) -> bool {
    &&& next.away_score == sat_wide(prev.away_score + inning.outcome.away.runs_scored)
    &&& next.home_score == sat_wide(prev.home_score + inning.outcome.home.runs_scored)
    &&& next.away_hits == sat_wide(prev.away_hits + inning.outcome.away.total_hits)
    &&& next.home_hits == sat_wide(prev.home_hits + inning.outcome.home.total_hits)
}

/// Every recorded score follows from the one before it by the inning between
/// them, starting from nothing to nothing, and every inning obeys the inning
/// laws.
pub open spec fn valid_game(innings: Seq<(InningRecord, GameProgress)>) -> bool {
    &&& forall|i: int|
        0 < i < innings.len() ==> game_step(
            innings[i - 1].1,
            (#[trigger] innings[i]).0,
            innings[i].1,
        )
    &&& (innings.len() > 0 ==> game_step(zero_progress(), innings[0].0, innings[0].1))
    &&& forall|i: int| 0 <= i < innings.len() ==> inning_ok((#[trigger] innings[i]).0)
}

/// The away at-bats taken over a run of innings.
pub open spec fn away_at_bats_in(innings: Seq<(InningRecord, GameProgress)>) -> int
    decreases innings.len(),
{
    if innings.len() == 0 {
        0
    } else {
        away_at_bats_in(innings.drop_last()) + innings.last().0.away.at_bats@.len()
    }
}

/// The home at-bats taken over a run of innings.
pub open spec fn home_at_bats_in(innings: Seq<(InningRecord, GameProgress)>) -> int
    decreases innings.len(),
{
    if innings.len() == 0 {
        0
    } else {
        home_at_bats_in(innings.drop_last()) + innings.last().0.home.at_bats@.len()
    }
}

/// Each side's lineup carries over from inning to inning: every inning's
/// first batter stands at the slot after the side's at-bats taken so far,
/// around the nine-man order.
pub open spec fn lineup_continuous(innings: Seq<(InningRecord, GameProgress)>) -> bool {
    forall|i: int|
        0 <= i < innings.len() ==> (#[trigger] innings[i]).0.away.at_bats@[0].0.batter_index
            == away_at_bats_in(innings.subrange(0, i)) % 9 && innings[i].0.home.at_bats@[0].0
            .batter_index == home_at_bats_in(innings.subrange(0, i)) % 9
}

/// At-bat tallies are counts: never negative.
proof fn lemma_at_bats_in_nonneg(innings: Seq<(InningRecord, GameProgress)>)
    ensures
        away_at_bats_in(innings) >= 0,
        home_at_bats_in(innings) >= 0,
    decreases innings.len(),
{
    if innings.len() > 0 {
        lemma_at_bats_in_nonneg(innings.drop_last());
    }
}

/// Reading a lineup slot modulo nine and then advancing lands where advancing
/// first would.
proof fn lemma_mod_then_add(a: int, l: int)
    requires
        a >= 0,
        l >= 0,
    ensures
        (a % 9 + l) % 9 == (a + l) % 9,
{
    lemma_add_mod_noop_right(l, a, 9);
}

/// Adds runs or hits to a running total, absorbing at the cap.
fn wide_add(a: u16, b: u16) -> (r: u16)
    ensures
        r == sat_wide(a + b),
{
    if b > 65535 - a {
        65535
    } else {
        a + b
    }
}

/// Advances a lineup position by the number of batters who came up, wrapping
/// around the nine-man order.
fn advance_lineup(index: u8, batters: usize) -> (r: u8)
    requires
        index < 9,
    ensures
        r < 9,
        r == (index + batters) % 9,
{
    let step: usize = batters % 9;
    let sum: usize = index as usize + step;
    proof {
        lemma_add_mod_noop_right(index as int, batters as int, 9);
        if sum >= 9 {
            assert(sum % 9 == sum - 9) by (nonlinear_arith)
                requires 9 <= sum < 18;
        }
    }
    if sum >= 9 {
        (sum - 9) as u8
    } else {
        sum as u8
    }
}

/// Simulates a game with league-average teams.
pub fn simulate_game<D: Decider>(decider: &mut D) -> (r: GameRecord)
    ensures
        decides(old(decider).entropy(), final(decider).entropy()),
        r.innings@.len() >= 9,
        valid_game(r.innings@),
        r.outcome == r.innings@.last().1,
        r.outcome.away_score != r.outcome.home_score || final(decider).entropy() == 0,
        forall|i: int|
            8 <= i < r.innings@.len() - 1 ==> (#[trigger] r.innings@[i]).1.away_score
                == r.innings@[i].1.home_score,
        lineup_continuous(r.innings@),
{
    let home_team = Team::default();
    let away_team = Team::default();
    simulate_game_with_teams(decider, &home_team, &away_team)
}

/// Simulates a full game between the given teams: nine regulation innings,
/// then extra innings while the score stays tied.
///
/// The recorded scores form a valid chain; the game runs at least nine
/// innings; an extra inning is played exactly when the score after the
/// previous one was tied; and the final score is the last snapshot's. A game
/// can end tied only when the decider ran out of draws.
#[verifier::rlimit(100)]
pub fn simulate_game_with_teams<D: Decider>(
    decider: &mut D,
    home_team: &Team,
    away_team: &Team,
) -> (r: GameRecord)
    requires
        home_team.wf(),
        away_team.wf(),
    ensures
        decides(old(decider).entropy(), final(decider).entropy()),
        r.innings@.len() >= 9,
        valid_game(r.innings@),
        r.outcome == r.innings@.last().1,
        r.outcome.away_score != r.outcome.home_score || final(decider).entropy() == 0,
        forall|i: int|
            8 <= i < r.innings@.len() - 1 ==> (#[trigger] r.innings@[i]).1.away_score
                == r.innings@[i].1.home_score,
        lineup_continuous(r.innings@),
{
    let mut away_score: Score = 0;
    let mut away_hits: u16 = 0;
    let mut away_batting_index: u8 = 0;

    let mut home_score: Score = 0;
    let mut home_hits: u16 = 0;
    let mut home_batting_index: u8 = 0;

    let mut running_innings: Vec<(InningRecord, GameProgress)> = Vec::new();

    let mut played: u8 = 0;
    while played < 9
        invariant
            home_team.wf(),
            away_team.wf(),
            away_batting_index < 9,
            home_batting_index < 9,
            played <= 9,
            running_innings@.len() == played,
            valid_game(running_innings@),
            running_innings@.len() > 0 ==> running_innings@.last().1 == (GameOutcome {
                home_score,
                home_hits,
                away_score,
                away_hits,
            }),
            running_innings@.len() == 0 ==> away_score == 0 && home_score == 0 && away_hits == 0
                && home_hits == 0,
            away_batting_index as int == away_at_bats_in(running_innings@) % 9,
            home_batting_index as int == home_at_bats_in(running_innings@) % 9,
            lineup_continuous(running_innings@),
            decider.entropy() <= old(decider).entropy(),
            running_innings@.len() > 0 && old(decider).entropy() > 0 ==> decider.entropy() < old(
                decider,
            ).entropy(),
        decreases 9 - played,
    {
        let inning = simulate_inning(
            away_batting_index,
            away_team,
            home_batting_index,
            home_team,
            decider,
        );

        away_score = wide_add(away_score, inning.outcome.away.runs_scored);
        home_score = wide_add(home_score, inning.outcome.home.runs_scored);
        away_hits = wide_add(away_hits, inning.outcome.away.total_hits as u16);
        home_hits = wide_add(home_hits, inning.outcome.home.total_hits as u16);

        let ghost prior = running_innings@;
        away_batting_index = advance_lineup(away_batting_index, inning.away.at_bats.len());
        home_batting_index = advance_lineup(home_batting_index, inning.home.at_bats.len());

        let progress = GameProgress { away_score, away_hits, home_score, home_hits };
        running_innings.push((inning, progress));
        proof {
            assert(running_innings@.drop_last() =~= prior);
            lemma_at_bats_in_nonneg(prior);
            lemma_mod_then_add(away_at_bats_in(prior), inning.away.at_bats@.len() as int);
            lemma_mod_then_add(home_at_bats_in(prior), inning.home.at_bats@.len() as int);
            assert forall|i: int|
                0 <= i < running_innings@.len() implies (#[trigger] running_innings@[i]).0.away
                .at_bats@[0].0.batter_index == away_at_bats_in(
                running_innings@.subrange(0, i),
            ) % 9 && running_innings@[i].0.home.at_bats@[0].0.batter_index == home_at_bats_in(
                running_innings@.subrange(0, i),
            ) % 9 by {
                assert(running_innings@.subrange(0, i) =~= prior.subrange(0, i));
                if i == prior.len() {
                    assert(prior.subrange(0, i) =~= prior);
                }
            }
        }
        played = played + 1;
    }

    while away_score == home_score && decider.draws_left() > 0
        invariant
            home_team.wf(),
            away_team.wf(),
            away_batting_index < 9,
            home_batting_index < 9,
            running_innings@.len() >= 9,
            valid_game(running_innings@),
            running_innings@.last().1 == (GameOutcome {
                home_score,
                home_hits,
                away_score,
                away_hits,
            }),
            forall|i: int|
                8 <= i < running_innings@.len() - 1 ==> (#[trigger] running_innings@[i]).1
                    .away_score == running_innings@[i].1.home_score,
            away_batting_index as int == away_at_bats_in(running_innings@) % 9,
            home_batting_index as int == home_at_bats_in(running_innings@) % 9,
            lineup_continuous(running_innings@),
            decider.entropy() <= old(decider).entropy(),
            old(decider).entropy() > 0 ==> decider.entropy() < old(decider).entropy(),
        decreases decider.entropy(),
    {
        let inning = simulate_inning(
            away_batting_index,
            away_team,
            home_batting_index,
            home_team,
            decider,
        );

        away_score = wide_add(away_score, inning.outcome.away.runs_scored);
        home_score = wide_add(home_score, inning.outcome.home.runs_scored);
        away_hits = wide_add(away_hits, inning.outcome.away.total_hits as u16);
        home_hits = wide_add(home_hits, inning.outcome.home.total_hits as u16);

        let ghost prior = running_innings@;
        away_batting_index = advance_lineup(away_batting_index, inning.away.at_bats.len());
        home_batting_index = advance_lineup(home_batting_index, inning.home.at_bats.len());

        let progress = GameProgress { away_score, away_hits, home_score, home_hits };
        running_innings.push((inning, progress));
        proof {
            assert(running_innings@.drop_last() =~= prior);
            lemma_at_bats_in_nonneg(prior);
            lemma_mod_then_add(away_at_bats_in(prior), inning.away.at_bats@.len() as int);
            lemma_mod_then_add(home_at_bats_in(prior), inning.home.at_bats@.len() as int);
            assert forall|i: int|
                0 <= i < running_innings@.len() implies (#[trigger] running_innings@[i]).0.away
                .at_bats@[0].0.batter_index == away_at_bats_in(
                running_innings@.subrange(0, i),
            ) % 9 && running_innings@[i].0.home.at_bats@[0].0.batter_index == home_at_bats_in(
                running_innings@.subrange(0, i),
            ) % 9 by {
                assert(running_innings@.subrange(0, i) =~= prior.subrange(0, i));
                if i == prior.len() {
                    assert(prior.subrange(0, i) =~= prior);
                }
            }
            assert(valid_game(running_innings@));
            assert forall|i: int|
                8 <= i < running_innings@.len() - 1 implies (#[trigger] running_innings@[i]).1
                .away_score == running_innings@[i].1.home_score by {
                if i < prior.len() - 1 {
                    assert(prior[i].1.away_score == prior[i].1.home_score);
                } else {
                    assert(running_innings@[i] == prior.last());
                }
            }
        }
    }

    GameRecord {
        innings: running_innings,
        outcome: GameOutcome { home_score, home_hits, away_score, away_hits },
    }
}

} // verus!
