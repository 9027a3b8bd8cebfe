//! Game-level tests: determinism under a replayed script, regulation length,
//! and the home-run check on a deterministic flight.

use replaceball_sim::at_bat::AtBatOutcomeType;
use replaceball_sim::base_running::MoveType;
use replaceball_sim::fielding::simulate_fielding;
use replaceball_sim::half_inning::HalfInningRecord;
use replaceball_sim::game::{simulate_game, simulate_game_with_teams};
use replaceball_sim::hit::HitOutcome;
use replaceball_sim::player::Team;
use replaceball_sim::script::ScriptDecider;

/// A fixed pseudo-arbitrary script, long enough to play real baseball before
/// it runs dry.
fn long_script() -> Vec<i64> {
    let mut script = Vec::new();
    let mut x: i64 = 7;
    for _ in 0..4000 {
        x = (x * 1103515245 + 12345) % 100_000;
        script.push(x);
    }
    script
}

#[test]
fn replaying_a_script_reproduces_the_game_exactly() {
    let mut first = ScriptDecider::new(long_script());
    let mut second = ScriptDecider::new(long_script());

    let one = simulate_game(&mut first);
    let two = simulate_game(&mut second);

    assert_eq!(one, two);
}

#[test]
fn a_spent_decider_still_plays_nine_innings() {
    let mut decider = ScriptDecider::new(Vec::new());

    let record = simulate_game(&mut decider);

    assert_eq!(record.innings.len(), 9);
    assert_eq!(record.outcome.away_score, 0);
    assert_eq!(record.outcome.home_score, 0);
    assert_eq!(record.outcome.away_hits, 0);
    assert_eq!(record.outcome.home_hits, 0);
}

#[test]
fn scores_accumulate_across_innings() {
    let mut decider = ScriptDecider::new(long_script());
    let home = Team::default();
    let away = Team::default();

    let record = simulate_game_with_teams(&mut decider, &home, &away);

    assert!(record.innings.len() >= 9);
    let mut away_score = 0u32;
    let mut home_score = 0u32;
    for (inning, progress) in record.innings.iter() {
        away_score += inning.outcome.away.runs_scored as u32;
        home_score += inning.outcome.home.runs_scored as u32;
        assert_eq!(progress.away_score as u32, away_score);
        assert_eq!(progress.home_score as u32, home_score);
        assert_eq!(inning.outcome.away, inning.away.outcome);
        assert_eq!(inning.outcome.home, inning.home.outcome);
        assert_eq!(inning.away.at_bats.last().unwrap().1.outs, 3);
        assert_eq!(inning.home.at_bats.last().unwrap().1.outs, 3);
    }
    assert_eq!(record.outcome.away_score as u32, away_score);
    assert_eq!(record.outcome.home_score as u32, home_score);
}

/// Recomputes a half inning's runs from its raw records: walks that forced a
/// run, home runs with the runners aboard, and movements that crossed home.
fn recount_runs(half: &HalfInningRecord) -> u32 {
    let mut runs = 0u32;
    let mut bases = [false, false, false];
    for (at_bat, _) in half.at_bats.iter() {
        match &at_bat.outcome.outcome_type {
            AtBatOutcomeType::Walk => {
                if bases[0] && bases[1] && bases[2] {
                    runs += 1;
                }
                bases = [true, bases[0] || bases[1], (bases[0] && bases[1]) || bases[2]];
            },
            AtBatOutcomeType::Out => {},
            AtBatOutcomeType::Hit(hit) => match &hit.outcome {
                replaceball_sim::hit::HitOutcome::HomeRun => {
                    runs += bases.iter().filter(|b| **b).count() as u32 + 1;
                    bases = [false, false, false];
                },
                replaceball_sim::hit::HitOutcome::InPlay(fielding) => {
                    for movement in fielding.base_running_record.movements.iter() {
                        if let MoveType::Advanced(n) = movement.bases_moved {
                            let scored = match movement.starting_base {
                                Some(base) => base + n >= 3,
                                None => n >= 4,
                            };
                            if scored {
                                runs += 1;
                            }
                        }
                    }
                    let ending = fielding.base_running_record.outcome.ending_base_state;
                    bases = [ending[0].is_some(), ending[1].is_some(), ending[2].is_some()];
                },
            },
        }
    }
    runs
}

#[test]
fn runs_scored_equal_the_movements_that_crossed_home() {
    let mut decider = ScriptDecider::new(long_script());
    let record = simulate_game(&mut decider);

    let mut total = 0u32;
    for (inning, _) in record.innings.iter() {
        for half in [&inning.away, &inning.home] {
            assert_eq!(half.outcome.runs_scored as u32, recount_runs(half));
            total += half.outcome.runs_scored as u32;
        }
    }
    assert_eq!(
        total,
        record.outcome.away_score as u32 + record.outcome.home_score as u32
    );
}

#[test]
fn a_deep_drive_to_center_clears_the_wall() {
    // Thirty degrees of launch at the full exit speed lands past four hundred
    // feet: a home run with no fielding draw taken.
    let mut decider = ScriptDecider::new(Vec::new());
    let team = Team::default();
    let bases = [None, None, None];

    let outcome = simulate_fielding(45_000, 30_000, 250_000, 0, &team, &team, &bases, &mut decider);

    assert!(matches!(outcome, HitOutcome::HomeRun));
}

#[test]
fn a_soft_grounder_stays_in_the_park() {
    let mut decider = ScriptDecider::new(vec![20_000; 64]);
    let team = Team::default();
    let bases = [None, None, None];

    let outcome = simulate_fielding(45_000, 0, 50_000, 0, &team, &team, &bases, &mut decider);

    match outcome {
        HitOutcome::HomeRun => panic!("a thirty-foot grounder left the park"),
        HitOutcome::InPlay(record) => {
            let play = &record.base_running_record.outcome;
            // Nobody was on: the play makes at most one out and scores
            // nobody.
            assert_eq!(play.runs_scored, 0);
            assert!(play.outs_made <= 1);
            // Outs recorded match the out movements.
            let outs_in_movements = record
                .base_running_record
                .movements
                .iter()
                .filter(|m| matches!(m.bases_moved, replaceball_sim::base_running::MoveType::Out(_)))
                .count();
            assert_eq!(play.outs_made as usize, outs_in_movements);
        },
    }
}
