//! Scenario tests of the simulation engine, driven by scripted deciders.

use replaceball_sim::at_bat::{simulate_at_bat, AtBatOutcomeType};
use replaceball_sim::base_running::{simulate_base_running, BaseMovement, MoveType};
use replaceball_sim::fielding::{BallLanding, Fielder, FieldingEvent, FieldingPlay};
use replaceball_sim::half_inning::simulate_half_inning;
use replaceball_sim::location::Location;
use replaceball_sim::player::Team;
use replaceball_sim::script::ScriptDecider;
use replaceball_sim::Decider;

/// Pitch draws that throw a ball the batter lets go: a location cell, a
/// nonzero ball flip, a zero swing flip.
fn ball_taken() -> Vec<i64> {
    vec![0, 1, 0]
}

/// Pitch draws for a called strike: a location cell, a zero ball flip, a zero
/// swing flip.
fn strike_taken() -> Vec<i64> {
    vec![0, 0, 0]
}

/// Pitch draws for a foul ball: location, strike, swing, contact, foul.
fn foul_ball() -> Vec<i64> {
    vec![0, 0, 1, 1, 1]
}

#[test]
fn four_straight_balls_walk_in_four_pitches() {
    let mut script = Vec::new();
    for _ in 0..4 {
        script.extend(ball_taken());
    }
    let mut decider = ScriptDecider::new(script);
    let team = Team::default();
    let bases = [None, None, None];

    let record = simulate_at_bat(0, &team, &team, &mut decider, &bases);

    assert!(matches!(record.outcome.outcome_type, AtBatOutcomeType::Walk));
    assert_eq!(record.pitches.len(), 4);
    for (i, (_, progress)) in record.pitches.iter().enumerate() {
        assert_eq!(progress.balls as usize, i + 1);
        assert_eq!(progress.strikes, 0);
    }
}

#[test]
fn three_straight_strikes_strike_out_in_three_pitches() {
    let mut script = Vec::new();
    for _ in 0..3 {
        script.extend(strike_taken());
    }
    let mut decider = ScriptDecider::new(script);
    let team = Team::default();
    let bases = [None, None, None];

    let record = simulate_at_bat(0, &team, &team, &mut decider, &bases);

    assert!(matches!(record.outcome.outcome_type, AtBatOutcomeType::Out));
    assert_eq!(record.pitches.len(), 3);
    assert_eq!(record.pitches[2].1.strikes, 3);
    assert_eq!(record.pitches[2].1.balls, 0);
}

#[test]
fn fouls_never_complete_a_strikeout() {
    let mut script = Vec::new();
    script.extend(strike_taken());
    script.extend(strike_taken());
    script.extend(foul_ball());
    script.extend(foul_ball());
    script.extend(strike_taken());
    let mut decider = ScriptDecider::new(script);
    let team = Team::default();
    let bases = [None, None, None];

    let record = simulate_at_bat(0, &team, &team, &mut decider, &bases);

    assert_eq!(record.pitches.len(), 5);
    let strikes: Vec<u8> = record.pitches.iter().map(|(_, p)| p.strikes).collect();
    assert_eq!(strikes, vec![1, 2, 2, 2, 3]);
    assert!(matches!(record.outcome.outcome_type, AtBatOutcomeType::Out));
}

#[test]
fn bases_loaded_force_at_home_chains_three_outs() {
    // A throw home arriving almost instantly, with glacial runners and a
    // glacial batter: out at home, a relay to third, and the turn to second
    // ends the inning on the spot.
    let play = FieldingPlay {
        from: Fielder::Pitcher,
        from_event: FieldingEvent {
            location: Location { direction: 45_000, distance: 60_000 },
            travel_time: 1,
        },
        to: Fielder::Catcher,
        to_event: FieldingEvent {
            location: Location { direction: 45_000, distance: 1_000 },
            travel_time: 1,
        },
        base: 3,
    };
    let landing = BallLanding::Landed(Location { direction: 45_000, distance: 60_000 }, play);
    let bases = [Some(0u8), Some(1u8), Some(2u8)];
    let script = vec![
        150_000, // the fielder's throw speed
        1,       // the batter barely moves
        0,       // box exit time, clamped up to its floor
        1,       // the runner from third barely moves
        0,       // takeoff delay, clamped up
        150_000, // home-to-third relay speed
        0,       // transfer time, clamped up
        1,       // the runner from second barely moves
        0,       // takeoff delay, clamped up
        150_000, // third-to-first relay speed
        0,       // transfer time, clamped up
    ];
    let mut decider = ScriptDecider::new(script);
    let team = Team::default();

    let record = simulate_base_running(3, &team, &team, &landing, &bases, &mut decider);

    assert_eq!(record.outcome.outs_made, 3);
    assert_eq!(record.outcome.runs_scored, 0);
    // Every forced runner's base is vacated; the batter stands at first on
    // the fielder's choice.
    assert_eq!(record.outcome.ending_base_state, [Some(3), None, None]);
    assert_eq!(
        record.movements[0],
        BaseMovement { starting_base: Some(2), bases_moved: MoveType::Out(3) }
    );
    assert_eq!(
        record.movements[1],
        BaseMovement { starting_base: Some(1), bases_moved: MoveType::Out(2) }
    );
    assert_eq!(
        record.movements[2],
        BaseMovement { starting_base: Some(0), bases_moved: MoveType::Out(1) }
    );
}

#[test]
fn runner_on_third_tags_up_and_scores_on_a_deep_fly() {
    let landing = BallLanding::Out(
        Fielder::CenterFielder,
        Location { direction: 45_000, distance: 300_000 },
    );
    let bases = [None, None, Some(5u8)];
    let script = vec![
        1,      // a weak outfield arm: the throw crawls home
        40_000, // the runner from third flies
    ];
    let mut decider = ScriptDecider::new(script);
    let team = Team::default();

    let record = simulate_base_running(3, &team, &team, &landing, &bases, &mut decider);

    assert_eq!(record.movements.len(), 1);
    assert_eq!(
        record.movements[0],
        BaseMovement { starting_base: Some(2), bases_moved: MoveType::Advanced(1) }
    );
    assert_eq!(record.outcome.runs_scored, 1);
    assert_eq!(record.outcome.outs_made, 1);
    assert_eq!(record.outcome.ending_base_state, [None, None, None]);
}

#[test]
fn spent_decider_ends_a_half_inning_on_three_quick_outs() {
    let mut decider = ScriptDecider::new(Vec::new());
    let team = Team::default();

    let record = simulate_half_inning(0, &team, &team, &mut decider);

    assert_eq!(record.at_bats.len(), 3);
    assert_eq!(record.at_bats[2].1.outs, 3);
    assert_eq!(record.outcome.runs_scored, 0);
    assert_eq!(record.outcome.total_hits, 0);
}

#[test]
fn walking_the_bases_full_forces_in_a_run() {
    let mut script = Vec::new();
    for _ in 0..4 {
        for _ in 0..4 {
            script.extend(ball_taken());
        }
    }
    let mut decider = ScriptDecider::new(script);
    let team = Team::default();

    let record = simulate_half_inning(0, &team, &team, &mut decider);

    // Four walks load the bases and force in one run; the spent script then
    // retires the rest.
    assert_eq!(record.outcome.runs_scored, 1);
    assert_eq!(record.outcome.total_hits, 0);
    assert_eq!(record.at_bats[2].1.bases, [true, true, true]);
    assert_eq!(record.at_bats[3].1.score_change, 1);
    assert_eq!(record.at_bats[3].1.bases, [true, true, true]);
    assert_eq!(record.at_bats.last().unwrap().1.outs, 3);
}

#[test]
fn walks_only_push_forced_runners() {
    // A walk with a runner on second and first open leaves the runner where
    // he stands.
    let mut script = Vec::new();
    for _ in 0..4 {
        script.extend(ball_taken());
    }
    let mut decider = ScriptDecider::new(script);
    let team = Team::default();
    let bases = [None, Some(4u8), None];

    let record = simulate_at_bat(7, &team, &team, &mut decider, &bases);
    assert!(matches!(record.outcome.outcome_type, AtBatOutcomeType::Walk));
    // The base logic itself lives in the half-inning step; the at-bat only
    // reports the walk. Exercise the decider count too.
    assert_eq!(decider.draws_left(), 0);
}
