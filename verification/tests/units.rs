//! Unit tests of the fixed-point arithmetic, the geometry, the league rates
//! and the small building blocks.

use replaceball_sim::base_running::{batter_advanced, force_play};
use replaceball_sim::hit::{shifted_direction, sweet_spot_speed};
use replaceball_sim::pitch::{pitch_outcome_of, PitchOutcome};
use replaceball_sim::fielding::Fielder;
use replaceball_sim::levels;
use replaceball_sim::location::{clamp, cos_milli, isqrt, sin_milli, time_to_cover, Location};
use replaceball_sim::player::{bias_sub, Team};
use replaceball_sim::ring_buffer::RingBuffer;
use replaceball_sim::script::ScriptDecider;
use replaceball_sim::stat::{Skill, Stat};
use replaceball_sim::avg::Avg;
use replaceball_sim::Decider;

#[test]
fn league_rates_are_the_recorded_ratios() {
    assert_eq!(levels::balls_per_pitch_ppm(), 491_909);
    assert_eq!(levels::swings_per_ball_ppm(), 297_373);
    assert_eq!(levels::contacts_per_ball_swing_ppm(), 617_085);
    assert_eq!(levels::fouls_per_ball_contact_ppm(), 559_281);
    assert_eq!(levels::swings_per_strike_ppm(), 626_528);
    assert_eq!(levels::contacts_per_strike_swing_ppm(), 837_646);
    assert_eq!(levels::fouls_per_strike_contact_ppm(), 469_414);
}

#[test]
fn integer_square_root_brackets_its_argument() {
    assert_eq!(isqrt(0), 0);
    assert_eq!(isqrt(1), 1);
    assert_eq!(isqrt(143), 11);
    assert_eq!(isqrt(144), 12);
    assert_eq!(isqrt(386_088_000_000), 621_359);
}

#[test]
fn the_sine_table_hits_its_exact_points() {
    assert_eq!(sin_milli(0), 0);
    assert_eq!(sin_milli(30_000), 500);
    assert_eq!(sin_milli(90_000), 1000);
    assert_eq!(sin_milli(-90_000), -1000);
    assert_eq!(cos_milli(0), 1000);
    assert_eq!(cos_milli(90_000), 0);
    assert_eq!(cos_milli(60_000), 500);
}

#[test]
fn travel_time_is_distance_over_speed() {
    assert_eq!(time_to_cover(90_000, 40_000), 2_250);
    assert_eq!(time_to_cover(90_000, 0), 1_000_000_000_000);
    assert_eq!(time_to_cover(0, 100), 0);
}

#[test]
fn clamping_respects_both_ends() {
    assert_eq!(clamp(5, 0, 10), 5);
    assert_eq!(clamp(-5, 0, 10), 0);
    assert_eq!(clamp(15, 0, 10), 10);
}

#[test]
fn batter_advance_counts_ninety_foot_bases() {
    // 2250 thousandths of a second at forty feet per second covers ninety
    // feet; with the box-exit allowance that is one base.
    assert_eq!(batter_advanced(2_250, 40_000, 1_500), 1);
    assert_eq!(batter_advanced(0, 40_000, 1_500), 0);
    assert_eq!(batter_advanced(9_000, 40_000, 1_500), 4);
}

#[test]
fn force_target_is_the_lowest_open_base_ahead() {
    assert_eq!(force_play(&[None, None, None]), 0);
    assert_eq!(force_play(&[None, Some(1), Some(2)]), 0);
    assert_eq!(force_play(&[Some(0), None, Some(2)]), 1);
    assert_eq!(force_play(&[Some(0), Some(1), None]), 2);
    assert_eq!(force_play(&[Some(0), Some(1), Some(2)]), 3);
}

#[test]
fn the_pitch_outcome_table_is_total() {
    assert_eq!(pitch_outcome_of(true, false, false, false), PitchOutcome::Ball);
    assert_eq!(pitch_outcome_of(false, false, false, false), PitchOutcome::Strike(false));
    assert_eq!(pitch_outcome_of(true, true, false, false), PitchOutcome::Strike(true));
    assert_eq!(pitch_outcome_of(false, true, false, false), PitchOutcome::Strike(true));
    assert_eq!(pitch_outcome_of(false, true, true, true), PitchOutcome::Foul);
    assert_eq!(pitch_outcome_of(true, true, true, false), PitchOutcome::Hit(true));
    assert_eq!(pitch_outcome_of(false, true, true, false), PitchOutcome::Hit(false));
}

#[test]
fn the_sweet_spot_penalty_caps_at_a_quarter() {
    // Within two degrees of the league-average angle nothing is lost.
    assert_eq!(sweet_spot_speed(200_000, 0), 200_000);
    assert_eq!(sweet_spot_speed(200_000, 2_000), 200_000);
    // Ten degrees off costs four percent: (10000 - 2000) / 200 = 40 parts.
    assert_eq!(sweet_spot_speed(200_000, 10_000), 200_000 * 960 / 1000);
    // A vertical pop-up costs the full quarter.
    assert_eq!(sweet_spot_speed(200_000, 90_000), 150_000);
    assert_eq!(sweet_spot_speed(200_000, -90_000), 150_000);
}

#[test]
fn direction_shifts_clamp_to_the_foul_lines() {
    assert_eq!(shifted_direction(45_000, 0), 45_000);
    // The strongest pull adds 127 * 90000 / 256 = 44648 thousandths.
    assert_eq!(shifted_direction(10_000, 127), 54_648);
    assert_eq!(shifted_direction(89_999, 127), 90_000);
    assert_eq!(shifted_direction(10_000, -128), 0);
}

#[test]
fn bias_subtraction_saturates() {
    assert_eq!(bias_sub(5, 3), 2);
    assert_eq!(bias_sub(100, -100), 127);
    assert_eq!(bias_sub(-100, 100), -128);
}

#[test]
fn base_distances_follow_the_diamond() {
    let home = Location::home_plate();
    let second = Location::second_base();
    // Home to second is the diamond's diagonal, a bit over 126 feet from the
    // plate's offset origin; the fixed-point geometry lands within a foot.
    let d = home.distance(second);
    assert!((125_000..128_000).contains(&d), "home to second was {}", d);
}

#[test]
fn team_accessors_follow_the_batting_order() {
    let team = Team::default();
    assert_eq!(team.pitcher().jersey_number, "1");
    assert_eq!(team.player_at_batting_index(0).jersey_number, "0");
    assert_eq!(team.player_at_batting_index(1).jersey_number, "1");
    assert_eq!(team.player_at_position(&Fielder::RightFielder).jersey_number, "8");
}

#[test]
fn fielder_indices_round_trip() {
    for i in 0..9usize {
        assert_eq!(Fielder::from_index(i).index(), i);
    }
}

#[test]
fn ring_buffer_evicts_at_the_far_end() {
    let mut buffer: RingBuffer<u32> = RingBuffer::new(2);
    assert_eq!(buffer.push_back(1), None);
    assert_eq!(buffer.push_back(2), None);
    assert_eq!(buffer.push_back(3), Some(1));
    assert_eq!(buffer.iter().as_slice(), &[2, 3]);
    assert_eq!(buffer.push_front(0), Some(3));
    assert_eq!(buffer.iter().as_slice(), &[0, 2]);
}

#[test]
fn tallies_add_counter_by_counter() {
    let a = Avg { runs: 3, hits: 5, total_games: 1, ..Default::default() };
    let b = Avg { runs: 4, hits: 2, total_games: 1, ..Default::default() };
    let sum = a.add(b);
    assert_eq!(sum.runs, 7);
    assert_eq!(sum.hits, 7);
    assert_eq!(sum.total_games, 2);

    let mut acc = a;
    acc.add_assign(b);
    assert_eq!(acc, sum);
}

#[test]
fn scripted_draws_are_shaped_into_range() {
    let mut decider = ScriptDecider::new(vec![500, -10, 999_999, 7]);
    assert_eq!(decider.draws_left(), 4);
    assert_eq!(decider.roll_uniform(0, 100), 99);
    assert_eq!(decider.roll_uniform(0, 100), 0);
    let stat = Stat { average: 0, std_dev: 10, range_lo: -50, range_hi: 50 };
    assert_eq!(decider.roll_stat(stat, Skill::neutral()), 50);
    assert_eq!(decider.roll_index(0, 3), 2);
    assert_eq!(decider.draws_left(), 0);
    // A spent script answers with its defaults.
    assert!(!decider.flip(1_000_000, 0));
}
