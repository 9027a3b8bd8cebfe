//! Base running: given how a ball in play came down and who stood where,
//! resolves every runner's fate — advances, forces, tag-ups, double and
//! triple plays — into an ordered list of movements and an aggregate outcome.
//!
//! The counting laws of a record are proved here once and hold of every
//! branch of the decision table: runs scored equal the movements that reach
//! home, outs made equal the out movements (plus the catch, after a caught
//! fly), at most one new runner — the batter — ever enters the bases, and
//! distinct occupants stay distinct.

use vstd::prelude::*;

use crate::consts::Consts;
use crate::decides;
use crate::fielding::{BallLanding, FieldingPlay};
use crate::hit::HitType;
use crate::levels;
use crate::location::{
    add_time, spec_add_time, spec_time_to_cover, time_to_cover, Location, TIME_NEVER,
};
use crate::player::Team;
use crate::stat::Skill;
use crate::Decider;

verus! {

/// Occupancy of the three bases: each entry holds the lineup index of the
/// runner standing there.
pub type BaseState = [Option<u8>; 3];

/// One runner's fate on a play. A starting base of `None` is the batter.
#[derive(Clone, Copy, Debug, PartialEq, Eq, Structural)]
pub struct BaseMovement {
    pub starting_base: Option<usize>,
    pub bases_moved: MoveType,
}

/// Whether a runner was put out (at the stored base) or advanced (by the
/// stored number of bases).
#[derive(Clone, Copy, Debug, PartialEq, Eq, Structural)]
pub enum MoveType {
    Out(usize),
    Advanced(usize),
}

/// The aggregate of a base-running play.
#[derive(Clone, Copy, Debug, PartialEq, Eq)]
pub struct BaseRunningOutcome {
    pub outs_made: u8,
    pub runs_scored: u8,
    pub batter_hit_type: HitType,
    pub ending_base_state: BaseState,
}

/// The full resolution of one ball in play on the bases.
#[derive(Clone, Debug, PartialEq)]
pub struct BaseRunningRecord {
    pub movements: Vec<BaseMovement>,
    pub outcome: BaseRunningOutcome,
}

/// True when a movement carries its runner across home plate: a runner on
/// base needs enough bases to pass third, the batter needs all four.
pub open spec fn movement_scores(m: BaseMovement) -> bool {
    match m.bases_moved {
        MoveType::Advanced(n) => match m.starting_base {
            Some(b) => b + n >= 3,
            None => n >= 4,
        },
        MoveType::Out(_) => false,
    }
}

/// True when a movement is an out.
pub open spec fn movement_out(m: BaseMovement) -> bool {
    m.bases_moved is Out
}

/// The number of movements of a play that scored.
pub open spec fn runs_in(ms: Seq<BaseMovement>) -> int
    decreases ms.len(),
{
    if ms.len() == 0 {
        0
    } else {
        runs_in(ms.drop_last()) + if movement_scores(ms.last()) {
            1int
        } else {
            0int
        }
    }
}

/// The number of movements of a play that were outs.
pub open spec fn outs_in(ms: Seq<BaseMovement>) -> int
    decreases ms.len(),
{
    if ms.len() == 0 {
        0
    } else {
        outs_in(ms.drop_last()) + if movement_out(ms.last()) {
            1int
        } else {
            0int
        }
    }
}

/// How many bases are occupied.
pub open spec fn occupied_count(bs: BaseState) -> int {
    (if bs[0] is Some {
        1int
    } else {
        0int
    }) + (if bs[1] is Some {
        1int
    } else {
        0int
    }) + (if bs[2] is Some {
        1int
    } else {
        0int
    })
}

/// No lineup index stands on two bases at once.
pub open spec fn distinct_bases(bs: BaseState) -> bool {
    &&& (bs[0] is Some ==> bs[0] != bs[1] && bs[0] != bs[2])
    &&& (bs[1] is Some ==> bs[1] != bs[2])
}

/// The batter stands on no base.
pub open spec fn batter_off_bases(bs: BaseState, batter: u8) -> bool {
    &&& bs[0] != Some(batter)
    &&& bs[1] != Some(batter)
    &&& bs[2] != Some(batter)
}

/// Every occupant of `post` stood in `pre` or is the batter.
pub open spec fn occupants_from(pre: BaseState, post: BaseState, batter: u8) -> bool {
    forall|i: int|
        0 <= i < 3 && #[trigger] post[i] is Some ==> post[i] == Some(batter) || pre[0] == post[i]
            || pre[1] == post[i] || pre[2] == post[i]
}


/// The base a throw should force: the lowest base ahead of an unbroken chain
/// of runners starting at first, home when the bases are loaded.
pub open spec fn force_target(base_state: BaseState) -> int {
    if base_state[0] is Some {
        if base_state[1] is Some {
            if base_state[2] is Some {
                3int
            } else {
                2int
            }
        } else {
            1int
        }
    } else {
        0int
    }
}

/// A runner on third tags for home after a catch deeper than 250 feet.
pub open spec fn third_tags_up(base_state: BaseState, catch: Location) -> bool {
    base_state[2] is Some && catch.distance > 250_000
}

/// A runner on second tags for third after a catch deeper than 275 feet to
/// the right of centre, when third is open — or has just been vacated by a
/// tagging runner.
pub open spec fn second_tags_up(base_state: BaseState, catch: Location) -> bool {
    &&& (base_state[2] is None || third_tags_up(base_state, catch))
    &&& base_state[1] is Some
    &&& catch.distance > 275_000
    &&& catch.direction > 45_000
}

/// The time a runner needs for ninety feet at `speed` after a fixed delay:
/// the standing race every throw is measured against.
pub open spec fn spec_runner_time(speed: int, delay: int) -> int {
    spec_add_time(spec_time_to_cover(90_000, speed), delay)
}

/// How many bases the batter can reach before a throw of the given travel
/// time arrives: the distance covered in that time plus the box-exit
/// allowance, in ninety-foot bases, capped at 255.
pub open spec fn spec_batter_advance(throw_time: int, speed: int, box_exit: int) -> int {
    if (throw_time * speed / 1000 + box_exit) / 90_000 <= 255 {
        (throw_time * speed / 1000 + box_exit) / 90_000
    } else {
        255
    }
}

/// The batter's fate when the throw goes to first: out when his run loses the
/// race to the throw, otherwise a hit graded by how far he could advance.
pub open spec fn spec_first_target_hit_type(travel: int, speed: int, box_exit: int) -> HitType {
    if spec_runner_time(speed, box_exit) > travel {
        HitType::Out
    } else {
        let advance = spec_batter_advance(travel, speed, box_exit);
        if advance == 1 {
            HitType::Single
        } else if advance == 2 {
            HitType::Double
        } else if advance == 3 {
            HitType::Triple
        } else {
            HitType::HomeRun
        }
    }
}

/// The shape of a play in which the batter reached at least second: every
/// runner scored, the batter stands at his tier's base (or scored past the
/// fourth), nobody is out, and each runner plus the batter moved exactly
/// once.
pub open spec fn extra_base_outcome_ok(
    r: BaseRunningRecord,
    base_state: BaseState,
    batter: u8,
    advance: int,
) -> bool {
    &&& r.outcome.ending_base_state[0] is None
    &&& r.outcome.ending_base_state[1] == if advance == 2 {
        Some(batter)
    } else {
        None::<u8>
    }
    &&& r.outcome.ending_base_state[2] == if advance == 3 {
        Some(batter)
    } else {
        None::<u8>
    }
    &&& r.outcome.runs_scored == occupied_count(base_state) + if advance >= 4 {
        1int
    } else {
        0int
    }
    &&& r.outcome.outs_made == 0
    &&& r.outcome.batter_hit_type == (if advance == 2 {
        HitType::Double
    } else if advance == 3 {
        HitType::Triple
    } else {
        HitType::HomeRun
    })
    &&& r.movements@.len() == occupied_count(base_state) + 1
}

/// The base a throw should force, as the defence reads the bases.
pub fn force_play(base_state: &BaseState) -> (r: usize)
    ensures
        r == force_target(*base_state),
{
    if base_state[0].is_some() {
        if base_state[1].is_some() {
            if base_state[2].is_some() {
                3
            } else {
                2
            }
        } else {
            1
        }
    } else {
        0
    }
}

/// The laws every base-running record obeys, stated against the landing that
/// brought it on, the starting bases and the batter: runs equal the scoring
/// movements, outs equal the out movements (plus the catch after a caught
/// fly), the batter is the only runner who can join the bases, a caught fly
/// puts the batter out, and distinct occupants stay distinct.
pub open spec fn br_record_ok(
    r: BaseRunningRecord,
    landing: BallLanding,
    base_state: BaseState,
    batter: u8,
) -> bool {
    &&& r.outcome.runs_scored == runs_in(r.movements@)
    &&& r.outcome.outs_made == outs_in(r.movements@) + if landing is Out {
        1int
    } else {
        0int
    }
    &&& (landing is Out ==> r.outcome.batter_hit_type == HitType::Out)
    &&& occupied_count(r.outcome.ending_base_state) + r.outcome.runs_scored <= occupied_count(
        base_state,
    ) + if landing is Landed {
        1int
    } else {
        0int
    }
    &&& (distinct_bases(base_state) && batter_off_bases(base_state, batter) ==> distinct_bases(
        r.outcome.ending_base_state,
    ))
    &&& occupants_from(base_state, r.outcome.ending_base_state, batter)
    &&& r.outcome.outs_made <= 3
}

/// Appends a movement and carries the counting laws across the push.
fn push_move(moves: &mut Vec<BaseMovement>, m: BaseMovement)
    ensures
        final(moves)@ == old(moves)@.push(m),
        runs_in(final(moves)@) == runs_in(old(moves)@) + if movement_scores(m) {
            1int
        } else {
            0int
        },
        outs_in(final(moves)@) == outs_in(old(moves)@) + if movement_out(m) {
            1int
        } else {
            0int
        },
{
    moves.push(m);
    proof {
        assert(moves@.drop_last() =~= old(moves)@);
        assert(moves@.last() == m);
    }
}

/// How many bases the batter can reach before a throw of the given travel
/// time arrives: the distance the batter covers in that time (plus the box
/// exit allowance), in ninety-foot bases, capped at 255.
pub fn batter_advanced(throw_time: i64, baserunner_speed: i64, box_exit_time: i64) -> (r: u8)
    requires
        0 <= throw_time <= TIME_NEVER,
        0 <= baserunner_speed <= 40_000,
        0 <= box_exit_time <= 4_000,
    ensures
        r == spec_batter_advance(throw_time as int, baserunner_speed as int,
            box_exit_time as int),
{
    proof {
        assert(0 <= throw_time * baserunner_speed <= 40_000_000_000_000_000int) by (nonlinear_arith)
            requires
                0 <= throw_time <= TIME_NEVER,
                0 <= baserunner_speed <= 40_000,
        ;
        assert(throw_time * baserunner_speed / 1000 >= 0) by (nonlinear_arith)
            requires throw_time * baserunner_speed >= 0;
    }
    let feet: i64 = throw_time * baserunner_speed / 1000 + box_exit_time;
    let bases: i64 = feet / 90_000;
    if bases <= 255 {
        bases as u8
    } else {
        255
    }
}

/// Resolves the bases after how a ball in play came down: tag-up chances
/// after a caught fly, or the force-play cascade after a landed ball and its
/// throw.
pub fn simulate_base_running<D: Decider>(
    batter_lineup_index: u8,
    batting_team: &Team,
    fielding_team: &Team,
    ball_landing: &BallLanding,
    base_state: &BaseState,
    decider: &mut D,
) -> (r: BaseRunningRecord)
    requires
        ball_landing.wf(),
    ensures
        decides(old(decider).entropy(), final(decider).entropy()),
        br_record_ok(r, *ball_landing, *base_state, batter_lineup_index),
        ball_landing matches BallLanding::Out(_, catch) ==> r.outcome.ending_base_state[0]
            == base_state[0] && r.movements@.len() <= 2,
        ball_landing matches BallLanding::Landed(_, play) ==> (play.base == 0 ==> (
        r.outcome.outs_made <= 1 && (base_state[2] is Some ==> r.outcome.runs_scored >= 1))),
        ball_landing matches BallLanding::Out(_, catch) ==> (!third_tags_up(*base_state, *catch)
            && !second_tags_up(*base_state, *catch) ==> r.movements@.len() == 0
            && r.outcome.ending_base_state[0] == base_state[0]
            && r.outcome.ending_base_state[1] == base_state[1]
            && r.outcome.ending_base_state[2] == base_state[2] && r.outcome.runs_scored == 0
            && r.outcome.outs_made == 1),
{
    match ball_landing {
        BallLanding::Out(fielder, location) => post_out_base_running(
            fielder,
            location,
            base_state,
            decider,
        ),
        BallLanding::Landed(location, fielding_play) => post_throw_base_running(
            location,
            fielding_play,
            batter_lineup_index,
            base_state,
            decider,
        ),
    }
}

/// After a caught fly: a runner on third may tag for home past 250 feet, and
/// a runner on second may tag for third on a deep ball to the right side;
/// each tag races the fielder's throw.
fn post_out_base_running<D: Decider>(
    fielder: &crate::fielding::Fielder,
    location: &Location,
    base_state: &BaseState,
    decider: &mut D,
) -> (r: BaseRunningRecord)
    requires
        location.wf(),
    ensures
        decides(old(decider).entropy(), final(decider).entropy()),
        r.outcome.runs_scored == runs_in(r.movements@),
        r.outcome.outs_made == outs_in(r.movements@) + 1,
        r.outcome.batter_hit_type == HitType::Out,
        occupied_count(r.outcome.ending_base_state) + r.outcome.runs_scored <= occupied_count(
            *base_state,
        ),
        distinct_bases(*base_state) ==> distinct_bases(r.outcome.ending_base_state),
        forall|batter: u8| occupants_from(*base_state, r.outcome.ending_base_state, batter),
        r.outcome.outs_made <= 3,
        r.outcome.ending_base_state[0] == base_state[0],
        r.movements@.len() <= 2,
        !third_tags_up(*base_state, *location) && !second_tags_up(*base_state, *location)
            ==> r.movements@.len() == 0 && r.outcome.ending_base_state[0] == base_state[0]
            && r.outcome.ending_base_state[1] == base_state[1]
            && r.outcome.ending_base_state[2] == base_state[2] && r.outcome.runs_scored == 0
            && r.outcome.outs_made == 1,
{
    let mut base_movements: Vec<BaseMovement> = Vec::new();
    let mut bases: BaseState = *base_state;
    let fielder_throw_speed = decider.roll_stat(levels::throw_speed(), Skill::neutral());

    // The catch itself is the first out.
    let mut outs_made: u8 = 1;
    let mut runs_scored: u8 = 0;
    let mut has_thrown: bool = false;

    if bases[2].is_some() && location.distance > 250_000 {
        // The runner on third tags and runs home on the sacrifice fly.
        bases = [bases[0], bases[1], None];
        let third_runner_speed = decider.roll_stat(levels::baserunner_speed(), Skill::neutral());

        has_thrown = true;
        let run_time = time_to_cover(90_000, third_runner_speed);
        let throw_distance = location.distance(Location::home_plate());
        let throw_time = time_to_cover(throw_distance, fielder_throw_speed);

        if run_time > throw_time {
            // Thrown out at home.
            push_move(
                &mut base_movements,
                BaseMovement {
                    starting_base: Some(Consts::THIRD),
                    bases_moved: MoveType::Out(Consts::HOME),
                },
            );
            outs_made = outs_made + 1;
        } else {
            // Scores.
            push_move(
                &mut base_movements,
                BaseMovement {
                    starting_base: Some(Consts::THIRD),
                    bases_moved: MoveType::Advanced(1),
                },
            );
            runs_scored = runs_scored + 1;
        }
    }

    if bases[2].is_none() && bases[1].is_some() && location.distance > 275_000
        && location.direction > 45_000 {
        // The runner on second tags and runs for third.
        let runner = bases[1];
        bases = [bases[0], None, bases[2]];
        let second_runner_speed = decider.roll_stat(levels::baserunner_speed(), Skill::neutral());

        let run_time = time_to_cover(90_000, second_runner_speed);
        let throw_distance = location.distance(Location::third_base());
        let throw_time = time_to_cover(throw_distance, fielder_throw_speed);

        if run_time > throw_time && !has_thrown {
            // Thrown out at third.
            outs_made = outs_made + 1;
            push_move(
                &mut base_movements,
                BaseMovement {
                    starting_base: Some(Consts::SECOND),
                    bases_moved: MoveType::Out(Consts::THIRD),
                },
            );
        } else {
            push_move(
                &mut base_movements,
                BaseMovement {
                    starting_base: Some(Consts::SECOND),
                    bases_moved: MoveType::Advanced(1),
                },
            );
            bases = [bases[0], bases[1], runner];
        }
    }

    BaseRunningRecord {
        movements: base_movements,
        outcome: BaseRunningOutcome {
            outs_made,
            runs_scored,
            batter_hit_type: HitType::Out,
            ending_base_state: bases,
        },
    }
}


/// After a landed ball and its throw: resolves the force-play cascade around
/// the throw's target base, driven by how many bases the batter can reach
/// before the throw arrives.
fn post_throw_base_running<D: Decider>(
    location: &Location,
    fielding_play: &FieldingPlay,
    batter_lineup_index: u8,
    base_state: &BaseState,
    decider: &mut D,
) -> (r: BaseRunningRecord)
    requires
        fielding_play.wf(),
    ensures
        decides(old(decider).entropy(), final(decider).entropy()),
        r.outcome.runs_scored == runs_in(r.movements@),
        r.outcome.outs_made == outs_in(r.movements@),
        occupied_count(r.outcome.ending_base_state) + r.outcome.runs_scored <= occupied_count(
            *base_state,
        ) + 1,
        distinct_bases(*base_state) && batter_off_bases(*base_state, batter_lineup_index)
            ==> distinct_bases(r.outcome.ending_base_state),
        occupants_from(*base_state, r.outcome.ending_base_state, batter_lineup_index),
        r.outcome.outs_made <= 3,
        fielding_play.base == 0 ==> r.outcome.outs_made <= 1 && (base_state[2] is Some
            ==> r.outcome.runs_scored >= 1),
{
    let fielder_throw_speed = decider.roll_stat(levels::throw_speed(), Skill::neutral());
    let batter_runner_speed = decider.roll_stat(levels::baserunner_speed(), Skill::neutral());
    let batter_box_exit_time = decider.roll_stat(levels::box_exit_time(), Skill::neutral());

    if fielding_play.base == 0 {
        throw_play_to_first(
            fielding_play,
            batter_lineup_index,
            base_state,
            decider,
            fielder_throw_speed,
            batter_runner_speed,
            batter_box_exit_time,
        )
    } else if fielding_play.base == 1 {
        throw_play_to_second(
            fielding_play,
            batter_lineup_index,
            base_state,
            decider,
            batter_runner_speed,
            batter_box_exit_time,
        )
    } else if fielding_play.base == 2 {
        throw_play_to_third(
            fielding_play,
            batter_lineup_index,
            base_state,
            decider,
            batter_runner_speed,
            batter_box_exit_time,
        )
    } else {
        throw_play_to_home(
            fielding_play,
            batter_lineup_index,
            base_state,
            decider,
            batter_runner_speed,
            batter_box_exit_time,
        )
    }
}

/// The throw went for first base: the batter races it, runners ahead advance
/// or stretch by the batter's tier.
fn throw_play_to_first<D: Decider>(
    fielding_play: &FieldingPlay,
    batter_lineup_index: u8,
    base_state: &BaseState,
    decider: &mut D,
    fielder_throw_speed: i64,
    batter_runner_speed: i64,
    batter_box_exit_time: i64,
) -> (r: BaseRunningRecord)
    requires
        fielding_play.wf(),
        0 <= fielder_throw_speed <= 150_000,
        0 <= batter_runner_speed <= 40_000,
        1_500 <= batter_box_exit_time <= 3_500,
    ensures
        final(decider).entropy() <= old(decider).entropy(),
        r.outcome.runs_scored == runs_in(r.movements@),
        r.outcome.outs_made == outs_in(r.movements@),
        occupied_count(r.outcome.ending_base_state) + r.outcome.runs_scored <= occupied_count(
            *base_state,
        ) + 1,
        distinct_bases(*base_state) && batter_off_bases(*base_state, batter_lineup_index)
            ==> distinct_bases(r.outcome.ending_base_state),
        occupants_from(*base_state, r.outcome.ending_base_state, batter_lineup_index),
        r.outcome.outs_made <= 3,
        r.outcome.batter_hit_type == spec_first_target_hit_type(
            fielding_play.to_event.travel_time as int,
            batter_runner_speed as int,
            batter_box_exit_time as int,
        ),
        r.outcome.outs_made == if spec_runner_time(batter_runner_speed as int,
            batter_box_exit_time as int) > fielding_play.to_event.travel_time {
            1int
        } else {
            0int
        },
        base_state[2] is Some ==> r.outcome.runs_scored >= 1,
{
    let mut base_movements: Vec<BaseMovement> = Vec::new();
    let mut runs_scored: u8 = 0;
    let mut outs_made: u8 = 0;
    let mut b0: Option<u8> = base_state[0];
    let mut b1: Option<u8> = base_state[1];
    let mut b2: Option<u8> = base_state[2];
    let mut batter_hit_type: HitType = HitType::Out;

    let run_time = add_time(time_to_cover(90_000, batter_runner_speed), batter_box_exit_time);
    let minimum_advance: u8;
    if run_time > fielding_play.to_event.travel_time {
        // The batter is out at first.
        outs_made = outs_made + 1;
        push_move(
            &mut base_movements,
            BaseMovement { starting_base: None, bases_moved: MoveType::Out(Consts::FIRST) },
        );
        minimum_advance = 0;
    } else {
        minimum_advance = batter_advanced(
            fielding_play.to_event.travel_time,
            batter_runner_speed,
            batter_box_exit_time,
        );
        batter_hit_type = if minimum_advance == 1 {
            HitType::Single
        } else if minimum_advance == 2 {
            HitType::Double
        } else if minimum_advance == 3 {
            HitType::Triple
        } else {
            HitType::HomeRun
        };
    }

    if b2.is_some() {
        // The runner on third walks home on the play at first.
        runs_scored = runs_scored + 1;
        b2 = None;
        push_move(
            &mut base_movements,
            BaseMovement {
                starting_base: Some(Consts::THIRD),
                bases_moved: MoveType::Advanced(1),
            },
        );
    }

    if b1.is_some() {
        let runner = b1;
        b1 = None;
        let second_runner_speed = decider.roll_stat(levels::baserunner_speed(), Skill::neutral());

        let time_to_home = time_to_cover(180_000, second_runner_speed);
        let time_to_throw_home = time_to_cover(
            fielding_play.from_event.location.distance,
            fielder_throw_speed,
        );
        if time_to_home > time_to_throw_home && minimum_advance < 3 {
            // Holds at third.
            b2 = runner;
            push_move(
                &mut base_movements,
                BaseMovement {
                    starting_base: Some(Consts::SECOND),
                    bases_moved: MoveType::Advanced(1),
                },
            );
        } else {
            // Stretches for home.
            runs_scored = runs_scored + 1;
            push_move(
                &mut base_movements,
                BaseMovement {
                    starting_base: Some(Consts::SECOND),
                    bases_moved: MoveType::Advanced(2),
                },
            );
        }
    }

    if b0.is_some() {
        let runner = b0;
        b0 = None;
        if minimum_advance <= 1 {
            b1 = runner;
            push_move(
                &mut base_movements,
                BaseMovement {
                    starting_base: Some(Consts::FIRST),
                    bases_moved: MoveType::Advanced(1),
                },
            );
        } else {
            runs_scored = runs_scored + 1;
            push_move(
                &mut base_movements,
                BaseMovement {
                    starting_base: Some(Consts::FIRST),
                    bases_moved: MoveType::Advanced(3),
                },
            );
        }
    }

    if minimum_advance == 1 {
        b0 = Some(batter_lineup_index);
        push_move(
            &mut base_movements,
            BaseMovement { starting_base: None, bases_moved: MoveType::Advanced(1) },
        );
    } else if minimum_advance == 2 {
        b1 = Some(batter_lineup_index);
        push_move(
            &mut base_movements,
            BaseMovement { starting_base: None, bases_moved: MoveType::Advanced(2) },
        );
    } else if minimum_advance == 3 {
        b2 = Some(batter_lineup_index);
        push_move(
            &mut base_movements,
            BaseMovement { starting_base: None, bases_moved: MoveType::Advanced(3) },
        );
    } else if minimum_advance == 4 {
        push_move(
            &mut base_movements,
            BaseMovement { starting_base: None, bases_moved: MoveType::Advanced(4) },
        );
        runs_scored = runs_scored + 1;
    }

    BaseRunningRecord {
        movements: base_movements,
        outcome: BaseRunningOutcome {
            outs_made,
            runs_scored,
            batter_hit_type,
            ending_base_state: [b0, b1, b2],
        },
    }
}

/// The batter reached at least second: every runner ahead scores, and the
/// batter takes second, third, or — past the fourth tier — home.
fn extra_base_hit(base_state: &BaseState, batter_lineup_index: u8, advance: u8) -> (r:
    BaseRunningRecord)
    requires
        advance >= 2,
    ensures
        r.outcome.runs_scored == runs_in(r.movements@),
        r.outcome.outs_made == outs_in(r.movements@),
        occupied_count(r.outcome.ending_base_state) + r.outcome.runs_scored <= occupied_count(
            *base_state,
        ) + 1,
        distinct_bases(r.outcome.ending_base_state),
        occupants_from(*base_state, r.outcome.ending_base_state, batter_lineup_index),
        extra_base_outcome_ok(r, *base_state, batter_lineup_index, advance as int),
{
    let mut base_movements: Vec<BaseMovement> = Vec::new();
    let mut runs_scored: u8 = 0;

    if base_state[0].is_some() {
        runs_scored = runs_scored + 1;
        push_move(
            &mut base_movements,
            BaseMovement {
                starting_base: Some(Consts::FIRST),
                bases_moved: MoveType::Advanced(3),
            },
        );
    }
    if base_state[1].is_some() {
        runs_scored = runs_scored + 1;
        push_move(
            &mut base_movements,
            BaseMovement {
                starting_base: Some(Consts::SECOND),
                bases_moved: MoveType::Advanced(2),
            },
        );
    }
    if base_state[2].is_some() {
        runs_scored = runs_scored + 1;
        push_move(
            &mut base_movements,
            BaseMovement {
                starting_base: Some(Consts::THIRD),
                bases_moved: MoveType::Advanced(1),
            },
        );
    }

    let mut b0: Option<u8> = None;
    let mut b1: Option<u8> = None;
    let mut b2: Option<u8> = None;
    let batter_hit_type: HitType;
    if advance == 2 {
        batter_hit_type = HitType::Double;
        b1 = Some(batter_lineup_index);
        push_move(
            &mut base_movements,
            BaseMovement { starting_base: None, bases_moved: MoveType::Advanced(2) },
        );
    } else if advance == 3 {
        batter_hit_type = HitType::Triple;
        b2 = Some(batter_lineup_index);
        push_move(
            &mut base_movements,
            BaseMovement { starting_base: None, bases_moved: MoveType::Advanced(3) },
        );
    } else {
        // An inside-the-park home run.
        batter_hit_type = HitType::HomeRun;
        runs_scored = runs_scored + 1;
        push_move(
            &mut base_movements,
            BaseMovement { starting_base: None, bases_moved: MoveType::Advanced(4) },
        );
    }

    BaseRunningRecord {
        movements: base_movements,
        outcome: BaseRunningOutcome {
            outs_made: 0,
            runs_scored,
            batter_hit_type,
            ending_base_state: [b0, b1, b2],
        },
    }
}

/// The throw went for second base: a force on the runner from first, with a
/// chance to turn two on the batter.
fn throw_play_to_second<D: Decider>(
    fielding_play: &FieldingPlay,
    batter_lineup_index: u8,
    base_state: &BaseState,
    decider: &mut D,
    batter_runner_speed: i64,
    batter_box_exit_time: i64,
) -> (r: BaseRunningRecord)
    requires
        fielding_play.wf(),
        0 <= batter_runner_speed <= 40_000,
        1_500 <= batter_box_exit_time <= 3_500,
    ensures
        final(decider).entropy() <= old(decider).entropy(),
        r.outcome.runs_scored == runs_in(r.movements@),
        r.outcome.outs_made == outs_in(r.movements@),
        occupied_count(r.outcome.ending_base_state) + r.outcome.runs_scored <= occupied_count(
            *base_state,
        ) + 1,
        distinct_bases(*base_state) && batter_off_bases(*base_state, batter_lineup_index)
            ==> distinct_bases(r.outcome.ending_base_state),
        occupants_from(*base_state, r.outcome.ending_base_state, batter_lineup_index),
        r.outcome.outs_made <= 3,
        spec_batter_advance(fielding_play.to_event.travel_time as int, batter_runner_speed as int,
            batter_box_exit_time as int) >= 2 ==> extra_base_outcome_ok(
            r,
            *base_state,
            batter_lineup_index,
            spec_batter_advance(fielding_play.to_event.travel_time as int,
                batter_runner_speed as int, batter_box_exit_time as int),
        ),
{
    let advance = batter_advanced(
        fielding_play.to_event.travel_time,
        batter_runner_speed,
        batter_box_exit_time,
    );
    if advance >= 2 {
        return extra_base_hit(base_state, batter_lineup_index, advance);
    }

    let mut base_movements: Vec<BaseMovement> = Vec::new();
    let mut runs_scored: u8 = 0;
    let mut outs_made: u8 = 0;
    let mut b0: Option<u8> = None;
    let mut b1: Option<u8> = None;
    let mut b2: Option<u8> = None;
    let batter_hit_type: HitType;

    if advance == 0 {
        if base_state[0].is_some() {
            // The force at second is live.
            let first_runner_speed = decider.roll_stat(levels::baserunner_speed(), Skill::neutral());
            let first_takeoff_delay = decider.roll_stat(
                levels::base_takeoff_delay(),
                Skill::neutral(),
            );
            let first_to_second_run_time = add_time(
                time_to_cover(90_000, first_runner_speed),
                first_takeoff_delay,
            );
            if first_to_second_run_time > fielding_play.to_event.travel_time {
                // The runner from first is forced out at second.
                outs_made = outs_made + 1;
                push_move(
                    &mut base_movements,
                    BaseMovement {
                        starting_base: Some(Consts::FIRST),
                        bases_moved: MoveType::Out(Consts::SECOND),
                    },
                );

                let second_fielder_throw_speed = decider.roll_stat(
                    levels::throw_speed(),
                    Skill::neutral(),
                );
                let batter_run_time = add_time(
                    time_to_cover(90_000, batter_runner_speed),
                    batter_box_exit_time,
                );
                let double_play_throw_time = time_to_cover(90_000, second_fielder_throw_speed);
                if batter_run_time > add_time(
                    fielding_play.to_event.travel_time,
                    double_play_throw_time,
                ) {
                    // Turns the double play.
                    batter_hit_type = HitType::Out;
                    outs_made = outs_made + 1;
                    push_move(
                        &mut base_movements,
                        BaseMovement {
                            starting_base: None,
                            bases_moved: MoveType::Out(Consts::FIRST),
                        },
                    );
                } else {
                    // The relay is late; the batter takes first.
                    batter_hit_type = HitType::FieldersChoice;
                    b0 = Some(batter_lineup_index);
                    push_move(
                        &mut base_movements,
                        BaseMovement {
                            starting_base: None,
                            bases_moved: MoveType::Advanced(1),
                        },
                    );
                }
            } else {
                // Safe at second.
                batter_hit_type = HitType::Single;
                b1 = Some(batter_lineup_index);
                push_move(
                    &mut base_movements,
                    BaseMovement {
                        starting_base: Some(Consts::FIRST),
                        bases_moved: MoveType::Advanced(1),
                    },
                );
            }
        } else {
            // No force: the batter takes first and the runners hold.
            batter_hit_type = HitType::Single;
            b0 = Some(batter_lineup_index);
            push_move(
                &mut base_movements,
                BaseMovement { starting_base: None, bases_moved: MoveType::Advanced(1) },
            );
            b1 = base_state[1];
            b2 = base_state[2];
        }

        if base_state[0].is_some() && base_state[1].is_some() && base_state[2].is_some() {
            // Forces everywhere: the runner from third walks home.
            runs_scored = runs_scored + 1;
            push_move(
                &mut base_movements,
                BaseMovement {
                    starting_base: Some(Consts::THIRD),
                    bases_moved: MoveType::Advanced(1),
                },
            );
        }

        if base_state[1].is_some() && base_state[0].is_some() {
            // Force at third: the runner from second moves up.
            b2 = base_state[1];
            push_move(
                &mut base_movements,
                BaseMovement {
                    starting_base: Some(Consts::SECOND),
                    bases_moved: MoveType::Advanced(1),
                },
            );
        }
    } else {
        // The batter reaches first for sure.
        b0 = Some(batter_lineup_index);
        push_move(
            &mut base_movements,
            BaseMovement { starting_base: None, bases_moved: MoveType::Advanced(1) },
        );

        let first_runner_speed = decider.roll_stat(levels::baserunner_speed(), Skill::neutral());
        let first_takeoff_delay = decider.roll_stat(levels::base_takeoff_delay(), Skill::neutral());
        let first_to_second_run_time = add_time(
            time_to_cover(90_000, first_runner_speed),
            first_takeoff_delay,
        );
        if first_to_second_run_time > fielding_play.to_event.travel_time && base_state[0].is_some() {
            // The runner from first is forced out at second.
            batter_hit_type = HitType::FieldersChoice;
            outs_made = outs_made + 1;
            push_move(
                &mut base_movements,
                BaseMovement {
                    starting_base: Some(Consts::FIRST),
                    bases_moved: MoveType::Out(Consts::SECOND),
                },
            );
        } else {
            // Safe at second.
            batter_hit_type = HitType::Single;
            b1 = base_state[0];
            push_move(
                &mut base_movements,
                BaseMovement {
                    starting_base: Some(Consts::FIRST),
                    bases_moved: MoveType::Advanced(1),
                },
            );
        }

        if base_state[1].is_some() && base_state[0].is_some() {
            // Force at third.
            b2 = base_state[1];
            push_move(
                &mut base_movements,
                BaseMovement {
                    starting_base: Some(Consts::SECOND),
                    bases_moved: MoveType::Advanced(1),
                },
            );
        }

        if base_state[0].is_some() && base_state[1].is_some() && base_state[2].is_some() {
            // Force at home.
            runs_scored = runs_scored + 1;
            push_move(
                &mut base_movements,
                BaseMovement {
                    starting_base: Some(Consts::THIRD),
                    bases_moved: MoveType::Advanced(1),
                },
            );
        }
    }

    BaseRunningRecord {
        movements: base_movements,
        outcome: BaseRunningOutcome {
            outs_made,
            runs_scored,
            batter_hit_type,
            ending_base_state: [b0, b1, b2],
        },
    }
}

/// The throw went for third base: a force on the runner from second, with
/// relays that can turn two or three.
fn throw_play_to_third<D: Decider>(
    fielding_play: &FieldingPlay,
    batter_lineup_index: u8,
    base_state: &BaseState,
    decider: &mut D,
    batter_runner_speed: i64,
    batter_box_exit_time: i64,
) -> (r: BaseRunningRecord)
    requires
        fielding_play.wf(),
        0 <= batter_runner_speed <= 40_000,
        1_500 <= batter_box_exit_time <= 3_500,
    ensures
        final(decider).entropy() <= old(decider).entropy(),
        r.outcome.runs_scored == runs_in(r.movements@),
        r.outcome.outs_made == outs_in(r.movements@),
        occupied_count(r.outcome.ending_base_state) + r.outcome.runs_scored <= occupied_count(
            *base_state,
        ) + 1,
        distinct_bases(*base_state) && batter_off_bases(*base_state, batter_lineup_index)
            ==> distinct_bases(r.outcome.ending_base_state),
        occupants_from(*base_state, r.outcome.ending_base_state, batter_lineup_index),
        r.outcome.outs_made <= 3,
        spec_batter_advance(fielding_play.to_event.travel_time as int, batter_runner_speed as int,
            batter_box_exit_time as int) >= 2 ==> extra_base_outcome_ok(
            r,
            *base_state,
            batter_lineup_index,
            spec_batter_advance(fielding_play.to_event.travel_time as int,
                batter_runner_speed as int, batter_box_exit_time as int),
        ),
{
    let advance = batter_advanced(
        fielding_play.to_event.travel_time,
        batter_runner_speed,
        batter_box_exit_time,
    );
    if advance >= 2 {
        return extra_base_hit(base_state, batter_lineup_index, advance);
    }

    let mut base_movements: Vec<BaseMovement> = Vec::new();
    let mut runs_scored: u8 = 0;
    let mut outs_made: u8 = 0;
    let mut b0: Option<u8> = None;
    let mut b1: Option<u8> = None;
    let mut b2: Option<u8> = None;
    let batter_hit_type: HitType;

    if advance == 0 {
        if base_state[0].is_some() && base_state[1].is_some() {
            let runner_from_first = base_state[0];
            let runner_from_second = base_state[1];

            // The force at third is live.
            let second_runner_speed = decider.roll_stat(
                levels::baserunner_speed(),
                Skill::neutral(),
            );
            let second_runner_takeoff_delay = decider.roll_stat(
                levels::base_takeoff_delay(),
                Skill::neutral(),
            );
            let second_to_third_run_time = add_time(
                time_to_cover(90_000, second_runner_speed),
                second_runner_takeoff_delay,
            );
            if second_to_third_run_time > fielding_play.to_event.travel_time {
                // The runner from second is forced out at third.
                outs_made = outs_made + 1;
                push_move(
                    &mut base_movements,
                    BaseMovement {
                        starting_base: Some(Consts::SECOND),
                        bases_moved: MoveType::Out(Consts::THIRD),
                    },
                );

                let third_baseman_throw_speed = decider.roll_stat(
                    levels::throw_speed(),
                    Skill::neutral(),
                );
                let third_baseman_transfer_time = decider.roll_stat(
                    levels::fielder_transfer_time(),
                    Skill::neutral(),
                );
                let third_to_second_base_throw_time = add_time(
                    time_to_cover(90_000, third_baseman_throw_speed),
                    third_baseman_transfer_time,
                );
                let first_runner_speed = decider.roll_stat(
                    levels::baserunner_speed(),
                    Skill::neutral(),
                );
                let first_runner_takeoff_delay = decider.roll_stat(
                    levels::base_takeoff_delay(),
                    Skill::neutral(),
                );
                let first_to_second_run_time = add_time(
                    time_to_cover(90_000, first_runner_speed),
                    first_runner_takeoff_delay,
                );
                if first_to_second_run_time > add_time(
                    fielding_play.to_event.travel_time,
                    third_to_second_base_throw_time,
                ) {
                    // The runner from first loses the relay race: a double
                    // play at second.
                    outs_made = outs_made + 1;
                    push_move(
                        &mut base_movements,
                        BaseMovement {
                            starting_base: Some(Consts::FIRST),
                            bases_moved: MoveType::Out(Consts::SECOND),
                        },
                    );
                    let second_baseman_throw_speed = decider.roll_stat(
                        levels::throw_speed(),
                        Skill::neutral(),
                    );
                    let second_baseman_transfer_time = decider.roll_stat(
                        levels::fielder_transfer_time(),
                        Skill::neutral(),
                    );
                    let second_to_first_base_throw_time = add_time(
                        time_to_cover(90_000, second_baseman_throw_speed),
                        second_baseman_transfer_time,
                    );
                    let batter_run_time = add_time(
                        time_to_cover(90_000, batter_runner_speed),
                        batter_box_exit_time,
                    );
                    if batter_run_time > add_time(
                        add_time(
                            fielding_play.to_event.travel_time,
                            third_to_second_base_throw_time,
                        ),
                        second_to_first_base_throw_time,
                    ) {
                        // Around the horn: a triple play.
                        batter_hit_type = HitType::Out;
                        outs_made = outs_made + 1;
                        push_move(
                            &mut base_movements,
                            BaseMovement {
                                starting_base: None,
                                bases_moved: MoveType::Out(Consts::FIRST),
                            },
                        );
                    } else {
                        // Only two: the batter takes first.
                        batter_hit_type = HitType::FieldersChoice;
                        b0 = Some(batter_lineup_index);
                        push_move(
                            &mut base_movements,
                            BaseMovement {
                                starting_base: None,
                                bases_moved: MoveType::Advanced(1),
                            },
                        );
                    }
                } else {
                    // No double play at second; the runner from first moves
                    // up and the throw goes across to first instead.
                    b1 = runner_from_first;
                    push_move(
                        &mut base_movements,
                        BaseMovement {
                            starting_base: Some(Consts::FIRST),
                            bases_moved: MoveType::Advanced(1),
                        },
                    );

                    let third_baseman_throw_speed = decider.roll_stat(
                        levels::throw_speed(),
                        Skill::neutral(),
                    );
                    let third_baseman_transfer_time = decider.roll_stat(
                        levels::fielder_transfer_time(),
                        Skill::neutral(),
                    );
                    // Third to first on the diagonal: ninety feet times the
                    // square root of two.
                    let third_first_throw_time = add_time(
                        time_to_cover(127_279, third_baseman_throw_speed),
                        third_baseman_transfer_time,
                    );

                    let batter_run_time = add_time(
                        time_to_cover(90_000, batter_runner_speed),
                        batter_box_exit_time,
                    );
                    if batter_run_time > third_first_throw_time {
                        // A double play, third to first.
                        batter_hit_type = HitType::Out;
                        outs_made = outs_made + 1;
                        push_move(
                            &mut base_movements,
                            BaseMovement {
                                starting_base: None,
                                bases_moved: MoveType::Out(Consts::FIRST),
                            },
                        );
                    } else {
                        // No double play: a fielder's choice puts the batter
                        // on first.
                        batter_hit_type = HitType::FieldersChoice;
                        b0 = Some(batter_lineup_index);
                        push_move(
                            &mut base_movements,
                            BaseMovement {
                                starting_base: None,
                                bases_moved: MoveType::Advanced(1),
                            },
                        );
                    }
                }
            } else {
                // Safe at third.
                batter_hit_type = HitType::Single;
                b2 = runner_from_second;
                push_move(
                    &mut base_movements,
                    BaseMovement {
                        starting_base: Some(Consts::SECOND),
                        bases_moved: MoveType::Advanced(1),
                    },
                );
            }
        } else {
            // No runner going from second to third.
            batter_hit_type = HitType::Single;
            b0 = Some(batter_lineup_index);
            push_move(
                &mut base_movements,
                BaseMovement { starting_base: None, bases_moved: MoveType::Advanced(1) },
            );

            if base_state[0].is_some() {
                b1 = base_state[0];
                push_move(
                    &mut base_movements,
                    BaseMovement {
                        starting_base: Some(Consts::FIRST),
                        bases_moved: MoveType::Advanced(1),
                    },
                );
            }

            b2 = base_state[2];
        }

        if base_state[0].is_some() && base_state[1].is_some() && base_state[2].is_some() {
            // Forces everywhere: the runner from third walks home.
            runs_scored = runs_scored + 1;
            push_move(
                &mut base_movements,
                BaseMovement {
                    starting_base: Some(Consts::THIRD),
                    bases_moved: MoveType::Advanced(1),
                },
            );
        }
    } else {
        // The batter reaches first for sure, pushing the runner from first.
        b0 = Some(batter_lineup_index);
        push_move(
            &mut base_movements,
            BaseMovement { starting_base: None, bases_moved: MoveType::Advanced(1) },
        );
        b1 = base_state[0];
        push_move(
            &mut base_movements,
            BaseMovement {
                starting_base: Some(Consts::FIRST),
                bases_moved: MoveType::Advanced(1),
            },
        );

        let second_runner_speed = decider.roll_stat(levels::baserunner_speed(), Skill::neutral());
        let second_runner_takeoff_delay = decider.roll_stat(
            levels::base_takeoff_delay(),
            Skill::neutral(),
        );
        let second_to_third_run_time = add_time(
            time_to_cover(90_000, second_runner_speed),
            second_runner_takeoff_delay,
        );
        if second_to_third_run_time > fielding_play.to_event.travel_time && base_state[1].is_some()
            && base_state[2].is_some() {
            // The runner from second is forced out at third.
            batter_hit_type = HitType::FieldersChoice;
            outs_made = outs_made + 1;
            push_move(
                &mut base_movements,
                BaseMovement {
                    starting_base: Some(Consts::SECOND),
                    bases_moved: MoveType::Out(Consts::THIRD),
                },
            );
        } else {
            // Safe at third.
            batter_hit_type = HitType::Single;
            b2 = base_state[1];
            push_move(
                &mut base_movements,
                BaseMovement {
                    starting_base: Some(Consts::SECOND),
                    bases_moved: MoveType::Advanced(1),
                },
            );
        }

        if base_state[0].is_some() && base_state[1].is_some() && base_state[2].is_some() {
            // Force at home.
            runs_scored = runs_scored + 1;
            push_move(
                &mut base_movements,
                BaseMovement {
                    starting_base: Some(Consts::THIRD),
                    bases_moved: MoveType::Advanced(1),
                },
            );
        }
    }

    BaseRunningRecord {
        movements: base_movements,
        outcome: BaseRunningOutcome {
            outs_made,
            runs_scored,
            batter_hit_type,
            ending_base_state: [b0, b1, b2],
        },
    }
}

/// The throw went home: a force on the runner from third, with relays that
/// can cut down trailing runners or the batter.
fn throw_play_to_home<D: Decider>(
    fielding_play: &FieldingPlay,
    batter_lineup_index: u8,
    base_state: &BaseState,
    decider: &mut D,
    batter_runner_speed: i64,
    batter_box_exit_time: i64,
) -> (r: BaseRunningRecord)
    requires
        fielding_play.wf(),
        0 <= batter_runner_speed <= 40_000,
        1_500 <= batter_box_exit_time <= 3_500,
    ensures
        final(decider).entropy() <= old(decider).entropy(),
        r.outcome.runs_scored == runs_in(r.movements@),
        r.outcome.outs_made == outs_in(r.movements@),
        occupied_count(r.outcome.ending_base_state) + r.outcome.runs_scored <= occupied_count(
            *base_state,
        ) + 1,
        distinct_bases(*base_state) && batter_off_bases(*base_state, batter_lineup_index)
            ==> distinct_bases(r.outcome.ending_base_state),
        occupants_from(*base_state, r.outcome.ending_base_state, batter_lineup_index),
        r.outcome.outs_made <= 3,
        spec_batter_advance(fielding_play.to_event.travel_time as int, batter_runner_speed as int,
            batter_box_exit_time as int) >= 2 ==> extra_base_outcome_ok(
            r,
            *base_state,
            batter_lineup_index,
            spec_batter_advance(fielding_play.to_event.travel_time as int,
                batter_runner_speed as int, batter_box_exit_time as int),
        ),
{
    let advance = batter_advanced(
        fielding_play.to_event.travel_time,
        batter_runner_speed,
        batter_box_exit_time,
    );
    if advance >= 2 {
        return extra_base_hit(base_state, batter_lineup_index, advance);
    }

    let mut base_movements: Vec<BaseMovement> = Vec::new();
    let mut runs_scored: u8 = 0;
    let mut outs_made: u8 = 0;
    let mut b0: Option<u8> = None;
    let mut b1: Option<u8> = None;
    let mut b2: Option<u8> = None;
    let batter_hit_type: HitType;

    if advance == 0 {
        if base_state[0].is_some() && base_state[1].is_some() && base_state[2].is_some() {
            // The force at home is live.
            let third_to_home_speed = decider.roll_stat(levels::baserunner_speed(), Skill::neutral());
            let third_to_home_takeoff = decider.roll_stat(
                levels::base_takeoff_delay(),
                Skill::neutral(),
            );
            let third_to_home_run_time = add_time(
                time_to_cover(90_000, third_to_home_speed),
                third_to_home_takeoff,
            );
            if third_to_home_run_time > fielding_play.to_event.travel_time {
                // The runner from third is forced out at home.
                outs_made = outs_made + 1;
                push_move(
                    &mut base_movements,
                    BaseMovement {
                        starting_base: Some(Consts::THIRD),
                        bases_moved: MoveType::Out(Consts::HOME),
                    },
                );

                let home_to_third_throw_speed = decider.roll_stat(
                    levels::throw_speed(),
                    Skill::neutral(),
                );
                let home_transfer_time = decider.roll_stat(
                    levels::fielder_transfer_time(),
                    Skill::neutral(),
                );
                let home_to_third_throw_time = add_time(
                    time_to_cover(90_000, home_to_third_throw_speed),
                    home_transfer_time,
                );

                let second_to_third_speed = decider.roll_stat(
                    levels::baserunner_speed(),
                    Skill::neutral(),
                );
                let second_to_third_takeoff = decider.roll_stat(
                    levels::base_takeoff_delay(),
                    Skill::neutral(),
                );
                let second_to_third_run_time = add_time(
                    time_to_cover(90_000, second_to_third_speed),
                    second_to_third_takeoff,
                );
                if second_to_third_run_time > add_time(
                    fielding_play.to_event.travel_time,
                    home_to_third_throw_time,
                ) {
                    // A double play at third.
                    outs_made = outs_made + 1;
                    push_move(
                        &mut base_movements,
                        BaseMovement {
                            starting_base: Some(Consts::SECOND),
                            bases_moved: MoveType::Out(Consts::THIRD),
                        },
                    );

                    // Third to first on the diagonal: ninety feet times the
                    // square root of two.
                    let third_to_first_throw_speed = decider.roll_stat(
                        levels::throw_speed(),
                        Skill::neutral(),
                    );
                    let third_to_first_transfer = decider.roll_stat(
                        levels::fielder_transfer_time(),
                        Skill::neutral(),
                    );
                    let third_to_first_throw_time = add_time(
                        time_to_cover(127_279, third_to_first_throw_speed),
                        third_to_first_transfer,
                    );

                    let batter_run_time = add_time(
                        time_to_cover(90_000, batter_runner_speed),
                        batter_box_exit_time,
                    );
                    if batter_run_time > third_to_first_throw_time {
                        // Home, third, second: a triple play, the batter safe
                        // at first on the fielder's choice.
                        batter_hit_type = HitType::FieldersChoice;
                        outs_made = outs_made + 1;
                        push_move(
                            &mut base_movements,
                            BaseMovement {
                                starting_base: Some(Consts::FIRST),
                                bases_moved: MoveType::Out(Consts::SECOND),
                            },
                        );
                        b0 = Some(batter_lineup_index);
                        push_move(
                            &mut base_movements,
                            BaseMovement {
                                starting_base: None,
                                bases_moved: MoveType::Advanced(1),
                            },
                        );
                    } else {
                        // A double play only: the runner from first is forced
                        // up to second, and the batter takes first.
                        batter_hit_type = HitType::FieldersChoice;
                        b1 = base_state[0];
                        push_move(
                            &mut base_movements,
                            BaseMovement {
                                starting_base: Some(Consts::FIRST),
                                bases_moved: MoveType::Advanced(1),
                            },
                        );
                        b0 = Some(batter_lineup_index);
                        push_move(
                            &mut base_movements,
                            BaseMovement {
                                starting_base: None,
                                bases_moved: MoveType::Advanced(1),
                            },
                        );
                    }
                } else {
                    // No double play at third: the runners move up.
                    b2 = base_state[1];
                    push_move(
                        &mut base_movements,
                        BaseMovement {
                            starting_base: Some(Consts::SECOND),
                            bases_moved: MoveType::Advanced(1),
                        },
                    );
                    b1 = base_state[0];
                    push_move(
                        &mut base_movements,
                        BaseMovement {
                            starting_base: Some(Consts::FIRST),
                            bases_moved: MoveType::Advanced(1),
                        },
                    );

                    let home_first_throw_speed = decider.roll_stat(
                        levels::throw_speed(),
                        Skill::neutral(),
                    );
                    let home_first_transfer = decider.roll_stat(
                        levels::fielder_transfer_time(),
                        Skill::neutral(),
                    );
                    let home_first_throw_time = add_time(
                        time_to_cover(90_000, home_first_throw_speed),
                        home_first_transfer,
                    );
                    let batter_run_time = add_time(
                        time_to_cover(90_000, batter_runner_speed),
                        batter_box_exit_time,
                    );

                    if batter_run_time > home_first_throw_time {
                        // A double play, home to first.
                        batter_hit_type = HitType::Out;
                        outs_made = outs_made + 1;
                        push_move(
                            &mut base_movements,
                            BaseMovement {
                                starting_base: None,
                                bases_moved: MoveType::Out(Consts::FIRST),
                            },
                        );
                    } else {
                        // No double play: the batter takes first.
                        batter_hit_type = HitType::FieldersChoice;
                        b0 = Some(batter_lineup_index);
                        push_move(
                            &mut base_movements,
                            BaseMovement {
                                starting_base: None,
                                bases_moved: MoveType::Advanced(1),
                            },
                        );
                    }
                }
            } else {
                // Safe at home.
                batter_hit_type = HitType::Single;
                runs_scored = runs_scored + 1;
                push_move(
                    &mut base_movements,
                    BaseMovement {
                        starting_base: Some(Consts::THIRD),
                        bases_moved: MoveType::Advanced(1),
                    },
                );

                b2 = base_state[1];
                push_move(
                    &mut base_movements,
                    BaseMovement {
                        starting_base: Some(Consts::SECOND),
                        bases_moved: MoveType::Advanced(1),
                    },
                );

                b1 = base_state[0];
                push_move(
                    &mut base_movements,
                    BaseMovement {
                        starting_base: Some(Consts::FIRST),
                        bases_moved: MoveType::Advanced(1),
                    },
                );

                b0 = Some(batter_lineup_index);
                push_move(
                    &mut base_movements,
                    BaseMovement { starting_base: None, bases_moved: MoveType::Advanced(1) },
                );
            }
        } else {
            // No force at home: the batter takes first and runners move up
            // behind the throw.
            batter_hit_type = HitType::Single;
            b0 = Some(batter_lineup_index);
            push_move(
                &mut base_movements,
                BaseMovement { starting_base: None, bases_moved: MoveType::Advanced(1) },
            );

            if base_state[0].is_some() {
                b1 = base_state[0];
                push_move(
                    &mut base_movements,
                    BaseMovement {
                        starting_base: Some(Consts::FIRST),
                        bases_moved: MoveType::Advanced(1),
                    },
                );
            }

            if base_state[1].is_some() {
                b2 = base_state[1];
                push_move(
                    &mut base_movements,
                    BaseMovement {
                        starting_base: Some(Consts::SECOND),
                        bases_moved: MoveType::Advanced(1),
                    },
                );
            }
        }
    } else {
        // The batter reaches first for sure.
        batter_hit_type = HitType::Single;
        b0 = Some(batter_lineup_index);

        if base_state[0].is_some() {
            b1 = base_state[0];
            push_move(
                &mut base_movements,
                BaseMovement {
                    starting_base: Some(Consts::FIRST),
                    bases_moved: MoveType::Advanced(1),
                },
            );
        }

        if base_state[1].is_some() {
            let second_run_speed = decider.roll_stat(levels::baserunner_speed(), Skill::neutral());
            let second_takeoff = decider.roll_stat(levels::base_takeoff_delay(), Skill::neutral());
            let second_home_run_time = add_time(
                time_to_cover(180_000, second_run_speed),
                second_takeoff,
            );

            if second_home_run_time > fielding_play.to_event.travel_time {
                // Scores from second on a single.
                runs_scored = runs_scored + 1;
                push_move(
                    &mut base_movements,
                    BaseMovement {
                        starting_base: Some(Consts::SECOND),
                        bases_moved: MoveType::Advanced(2),
                    },
                );
            } else {
                // Holds at third.
                b2 = base_state[1];
                push_move(
                    &mut base_movements,
                    BaseMovement {
                        starting_base: Some(Consts::SECOND),
                        bases_moved: MoveType::Advanced(1),
                    },
                );
            }
        }

        if base_state[2].is_some() {
            // Safe at home.
            runs_scored = runs_scored + 1;
            push_move(
                &mut base_movements,
                BaseMovement {
                    starting_base: Some(Consts::THIRD),
                    bases_moved: MoveType::Advanced(1),
                },
            );
        }
    }

    BaseRunningRecord {
        movements: base_movements,
        outcome: BaseRunningOutcome {
            outs_made,
            runs_scored,
            batter_hit_type,
            ending_base_state: [b0, b1, b2],
        },
    }
}

/// Base-state law: no lineup index ever stands on two bases at once. A play
/// that starts from distinct occupants, with the batter on none of the bases,
/// ends with distinct occupants, and nobody but the batter can have joined
/// them — whatever the landing and whatever the decider drew.
pub proof fn lemma_bases_stay_distinct(
    r: BaseRunningRecord,
    landing: BallLanding,
    base_state: BaseState,
    batter: u8,
)
    requires
        br_record_ok(r, landing, base_state, batter),
        distinct_bases(base_state),
        batter_off_bases(base_state, batter),
    ensures
        distinct_bases(r.outcome.ending_base_state),
        occupants_from(base_state, r.outcome.ending_base_state, batter),
{
}

/// Score conservation law: a play's runs scored equal the number of its
/// recorded movements that cross home plate, and its outs equal its recorded
/// out movements — plus the catch itself after a caught fly — never passing
/// three.
pub proof fn lemma_play_counts_match_movements(
    r: BaseRunningRecord,
    landing: BallLanding,
    base_state: BaseState,
    batter: u8,
)
    requires
        br_record_ok(r, landing, base_state, batter),
    ensures
        r.outcome.runs_scored == runs_in(r.movements@),
        r.outcome.outs_made == outs_in(r.movements@) + if landing is Out {
            1int
        } else {
            0int
        },
        r.outcome.outs_made <= 3,
{
}
} // verus!
