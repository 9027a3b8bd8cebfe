use vstd::prelude::*;

use crate::base_running::{
    force_play, force_target, simulate_base_running, BaseRunningRecord, BaseState,
};
use crate::hit::HitOutcome;
use crate::levels;
use crate::location::{
    add_time, clamp, cos_milli, isqrt, sin_milli, spec_cos_milli, spec_isqrt, spec_sin_milli,
    speed_over, tdiv, time_to_cover, Cartesian, Location, MAX_DISTANCE, TIME_NEVER,
};
use crate::player::Team;
use crate::Decider;

verus! {

/// The nine defensive positions.
#[derive(Clone, Copy, Debug, PartialEq, Eq, Structural)]
pub enum Fielder {
    Catcher,
    Pitcher,
    FirstBase,
    SecondBase,
    ThirdBase,
    Shortstop,
    LeftFielder,
    CenterFielder,
    RightFielder,
}

impl Fielder {
    /// The position's fixed index into a team's fielder list.
    pub open spec fn spec_index(self) -> int {
        match self {
            Fielder::Catcher => 0,
            Fielder::Pitcher => 1,
            Fielder::FirstBase => 2,
            Fielder::SecondBase => 3,
            Fielder::ThirdBase => 4,
            Fielder::Shortstop => 5,
            Fielder::LeftFielder => 6,
            Fielder::CenterFielder => 7,
            Fielder::RightFielder => 8,
        }
    }

    /// The position's fixed index into a team's fielder list.
    pub fn index(self) -> (r: usize)
        ensures
            r == self.spec_index(),
            r < 9,
    {
        match self {
            Fielder::Catcher => 0,
            Fielder::Pitcher => 1,
            Fielder::FirstBase => 2,
            Fielder::SecondBase => 3,
            Fielder::ThirdBase => 4,
            Fielder::Shortstop => 5,
            Fielder::LeftFielder => 6,
            Fielder::CenterFielder => 7,
            Fielder::RightFielder => 8,
        }
    }

    /// The position at a given index; the inverse of [`Fielder::index`].
    pub fn from_index(i: usize) -> (r: Fielder)
        requires
            i < 9,
        ensures
            r.spec_index() == i,
    {
        if i == 0 {
            Fielder::Catcher
        } else if i == 1 {
            Fielder::Pitcher
        } else if i == 2 {
            Fielder::FirstBase
        } else if i == 3 {
            Fielder::SecondBase
        } else if i == 4 {
            Fielder::ThirdBase
        } else if i == 5 {
            Fielder::Shortstop
        } else if i == 6 {
            Fielder::LeftFielder
        } else if i == 7 {
            Fielder::CenterFielder
        } else {
            Fielder::RightFielder
        }
    }

    /// Where the position stands when the ball is hit.
    pub open spec fn spec_starting_location(self) -> Location {
        match self {
            Fielder::Catcher => Location { direction: 0, distance: 0 },
            Fielder::Pitcher => Location { direction: 45_000, distance: 60_500 },
            Fielder::FirstBase => Location { direction: 83_500, distance: 105_000 },
            Fielder::SecondBase => Location { direction: 57_500, distance: 125_000 },
            Fielder::ThirdBase => Location { direction: 6_500, distance: 105_000 },
            Fielder::Shortstop => Location { direction: 32_500, distance: 125_000 },
            Fielder::LeftFielder => Location { direction: 19_500, distance: 255_000 },
            Fielder::CenterFielder => Location { direction: 45_000, distance: 255_000 },
            Fielder::RightFielder => Location { direction: 70_500, distance: 255_000 },
        }
    }

    /// Computes [`Fielder::spec_starting_location`].
    pub fn starting_location(&self) -> (r: Location)
        ensures
            r == self.spec_starting_location(),
            r.wf(),
    {
        match self {
            Fielder::Catcher => Location { direction: 0, distance: 0 },
            Fielder::Pitcher => Location { direction: 45_000, distance: 60_500 },
            Fielder::FirstBase => Location { direction: 83_500, distance: 105_000 },
            Fielder::SecondBase => Location { direction: 57_500, distance: 125_000 },
            Fielder::ThirdBase => Location { direction: 6_500, distance: 105_000 },
            Fielder::Shortstop => Location { direction: 32_500, distance: 125_000 },
            Fielder::LeftFielder => Location { direction: 19_500, distance: 255_000 },
            Fielder::CenterFielder => Location { direction: 45_000, distance: 255_000 },
            Fielder::RightFielder => Location { direction: 70_500, distance: 255_000 },
        }
    }

    /// The position's name, for a consumer that prints plays.
    pub fn name(&self) -> (r: &'static str)
    {
        match self {
            Fielder::Catcher => "Catcher",
            Fielder::Pitcher => "Pitcher",
            Fielder::FirstBase => "First Baseman",
            Fielder::SecondBase => "Second Baseman",
            Fielder::ThirdBase => "Third Baseman",
            Fielder::Shortstop => "Shortstop",
            Fielder::LeftFielder => "Left Fielder",
            Fielder::CenterFielder => "Center Fielder",
            Fielder::RightFielder => "Right Fielder",
        }
    }
}

/// Where the ball stood at one point of a play, and the time since contact,
/// in thousandths of a second.
#[derive(Clone, Copy, Debug, PartialEq, Eq, Structural)]
pub struct FieldingEvent {
    pub location: Location,
    pub travel_time: i64,
}

impl FieldingEvent {
    /// An event is well formed when its point is on the field and its time
    /// nonnegative and bounded.
    pub open spec fn wf(self) -> bool {
        &&& self.location.wf()
        &&& 0 <= self.travel_time <= TIME_NEVER
    }
}

/// A throw: who fielded the ball where, who took the throw where, and the
/// base (by index, home plate being one past third) the throw went for.
#[derive(Clone, Copy, Debug, PartialEq, Eq, Structural)]
pub struct FieldingPlay {
    pub from: Fielder,
    pub from_event: FieldingEvent,
    pub to: Fielder,
    pub to_event: FieldingEvent,
    pub base: usize,
}

impl FieldingPlay {
    /// A play is well formed when its events are and its target base exists.
    pub open spec fn wf(self) -> bool {
        &&& self.from_event.wf()
        &&& self.to_event.wf()
        &&& self.base <= 3
    }
}

/// How a ball in play came down: caught for an out, or landed and fielded
/// into a throw.
#[derive(Clone, Copy, Debug, PartialEq, Eq, Structural)]
pub enum BallLanding {
    /// Caught on the fly by a fielder at a point of the field.
    Out(Fielder, Location),
    /// Landed at a point and turned into a throw.
    Landed(Location, FieldingPlay),
}

impl BallLanding {
    /// Well-formedness of the landing's geometry.
    pub open spec fn wf(self) -> bool {
        match self {
            BallLanding::Out(_, loc) => loc.wf(),
            BallLanding::Landed(loc, play) => loc.wf() && play.wf(),
        }
    }
}

/// The fielding of one ball in play, with the base running it brought on.
#[derive(Clone, Debug, PartialEq)]
pub struct FieldingRecord {
    pub landing: BallLanding,
    pub base_running_record: BaseRunningRecord,
}

/// The two checkpoints of a batted ball's flight: when it last falls through
/// catchable height, and when it lands.
pub struct HitLocations {
    /// The ball's point and time when it descends below catch height; a path
    /// that never gets that high degenerates to the point of contact.
    pub catchable_path: FieldingEvent,
    /// The ball's point and time at ground level.
    pub landed_path: FieldingEvent,
}

impl HitLocations {
    /// Both checkpoints lie on the hit's ray, the catchable one no farther
    /// than the landing.
    pub open spec fn wf(self) -> bool {
        &&& self.catchable_path.wf()
        &&& self.landed_path.wf()
        &&& self.catchable_path.location.direction == self.landed_path.location.direction
        &&& self.catchable_path.location.distance <= self.landed_path.location.distance
        &&& self.landed_path.travel_time > 0
    }
}

/// The vertical launch speed of a hit, in thousandths of a foot per second.
pub open spec fn spec_vy(launch_angle: int, exit_speed: int) -> int {
    tdiv(spec_sin_milli(launch_angle) * exit_speed, 1000)
}

/// The horizontal speed of a hit, in thousandths of a foot per second.
pub open spec fn spec_vx(launch_angle: int, exit_speed: int) -> int {
    spec_cos_milli(launch_angle) * exit_speed / 1000
}

/// The discriminant of the height equation at `target_height`: nonnegative
/// exactly when the ball's flight reaches that height.
pub open spec fn spec_flight_disc(launch_angle: int, exit_speed: int, target_height: int) -> int {
    let vy = spec_vy(launch_angle, exit_speed);
    vy * vy - 64_348 * (target_height - 6_000)
}

/// The time at which the ball rises through `target_height`, in thousandths
/// of a second: the lesser root of the height equation.
pub open spec fn spec_rise_time(launch_angle: int, exit_speed: int, target_height: int) -> int {
    tdiv(
        1000 * (spec_vy(launch_angle, exit_speed) - spec_isqrt(
            spec_flight_disc(launch_angle, exit_speed, target_height),
        )),
        32_174,
    )
}

/// The time at which the ball falls through `target_height`, in thousandths
/// of a second: the greater root of the height equation.
pub open spec fn spec_fall_time(launch_angle: int, exit_speed: int, target_height: int) -> int {
    tdiv(
        1000 * (spec_vy(launch_angle, exit_speed) + spec_isqrt(
            spec_flight_disc(launch_angle, exit_speed, target_height),
        )),
        32_174,
    )
}

/// How far a ball flying at `vx` travels in `t`, in thousandths of a foot,
/// capped at the edge of the field.
pub open spec fn spec_flight_dist(vx: int, t: int) -> int {
    if vx * t / 1000 > MAX_DISTANCE {
        MAX_DISTANCE as int
    } else {
        vx * t / 1000
    }
}

/// When the ball lands: the fall time through ground level.
pub open spec fn spec_landed_time(launch_angle: int, exit_speed: int) -> int {
    spec_fall_time(launch_angle, exit_speed, 0)
}

/// How far from the plate the ball lands.
pub open spec fn spec_landed_distance(launch_angle: int, exit_speed: int) -> int {
    spec_flight_dist(spec_vx(launch_angle, exit_speed), spec_landed_time(launch_angle, exit_speed))
}

/// When the ball last falls through catch height (eight feet): zero when the
/// flight never gets that high, so the ball is catchable off the bat.
pub open spec fn spec_catchable_time(launch_angle: int, exit_speed: int) -> int {
    if spec_flight_disc(launch_angle, exit_speed, 8_000) < 0 {
        0
    } else if spec_fall_time(launch_angle, exit_speed, 8_000) < 0 {
        0
    } else {
        spec_fall_time(launch_angle, exit_speed, 8_000)
    }
}

/// How far from the plate the ball falls through catch height.
pub open spec fn spec_catchable_distance(launch_angle: int, exit_speed: int) -> int {
    if spec_flight_disc(launch_angle, exit_speed, 8_000) < 0 {
        0
    } else if spec_fall_time(launch_angle, exit_speed, 8_000) < 0 {
        0
    } else {
        spec_flight_dist(
            spec_vx(launch_angle, exit_speed),
            spec_fall_time(launch_angle, exit_speed, 8_000),
        )
    }
}

/// The times at which a ball hit at `launch_angle` (thousandths of a degree)
/// and `exit_speed` (thousandths of a foot per second) from six feet up
/// passes `target_height` (thousandths of a foot): the closed-form quadratic
/// of projectile motion under 32.174 feet per second squared of gravity.
/// Returns the rising and falling crossings, in thousandths of a second —
/// exactly [`spec_rise_time`] and [`spec_fall_time`] — or nothing exactly
/// when the flight never reaches the height.
pub fn travel_time_for_ball_height(launch_angle: i64, exit_speed: i64, target_height: i64) -> (r:
    Option<(i64, i64)>)
    requires
        -90_000 <= launch_angle <= 90_000,
        0 <= exit_speed <= 250_000,
        0 <= target_height <= 10_000,
    ensures
        r is Some <==> spec_flight_disc(launch_angle as int, exit_speed as int,
            target_height as int) >= 0,
        r matches Some((lesser, greater)) ==> lesser == spec_rise_time(launch_angle as int,
            exit_speed as int, target_height as int) && greater == spec_fall_time(
            launch_angle as int, exit_speed as int, target_height as int),
        r matches Some((lesser, greater)) ==> lesser <= greater && -20_000 <= lesser <= greater
            <= 20_000,
        target_height == 0 ==> r is Some,
        r matches Some((lesser, greater)) ==> (target_height == 0 ==> greater > 0),
{
    let initial_height: i64 = 6_000;
    let sn: i64 = sin_milli(launch_angle);
    proof {
        assert(-250_000_000int <= sn * exit_speed <= 250_000_000int) by (nonlinear_arith)
            requires
                -1000 <= sn <= 1000,
                0 <= exit_speed <= 250_000,
        ;
    }
    // Vertical launch speed, in thousandths of a foot per second; the
    // division rounds toward zero on either sign.
    let prod: i64 = sn * exit_speed;
    let vy: i64 = if prod >= 0 {
        prod / 1000
    } else {
        -((-prod) / 1000)
    };
    proof {
        assert(vy == spec_vy(launch_angle as int, exit_speed as int));
        assert(-250_000int <= vy <= 250_000int) by (nonlinear_arith)
            requires
                vy == if prod >= 0 { prod / 1000 } else { -((-prod) / 1000) },
                -250_000_000int <= prod <= 250_000_000int,
        ;
    }

    // With heights in thousandths of feet and times in thousandths of
    // seconds, the height equation reduces to a quadratic whose discriminant
    // is the square of the vertical speed at the target height.
    proof {
        assert(0 <= vy * vy <= 62_500_000_000int) by (nonlinear_arith)
            requires -250_000int <= vy <= 250_000int;
    }
    let drop: i64 = target_height - initial_height;
    let disc: i64 = vy * vy - 64_348 * drop;
    if disc < 0 {
        return None;
    }
    let sq: u128 = isqrt(disc as u128);
    proof {
        assert(sq <= 260_000u128) by (nonlinear_arith)
            requires sq * sq <= 62_886_088_000u128;
    }
    let sq_i: i64 = sq as u64 as i64;
    let num_lesser: i64 = 1000 * (vy - sq_i);
    let num_greater: i64 = 1000 * (vy + sq_i);
    let lesser: i64 = if num_lesser >= 0 {
        num_lesser / 32_174
    } else {
        -((-num_lesser) / 32_174)
    };
    let greater: i64 = if num_greater >= 0 {
        num_greater / 32_174
    } else {
        -((-num_greater) / 32_174)
    };
    proof {
        assert(sq_i == spec_isqrt(disc as int));
        assert(lesser == spec_rise_time(launch_angle as int, exit_speed as int,
            target_height as int));
        assert(greater == spec_fall_time(launch_angle as int, exit_speed as int,
            target_height as int));
        assert(lesser <= greater && -20_000 <= lesser && greater <= 20_000) by (nonlinear_arith)
            requires
                lesser == if num_lesser >= 0 { num_lesser as int / 32_174int } else {
                    -((-num_lesser) as int / 32_174)
                },
                greater == if num_greater >= 0 { num_greater as int / 32_174int } else {
                    -((-num_greater) as int / 32_174)
                },
                num_lesser == 1000 * (vy - sq_i),
                num_greater == 1000 * (vy + sq_i),
                -250_000int <= vy <= 250_000int,
                0 <= sq_i <= 260_000int,
        ;
        if target_height == 0 {
            assert(1000 * (vy + sq_i) >= 769_000) by (nonlinear_arith)
                requires
                    (sq_i + 1) * (sq_i + 1) > vy * vy + 386_088_000int,
                    -250_000int <= vy <= 250_000int,
                    sq_i >= 0,
            ;
            assert(1000 * (vy + sq_i) / 32_174 >= 1) by (nonlinear_arith)
                requires 1000 * (vy + sq_i) >= 769_000int;
        }
    }
    Some((lesser, greater))
}

/// The flight of a batted ball: the catchable checkpoint (where it falls
/// through eight feet, the top of a leaping reach) and the landing point,
/// each pinned to its closed-form value.
pub fn ball_path(direction: i64, launch_angle: i64, exit_speed: i64) -> (r: HitLocations)
    requires
        0 <= direction <= 90_000,
        -90_000 <= launch_angle <= 90_000,
        0 <= exit_speed <= 250_000,
    ensures
        r.wf(),
        r.catchable_path.location.direction == direction,
        r.landed_path.location.direction == direction,
        r.landed_path.travel_time == spec_landed_time(launch_angle as int, exit_speed as int),
        r.landed_path.location.distance == spec_landed_distance(launch_angle as int,
            exit_speed as int),
        r.catchable_path.travel_time == spec_catchable_time(launch_angle as int,
            exit_speed as int),
        r.catchable_path.location.distance == spec_catchable_distance(launch_angle as int,
            exit_speed as int),
        r.catchable_path.location.distance <= r.landed_path.location.distance,
        r.catchable_path.travel_time <= r.landed_path.travel_time,
{
    let catch_height: i64 = 8_000;
    let cs: i64 = cos_milli(launch_angle);
    proof {
        assert(0 <= cs * exit_speed <= 250_000_000int) by (nonlinear_arith)
            requires
                0 <= cs <= 1000,
                0 <= exit_speed <= 250_000,
        ;
    }
    // Horizontal speed, in thousandths of a foot per second.
    let vx: i64 = cs * exit_speed / 1000;

    let catchable_path = match travel_time_for_ball_height(launch_angle, exit_speed, catch_height) {
        Some((_, travel_time)) => {
            if travel_time < 0 {
                // The ball is never above a glove: catchable off the bat.
                FieldingEvent {
                    location: Location { direction, distance: 0 },
                    travel_time: 0,
                }
            } else {
                FieldingEvent {
                    location: Location { direction, distance: flight_distance(vx, travel_time) },
                    travel_time,
                }
            }
        },
        None => FieldingEvent { location: Location { direction, distance: 0 }, travel_time: 0 },
    };

    let landed = travel_time_for_ball_height(launch_angle, exit_speed, 0);
    let landed_path = match landed {
        Some((_, landed_travel_time)) => FieldingEvent {
            location: Location { direction, distance: flight_distance(vx, landed_travel_time) },
            travel_time: landed_travel_time,
        },
        None => {
            // A ball hit from above the ground always comes down.
            proof {
                assert(false);
            }
            FieldingEvent { location: Location { direction, distance: 0 }, travel_time: 1 }
        },
    };

    proof {
        lemma_catchable_before_landing(
            launch_angle as int,
            exit_speed as int,
            catchable_path,
            landed_path,
        );
    }
    HitLocations { catchable_path, landed_path }
}

/// The catchable checkpoint never lies beyond the landing point: the ball
/// falls through catch height before it falls to the ground.
proof fn lemma_catchable_before_landing(
    angle: int,
    speed: int,
    catchable: FieldingEvent,
    landed: FieldingEvent,
)
    requires
        -90_000 <= angle <= 90_000,
        0 <= speed <= 250_000,
        catchable.travel_time == spec_catchable_time(angle, speed),
        catchable.location.distance == spec_catchable_distance(angle, speed),
        landed.travel_time == spec_landed_time(angle, speed),
        landed.location.distance == spec_landed_distance(angle, speed),
        0 <= landed.location.distance,
        0 <= catchable.location.distance,
        landed.travel_time > 0,
    ensures
        catchable.location.distance <= landed.location.distance,
        catchable.travel_time <= landed.travel_time,
{
    let vy = spec_vy(angle, speed);
    let vx = spec_vx(angle, speed);
    let disc8 = spec_flight_disc(angle, speed, 8_000);
    let disc0 = spec_flight_disc(angle, speed, 0);
    assert(disc0 == disc8 + 64_348 * 8_000);
    lemma_fall_time_positive(angle, speed);
    lemma_isqrt_exists(disc0);
    let sq0 = spec_isqrt(disc0);
    let g0 = spec_landed_time(angle, speed);
    if disc8 < 0 || spec_fall_time(angle, speed, 8_000) < 0 {
        // The catchable checkpoint degenerates to the point of contact.
        assert(catchable.location.distance == 0);
        assert(catchable.travel_time == 0);
    } else {
        lemma_isqrt_exists(disc8);
        let sq8 = spec_isqrt(disc8);
        assert(sq8 <= sq0) by (nonlinear_arith)
            requires
                sq8 >= 0,
                sq0 >= 0,
                sq8 * sq8 <= disc8,
                disc8 <= disc0,
                disc0 < (sq0 + 1) * (sq0 + 1),
        ;
        let g8 = spec_fall_time(angle, speed, 8_000);
        let n8 = 1000 * (vy + sq8);
        let n0 = 1000 * (vy + sq0);
        assert(n8 <= n0);
        if n8 >= 0 {
            assert(n8 / 32_174 <= n0 / 32_174) by (nonlinear_arith)
                requires 0 <= n8 <= n0;
            assert(g8 <= g0);
        } else if n0 >= 0 {
            assert((-n8) / 32_174 >= 0) by (nonlinear_arith)
                requires -n8 >= 0;
            assert(n0 / 32_174 >= 0) by (nonlinear_arith)
                requires n0 >= 0;
            assert(g8 <= 0 <= g0);
        } else {
            assert((-n0) / 32_174 <= (-n8) / 32_174) by (nonlinear_arith)
                requires 0 <= -n0 <= -n8;
            assert(g8 <= g0);
        }
        assert(0 <= g8);
        lemma_cos_nonneg(angle);
        assert(spec_cos_milli(angle) * speed >= 0) by (nonlinear_arith)
            requires spec_cos_milli(angle) >= 0, speed >= 0;
        assert(vx >= 0) by (nonlinear_arith)
            requires
                vx == spec_cos_milli(angle) * speed / 1000,
                spec_cos_milli(angle) * speed >= 0,
        ;
        assert(vx * g8 <= vx * g0) by (nonlinear_arith)
            requires
                vx >= 0,
                0 <= g8 <= g0,
        ;
        assert(vx * g8 / 1000 <= vx * g0 / 1000) by (nonlinear_arith)
            requires
                vx * g8 <= vx * g0,
                vx * g8 >= 0,
        ;
        assert(vx * g8 >= 0) by (nonlinear_arith)
            requires vx >= 0, g8 >= 0;
        assert(spec_flight_dist(vx, g8) <= spec_flight_dist(vx, g0));
    }
}

/// The cosine approximation of an in-range angle lies between zero and one.
proof fn lemma_cos_nonneg(angle: int)
    requires
        -90_000 <= angle <= 90_000,
    ensures
        0 <= spec_cos_milli(angle) <= 1000,
{
    let x = if angle < 0 {
        90_000 + angle
    } else {
        90_000 - angle
    };
    assert(0 <= x <= 90_000);
    assert(0 <= x * (180_000 - x) <= 8_100_000_000int) by (nonlinear_arith)
        requires 0 <= x <= 180_000int;
    let u = x * (180_000 - x);
    assert((4000 * u) / (40_500_000_000 - u) >= 0 && (4000 * u) / (40_500_000_000 - u) <= 1000)
        by (nonlinear_arith)
        requires 0 <= u <= 8_100_000_000int;
}

/// The sine approximation of an in-range angle lies between minus one and
/// one.
proof fn lemma_sin_bounds(angle: int)
    requires
        -180_000 <= angle <= 180_000,
    ensures
        -1000 <= spec_sin_milli(angle) <= 1000,
{
    let x = if angle < 0 {
        -angle
    } else {
        angle
    };
    assert(0 <= x * (180_000 - x) <= 8_100_000_000int) by (nonlinear_arith)
        requires 0 <= x <= 180_000int;
    let u = x * (180_000 - x);
    assert((4000 * u) / (40_500_000_000 - u) >= 0 && (4000 * u) / (40_500_000_000 - u) <= 1000)
        by (nonlinear_arith)
        requires 0 <= u <= 8_100_000_000int;
}

/// A ball hit from six feet up always comes down, and not at once: the
/// landing time is positive.
proof fn lemma_fall_time_positive(angle: int, speed: int)
    requires
        -90_000 <= angle <= 90_000,
        0 <= speed <= 250_000,
    ensures
        spec_flight_disc(angle, speed, 0) >= 0,
        spec_landed_time(angle, speed) > 0,
{
    lemma_sin_bounds(angle);
    let sn = spec_sin_milli(angle);
    assert(-250_000_000 <= sn * speed <= 250_000_000int) by (nonlinear_arith)
        requires -1000 <= sn <= 1000, 0 <= speed <= 250_000;
    let vy = spec_vy(angle, speed);
    assert(-250_000 <= vy <= 250_000int) by (nonlinear_arith)
        requires
            vy == if sn * speed >= 0 { (sn * speed) / 1000 } else { -((-(sn * speed)) / 1000) },
            -250_000_000int <= sn * speed <= 250_000_000int,
    ;
    let disc0 = spec_flight_disc(angle, speed, 0);
    assert(disc0 == vy * vy + 386_088_000);
    assert(vy * vy >= 0) by (nonlinear_arith);
    lemma_isqrt_exists(disc0);
    let sq0 = spec_isqrt(disc0);
    assert(1000 * (vy + sq0) >= 769_000) by (nonlinear_arith)
        requires
            (sq0 + 1) * (sq0 + 1) > vy * vy + 386_088_000int,
            -250_000int <= vy <= 250_000int,
            sq0 >= 0,
    ;
    assert(1000 * (vy + sq0) / 32_174 >= 1) by (nonlinear_arith)
        requires 1000 * (vy + sq0) >= 769_000int;
}

/// Every nonnegative number has an integer square root, and the chosen one
/// brackets it.
proof fn lemma_isqrt_exists(x: int)
    requires
        x >= 0,
    ensures
        spec_isqrt(x) >= 0,
        spec_isqrt(x) * spec_isqrt(x) <= x,
        x < (spec_isqrt(x) + 1) * (spec_isqrt(x) + 1),
    decreases x,
{
    if x == 0 {
        assert((0int) * (0int) == 0 && (0int + 1) * (0int + 1) == 1) by (nonlinear_arith);
        assert(0int >= 0 && (0int) * (0int) <= x && x < (0int + 1) * (0int + 1));
        assert(exists|r: int| r >= 0 && #[trigger] (r * r) <= x && x < (r + 1) * (r + 1));
    } else {
        lemma_isqrt_exists(x - 1);
        let p = spec_isqrt(x - 1);
        if x < (p + 1) * (p + 1) {
            assert(p >= 0 && p * p <= x && x < (p + 1) * (p + 1));
            assert(exists|r: int| r >= 0 && #[trigger] (r * r) <= x && x < (r + 1) * (r + 1));
        } else {
            assert((p + 1) * (p + 1) == x);
            assert(x < (p + 2) * (p + 2)) by (nonlinear_arith)
                requires x == (p + 1) * (p + 1), p >= 0;
            assert(p + 1 >= 0 && (p + 1) * (p + 1) <= x && x < (p + 2) * (p + 2));
            assert(exists|r: int| r >= 0 && #[trigger] (r * r) <= x && x < (r + 1) * (r + 1));
        }
    }
    let c = spec_isqrt(x);
    assert(c >= 0 && c * c <= x && x < (c + 1) * (c + 1));
}

/// How far a ball flying at `vx` travels in `t`, in thousandths of a foot,
/// capped at the edge of the field.
fn flight_distance(vx: i64, t: i64) -> (r: i64)
    requires
        0 <= vx <= 250_000,
        0 <= t <= 20_000,
    ensures
        r == spec_flight_dist(vx as int, t as int),
        0 <= r <= MAX_DISTANCE,
{
    proof {
        assert(0 <= vx * t <= 5_000_000_000int) by (nonlinear_arith)
            requires
                0 <= vx <= 250_000,
                0 <= t <= 20_000,
        ;
        assert(vx * t / 1000 >= 0) by (nonlinear_arith)
            requires vx * t >= 0;
    }
    let d: i64 = vx * t / 1000;
    if d > MAX_DISTANCE {
        MAX_DISTANCE
    } else {
        d
    }
}

/// The closest point of the ball's catchable flight segment to a fielder's
/// starting spot, and the distance to it. Both flight checkpoints lie on the
/// hit's ray, so the closest point does too: its radial coordinate is the
/// fielder's own position resolved along the ray, clamped to the segment.
pub fn player_distance_to_catch_hit(fielder: &Fielder, hit_locations: &HitLocations) -> (r: (
    Location,
    i64,
))
    requires
        hit_locations.wf(),
    ensures
        r.0.wf(),
        r.0.direction == hit_locations.catchable_path.location.direction,
        hit_locations.catchable_path.location.distance <= r.0.distance
            <= hit_locations.landed_path.location.distance,
        0 <= r.1 <= crate::location::MAX_LEG,
{
    let direction = hit_locations.catchable_path.location.direction;
    let player_point = Cartesian::from_location(fielder.starting_location());
    let c: i64 = cos_milli(direction);
    let sn: i64 = sin_milli(direction);
    proof {
        assert(0 <= player_point.0 * c <= 3_000_000_000int && 0 <= player_point.1 * sn
            <= 3_000_000_000int) by (nonlinear_arith)
            requires
                0 <= player_point.0 <= MAX_DISTANCE,
                0 <= player_point.1 <= MAX_DISTANCE,
                0 <= c <= 1000,
                0 <= sn <= 1000,
        ;
        assert(0 <= (player_point.0 * c + player_point.1 * sn) / 1000 <= 6_000_000int)
            by (nonlinear_arith)
            requires
                0 <= player_point.0 * c <= 3_000_000_000int,
                0 <= player_point.1 * sn <= 3_000_000_000int,
        ;
    }
    let along: i64 = (player_point.0 * c + player_point.1 * sn) / 1000;

    let d1: i64 = hit_locations.catchable_path.location.distance;
    let d2: i64 = hit_locations.landed_path.location.distance;
    let radial: i64 = clamp(along, d1, d2);
    let closest = Location { direction, distance: radial };
    let dist = player_point.distance(Cartesian::from_location(closest));
    (closest, dist)
}

/// Where the wall stands along a direction: shallower in the corners, deepest
/// in the alleys.
pub open spec fn spec_wall_band(direction: int) -> int {
    if direction < 20_000 || 70_000 < direction {
        325_000
    } else if direction < 30_000 || 60_000 < direction {
        425_000
    } else {
        400_000
    }
}

/// The fielder who can reach a landed ball soonest, where, how far they ran,
/// and when the ball is in their hand. Three tiers guarantee an answer: a
/// full-speed interception after reacting, a chase of the rolling ball after
/// it lands, and, failing both, the nearest fielder collecting the ball at
/// the outfield wall. The fielding point always lies on the hit's ray, at or
/// beyond the landing point unless it is the wall fallback.
fn closest_fielder<D: Decider>(event: &FieldingEvent, fielding_team: &Team, decider: &mut D) -> (r:
    (Fielder, Location, i64, i64))
    requires
        event.wf(),
        fielding_team.wf(),
    ensures
        final(decider).entropy() <= old(decider).entropy(),
        r.1.wf(),
        r.1.direction == event.location.direction,
        r.1.distance >= event.location.distance || r.1.distance == spec_wall_band(
            event.location.direction as int,
        ),
        0 <= r.3 <= TIME_NEVER,
{
    let direction: i64 = event.location.direction;
    let ball_speed: i64 = speed_over(event.location.distance, event.travel_time);

    // First tier: run flat out to meet the ball in flight after reacting.
    let mut best: Option<(Fielder, Location, i64, i64)> = None;
    let mut i: usize = 0;
    while i < 9
        invariant
            i <= 9,
            fielding_team.wf(),
            event.wf(),
            direction == event.location.direction,
            0 <= ball_speed <= crate::location::MAX_SPEED,
            decider.entropy() <= old(decider).entropy(),
            best matches Some(c) ==> c.1.wf() && 0 <= c.2 <= crate::location::MAX_LEG && 0 <= c.3
                <= TIME_NEVER && c.1.direction == event.location.direction && c.1.distance
                >= event.location.distance,
        decreases 9 - i,
    {
        let fielder = Fielder::from_index(i);
        let player = fielding_team.player_at_position(&fielder);
        let reaction_time = decider.roll_std_dev_skill_stat(
            levels::player_reaction_time(),
            player.fielder_reaction_time_bias,
        );
        let player_speed = decider.roll_std_dev_skill_stat(
            levels::fielder_speed(),
            player.fielder_run_speed_bias,
        );

        // Where the ball has got to by the time the fielder reacts.
        let reaction_distance = flight_distance(ball_speed, reaction_time);
        let starting_location = Cartesian::from_location(fielder.starting_location());
        match starting_location.fielding_location(
            player_speed,
            reaction_distance,
            ball_speed,
            direction,
        ) {
            Some((_, radial)) => {
                if radial < event.location.distance {
                    // The fielder meets the path only before the ball lands.
                } else {
                    let spot = Location { direction, distance: radial };
                    let travel_distance = Cartesian::from_location(spot).distance(
                        starting_location,
                    );
                    let fielder_transfer = decider.roll_std_dev_skill_stat(
                        levels::fielder_transfer_time(),
                        player.fielder_transfer_time_bias,
                    );
                    let total = add_time(
                        add_time(time_to_cover(travel_distance, player_speed), reaction_time),
                        fielder_transfer,
                    );
                    let better: bool = match best {
                        Some(c) => travel_distance < c.2,
                        None => true,
                    };
                    if better {
                        best = Some((fielder, spot, travel_distance, total));
                    }
                }
            },
            None => {},
        }
        i = i + 1;
    }
    match best {
        Some(found) => {
            return (found.0, found.1, found.2, found.3);
        },
        None => {},
    }

    // Second tier: no one reaches the ball in the air; chase it down after it
    // lands, the ball now covering ground half again as fast as its flight.
    let rolling_speed: i64 = if ball_speed <= 166_666 {
        ball_speed * 3 / 2
    } else {
        crate::location::MAX_SPEED
    };
    let mut best2: Option<(Fielder, Location, i64, i64)> = None;
    let mut j: usize = 0;
    while j < 9
        invariant
            j <= 9,
            fielding_team.wf(),
            event.wf(),
            direction == event.location.direction,
            0 <= ball_speed <= crate::location::MAX_SPEED,
            0 <= rolling_speed <= crate::location::MAX_SPEED,
            decider.entropy() <= old(decider).entropy(),
            best2 matches Some(c) ==> c.1.wf() && 0 <= c.2 <= crate::location::MAX_LEG && 0 <= c.3
                <= TIME_NEVER && c.1.direction == event.location.direction && c.1.distance
                >= event.location.distance,
        decreases 9 - j,
    {
        let fielder = Fielder::from_index(j);
        let player = fielding_team.player_at_position(&fielder);
        let player_speed = decider.roll_std_dev_skill_stat(
            levels::fielder_speed(),
            player.fielder_run_speed_bias,
        );

        let starting_location = Cartesian::from_location(fielder.starting_location());
        match starting_location.fielding_location(
            player_speed,
            event.location.distance,
            rolling_speed,
            direction,
        ) {
            Some((_, radial)) => {
                if radial < event.location.distance {
                    // Behind the landing point: the ball has already passed.
                } else {
                    let spot = Location { direction, distance: radial };
                    let travel_distance = Cartesian::from_location(spot).distance(
                        starting_location,
                    );
                    let fielder_transfer = decider.roll_std_dev_skill_stat(
                        levels::fielder_transfer_time(),
                        player.fielder_transfer_time_bias,
                    );
                    let total = add_time(
                        add_time(
                            time_to_cover(travel_distance, player_speed),
                            event.travel_time,
                        ),
                        fielder_transfer,
                    );
                    let better: bool = match best2 {
                        Some(c) => travel_distance < c.2,
                        None => true,
                    };
                    if better {
                        best2 = Some((fielder, spot, travel_distance, total));
                    }
                }
            },
            None => {},
        }
        j = j + 1;
    }
    match best2 {
        Some(found) => {
            return (found.0, found.1, found.2, found.3);
        },
        None => {},
    }

    // Last tier: nobody can intercept at all; the nearest fielder collects
    // the ball at the wall, shallower in the corners than in the alleys.
    let wall_distance: i64 = if direction < 20_000 || 70_000 < direction {
        325_000
    } else if direction < 30_000 || 60_000 < direction {
        425_000
    } else {
        400_000
    };
    let ball_location = Location { direction, distance: wall_distance };
    let ball_vector = Cartesian::from_location(ball_location);

    let mut best3: Option<(Fielder, Location, i64, i64)> = None;
    let mut k: usize = 0;
    while k < 9
        invariant
            k <= 9,
            fielding_team.wf(),
            event.wf(),
            ball_location.wf(),
            ball_vector.wf(),
            325_000 <= wall_distance <= 425_000,
            0 <= ball_speed <= crate::location::MAX_SPEED,
            decider.entropy() <= old(decider).entropy(),
            best3 matches Some(c) ==> c.1.wf() && 0 <= c.2 <= crate::location::MAX_LEG && 0 <= c.3
                <= TIME_NEVER && c.1 == ball_location,
            ball_location.direction == event.location.direction,
            wall_distance == spec_wall_band(event.location.direction as int),
            ball_location.distance == wall_distance,
            k > 0 ==> best3 is Some,
        decreases 9 - k,
    {
        let fielder = Fielder::from_index(k);
        let player = fielding_team.player_at_position(&fielder);
        let reaction_time = decider.roll_std_dev_skill_stat(
            levels::player_reaction_time(),
            player.fielder_reaction_time_bias,
        );
        let distance = ball_vector.distance(Cartesian::from_location(fielder.starting_location()));
        let fielder_transfer = decider.roll_std_dev_skill_stat(
            levels::fielder_transfer_time(),
            player.fielder_transfer_time_bias,
        );
        let total = add_time(
            add_time(time_to_cover(wall_distance, ball_speed), reaction_time),
            fielder_transfer,
        );
        let better: bool = match best3 {
            Some(c) => distance < c.2,
            None => true,
        };
        if better {
            best3 = Some((fielder, ball_location, distance, total));
        }
        k = k + 1;
    }
    match best3 {
        Some(found) => (found.0, found.1, found.2, found.3),
        None => {
            proof {
                assert(false);
            }
            (Fielder::Catcher, ball_location, 0, 0)
        },
    }
}

/// Builds the throw from where the ball was fielded to a force base: the
/// throw's flight is the distance over the thrower's arm speed.
fn throw_to_force<D: Decider>(
    throw_start_time: i64,
    from_fielder: Fielder,
    to_location: Location,
    to_fielder: Fielder,
    fielded_at: Location,
    base_index: usize,
    fielding_team: &Team,
    decider: &mut D,
) -> (r: FieldingPlay)
    requires
        fielding_team.wf(),
        fielded_at.wf(),
        to_location.wf(),
        0 <= throw_start_time <= TIME_NEVER,
        base_index <= 3,
    ensures
        final(decider).entropy() <= old(decider).entropy(),
        r.wf(),
        r.base == base_index,
        r.from == from_fielder,
        r.to == to_fielder,
        r.from_event.location == fielded_at,
        r.from_event.travel_time == throw_start_time,
        r.to_event.location == to_location,
{
    let player = fielding_team.player_at_position(&from_fielder);
    let throw_speed = decider.roll_std_dev_skill_stat(
        levels::throw_speed(),
        player.fielder_throw_speed_bias,
    );
    let throw_time = add_time(
        time_to_cover(fielded_at.distance(to_location), throw_speed),
        throw_start_time,
    );

    FieldingPlay {
        from: from_fielder,
        from_event: FieldingEvent { location: fielded_at, travel_time: throw_start_time },
        to: to_fielder,
        to_event: FieldingEvent { location: to_location, travel_time: throw_time },
        base: base_index,
    }
}

/// A throw to first: the first baseman takes it.
fn force_at_first<D: Decider>(
    fielder: Fielder,
    fielded_at: Location,
    fielded_at_time: i64,
    fielding_team: &Team,
    decider: &mut D,
) -> (r: FieldingPlay)
    requires
        fielding_team.wf(),
        fielded_at.wf(),
        0 <= fielded_at_time <= TIME_NEVER,
    ensures
        final(decider).entropy() <= old(decider).entropy(),
        r.wf(),
        r.base == 0,
        r.from == fielder,
        r.to == Fielder::FirstBase,
        r.to_event.location == (Location { direction: 89_000, distance: 90_000 }),
{
    throw_to_force(
        fielded_at_time,
        fielder,
        Location::first_base(),
        Fielder::FirstBase,
        fielded_at,
        0,
        fielding_team,
        decider,
    )
}

/// Who covers second base for a throw there: the middle infielder away from
/// the play, by the conventional assignments of real defences.
pub open spec fn second_base_relay(fielder: Fielder, fielded_at: Location) -> Fielder {
    match fielder {
        Fielder::FirstBase | Fielder::SecondBase | Fielder::Pitcher | Fielder::RightFielder => {
            Fielder::Shortstop
        },
        Fielder::Shortstop | Fielder::ThirdBase | Fielder::Catcher | Fielder::LeftFielder => {
            Fielder::SecondBase
        },
        Fielder::CenterFielder => {
            if fielded_at.direction < 45_000 {
                Fielder::SecondBase
            } else {
                Fielder::Shortstop
            }
        },
    }
}

/// A throw to second: the fielder covering the bag takes it, by the fixed
/// relay table of [`second_base_relay`].
fn force_at_second<D: Decider>(
    fielder: Fielder,
    fielded_at: Location,
    fielded_at_time: i64,
    fielding_team: &Team,
    decider: &mut D,
) -> (r: FieldingPlay)
    requires
        fielding_team.wf(),
        fielded_at.wf(),
        0 <= fielded_at_time <= TIME_NEVER,
    ensures
        final(decider).entropy() <= old(decider).entropy(),
        r.wf(),
        r.base == 1,
        r.from == fielder,
        r.to == second_base_relay(fielder, fielded_at),
        r.to_event.location == (Location { direction: 45_000, distance: 127_250 }),
{
    let to_fielder = match fielder {
        Fielder::FirstBase | Fielder::SecondBase | Fielder::Pitcher | Fielder::RightFielder => {
            Fielder::Shortstop
        },
        Fielder::Shortstop | Fielder::ThirdBase | Fielder::Catcher | Fielder::LeftFielder => {
            Fielder::SecondBase
        },
        Fielder::CenterFielder => {
            if fielded_at.direction < 45_000 {
                Fielder::SecondBase
            } else {
                Fielder::Shortstop
            }
        },
    };

    throw_to_force(
        fielded_at_time,
        fielder,
        Location::second_base(),
        to_fielder,
        fielded_at,
        1,
        fielding_team,
        decider,
    )
}

/// A throw to third: the third baseman takes it.
fn force_at_third<D: Decider>(
    fielder: Fielder,
    fielded_at: Location,
    fielded_at_time: i64,
    fielding_team: &Team,
    decider: &mut D,
) -> (r: FieldingPlay)
    requires
        fielding_team.wf(),
        fielded_at.wf(),
        0 <= fielded_at_time <= TIME_NEVER,
    ensures
        final(decider).entropy() <= old(decider).entropy(),
        r.wf(),
        r.base == 2,
        r.from == fielder,
        r.to == Fielder::ThirdBase,
        r.to_event.location == (Location { direction: 1_000, distance: 90_000 }),
{
    throw_to_force(
        fielded_at_time,
        fielder,
        Location::third_base(),
        Fielder::ThirdBase,
        fielded_at,
        2,
        fielding_team,
        decider,
    )
}

/// A throw home: the catcher takes it.
fn force_at_home<D: Decider>(
    fielder: Fielder,
    fielded_at: Location,
    fielded_at_time: i64,
    fielding_team: &Team,
    decider: &mut D,
) -> (r: FieldingPlay)
    requires
        fielding_team.wf(),
        fielded_at.wf(),
        0 <= fielded_at_time <= TIME_NEVER,
    ensures
        final(decider).entropy() <= old(decider).entropy(),
        r.wf(),
        r.base == 3,
        r.from == fielder,
        r.to == Fielder::Catcher,
        r.to_event.location == (Location { direction: 45_000, distance: 1_000 }),
{
    throw_to_force(
        fielded_at_time,
        fielder,
        Location::home_plate(),
        Fielder::Catcher,
        fielded_at,
        3,
        fielding_team,
        decider,
    )
}

/// A ball nobody caught: the nearest fielder runs it down and throws to the
/// force base, and the bases resolve against that throw.
fn hit<D: Decider>(
    batter_lineup_index: u8,
    batting_team: &Team,
    fielding_team: &Team,
    landed_at: FieldingEvent,
    base_state: &BaseState,
    decider: &mut D,
) -> (r: FieldingRecord)
    requires
        batting_team.wf(),
        fielding_team.wf(),
        landed_at.wf(),
    ensures
        final(decider).entropy() <= old(decider).entropy(),
        r.landing is Landed,
        r.landing matches BallLanding::Landed(loc, play) ==> loc == landed_at.location
            && play.base == force_target(*base_state),
        crate::base_running::br_record_ok(
            r.base_running_record,
            r.landing,
            *base_state,
            batter_lineup_index,
        ),
{
    let force_play_index = force_play(base_state);
    let (closest, fielded_at, _, time_fielding) = closest_fielder(&landed_at, fielding_team, decider);
    let fielding_play = if force_play_index == 0 {
        force_at_first(closest, fielded_at, time_fielding, fielding_team, decider)
    } else if force_play_index == 1 {
        force_at_second(closest, fielded_at, time_fielding, fielding_team, decider)
    } else if force_play_index == 2 {
        force_at_third(closest, fielded_at, time_fielding, fielding_team, decider)
    } else {
        force_at_home(closest, fielded_at, time_fielding, fielding_team, decider)
    };

    let base_running_record = simulate_base_running(
        batter_lineup_index,
        batting_team,
        fielding_team,
        &BallLanding::Landed(fielded_at, fielding_play),
        base_state,
        decider,
    );

    FieldingRecord {
        landing: BallLanding::Landed(landed_at.location, fielding_play),
        base_running_record,
    }
}

/// Whether a hit clears the wall: its landing distance beats the home-run
/// threshold for its direction — shorter porches toward the corners than in
/// the alleys.
pub open spec fn spec_home_run(direction: int, launch_angle: int, exit_speed: int) -> bool {
    let landed = spec_landed_distance(launch_angle, exit_speed);
    ||| direction < 30_000 && landed > 370_000
    ||| 30_000 <= direction < 60_000 && landed > 400_000
    ||| 60_000 <= direction && landed > 370_000
}

/// Resolves a ball coming off the bat: its flight, the home-run check on the
/// landing distance (shorter porches in the corners), the catch race, and —
/// when nobody catches it — the fielded ball, its throw, and the running.
pub fn simulate_fielding<D: Decider>(
    direction: i64,
    launch_angle: i64,
    exit_speed: i64,
    batter_lineup_index: u8,
    batting_team: &Team,
    fielding_team: &Team,
    base_state: &BaseState,
    decider: &mut D,
) -> (r: HitOutcome)
    requires
        0 <= direction <= 90_000,
        -90_000 <= launch_angle <= 90_000,
        0 <= exit_speed <= 250_000,
        batting_team.wf(),
        fielding_team.wf(),
    ensures
        final(decider).entropy() <= old(decider).entropy(),
        (r is HomeRun) <==> spec_home_run(direction as int, launch_angle as int,
            exit_speed as int),
        r matches HitOutcome::InPlay(fr) ==> crate::base_running::br_record_ok(
            fr.base_running_record,
            fr.landing,
            *base_state,
            batter_lineup_index,
        ),
        r matches HitOutcome::InPlay(fr) ==> (fr.landing matches BallLanding::Landed(loc, play)
            ==> loc.direction == direction && loc.distance == spec_landed_distance(
                launch_angle as int,
                exit_speed as int,
            ) && play.base == force_target(*base_state)),
        r matches HitOutcome::InPlay(fr) ==> (fr.landing matches BallLanding::Out(_, loc)
            ==> loc.direction == direction && spec_catchable_distance(launch_angle as int,
                exit_speed as int,
            ) <= loc.distance <= spec_landed_distance(launch_angle as int, exit_speed as int)),
{
    let hit_locations = ball_path(direction, launch_angle, exit_speed);

    let landed_distance = hit_locations.landed_path.location.distance;
    if (direction < 30_000 && landed_distance > 370_000) || (30_000 <= direction && direction
        < 60_000 && landed_distance > 400_000) || (60_000 <= direction && landed_distance
        > 370_000) {
        return HitOutcome::HomeRun;
    }

    // The catch race: every fielder who can reach the ball's catchable flight
    // in time is a candidate; the one with the least ground to cover makes
    // the catch.
    let mut best: Option<(Fielder, Location, i64)> = None;
    let mut i: usize = 0;
    while i < 9
        invariant
            i <= 9,
            fielding_team.wf(),
            hit_locations.wf(),
            decider.entropy() <= old(decider).entropy(),
            best matches Some(c) ==> c.1.wf() && c.1.direction
                == hit_locations.catchable_path.location.direction
                && hit_locations.catchable_path.location.distance <= c.1.distance
                <= hit_locations.landed_path.location.distance,
        decreases 9 - i,
    {
        let fielder = Fielder::from_index(i);
        let (catch_location, catch_distance) = player_distance_to_catch_hit(
            &fielder,
            &hit_locations,
        );
        let player_speed = decider.roll_std_dev_skill_stat(
            levels::fielder_speed(),
            fielding_team.player_at_position(&fielder).fielder_run_speed_bias,
        );
        if time_to_cover(catch_distance, player_speed) < hit_locations.catchable_path.travel_time {
            let better: bool = match best {
                Some(c) => catch_distance < c.2,
                None => true,
            };
            if better {
                best = Some((fielder, catch_location, catch_distance));
            }
        }
        i = i + 1;
    }

    match best {
        Some((fielder, location, _)) => {
            let landing = BallLanding::Out(fielder, location);
            let base_running_record = simulate_base_running(
                batter_lineup_index,
                batting_team,
                fielding_team,
                &landing,
                base_state,
                decider,
            );
            HitOutcome::InPlay(FieldingRecord { landing, base_running_record })
        },
        None => HitOutcome::InPlay(
            hit(
                batter_lineup_index,
                batting_team,
                fielding_team,
                hit_locations.landed_path,
                base_state,
                decider,
            ),
        ),
    }
}
} // verus!
