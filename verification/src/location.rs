//! Fixed-point field geometry.
//!
//! Directions are in thousandths of a degree measured from the left foul
//! line, distances in thousandths of a foot from home plate, times in
//! thousandths of a second, speeds in thousandths of a foot per second.

use vstd::prelude::*;

verus! {

/// Largest distance (thousandths of a foot) any point of play may lie from
/// home plate.
pub const MAX_DISTANCE: i64 = 3_000_000;

/// Largest speed (thousandths of a foot per second) any ball or player may
/// move at.
pub const MAX_SPEED: i64 = 250_000;

/// Largest length (thousandths of a foot) a straight line between two points
/// of the field may have.
pub const MAX_LEG: i64 = 9_000_000;

/// The time (thousandths of a second) that stands for "never arrives": longer
/// than any real play, and an absorbing cap for every travel-time sum.
pub const TIME_NEVER: i64 = 1_000_000_000_000;

/// Division that rounds toward zero, as the machine's signed division does.
pub open spec fn tdiv(a: int, b: int) -> int
    recommends
        b > 0,
{
    if a >= 0 {
        a / b
    } else {
        -((-a) / b)
    }
}

/// A value clamped into a closed range.
pub open spec fn spec_clamp(value: int, lo: int, hi: int) -> int {
    if value < lo {
        lo
    } else if value > hi {
        hi
    } else {
        value
    }
}

/// The integer square root of a nonnegative number: the unique nonnegative
/// root whose square brackets it.
pub open spec fn spec_isqrt(x: int) -> int {
    choose|r: int| r >= 0 && #[trigger] (r * r) <= x && x < (r + 1) * (r + 1)
}

/// No two integers bracket the same square.
pub proof fn lemma_isqrt_unique(x: int, a: int, b: int)
    requires
        a >= 0,
        b >= 0,
        a * a <= x < (a + 1) * (a + 1),
        b * b <= x < (b + 1) * (b + 1),
    ensures
        a == b,
{
    assert(a == b) by (nonlinear_arith)
        requires
            a >= 0,
            b >= 0,
            a * a <= x < (a + 1) * (a + 1),
            b * b <= x < (b + 1) * (b + 1),
    ;
}

/// Clamps `value` into the closed range `lo..=hi`.
pub fn clamp(value: i64, lo: i64, hi: i64) -> (r: i64)
    requires
        lo <= hi,
    ensures
        r == spec_clamp(value as int, lo as int, hi as int),
        lo <= r <= hi,
{
    if value < lo {
        lo
    } else if hi < value {
        hi
    } else {
        value
    }
}

/// The integer square root: the greatest `r` with `r * r <= x`.
pub fn isqrt(x: u128) -> (r: u128)
    ensures
        r * r <= x,
        x < (r + 1) * (r + 1),
        r == spec_isqrt(x as int),
{
    let mut lo: u128 = 0;
    let mut hi: u128 = 0xFFFF_FFFF_FFFF_FFFF;
    if x < hi {
        hi = x;
    }
    proof {
        assert(x < (hi + 1) * (hi + 1)) by (nonlinear_arith)
            requires hi == if x < 0xFFFF_FFFF_FFFF_FFFFu128 { x } else { 0xFFFF_FFFF_FFFF_FFFFu128 };
    }
    while lo < hi
        invariant
            lo <= hi,
            hi <= 0xFFFF_FFFF_FFFF_FFFF,
            lo * lo <= x,
            x < (hi + 1) * (hi + 1),
        decreases hi - lo,
    {
        let mid: u128 = lo + (hi - lo + 1) / 2;
        proof {
            assert(mid * mid <= 0xFFFF_FFFF_FFFF_FFFFu128 * 0xFFFF_FFFF_FFFF_FFFFu128)
                by (nonlinear_arith)
                requires mid <= 0xFFFF_FFFF_FFFF_FFFFu128;
        }
        if mid * mid <= x {
            lo = mid;
        } else {
            hi = mid - 1;
        }
    }
    proof {
        let xi: int = x as int;
        let c = choose|r: int| r >= 0 && #[trigger] (r * r) <= xi && xi < (r + 1) * (r + 1);
        assert(lo as int >= 0 && (lo as int) * (lo as int) <= xi && xi < (lo as int + 1) * (
        lo as int + 1));
        assert(c >= 0 && c * c <= xi && xi < (c + 1) * (c + 1));
        lemma_isqrt_unique(xi, lo as int, c);
    }
    lo
}

/// The sine of `mdeg` thousandths of a degree, in thousandths: the rational
/// approximation `4x(180 - x) / (40500 - x(180 - x))` extended to negative
/// angles by symmetry. Exact at 0, 30, 90, 150 and 180 degrees.
pub open spec fn spec_sin_milli(mdeg: int) -> int {
    let x = if mdeg < 0 {
        -mdeg
    } else {
        mdeg
    };
    let u = x * (180_000 - x);
    let mag = (4000 * u) / (40_500_000_000 - u);
    if mdeg < 0 {
        -mag
    } else {
        mag
    }
}

/// The cosine of `mdeg` thousandths of a degree, in thousandths: the sine of
/// the complementary angle.
pub open spec fn spec_cos_milli(mdeg: int) -> int {
    if mdeg < 0 {
        spec_sin_milli(90_000 + mdeg)
    } else {
        spec_sin_milli(90_000 - mdeg)
    }
}

/// Computes [`spec_sin_milli`].
pub fn sin_milli(mdeg: i64) -> (r: i64)
    requires
        -180_000 <= mdeg <= 180_000,
    ensures
        r == spec_sin_milli(mdeg as int),
        -1000 <= r <= 1000,
        mdeg == 0 ==> r == 0,
        mdeg > 0 ==> r >= 0,
        mdeg < 0 ==> r <= 0,
        mdeg == 90_000 ==> r == 1000,
        mdeg == -90_000 ==> r == -1000,
{
    let neg: bool = mdeg < 0;
    let x: i64 = if neg {
        -mdeg
    } else {
        mdeg
    };
    proof {
        assert(0 <= x * (180_000 - x) <= 8_100_000_000int) by (nonlinear_arith)
            requires 0 <= x <= 180_000int;
    }
    let u: i64 = x * (180_000 - x);
    let num: i64 = 4000 * u;
    let den: i64 = 40_500_000_000 - u;
    let mag: i64 = num / den;
    proof {
        assert(num / den <= 1000 && num / den >= 0) by (nonlinear_arith)
            requires
                num == 4000 * u,
                den == 40_500_000_000int - u,
                0 <= u <= 8_100_000_000int,
        ;
        if x == 90_000 {
            assert(90_000int * (180_000 - 90_000) == 8_100_000_000int) by (nonlinear_arith);
            assert(u == 8_100_000_000int);
            assert(4000int * 8_100_000_000int == 32_400_000_000_000int) by (nonlinear_arith);
            assert(num == 32_400_000_000_000int && den == 32_400_000_000int);
            assert(32_400_000_000_000int / 32_400_000_000int == 1000int) by (nonlinear_arith);
            assert(mag == 1000);
        }
    }
    if neg {
        -mag
    } else {
        mag
    }
}

/// Computes [`spec_cos_milli`].
pub fn cos_milli(mdeg: i64) -> (r: i64)
    requires
        -90_000 <= mdeg <= 90_000,
    ensures
        r == spec_cos_milli(mdeg as int),
        -1000 <= r <= 1000,
        mdeg == 0 ==> r == 1000,
        mdeg == 90_000 || mdeg == -90_000 ==> r == 0,
        r >= 0,
{
    if mdeg < 0 {
        sin_milli(90_000 + mdeg)
    } else {
        sin_milli(90_000 - mdeg)
    }
}

/// A point of the field in polar form: direction off the left foul line and
/// distance from home plate.
#[derive(Clone, Copy, Debug, PartialEq, Eq, Structural)]
pub struct Location {
    /// Thousandths of a degree, 0 along the left foul line, 90000 along the
    /// right.
    pub direction: i64,
    /// Thousandths of a foot from home plate.
    pub distance: i64,
}

impl Location {
    /// A location is on the field when its direction is between the foul
    /// lines and its distance is bounded.
    pub open spec fn wf(self) -> bool {
        &&& 0 <= self.direction <= 90_000
        &&& 0 <= self.distance <= MAX_DISTANCE
    }

    /// The point's Cartesian coordinates.
    pub open spec fn spec_cartesian(self) -> Cartesian {
        Cartesian(
            (spec_cos_milli(self.direction as int) * self.distance / 1000) as i64,
            (spec_sin_milli(self.direction as int) * self.distance / 1000) as i64,
        )
    }

    /// The straight-line distance between two points, in thousandths of a
    /// foot.
    pub open spec fn spec_distance(self, rhs: Location) -> int {
        self.spec_cartesian().spec_distance(rhs.spec_cartesian())
    }

    /// First base.
    pub fn first_base() -> (r: Location)
        ensures
            r == (Location { direction: 89_000, distance: 90_000 }),
    {
        Location { direction: 89_000, distance: 90_000 }
    }

    /// Second base.
    pub fn second_base() -> (r: Location)
        ensures
            r == (Location { direction: 45_000, distance: 127_250 }),
    {
        Location { direction: 45_000, distance: 127_250 }
    }

    /// Third base.
    pub fn third_base() -> (r: Location)
        ensures
            r == (Location { direction: 1_000, distance: 90_000 }),
    {
        Location { direction: 1_000, distance: 90_000 }
    }

    /// Home plate, held a foot off the exact origin so throws home always
    /// cover a positive distance.
    pub fn home_plate() -> (r: Location)
        ensures
            r == (Location { direction: 45_000, distance: 1_000 }),
    {
        Location { direction: 45_000, distance: 1_000 }
    }

    /// The straight-line distance between two points of the field, in
    /// thousandths of a foot.
    pub fn distance(self, rhs: Location) -> (r: i64)
        requires
            self.wf(),
            rhs.wf(),
        ensures
            r == self.spec_distance(rhs),
            0 <= r <= MAX_LEG,
    {
        Cartesian::from_location(self).distance(Cartesian::from_location(rhs))
    }
}

/// A point of the field in Cartesian form, thousandths of a foot along each
/// foul line.
#[derive(Clone, Copy, Debug, PartialEq, Eq, Structural)]
pub struct Cartesian(pub i64, pub i64);

impl Cartesian {
    /// A point is in range when both coordinates are bounded by the largest
    /// field distance.
    pub open spec fn wf(self) -> bool {
        &&& -MAX_DISTANCE <= self.0 <= MAX_DISTANCE
        &&& -MAX_DISTANCE <= self.1 <= MAX_DISTANCE
    }

    /// A point reached from a well-formed polar location: both coordinates
    /// are nonnegative and bounded.
    pub open spec fn on_field(self) -> bool {
        &&& 0 <= self.0 <= MAX_DISTANCE
        &&& 0 <= self.1 <= MAX_DISTANCE
    }

    /// The squared distance between two points.
    pub open spec fn spec_square_distance(self, rhs: Cartesian) -> int {
        (self.0 - rhs.0) * (self.0 - rhs.0) + (self.1 - rhs.1) * (self.1 - rhs.1)
    }

    /// The distance between two points: the integer square root of the
    /// squared distance.
    pub open spec fn spec_distance(self, rhs: Cartesian) -> int {
        spec_isqrt(self.spec_square_distance(rhs))
    }

    /// The polar-to-Cartesian conversion.
    pub fn from_location(loc: Location) -> (r: Cartesian)
        requires
            loc.wf(),
        ensures
            r == loc.spec_cartesian(),
            r.wf(),
            r.on_field(),
    {
        let c: i64 = cos_milli(loc.direction);
        let s: i64 = sin_milli(loc.direction);
        proof {
            assert(-MAX_DISTANCE <= c * loc.distance / 1000 <= MAX_DISTANCE
                && -MAX_DISTANCE <= s * loc.distance / 1000 <= MAX_DISTANCE) by (nonlinear_arith)
                requires
                    -1000 <= c <= 1000,
                    -1000 <= s <= 1000,
                    0 <= loc.distance <= MAX_DISTANCE,
            ;
            assert(c * loc.distance <= 1000 * MAX_DISTANCE && c * loc.distance >= -1000
                * MAX_DISTANCE) by (nonlinear_arith)
                requires -1000 <= c <= 1000, 0 <= loc.distance <= MAX_DISTANCE;
            assert(s * loc.distance <= 1000 * MAX_DISTANCE && s * loc.distance >= -1000
                * MAX_DISTANCE) by (nonlinear_arith)
                requires -1000 <= s <= 1000, 0 <= loc.distance <= MAX_DISTANCE;
            assert(c * loc.distance >= 0 && s * loc.distance >= 0
                && c * loc.distance / 1000 >= 0 && s * loc.distance / 1000 >= 0)
                by (nonlinear_arith)
                requires 0 <= c, 0 <= s, 0 <= loc.distance;
        }
        Cartesian(c * loc.distance / 1000, s * loc.distance / 1000)
    }

    /// Componentwise difference.
    pub fn sub(self, rhs: Cartesian) -> (r: Cartesian)
        requires
            self.wf(),
            rhs.wf(),
        ensures
            r.0 == self.0 - rhs.0,
            r.1 == self.1 - rhs.1,
    {
        Cartesian(self.0 - rhs.0, self.1 - rhs.1)
    }

    /// Componentwise sum.
    pub fn add(self, rhs: Cartesian) -> (r: Cartesian)
        requires
            self.wf(),
            rhs.wf(),
        ensures
            r.0 == self.0 + rhs.0,
            r.1 == self.1 + rhs.1,
    {
        Cartesian(self.0 + rhs.0, self.1 + rhs.1)
    }

    /// The squared distance between two points, in millionths of a square
    /// foot.
    pub fn square_distance(self, rhs: Cartesian) -> (r: i64)
        requires
            self.wf(),
            rhs.wf(),
        ensures
            r == (self.0 - rhs.0) * (self.0 - rhs.0) + (self.1 - rhs.1) * (self.1 - rhs.1),
            0 <= r <= 72_000_000_000_000,
    {
        let dx: i64 = self.0 - rhs.0;
        let dy: i64 = self.1 - rhs.1;
        proof {
            assert(0 <= dx * dx <= 36_000_000_000_000int && 0 <= dy * dy
                <= 36_000_000_000_000int) by (nonlinear_arith)
                requires
                    -6_000_000 <= dx <= 6_000_000,
                    -6_000_000 <= dy <= 6_000_000,
            ;
        }
        dx * dx + dy * dy
    }

    /// The dot product, in millionths of a square foot.
    pub fn dot(self, rhs: Cartesian) -> (r: i64)
        requires
            self.wf(),
            rhs.wf(),
        ensures
            r == self.0 * rhs.0 + self.1 * rhs.1,
    {
        proof {
            assert(-9_000_000_000_000int <= self.0 * rhs.0 <= 9_000_000_000_000int
                && -9_000_000_000_000int <= self.1 * rhs.1 <= 9_000_000_000_000int)
                by (nonlinear_arith)
                requires
                    -MAX_DISTANCE <= self.0 <= MAX_DISTANCE,
                    -MAX_DISTANCE <= rhs.0 <= MAX_DISTANCE,
                    -MAX_DISTANCE <= self.1 <= MAX_DISTANCE,
                    -MAX_DISTANCE <= rhs.1 <= MAX_DISTANCE,
            ;
        }
        self.0 * rhs.0 + self.1 * rhs.1
    }

    /// The distance between two points, in thousandths of a foot.
    pub fn distance(self, rhs: Cartesian) -> (r: i64)
        requires
            self.wf(),
            rhs.wf(),
        ensures
            r == self.spec_distance(rhs),
            0 <= r <= MAX_LEG,
    {
        let sq: i64 = self.square_distance(rhs);
        let root: u128 = isqrt(sq as u128);
        proof {
            assert(8_485_282u128 * 8_485_282u128 > 72_000_000_000_000u128);
            assert(root <= 8_485_281) by (nonlinear_arith)
                requires
                    root * root <= 72_000_000_000_000u128,
                    8_485_282u128 * 8_485_282u128 > 72_000_000_000_000u128,
            ;
        }
        root as i64
    }

    /// The distance from the origin, in thousandths of a foot.
    pub fn magnitude(self) -> (r: i64)
        requires
            self.wf(),
        ensures
            r == self.spec_distance(Cartesian(0, 0)),
            0 <= r <= MAX_LEG,
    {
        self.distance(Cartesian(0, 0))
    }
}

/// The time to cover `dist` at `speed`, in thousandths of a second, capped at
/// [`TIME_NEVER`]; a speed of zero or less never arrives.
pub open spec fn spec_time_to_cover(dist: int, speed: int) -> int {
    if speed <= 0 {
        TIME_NEVER as int
    } else if dist * 1000 / speed <= TIME_NEVER {
        dist * 1000 / speed
    } else {
        TIME_NEVER as int
    }
}

/// Computes [`spec_time_to_cover`].
pub fn time_to_cover(dist: i64, speed: i64) -> (r: i64)
    requires
        0 <= dist <= MAX_LEG,
    ensures
        r == spec_time_to_cover(dist as int, speed as int),
        0 <= r <= TIME_NEVER,
{
    if speed <= 0 {
        TIME_NEVER
    } else {
        let t: i64 = dist * 1000 / speed;
        proof {
            assert(dist as int * 1000 / speed as int >= 0) by (nonlinear_arith)
                requires dist as int >= 0, speed as int > 0;
        }
        if t <= TIME_NEVER {
            t
        } else {
            TIME_NEVER
        }
    }
}

/// The sum of two travel times, absorbing at [`TIME_NEVER`].
pub open spec fn spec_add_time(a: int, b: int) -> int {
    if a + b <= TIME_NEVER {
        a + b
    } else {
        TIME_NEVER as int
    }
}

/// Computes [`spec_add_time`].
pub fn add_time(a: i64, b: i64) -> (r: i64)
    requires
        0 <= a <= TIME_NEVER,
        0 <= b <= TIME_NEVER,
    ensures
        r == spec_add_time(a as int, b as int),
        0 <= r <= TIME_NEVER,
{
    if a + b <= TIME_NEVER {
        a + b
    } else {
        TIME_NEVER
    }
}


/// The speed that covered `dist` in `time`, in thousandths of a foot per
/// second, capped at [`MAX_SPEED`]; zero when no time has passed.
pub open spec fn spec_speed_over(dist: int, time: int) -> int {
    if time <= 0 {
        0
    } else if dist * 1000 / time > MAX_SPEED {
        MAX_SPEED as int
    } else {
        dist * 1000 / time
    }
}

/// Computes [`spec_speed_over`].
pub fn speed_over(dist: i64, time: i64) -> (r: i64)
    requires
        0 <= dist <= MAX_DISTANCE,
    ensures
        r == spec_speed_over(dist as int, time as int),
        0 <= r <= MAX_SPEED,
{
    if time <= 0 {
        0
    } else {
        proof {
            assert(dist as int * 1000 / time as int >= 0) by (nonlinear_arith)
                requires dist as int >= 0, time as int > 0;
        }
        let v: i64 = dist * 1000 / time;
        if v > MAX_SPEED {
            MAX_SPEED
        } else {
            v
        }
    }
}

impl Cartesian {
    /// Solves the interception of a ball moving outward along a direction ray
    /// by a player starting at `self` and running at `speed`: equating the
    /// player's run time with the ball's travel along the ray gives a
    /// closed-form quadratic in the meeting time. Returns the earliest
    /// nonnegative meeting time (thousandths of a second) and the radial
    /// distance where the paths cross, or nothing when the player can never
    /// reach the ball's path.
    pub fn fielding_location(
        self,
        speed: i64,
        ball_start_distance: i64,
        ball_speed: i64,
        direction: i64,
    ) -> (r: Option<(i64, i64)>)
        requires
            self.on_field(),
            0 <= speed <= MAX_SPEED,
            0 <= ball_start_distance <= MAX_DISTANCE,
            0 <= ball_speed <= MAX_SPEED,
            0 <= direction <= 90_000,
        ensures
            r matches Some((t, radial)) ==> 0 <= t <= TIME_NEVER && 0 <= radial <= MAX_DISTANCE,
            r matches Some((t, radial)) ==> radial == if ball_start_distance + ball_speed * t
                / 1000 > MAX_DISTANCE {
                MAX_DISTANCE as int
            } else {
                ball_start_distance + ball_speed * t / 1000
            },
            ball_speed < speed ==> r is Some,
    {
        let c: i64 = cos_milli(direction);
        let sn: i64 = sin_milli(direction);
        proof {
            assert(0 <= self.0 * c <= 3_000_000_000int && 0 <= self.1 * sn
                <= 3_000_000_000int) by (nonlinear_arith)
                requires
                    0 <= self.0 <= MAX_DISTANCE,
                    0 <= self.1 <= MAX_DISTANCE,
                    0 <= c <= 1000,
                    0 <= sn <= 1000,
            ;
        }
        // The player's position resolved along the ball's ray.
        let d_along: i64 = (self.0 * c + self.1 * sn) / 1000;
        proof {
            assert(0 <= (self.0 * c + self.1 * sn) / 1000 <= 6_000_000int) by (nonlinear_arith)
                requires
                    0 <= self.0 * c <= 3_000_000_000int,
                    0 <= self.1 * sn <= 3_000_000_000int,
            ;
            assert(0 <= c * ball_start_distance <= 1000 * MAX_DISTANCE && 0 <= sn
                * ball_start_distance <= 1000 * MAX_DISTANCE) by (nonlinear_arith)
                requires
                    0 <= c <= 1000,
                    0 <= sn <= 1000,
                    0 <= ball_start_distance <= MAX_DISTANCE,
            ;
            assert(0 <= c * ball_start_distance / 1000 <= MAX_DISTANCE && 0 <= sn
                * ball_start_distance / 1000 <= MAX_DISTANCE) by (nonlinear_arith)
                requires
                    0 <= c * ball_start_distance <= 1000 * MAX_DISTANCE,
                    0 <= sn * ball_start_distance <= 1000 * MAX_DISTANCE,
            ;
        }
        let ball_start = Cartesian(
            c * ball_start_distance / 1000,
            sn * ball_start_distance / 1000,
        );
        let c2: i64 = self.square_distance(ball_start);

        proof {
            assert(0 <= ball_speed * ball_speed <= 62_500_000_000int && 0 <= speed * speed
                <= 62_500_000_000int) by (nonlinear_arith)
                requires
                    0 <= ball_speed <= MAX_SPEED,
                    0 <= speed <= MAX_SPEED,
            ;
        }
        let quad_a: i64 = ball_speed * ball_speed - speed * speed;
        proof {
            assert(ball_speed < speed ==> quad_a < 0) by (nonlinear_arith)
                requires
                    quad_a == ball_speed * ball_speed - speed * speed,
                    0 <= ball_speed,
                    speed <= MAX_SPEED,
            ;
        }
        let diff: i64 = ball_start_distance - d_along;
        proof {
            assert(-1_500_000_000_000int <= (ball_speed as int) * (diff as int)
                <= 750_000_000_000int) by (nonlinear_arith)
                requires
                    0 <= ball_speed <= 250_000int,
                    -6_000_000int <= diff <= 3_000_000int,
            ;
        }
        let m: i128 = (ball_speed as i128) * (diff as i128);
        let quad_b: i128 = 2000 * m;
        let quad_c: i128 = 1_000_000 * (c2 as i128);

        let t: i128 = if quad_a == 0 {
            // The ball and the player move at the same speed: the equation is
            // linear in the meeting time.
            if quad_b >= 0 {
                if quad_c == 0 {
                    0
                } else {
                    return None;
                }
            } else {
                quad_c / (-quad_b)
            }
        } else {
            proof {
                assert(0 <= quad_b * quad_b
                    <= 9_000_000_000_000_000_000_000_000_000_000int) by (nonlinear_arith)
                    requires -3_000_000_000_000_000int <= quad_b <= 3_000_000_000_000_000int;
            }
            let bsq: i128 = quad_b * quad_b;
            let a4: i128 = 4 * (quad_a as i128);
            proof {
                assert(-18_000_000_000_000_000_000_000_000_000_000int <= a4 * quad_c
                    <= 18_000_000_000_000_000_000_000_000_000_000int) by (nonlinear_arith)
                    requires
                        -250_000_000_000int <= a4 <= 250_000_000_000int,
                        0 <= quad_c <= 72_000_000_000_000_000_000int,
                ;
            }
            proof {
                assert(quad_a < 0 ==> a4 * quad_c <= 0) by (nonlinear_arith)
                    requires
                        a4 == 4 * (quad_a as int),
                        quad_c >= 0,
                ;
            }
            let disc: i128 = bsq - a4 * quad_c;
            if disc < 0 {
                return None;
            }
            let sq: u128 = isqrt(disc as u128);
            proof {
                assert(sq <= 5_200_000_000_000_000u128) by (nonlinear_arith)
                    requires
                        sq * sq <= 27_000_000_000_000_000_000_000_000_000_000u128,
                ;
                // When the quadratic opens downward the discriminant covers
                // the whole linear term, so a nonnegative root exists.
                assert(quad_a < 0 ==> sq as int >= (if quad_b >= 0 {
                    quad_b as int
                } else {
                    -(quad_b as int)
                })) by (nonlinear_arith)
                    requires
                        quad_a < 0 ==> disc as int >= quad_b * quad_b,
                        (sq as int) * (sq as int) <= disc as int,
                        (disc as int) < ((sq as int) + 1) * ((sq as int) + 1),
                        (sq as int) >= 0,
                ;
            }
            let sq_i: i128 = sq as i128;
            let denom: i128 = 2 * (quad_a as i128);
            let n1: i128 = -quad_b - sq_i;
            let n2: i128 = -quad_b + sq_i;
            // Both roots by truncating division, the signs handled apart.
            let nn1: i128 = if n1 >= 0 {
                n1
            } else {
                -n1
            };
            let nn2: i128 = if n2 >= 0 {
                n2
            } else {
                -n2
            };
            let dd: i128 = if denom >= 0 {
                denom
            } else {
                -denom
            };
            let t1: i128 = if (n1 >= 0) == (denom >= 0) {
                nn1 / dd
            } else {
                -(nn1 / dd)
            };
            let t2: i128 = if (n2 >= 0) == (denom >= 0) {
                nn2 / dd
            } else {
                -(nn2 / dd)
            };
            proof {
                assert(nn1 / dd >= 0) by (nonlinear_arith)
                    requires nn1 >= 0, dd > 0;
                assert(nn2 / dd >= 0) by (nonlinear_arith)
                    requires nn2 >= 0, dd > 0;
            }
            if t1 >= 0 && t2 >= 0 {
                if t1 < t2 {
                    t1
                } else {
                    t2
                }
            } else if t1 >= 0 {
                t1
            } else if t2 >= 0 {
                t2
            } else {
                return None;
            }
        };

        if t < 0 {
            return None;
        }
        let t_capped: i64 = if t > (TIME_NEVER as i128) {
            TIME_NEVER
        } else {
            t as i64
        };
        proof {
            assert(0 <= (ball_speed as int) * (t_capped as int)
                <= 250_000_000_000_000_000int) by (nonlinear_arith)
                requires
                    0 <= ball_speed <= MAX_SPEED,
                    0 <= t_capped <= TIME_NEVER,
            ;
        }
        let advance: i128 = (ball_speed as i128) * (t_capped as i128) / 1000;
        let radial_wide: i128 = (ball_start_distance as i128) + advance;
        let radial: i64 = if radial_wide > (MAX_DISTANCE as i128) {
            MAX_DISTANCE
        } else {
            radial_wide as i64
        };
        Some((t_capped, radial))
    }
}
} // verus!
