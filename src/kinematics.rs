use vstd::prelude::*;

use crate::geometry::Position;

verus! {

/// Timestamps and intervals are counted in microseconds.
pub const MICROS_PER_SECOND: i128 = 1_000_000;

/// The largest displacement between two positions along one axis.
pub const MAX_SPAN: i128 = 4_294_967_296;

/// An exact fraction `num / den`; `den` is positive in every value built here.
#[derive(Clone, Copy, Debug, PartialEq, Eq, Structural)]
pub struct Ratio {
    pub num: i128,
    pub den: i128,
}

impl Ratio {
    /// The fraction stands for the same number as `n / d`.
    pub open spec fn same_as(self, n: int, d: int) -> bool {
        self.num * d == n * self.den
    }

    pub fn zero() -> (r: Ratio)
        ensures
            r.num == 0,
            r.den == 1,
    {
        Ratio { num: 0, den: 1 }
    }
}

/// A 2D vector with exact rational components.
#[derive(Clone, Copy, Debug, PartialEq, Eq, Structural)]
pub struct Vector {
    pub x: Ratio,
    pub y: Ratio,
}

impl Vector {
    pub open spec fn zero_spec() -> Vector {
        Vector { x: Ratio { num: 0, den: 1 }, y: Ratio { num: 0, den: 1 } }
    }

    pub fn zero() -> (r: Vector)
        ensures
            r == Vector::zero_spec(),
            r.x.num == 0 && r.x.den == 1,
            r.y.num == 0 && r.y.den == 1,
    {
        Vector { x: Ratio::zero(), y: Ratio::zero() }
    }
}

/// An interval the estimator may divide by: any positive one.
pub open spec fn valid_interval(dt: u64) -> bool {
    dt > 0
}

/// A velocity component as `velocity` builds it: per second, over one
/// positive interval.
pub open spec fn velocity_bounded(r: Ratio) -> bool {
    &&& 1 <= r.den <= u64::MAX
    &&& -MAX_SPAN * MICROS_PER_SECOND <= r.num <= MAX_SPAN * MICROS_PER_SECOND
}

pub open spec fn velocity_wf(v: Vector) -> bool {
    velocity_bounded(v.x) && velocity_bounded(v.y)
}

/// The velocity `velocity` returns, as a value.
pub open spec fn velocity_of(old: Position, new: Position, dt: u64) -> Vector {
    Vector {
        x: Ratio { num: ((new.x - old.x) * MICROS_PER_SECOND) as i128, den: dt as i128 },
        y: Ratio { num: ((new.y - old.y) * MICROS_PER_SECOND) as i128, den: dt as i128 },
    }
}

/// Velocity in units per second over an interval of `dt` microseconds:
/// the displacement divided by the interval, kept as an exact fraction.
pub fn velocity(old: Position, new: Position, dt: u64) -> (r: Vector)
    requires
        valid_interval(dt),
    ensures
        r.x.num == (new.x - old.x) * MICROS_PER_SECOND,
        r.y.num == (new.y - old.y) * MICROS_PER_SECOND,
        r.x.den == dt,
        r.y.den == dt,
        r.x.same_as((new.x - old.x) * MICROS_PER_SECOND, dt as int),
        r.y.same_as((new.y - old.y) * MICROS_PER_SECOND, dt as int),
        velocity_wf(r),
        r == velocity_of(old, new, dt),
{
    let dx: i128 = new.x as i128 - old.x as i128;
    let dy: i128 = new.y as i128 - old.y as i128;
    Vector {
        x: Ratio { num: dx * MICROS_PER_SECOND, den: dt as i128 },
        y: Ratio { num: dy * MICROS_PER_SECOND, den: dt as i128 },
    }
}

/// The numerator of the acceleration between two velocity components, per
/// second squared, over the mean of two intervals.
pub open spec fn accel_num(v_old: Ratio, v_new: Ratio) -> int {
    (v_new.num * v_old.den - v_old.num * v_new.den) * (2 * MICROS_PER_SECOND)
}

pub open spec fn accel_den(v_old: Ratio, v_new: Ratio, dt: int, dt_old: int) -> int {
    v_new.den * v_old.den * (dt + dt_old)
}

/// The acceleration `acceleration` returns, as a value.
pub open spec fn acceleration_of(v_old: Vector, v_new: Vector, dt: u64, dt_old: u64) -> Vector {
    Vector {
        x: Ratio {
            num: accel_num(v_old.x, v_new.x) as i128,
            den: accel_den(v_old.x, v_new.x, dt as int, dt_old as int) as i128,
        },
        y: Ratio {
            num: accel_num(v_old.y, v_new.y) as i128,
            den: accel_den(v_old.y, v_new.y, dt as int, dt_old as int) as i128,
        },
    }
}

/// The exact acceleration fraction fits the `i128` numerator and
/// denominator of a `Ratio`. This is the one limit on computing it.
pub open spec fn accel_fits(v_old: Ratio, v_new: Ratio, dt: int, dt_old: int) -> bool {
    &&& i128::MIN <= accel_num(v_old, v_new) <= i128::MAX
    &&& accel_den(v_old, v_new, dt, dt_old) <= i128::MAX
}

pub open spec fn accel_fits_vec(v_old: Vector, v_new: Vector, dt: u64, dt_old: u64) -> bool {
    accel_fits(v_old.x, v_new.x, dt as int, dt_old as int) && accel_fits(
        v_old.y,
        v_new.y,
        dt as int,
        dt_old as int,
    )
}

fn accel_component(v_old: Ratio, v_new: Ratio, dt: u64, dt_old: u64) -> (r: Option<Ratio>)
    requires
        velocity_bounded(v_old),
        velocity_bounded(v_new),
        valid_interval(dt),
        valid_interval(dt_old),
    ensures
        r is Some <==> accel_fits(v_old, v_new, dt as int, dt_old as int),
        r matches Some(a) ==> a.num == accel_num(v_old, v_new) && a.den == accel_den(
            v_old,
            v_new,
            dt as int,
            dt_old as int,
        ) && a.den > 0,
{
    let m: i128 = MAX_SPAN * MICROS_PER_SECOND;
    let k: i128 = 0xFFFF_FFFF_FFFF_FFFF;
    assert(m * k == 79_228_162_514_264_337_589_248_983_040_000_000);
    assert(-(m * k) <= v_new.num * v_old.den <= m * k) by (nonlinear_arith)
        requires
            -m <= v_new.num <= m,
            1 <= v_old.den <= k,
            m >= 0,
    ;
    assert(-(m * k) <= v_old.num * v_new.den <= m * k) by (nonlinear_arith)
        requires
            -m <= v_old.num <= m,
            1 <= v_new.den <= k,
            m >= 0,
    ;
    let diff: i128 = v_new.num * v_old.den - v_old.num * v_new.den;
    let span: i128 = dt as i128 + dt_old as i128;
    match diff.checked_mul(2_000_000) {
        None => None,
        Some(num) => match v_new.den.checked_mul(v_old.den) {
            None => {
                assert(v_new.den * v_old.den * span > i128::MAX) by (nonlinear_arith)
                    requires
                        v_new.den * v_old.den > i128::MAX,
                        span >= 1,
                ;
                None
            },
            Some(dd) => {
                assert(dd > 0) by (nonlinear_arith)
                    requires
                        dd == v_new.den * v_old.den,
                        v_new.den >= 1,
                        v_old.den >= 1,
                ;
                match dd.checked_mul(span) {
                    None => None,
                    Some(den) => {
                        assert(den > 0) by (nonlinear_arith)
                            requires
                                den == dd * span,
                                dd > 0,
                                span > 0,
                        ;
                        Some(Ratio { num, den })
                    },
                }
            },
        },
    }
}

/// Acceleration in units per second squared: the change of velocity divided
/// by the mean `0.5 * dt + 0.5 * dt_old` of the last two intervals. It is
/// `None` exactly when a component's exact fraction does not fit a `Ratio`.
pub fn acceleration(v_old: Vector, v_new: Vector, dt: u64, dt_old: u64) -> (r: Option<Vector>)
    requires
        velocity_wf(v_old),
        velocity_wf(v_new),
        valid_interval(dt),
        valid_interval(dt_old),
    ensures
        r is Some <==> accel_fits_vec(v_old, v_new, dt, dt_old),
        r matches Some(a) ==> a == acceleration_of(v_old, v_new, dt, dt_old),
        r matches Some(a) ==> a.x.num == accel_num(v_old.x, v_new.x) && a.x.den == accel_den(
            v_old.x,
            v_new.x,
            dt as int,
            dt_old as int,
        ) && a.y.num == accel_num(v_old.y, v_new.y) && a.y.den == accel_den(
            v_old.y,
            v_new.y,
            dt as int,
            dt_old as int,
        ),
{
    match (accel_component(v_old.x, v_new.x, dt, dt_old), accel_component(v_old.y, v_new.y, dt, dt_old)) {
        (Some(x), Some(y)) => Some(Vector { x, y }),
        _ => None,
    }
}

/// The acceleration over two intervals, multiplied by their mean
/// `(dt + dt_old) / 2` (in seconds), gives back the change of velocity
/// `v_new - v_old`, exactly.
pub proof fn lemma_acceleration_spans_velocity_change(
    v_old: Ratio,
    v_new: Ratio,
    dt: u64,
    dt_old: u64,
    a: Ratio,
)
    requires
        a.num == accel_num(v_old, v_new),
        a.den == accel_den(v_old, v_new, dt as int, dt_old as int),
    ensures
        a.num * (dt + dt_old) * (v_new.den * v_old.den) == (v_new.num * v_old.den - v_old.num
            * v_new.den) * (a.den * (2 * MICROS_PER_SECOND)),
{
    let d = v_new.num * v_old.den - v_old.num * v_new.den;
    let s = dt + dt_old;
    let p = v_new.den * v_old.den;
    assert((d * 2_000_000) * s * p == d * (p * s * 2_000_000)) by (nonlinear_arith);
}

/// The sensor's own kinematic state, refreshed from each position sample.
#[derive(Clone, Copy, Debug, PartialEq, Eq, Structural)]
pub struct SensorState {
    pub pos: Position,
    pub vel: Vector,
    pub acc: Vector,
}

impl SensorState {
    pub open spec fn wf(self) -> bool {
        velocity_wf(self.vel)
    }

    pub open spec fn new_spec(pos: Position) -> SensorState {
        SensorState { pos, vel: Vector::zero_spec(), acc: Vector::zero_spec() }
    }

    /// `self` is what `update` makes of `prev` with the sample `pos` and the
    /// intervals `dt` and `dt_old`.
    pub open spec fn updated_from(self, prev: SensorState, pos: Position, dt: u64, dt_old: u64) -> bool {
        &&& self.pos == pos
        &&& valid_interval(dt) ==> self.vel == velocity_of(prev.pos, pos, dt)
        &&& valid_interval(dt) && valid_interval(dt_old) && accel_fits_vec(
            prev.vel,
            self.vel,
            dt,
            dt_old,
        ) ==> self.acc == acceleration_of(prev.vel, self.vel, dt, dt_old)
        &&& valid_interval(dt) && valid_interval(dt_old) && !accel_fits_vec(
            prev.vel,
            self.vel,
            dt,
            dt_old,
        ) ==> self.acc == prev.acc
        &&& valid_interval(dt) && !valid_interval(dt_old) ==> self.acc == Vector::zero_spec()
        &&& !valid_interval(dt) ==> self.vel == prev.vel && self.acc == prev.acc
    }

    /// A sensor at rest at `pos`.
    pub fn new(pos: Position) -> (r: SensorState)
        ensures
            r.wf(),
            r == SensorState::new_spec(pos),
    {
        SensorState { pos, vel: Vector::zero(), acc: Vector::zero() }
    }

    /// Takes a new position sample after an interval `dt`, the interval before
    /// it being `dt_old`. The sample always becomes the stored position. When
    /// `dt` cannot be divided by, velocity and acceleration stay as they were.
    /// When `dt` can but `dt_old` cannot (the first interval), the velocity is
    /// refreshed and the acceleration is taken as zero. When both can, the
    /// acceleration is refreshed too, unless its exact fraction would not fit
    /// a `Ratio` (intervals of many hours), in which case it stays as it was.
    pub fn update(&mut self, pos: Position, dt: u64, dt_old: u64)
        requires
            old(self).wf(),
        ensures
            final(self).wf(),
            final(self).updated_from(*old(self), pos, dt, dt_old),
    {
        if dt > 0 {
            let vel = velocity(self.pos, pos, dt);
            if dt_old > 0 {
                match acceleration(self.vel, vel, dt, dt_old) {
                    Some(acc) => {
                        self.acc = acc;
                    },
                    None => {},
                }
            } else {
                self.acc = Vector::zero();
            }
            self.vel = vel;
        }
        self.pos = pos;
    }
}

} // verus!
