use beam_track::geometry::Position;
use beam_track::kinematics::{acceleration, velocity, Ratio, SensorState, Vector};

fn value(r: Ratio) -> f64 {
    r.num as f64 / r.den as f64
}

fn ratio(num: i128, den: i128) -> Ratio {
    Ratio { num, den }
}

#[test]
fn velocity_over_fifty_milliseconds() {
    let v = velocity(Position::new(0, 0), Position::new(5, 0), 50_000);
    assert_eq!(v.x, ratio(5_000_000, 50_000));
    assert_eq!(v.y, ratio(0, 50_000));
    assert_eq!(v.x.num / v.x.den, 100);
    assert_eq!(value(v.x), 100.0);
    assert_eq!(value(v.y), 0.0);
}

#[test]
fn velocity_is_displacement_over_interval() {
    let v = velocity(Position::new(10, -20), Position::new(-5, 40), 30_000);
    assert_eq!(v.x.num * 30_000, -15 * 1_000_000 * v.x.den);
    assert_eq!(v.y.num * 30_000, 60 * 1_000_000 * v.y.den);
    assert_eq!(value(v.x), -500.0);
    assert_eq!(value(v.y), 2000.0);
}

#[test]
fn velocity_with_extreme_positions() {
    let v = velocity(Position::new(i32::MIN, i32::MAX), Position::new(i32::MAX, i32::MIN), 1);
    assert_eq!(v.x.num, (u32::MAX as i128) * 1_000_000);
    assert_eq!(v.y.num, -(u32::MAX as i128) * 1_000_000);
}

#[test]
fn acceleration_over_uneven_intervals() {
    let v_old = Vector { x: ratio(0, 1), y: ratio(0, 1) };
    let v_new = Vector { x: ratio(10, 1), y: ratio(0, 1) };
    let a = acceleration(v_old, v_new, 50_000, 40_000).unwrap();
    assert_eq!(a.x, ratio(20_000_000, 90_000));
    assert!((value(a.x) - 10.0 / 0.045).abs() < 1e-9);
    assert!((value(a.x) - 222.2).abs() < 0.1);
    assert_eq!(value(a.y), 0.0);
}

#[test]
fn acceleration_from_two_measured_velocities() {
    // 100 units/s over 40 ms, then 200 units/s over 50 ms: +100 units/s over a
    // mean interval of 45 ms.
    let v_old = velocity(Position::new(0, 0), Position::new(4, 0), 40_000);
    let v_new = velocity(Position::new(4, 0), Position::new(14, 0), 50_000);
    let a = acceleration(v_old, v_new, 50_000, 40_000).unwrap();
    assert!((value(a.x) - 100.0 / 0.045).abs() < 1e-6);
    assert_eq!(value(a.y), 0.0);
}

#[test]
fn first_interval_gives_zero_acceleration() {
    let mut s = SensorState::new(Position::new(0, 0));
    s.update(Position::new(5, 0), 50_000, 0);
    assert_eq!(s.pos, Position::new(5, 0));
    assert_eq!(value(s.vel.x), 100.0);
    assert_eq!(s.acc, Vector::zero());
}

#[test]
fn zero_interval_keeps_estimate() {
    let mut s = SensorState::new(Position::new(0, 0));
    s.update(Position::new(5, 0), 50_000, 0);
    let (vel, acc) = (s.vel, s.acc);
    s.update(Position::new(9, 3), 0, 50_000);
    assert_eq!(s.pos, Position::new(9, 3));
    assert_eq!(s.vel, vel);
    assert_eq!(s.acc, acc);
}

#[test]
fn long_interval_refreshes_velocity() {
    let mut s = SensorState::new(Position::new(0, 0));
    s.update(Position::new(5, 0), 1u64 << 32, 0);
    assert_eq!(s.vel.x, ratio(5_000_000, 1i128 << 32));
    assert_eq!(s.acc, Vector::zero());
    s.update(Position::new(9, 0), 40_000, 1u64 << 32);
    assert_eq!(s.vel.x, ratio(4_000_000, 40_000));
    let expected = (100.0 - 5.0e6 / 4294967296.0) / (0.5 * 0.04 + 0.5 * 4294.967296);
    assert!((value(s.acc.x) - expected).abs() < 1e-9);
}

#[test]
fn acceleration_too_large_for_exact_fraction_is_kept() {
    let mut s = SensorState::new(Position::new(0, 0));
    s.update(Position::new(4, 0), 40_000, 0);
    s.update(Position::new(14, 0), 50_000, 40_000);
    let acc = s.acc;
    assert_ne!(acc, Vector::zero());
    s.update(Position::new(20, 0), 1u64 << 63, 50_000);
    assert_eq!(s.vel.x, ratio(6_000_000, 1i128 << 63));
    assert_eq!(s.acc, acc);
}

#[test]
fn acceleration_reports_overflow() {
    let v_old = Vector { x: ratio(1, 1i128 << 63), y: ratio(0, 1) };
    let v_new = Vector { x: ratio(0, 1i128 << 63), y: ratio(0, 1) };
    assert!(acceleration(v_old, v_new, 1u64 << 63, 1u64 << 63).is_none());
}

#[test]
fn second_interval_gives_acceleration() {
    let mut s = SensorState::new(Position::new(0, 0));
    s.update(Position::new(4, 0), 40_000, 0);
    s.update(Position::new(14, 0), 50_000, 40_000);
    assert_eq!(value(s.vel.x), 200.0);
    assert!((value(s.acc.x) - 100.0 / 0.045).abs() < 1e-6);
}
