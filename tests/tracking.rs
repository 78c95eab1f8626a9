use beam_track::beam::beam_transform;
use beam_track::geometry::Position;
use beam_track::los::{line_of_sight, Bearing, Sensor};

fn radians(b: Bearing) -> f64 {
    match b {
        Bearing::Slope { rise, run } => (rise as f64 / run as f64).atan(),
        Bearing::Vertical { positive: true } => std::f64::consts::FRAC_PI_2,
        Bearing::Vertical { positive: false } => -std::f64::consts::FRAC_PI_2,
    }
}

#[test]
fn bearing_at_forty_five_degrees() {
    let b = line_of_sight(Position::new(0, 0), Position::new(100, 100));
    assert_eq!(b, Bearing::Slope { rise: 100, run: 100 });
    assert!((radians(b) - std::f64::consts::FRAC_PI_4).abs() < 1e-12);
    assert!((radians(b).to_degrees() - 45.0).abs() < 1e-9);
}

#[test]
fn bearing_level_has_no_correction() {
    let b = line_of_sight(Position::new(0, 0), Position::new(100, 0));
    assert_eq!(b, Bearing::Slope { rise: 0, run: 100 });
    assert_eq!(radians(b), 0.0);
    let r = beam_transform(Position::new(0, 0), b);
    assert_eq!(r.x_correction, 0);
    assert_eq!(r.y_correction, 0);
    assert_eq!(r.left, 15_000_000);
    assert_eq!(r.top, 15_000_000);
}

#[test]
fn bearing_behind_uses_positive_run() {
    let b = line_of_sight(Position::new(10, 10), Position::new(-90, 60));
    assert_eq!(b, Bearing::Slope { rise: -50, run: 100 });
    assert!((radians(b) - (50.0f64 / -100.0).atan()).abs() < 1e-12);
}

#[test]
fn bearing_stays_inside_open_range() {
    for (tx, ty) in [(1, 1_000_000), (-1, 1_000_000), (1, -1_000_000), (3, 4), (-7, -2)] {
        let b = line_of_sight(Position::new(0, 0), Position::new(tx, ty));
        let a = radians(b);
        assert!(a > -std::f64::consts::FRAC_PI_2 && a < std::f64::consts::FRAC_PI_2);
        assert!((a - (ty as f64 / tx as f64).atan()).abs() < 1e-12);
    }
}

#[test]
fn bearing_vertical_resolves_to_limit() {
    let up = line_of_sight(Position::new(5, 0), Position::new(5, 30));
    assert_eq!(up, Bearing::Vertical { positive: true });
    let down = line_of_sight(Position::new(5, 0), Position::new(5, -30));
    assert_eq!(down, Bearing::Vertical { positive: false });
    let same = line_of_sight(Position::new(5, 0), Position::new(5, 0));
    assert_eq!(same, Bearing::level());
}

#[test]
fn tracker_records_observer() {
    let mut s = Sensor::new(Position::new(0, 0), Position::new(100, 100));
    assert!(!s.tracking);
    let b = s.update_with_pos(Position::new(50, 0));
    assert!(s.tracking);
    assert_eq!(s.pos, Position::new(50, 0));
    assert_eq!(b, Bearing::Slope { rise: 100, run: 50 });
    s.set_target(Position::new(0, 0));
    assert_eq!(s.pos_target, Position::new(0, 0));
}

#[test]
fn transform_at_forty_five_degrees() {
    let r = beam_transform(Position::new(100, 200), Bearing::Slope { rise: 100, run: 100 });
    // 500 * cos(pi/4) = 353.55339059..., rounded down to millionths.
    assert_eq!(r.x_correction, 500_000_000 - 353_553_390);
    assert_eq!(r.y_correction, 353_553_390);
    assert_eq!(r.left, 115_000_000 - (500_000_000 - 353_553_390));
    assert_eq!(r.top, 215_000_000 + 353_553_390);
}

#[test]
fn transform_matches_trigonometry() {
    for b in [
        Bearing::Slope { rise: 3, run: 4 },
        Bearing::Slope { rise: -7, run: 2 },
        Bearing::Slope { rise: 1, run: 1_000 },
    ] {
        let r = beam_transform(Position::new(0, 0), b);
        let a = radians(b);
        let x = 500.0 - 500.0 * a.cos();
        let y = 500.0 * a.sin();
        assert!((r.x_correction as f64 / 1e6 - x).abs() <= 1e-6 + 1e-9);
        assert!((r.y_correction as f64 / 1e6 - y).abs() <= 1e-6 + 1e-9);
    }
}

#[test]
fn transform_vertical() {
    let r = beam_transform(Position::new(0, 0), Bearing::Vertical { positive: false });
    assert_eq!(r.x_correction, 500_000_000);
    assert_eq!(r.y_correction, -500_000_000);
    assert_eq!(r.left, 15_000_000 - 500_000_000);
    assert_eq!(r.top, 15_000_000 - 500_000_000);
}

#[test]
fn transform_twice_is_the_same() {
    let b = Bearing::Slope { rise: -123, run: 457 };
    let p = Position::new(-40, 77);
    assert_eq!(beam_transform(p, b), beam_transform(p, b));
}

#[test]
fn glyph_stays_on_pivot_circle() {
    let (x, y) = (40, -25);
    for b in [
        Bearing::Slope { rise: 100, run: 100 },
        Bearing::Slope { rise: -3, run: 4 },
        Bearing::Slope { rise: 999, run: 1 },
        Bearing::Vertical { positive: true },
    ] {
        let r = beam_transform(Position::new(x, y), b);
        let left = r.left as f64 / 1e6;
        let top = r.top as f64 / 1e6;
        let dx = left - (x as f64 + 15.0 - 500.0);
        let dy = top - (y as f64 + 15.0);
        let d2 = dx * dx + dy * dy;
        assert!(((d2 - 250_000.0) / 250_000.0).abs() <= 1e-6);
    }
}
