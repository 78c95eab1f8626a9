use vstd::prelude::*;

use crate::geometry::Position;
use crate::los::Bearing;

verus! {

/// Distance, in pixels, from the sensor glyph to the pivot the beam turns about.
pub const PIVOT_RADIUS: i64 = 500;

/// Offset, in pixels, that centres the sensor glyph on its anchor.
pub const GLYPH_OFFSET: i64 = 15;

/// Rendered coordinates are counted in millionths of a pixel.
pub const SUBPIXELS: i64 = 1_000_000;

/// The pivot radius in millionths of a pixel.
pub const SCALED_RADIUS: i64 = PIVOT_RADIUS * SUBPIXELS;

/// `q` is `a / sqrt(b2)` rounded down, for `a >= 0` and `b2 > 0`.
pub open spec fn is_root_quotient(q: int, a: int, b2: int) -> bool {
    &&& q >= 0
    &&& q * q * b2 <= a * a
    &&& a * a < (q + 1) * (q + 1) * b2
}

/// The squared length of the slope's hypotenuse.
pub open spec fn hyp2(rise: int, run: int) -> int {
    run * run + rise * rise
}

/// `c` is `SCALED_RADIUS * cos(b)`, rounded toward zero.
pub open spec fn scaled_cos(b: Bearing, c: int) -> bool {
    match b {
        Bearing::Slope { rise, run } => is_root_quotient(c, SCALED_RADIUS * run, hyp2(rise as int, run as int)),
        Bearing::Vertical { .. } => c == 0,
    }
}

/// `s` is `SCALED_RADIUS * sin(b)`, rounded toward zero.
pub open spec fn scaled_sin(b: Bearing, s: int) -> bool {
    match b {
        Bearing::Slope { rise, run } => if rise >= 0 {
            is_root_quotient(s, SCALED_RADIUS * rise, hyp2(rise as int, run as int))
        } else {
            is_root_quotient(-s, SCALED_RADIUS * -rise, hyp2(rise as int, run as int))
        },
        Bearing::Vertical { positive } => s == if positive {
            SCALED_RADIUS as int
        } else {
            -SCALED_RADIUS
        },
    }
}

/// Where the sensor glyph is drawn so that the beam's pivot stays put, in
/// millionths of a pixel.
#[derive(Clone, Copy, Debug, PartialEq, Eq, Structural)]
pub struct BeamRender {
    /// `R - R * cos(angle)`.
    pub x_correction: i64,
    /// `R * sin(angle)`.
    pub y_correction: i64,
    /// `reference.x + GLYPH_OFFSET - x_correction`.
    pub left: i64,
    /// `reference.y + GLYPH_OFFSET + y_correction`.
    pub top: i64,
}

/// `r` is the pivot-compensated rendering of a glyph anchored at `reference`
/// whose beam is turned to `b`.
pub open spec fn is_transform(reference: Position, b: Bearing, r: BeamRender) -> bool {
    &&& scaled_cos(b, SCALED_RADIUS - r.x_correction)
    &&& scaled_sin(b, r.y_correction as int)
    &&& r.left == (reference.x + GLYPH_OFFSET) * SUBPIXELS - r.x_correction
    &&& r.top == (reference.y + GLYPH_OFFSET) * SUBPIXELS + r.y_correction
}

/// `SCALED_RADIUS * leg / sqrt(h2)` rounded down, by bisection over
/// `0..=SCALED_RADIUS`.
fn root_quotient(leg: u128, h2: u128) -> (q: u128)
    requires
        leg <= 0x1_0000_0000,
        leg * leg <= h2,
        0 < h2 <= 0x2_0000_0000_0000_0000,
    ensures
        is_root_quotient(q as int, SCALED_RADIUS * leg, h2 as int),
        q <= SCALED_RADIUS,
{
    let a: u128 = 500_000_000 * leg;
    assert(a * a <= 4_611_686_018_427_387_904_000_000_000_000_000_000) by (nonlinear_arith)
        requires
            a == 500_000_000 * leg,
            leg <= 0x1_0000_0000,
    ;
    let aa: u128 = a * a;
    let hi0: u128 = 500_000_001;
    assert(aa < hi0 * hi0 * h2) by (nonlinear_arith)
        requires
            aa == 500_000_000 * leg * (500_000_000 * leg),
            leg * leg <= h2,
            hi0 == 500_000_001,
            h2 > 0,
    ;
    let mut lo: u128 = 0;
    let mut hi: u128 = hi0;
    assert(lo * lo * h2 == 0) by (nonlinear_arith)
        requires
            lo == 0,
    ;
    while hi - lo > 1
        invariant
            lo < hi <= 500_000_001,
            lo * lo * h2 <= aa,
            aa < hi * hi * h2,
            0 < h2 <= 0x2_0000_0000_0000_0000,
            aa == a * a,
        decreases hi - lo,
    {
        let mid: u128 = lo + (hi - lo) / 2;
        assert(mid * mid <= 250_000_001_000_000_001) by (nonlinear_arith)
            requires
                mid <= 500_000_001,
        ;
        assert(mid * mid * h2 <= 250_000_001_000_000_001 * 0x2_0000_0000_0000_0000) by (nonlinear_arith)
            requires
                mid * mid <= 250_000_001_000_000_001,
                h2 <= 0x2_0000_0000_0000_0000,
        ;
        if mid * mid * h2 <= aa {
            lo = mid;
        } else {
            hi = mid;
        }
    }
    assert(lo <= 500_000_000);
    lo
}

/// The beam transform: maps the bearing and the glyph's reference position
/// to the pivot-compensated glyph position.
pub fn beam_transform(reference: Position, bearing: Bearing) -> (r: BeamRender)
    requires
        bearing.wf(),
    ensures
        is_transform(reference, bearing, r),
{
    let (c, s): (i64, i64) = match bearing {
        Bearing::Slope { rise, run } => {
            let run_m: u128 = run as u128;
            let rise_m: u128 = if rise >= 0 {
                rise as u128
            } else {
                (-rise) as u128
            };
            assert(run_m * run_m <= 0x1_0000_0000_0000_0000 && rise_m * rise_m
                <= 0x1_0000_0000_0000_0000) by (nonlinear_arith)
                requires
                    run_m <= 0x1_0000_0000,
                    rise_m <= 0x1_0000_0000,
            ;
            let h2: u128 = run_m * run_m + rise_m * rise_m;
            assert(rise_m * rise_m == rise * rise) by (nonlinear_arith)
                requires
                    rise_m == rise || rise_m == -rise,
            ;
            assert(0 < h2) by (nonlinear_arith)
                requires
                    h2 == run_m * run_m + rise_m * rise_m,
                    run_m > 0,
            ;
            let cq: u128 = root_quotient(run_m, h2);
            let sq: u128 = root_quotient(rise_m, h2);
            if rise >= 0 {
                (cq as i64, sq as i64)
            } else {
                (cq as i64, -(sq as i64))
            }
        },
        Bearing::Vertical { positive } => {
            if positive {
                (0, SCALED_RADIUS)
            } else {
                (0, -SCALED_RADIUS)
            }
        },
    };
    let x_correction: i64 = SCALED_RADIUS - c;
    BeamRender {
        x_correction,
        y_correction: s,
        left: (reference.x as i64 + GLYPH_OFFSET) * SUBPIXELS - x_correction,
        top: (reference.y as i64 + GLYPH_OFFSET) * SUBPIXELS + s,
    }
}

proof fn lemma_root_quotient_below(q1: int, q2: int, a: int, b2: int)
    requires
        b2 > 0,
        is_root_quotient(q1, a, b2),
        is_root_quotient(q2, a, b2),
    ensures
        q2 <= q1,
{
    if q1 < q2 {
        assert((q1 + 1) * (q1 + 1) * b2 <= q2 * q2 * b2) by (nonlinear_arith)
            requires
                0 <= q1 + 1 <= q2,
                b2 > 0,
        ;
    }
}

/// There is one rounded quotient for each `a` and `b2 > 0`.
pub proof fn lemma_root_quotient_unique(q1: int, q2: int, a: int, b2: int)
    requires
        b2 > 0,
        is_root_quotient(q1, a, b2),
        is_root_quotient(q2, a, b2),
    ensures
        q1 == q2,
{
    lemma_root_quotient_below(q1, q2, a, b2);
    lemma_root_quotient_below(q2, q1, a, b2);
}

/// The beam transform is a function of its inputs: two renderings of the same
/// bearing from the same reference position are the same rendering.
pub proof fn lemma_transform_deterministic(
    reference: Position,
    bearing: Bearing,
    r1: BeamRender,
    r2: BeamRender,
)
    requires
        bearing.wf(),
        is_transform(reference, bearing, r1),
        is_transform(reference, bearing, r2),
    ensures
        r1 == r2,
{
    match bearing {
        Bearing::Slope { rise, run } => {
            let h = hyp2(rise as int, run as int);
            assert(h > 0) by (nonlinear_arith)
                requires
                    h == run * run + rise * rise,
                    run > 0,
            ;
            lemma_root_quotient_unique(
                SCALED_RADIUS - r1.x_correction,
                SCALED_RADIUS - r2.x_correction,
                SCALED_RADIUS * run,
                h,
            );
            if rise >= 0 {
                lemma_root_quotient_unique(
                    r1.y_correction as int,
                    r2.y_correction as int,
                    SCALED_RADIUS * rise,
                    h,
                );
            } else {
                lemma_root_quotient_unique(
                    -r1.y_correction,
                    -r2.y_correction,
                    SCALED_RADIUS * -rise,
                    h,
                );
            }
        },
        Bearing::Vertical { .. } => {},
    }
}

/// At zero rotation the glyph needs no correction: a level bearing gives
/// zero offsets along both axes.
pub proof fn lemma_level_needs_no_correction(reference: Position, run: i64, r: BeamRender)
    requires
        0 < run < 0x1_0000_0000,
        is_transform(reference, Bearing::Slope { rise: 0, run }, r),
    ensures
        r.x_correction == 0,
        r.y_correction == 0,
        r.left == (reference.x + GLYPH_OFFSET) * SUBPIXELS,
        r.top == (reference.y + GLYPH_OFFSET) * SUBPIXELS,
{
    let a = SCALED_RADIUS * run;
    let h = hyp2(0, run as int);
    assert(h == run * run) by (nonlinear_arith)
        requires
            h == run * run + 0 * 0,
    ;
    assert(is_root_quotient(SCALED_RADIUS as int, a, h)) by (nonlinear_arith)
        requires
            a == SCALED_RADIUS * run,
            h == run * run,
            SCALED_RADIUS == 500_000_000,
            run > 0,
    ;
    lemma_root_quotient_unique(SCALED_RADIUS - r.x_correction, SCALED_RADIUS as int, a, h);
    assert(r.y_correction == 0) by (nonlinear_arith)
        requires
            r.y_correction >= 0,
            r.y_correction * r.y_correction * h <= (SCALED_RADIUS * 0) * (SCALED_RADIUS * 0),
            h > 0,
    ;
}

} // verus!
