use vstd::prelude::*;

use crate::geometry::Position;

verus! {

/// The bearing from an observer to a target, kept exactly.
///
/// `Slope { rise, run }` stands for the angle `atan(rise / run)`; `run` is
/// always positive, so the angle lies strictly between -pi/2 and pi/2.
/// `Vertical` is the limiting value when observer and target share their x
/// coordinate: pi/2 when `positive`, else -pi/2.
#[derive(Clone, Copy, Debug, PartialEq, Eq, Structural)]
pub enum Bearing {
    Slope { rise: i64, run: i64 },
    Vertical { positive: bool },
}

impl Bearing {
    /// A bearing as the functions of this crate build it.
    pub open spec fn wf(self) -> bool {
        match self {
            Bearing::Slope { rise, run } => {
                &&& 0 < run < 0x1_0000_0000
                &&& -0x1_0000_0000 < rise < 0x1_0000_0000
            },
            Bearing::Vertical { .. } => true,
        }
    }

    /// The bearing of zero radians.
    pub fn level() -> (r: Bearing)
        ensures
            r == (Bearing::Slope { rise: 0, run: 1 }),
    {
        Bearing::Slope { rise: 0, run: 1 }
    }
}

/// The single-quadrant bearing `atan(dy / dx)` from `from` to `to`. The slope
/// is kept with a positive run, which names the same angle. When the x
/// coordinates agree the bearing is the limit, pi/2 with the sign of `dy`;
/// when the points coincide there is no direction and the bearing is zero.
pub open spec fn bearing_of(from: Position, to: Position) -> Bearing {
    let dx = to.x - from.x;
    let dy = to.y - from.y;
    if dx > 0 {
        Bearing::Slope { rise: dy as i64, run: dx as i64 }
    } else if dx < 0 {
        Bearing::Slope { rise: (-dy) as i64, run: (-dx) as i64 }
    } else if dy > 0 {
        Bearing::Vertical { positive: true }
    } else if dy < 0 {
        Bearing::Vertical { positive: false }
    } else {
        Bearing::Slope { rise: 0, run: 1 }
    }
}

/// Computes the line-of-sight bearing from `from` to `to`.
pub fn line_of_sight(from: Position, to: Position) -> (r: Bearing)
    ensures
        r == bearing_of(from, to),
        r.wf(),
        to.x != from.x ==> (r matches Bearing::Slope { rise, run } && 0 < run && rise * (to.x
            - from.x) == (to.y - from.y) * run),
{
    let dx: i64 = to.x as i64 - from.x as i64;
    let dy: i64 = to.y as i64 - from.y as i64;
    if dx > 0 {
        assert(dy * dx == dx * dy) by (nonlinear_arith);
        Bearing::Slope { rise: dy, run: dx }
    } else if dx < 0 {
        assert((-dy) * dx == dy * (-dx)) by (nonlinear_arith);
        Bearing::Slope { rise: -dy, run: -dx }
    } else if dy > 0 {
        Bearing::Vertical { positive: true }
    } else if dy < 0 {
        Bearing::Vertical { positive: false }
    } else {
        Bearing::level()
    }
}

/// The line-of-sight tracker. It is uninitialised until its first
/// observation and tracking after it; it keeps the last observer position.
#[derive(Clone, Copy, Debug, PartialEq, Eq, Structural)]
pub struct Sensor {
    pub pos: Position,
    pub pos_target: Position,
    pub tracking: bool,
}

impl Sensor {
    pub fn new(pos: Position, pos_target: Position) -> (r: Sensor)
        ensures
            r.pos == pos,
            r.pos_target == pos_target,
            !r.tracking,
    {
        Sensor { pos, pos_target, tracking: false }
    }

    /// Records a new target position.
    pub fn set_target(&mut self, pos_target: Position)
        ensures
            *final(self) == (Sensor { pos_target, ..*old(self) }),
    {
        self.pos_target = pos_target;
    }

    /// Records the observer at `pos_true` and returns the bearing from there
    /// to the target.
    pub fn update_with_pos(&mut self, pos_true: Position) -> (r: Bearing)
        ensures
            final(self).pos == pos_true,
            final(self).pos_target == old(self).pos_target,
            final(self).tracking,
            r == bearing_of(pos_true, old(self).pos_target),
            r.wf(),
    {
        self.pos = pos_true;
        self.tracking = true;
        line_of_sight(self.pos, self.pos_target)
    }
}

} // verus!
