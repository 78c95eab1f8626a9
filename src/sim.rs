use vstd::prelude::*;

use crate::beam::{beam_transform, is_transform, BeamRender};
use crate::geometry::Position;
use crate::kinematics::SensorState;
use crate::los::{bearing_of, Bearing, Sensor};

verus! {

/// The pause between two ticks, in microseconds.
pub const TICK_INTERVAL: u64 = 50_000;

/// The interval `advance` derives from two timestamps: the time elapsed, or
/// zero when the clock did not move forward.
pub open spec fn interval_between(earlier: u64, later: u64) -> u64 {
    if later > earlier {
        (later - earlier) as u64
    } else {
        0
    }
}

/// The clock of the loop, in microseconds: the last timestamp and the last
/// two intervals.
#[derive(Clone, Copy, Debug, PartialEq, Eq, Structural)]
pub struct Timing {
    pub time: u64,
    pub dt: u64,
    pub dt_old: u64,
}

impl Timing {
    /// A clock started at `now`, with no interval measured yet.
    pub fn start(now: u64) -> (r: Timing)
        ensures
            r == (Timing { time: now, dt: 0, dt_old: 0 }),
    {
        Timing { time: now, dt: 0, dt_old: 0 }
    }

    /// Moves the clock to `now`; the last interval becomes the previous one.
    pub fn advance(&mut self, now: u64)
        ensures
            final(self).time == now,
            final(self).dt == interval_between(old(self).time, now),
            final(self).dt_old == old(self).dt,
    {
        self.dt_old = self.dt;
        self.dt = if now > self.time {
            now - self.time
        } else {
            0
        };
        self.time = now;
    }
}

/// The state the loop carries from tick to tick.
#[derive(Clone, Copy, Debug, PartialEq, Eq, Structural)]
pub struct State {
    pub sensor: SensorState,
    /// The beam's current angle.
    pub beam: Bearing,
    pub target: Position,
    pub timing: Timing,
}

impl State {
    pub open spec fn wf(self) -> bool {
        self.sensor.wf() && self.beam.wf()
    }

    pub open spec fn new_spec(sensor_pos: Position, target_pos: Position, now: u64) -> State {
        State {
            sensor: SensorState::new_spec(sensor_pos),
            beam: Bearing::Slope { rise: 0, run: 1 },
            target: target_pos,
            timing: Timing { time: now, dt: 0, dt_old: 0 },
        }
    }

    /// The state at the start of a run: both elements at their initial
    /// positions, the sensor at rest, the beam level, the clock at `now`.
    pub fn new(sensor_pos: Position, target_pos: Position, now: u64) -> (r: State)
        ensures
            r.wf(),
            r == State::new_spec(sensor_pos, target_pos, now),
    {
        State {
            sensor: SensorState::new(sensor_pos),
            beam: Bearing::level(),
            target: target_pos,
            timing: Timing::start(now),
        }
    }

    /// Advances the clock to `now` and feeds the position sample to the
    /// estimator.
    pub fn update(&mut self, now: u64, pos: Position)
        requires
            old(self).wf(),
        ensures
            final(self).wf(),
            final(self).timing == ({
                let t = old(self).timing;
                Timing { time: now, dt: interval_between(t.time, now), dt_old: t.dt }
            }),
            final(self).sensor.updated_from(
                old(self).sensor,
                pos,
                final(self).timing.dt,
                final(self).timing.dt_old,
            ),
            final(self).beam == old(self).beam,
            final(self).target == old(self).target,
    {
        self.timing.advance(now);
        self.update_sensor(pos);
    }

    /// Feeds a position sample to the estimator with the current intervals.
    pub fn update_sensor(&mut self, pos: Position)
        requires
            old(self).wf(),
        ensures
            final(self).wf(),
            final(self).sensor.updated_from(
                old(self).sensor,
                pos,
                old(self).timing.dt,
                old(self).timing.dt_old,
            ),
            final(self).beam == old(self).beam,
            final(self).target == old(self).target,
            final(self).timing == old(self).timing,
    {
        let dt = self.timing.dt;
        let dt_old = self.timing.dt_old;
        self.sensor.update(pos, dt, dt_old);
    }

    /// Renders the glyph anchored at `pos` with the beam turned to `bearing`.
    /// The state is left as it is.
    pub fn update_beam(&self, pos: Position, bearing: Bearing) -> (r: BeamRender)
        requires
            bearing.wf(),
        ensures
            is_transform(pos, bearing, r),
    {
        beam_transform(pos, bearing)
    }

    /// Turns the beam to `bearing` and renders the glyph at the sensor's
    /// position.
    pub fn rotate_beam(&mut self, bearing: Bearing) -> (r: BeamRender)
        requires
            old(self).wf(),
            bearing.wf(),
        ensures
            final(self).wf(),
            *final(self) == (State { beam: bearing, ..*old(self) }),
            is_transform(old(self).sensor.pos, bearing, r),
    {
        let r = self.update_beam(self.sensor.pos, bearing);
        self.beam = bearing;
        r
    }
}

/// What one tick hands to the renderer.
#[derive(Clone, Copy, Debug, PartialEq, Eq, Structural)]
pub struct Frame {
    pub bearing: Bearing,
    pub render: BeamRender,
}

/// The simulation loop's state machine: running until stopped.
#[derive(Clone, Copy, Debug, PartialEq, Eq, Structural)]
pub struct Simulation {
    pub state: State,
    pub tracker: Sensor,
    pub running: bool,
}

impl Simulation {
    pub open spec fn wf(self) -> bool {
        self.state.wf()
    }

    /// A running simulation seeded with the initial positions at time `now`.
    pub fn start(sensor_pos: Position, target_pos: Position, now: u64) -> (r: Simulation)
        ensures
            r.wf(),
            r.running,
            r.state == State::new_spec(sensor_pos, target_pos, now),
            r.tracker == (Sensor { pos: sensor_pos, pos_target: target_pos, tracking: false }),
    {
        Simulation {
            state: State::new(sensor_pos, target_pos, now),
            tracker: Sensor::new(sensor_pos, target_pos),
            running: true,
        }
    }

    /// Stops the loop; later ticks do nothing.
    pub fn stop(&mut self)
        ensures
            *final(self) == (Simulation { running: false, ..*old(self) }),
    {
        self.running = false;
    }

    /// One tick at time `now`, with a sensor sample and the target's current
    /// position. A stopped simulation is left as it is and yields nothing.
    /// A running one advances the clock, refreshes the sensor's kinematics,
    /// takes the bearing from the sensor to the target, turns the beam to it
    /// and yields the frame to draw.
    pub fn tick(&mut self, now: u64, sample: Position, target: Position) -> (r: Option<Frame>)
        requires
            old(self).wf(),
        ensures
            final(self).wf(),
            !old(self).running ==> r is None && *final(self) == *old(self),
            old(self).running ==> {
                let t = old(self).timing_after(now);
                &&& final(self).running
                &&& final(self).state.timing == t
                &&& final(self).state.target == target
                &&& final(self).state.sensor.updated_from(
                    old(self).state.sensor,
                    sample,
                    t.dt,
                    t.dt_old,
                )
                &&& final(self).tracker == (Sensor {
                    pos: sample,
                    pos_target: target,
                    tracking: true,
                })
                &&& final(self).state.beam == bearing_of(sample, target)
                &&& r matches Some(f) && f.bearing == bearing_of(sample, target) && is_transform(
                    sample,
                    f.bearing,
                    f.render,
                )
            },
    {
        if !self.running {
            return None;
        }
        self.state.target = target;
        self.tracker.set_target(target);
        self.state.update(now, sample);
        let pos = self.state.sensor.pos;
        let bearing = self.tracker.update_with_pos(pos);
        let render = self.state.rotate_beam(bearing);
        Some(Frame { bearing, render })
    }

    pub open spec fn timing_after(self, now: u64) -> Timing {
        Timing {
            time: now,
            dt: interval_between(self.state.timing.time, now),
            dt_old: self.state.timing.dt,
        }
    }
}

} // verus!
