//! The simulation context: the particle set, the running/paused state and
//! the controls that user input toggles.
use vstd::prelude::*;
use crate::particle::{advance, all_wf, step_all, valid_ticks, Particle, Viewport, MAX_TICKS};

verus! {

/// Whether frames advance the particles.
#[derive(Debug, Clone, Copy, PartialEq, Eq, Structural)]
pub enum SimState {
    Running,
    Paused,
}

impl SimState {
    /// The other state.
    pub fn toggled(self) -> (r: SimState)
        ensures
            r == (match self {
                SimState::Running => SimState::Paused,
                SimState::Paused => SimState::Running,
            }),
    {
        match self {
            SimState::Running => SimState::Paused,
            SimState::Paused => SimState::Running,
        }
    }
}

/// The logical controls that key presses map to.
#[derive(Debug, Clone, Copy, PartialEq, Eq, Structural)]
pub enum Control {
    /// Pause a running simulation, resume a paused one.
    TogglePause,
    /// Show or hide the frame-rate readout.
    ToggleFps,
    /// Stop the run loop.
    Exit,
}

/// Everything the run loop reads and updates from frame to frame.
#[derive(Debug, Clone)]
pub struct Simulation {
    pub particles: Vec<Particle>,
    pub state: SimState,
    pub fps_hidden: bool,
    pub keep_running: bool,
}

impl Simulation {
    /// Every particle is well formed.
    pub open spec fn wf(&self) -> bool {
        all_wf(self.particles@)
    }

    /// A running simulation over `particles`, with the readout shown.
    pub fn new(particles: Vec<Particle>) -> (r: Simulation)
        requires
            all_wf(particles@),
        ensures
            r.wf(),
            r.particles@ == particles@,
            r.state == SimState::Running,
            !r.fps_hidden,
            r.keep_running,
    {
        Simulation { particles, state: SimState::Running, fps_hidden: false, keep_running: true }
    }

    /// Applies one control. Only the field the control names changes.
    pub fn handle(&mut self, c: Control)
        ensures
            final(self).particles@ == old(self).particles@,
            final(self).state == (if c == Control::TogglePause {
                match old(self).state {
                    SimState::Running => SimState::Paused,
                    SimState::Paused => SimState::Running,
                }
            } else {
                old(self).state
            }),
            final(self).fps_hidden == (if c == Control::ToggleFps {
                !old(self).fps_hidden
            } else {
                old(self).fps_hidden
            }),
            final(self).keep_running == (old(self).keep_running && c != Control::Exit),
    {
        match c {
            Control::TogglePause => {
                self.state = self.state.toggled();
            },
            Control::ToggleFps => {
                self.fps_hidden = !self.fps_hidden;
            },
            Control::Exit => {
                self.keep_running = false;
            },
        }
    }

    /// Runs one frame of `dt` ticks in `vp`: a running simulation advances
    /// every particle by one reflection step; a paused one leaves them
    /// exactly as they are.
    pub fn frame(&mut self, vp: &Viewport, dt: i64)
        requires
            old(self).wf(),
            vp.wf(),
            valid_ticks(dt as int),
        ensures
            final(self).wf(),
            final(self).state == old(self).state,
            final(self).fps_hidden == old(self).fps_hidden,
            final(self).keep_running == old(self).keep_running,
            final(self).particles@ == (if old(self).state == SimState::Running {
                step_all(old(self).particles@, *vp, dt as int)
            } else {
                old(self).particles@
            }),
    {
        if self.state == SimState::Running {
            advance(&mut self.particles, vp, dt);
        }
    }
}

/// The number of microseconds in one tick.
pub const MICROS_PER_TICK: u64 = 1000;

/// Turns elapsed wall-clock time into whole ticks, carrying the part of a
/// tick that is left over into the next frame.
#[derive(Debug, Clone, Copy, PartialEq, Eq, Structural)]
pub struct FrameClock {
    pub carry_micros: u64,
}

impl FrameClock {
    pub open spec fn wf(self) -> bool {
        self.carry_micros < MICROS_PER_TICK
    }

    /// A clock with nothing carried.
    pub fn new() -> (r: FrameClock)
        ensures
            r.wf(),
            r.carry_micros == 0,
    {
        FrameClock { carry_micros: 0 }
    }

    /// The whole ticks in the carried time plus `elapsed_micros`; the rest is
    /// carried. A frame longer than `MAX_TICKS` ticks counts as `MAX_TICKS`
    /// ticks and carries nothing.
    pub fn ticks(&mut self, elapsed_micros: u64) -> (r: i64)
        requires
            old(self).wf(),
        ensures
            final(self).wf(),
            valid_ticks(r as int),
            ({
                let total = old(self).carry_micros + elapsed_micros;
                if total / (MICROS_PER_TICK as int) <= MAX_TICKS {
                    &&& r == total / (MICROS_PER_TICK as int)
                    &&& final(self).carry_micros == total % (MICROS_PER_TICK as int)
                } else {
                    &&& r == MAX_TICKS
                    &&& final(self).carry_micros == 0
                }
            }),
    {
        let total: u128 = self.carry_micros as u128 + elapsed_micros as u128;
        let whole: u128 = total / (MICROS_PER_TICK as u128);
        if whole <= MAX_TICKS as u128 {
            self.carry_micros = (total % (MICROS_PER_TICK as u128)) as u64;
            whole as i64
        } else {
            self.carry_micros = 0;
            MAX_TICKS
        }
    }
}

} // verus!
