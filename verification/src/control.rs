//! The shared control state: the active flag and the stored click rate.

use vstd::prelude::*;

use crate::rate::clamp_rate_millihz;
use crate::rate::clamped_rate;
use crate::rate::rate_in_range;
use crate::rate::RATE_DEFAULT_MILLIHZ;

verus! {

/// The pair every component reads and writes: whether the click loop should
/// be running, and the stored rate in millihertz.
///
/// One instance is shared by every input source. The embedding program keeps
/// it (inside the dispatcher) behind a single lock so that reads and writes
/// of the pair never interleave; the active flag is flipped only through the
/// dispatcher, the rate only through `set_rate`.
pub struct ControlState {
    pub active: bool,
    pub rate_millihz: u64,
}

impl ControlState {
    /// A control state is well formed when its stored rate is in range.
    pub open spec fn wf(self) -> bool {
        rate_in_range(self.rate_millihz)
    }

    /// The state a fresh control state holds: inactive, at the default rate.
    pub open spec fn spec_new() -> ControlState {
        ControlState { active: false, rate_millihz: RATE_DEFAULT_MILLIHZ }
    }

    /// The state after storing a requested rate: the requested value clamped
    /// into range, everything else untouched.
    pub open spec fn spec_set_rate(self, raw_millihz: u64) -> ControlState {
        ControlState { active: self.active, rate_millihz: clamped_rate(raw_millihz) }
    }

    /// Creates the control state a process starts with.
    pub fn new() -> (state: ControlState)
        ensures
            state == ControlState::spec_new(),
            state.wf(),
    {
        ControlState { active: false, rate_millihz: RATE_DEFAULT_MILLIHZ }
    }

    /// Reads both fields together.
    pub fn read(&self) -> (out: (bool, u64))
        ensures
            out.0 == self.active,
            out.1 == self.rate_millihz,
    {
        (self.active, self.rate_millihz)
    }

    /// Sets the active flag, leaving the rate untouched.
    pub fn set_active(&mut self, active: bool)
        ensures
            final(self).active == active,
            final(self).rate_millihz == old(self).rate_millihz,
    {
        self.active = active;
    }

    /// Stores a requested rate, clamped into range.
    pub fn set_rate(&mut self, raw_millihz: u64)
        ensures
            *final(self) == old(self).spec_set_rate(raw_millihz),
            final(self).wf(),
    {
        self.rate_millihz = clamp_rate_millihz(raw_millihz);
    }
}

/// Round trip: after storing a requested rate, reading the state gives back
/// exactly the requested value clamped into range.
pub proof fn lemma_set_rate_read_round_trip(state: ControlState, raw_millihz: u64)
    ensures
        state.spec_set_rate(raw_millihz).rate_millihz == clamped_rate(raw_millihz),
        state.spec_set_rate(raw_millihz).active == state.active,
{
}

} // verus!
