//! The activation dispatcher: the one synchronization point through which
//! every input source — visible controls and the hotkey listener alike —
//! starts and stops the click engine.
//!
//! The embedding program keeps one dispatcher behind one lock, holds the
//! lock across each call, and then obeys the returned [`EngineCommand`]:
//! spawn one engine loop, signal the running one to stop, or do nothing.
//! Because the read-decide-act sequence sits under that one lock, the
//! decision here is what keeps the count of live engines at most one.

use vstd::prelude::*;

use crate::control::ControlState;
use crate::rate::clamped_rate;
use crate::rate::RATE_DEFAULT_MILLIHZ;

verus! {

/// What a dispatcher call tells the embedding program to do with the
/// engine's execution unit.
#[derive(Clone, Copy, PartialEq, Eq, Structural, Debug)]
pub enum EngineCommand {
    /// Spawn one engine loop; it starts from the given stored rate.
    Start { rate_millihz: u64 },
    /// Raise the running engine loop's stop signal.
    Stop,
    /// Leave the engine as it is.
    Idle,
}

/// One call any input source can make on the dispatcher.
#[derive(Clone, Copy, PartialEq, Eq, Structural, Debug)]
pub enum DispatcherCall {
    Toggle,
    SetActive { active: bool },
    SetRate { raw_millihz: u64 },
}

/// The dispatcher: the shared control state together with whether an engine
/// execution unit is currently live.
///
/// `engine_running` mirrors the engine handle the embedding program holds:
/// true exactly while a spawned loop has not been told to stop.
pub struct Dispatcher {
    pub control: ControlState,
    pub engine_running: bool,
}

impl Dispatcher {
    /// A dispatcher is well formed when its control state is and the engine
    /// runs exactly while the active flag is set.
    pub open spec fn wf(self) -> bool {
        self.control.wf() && self.engine_running == self.control.active
    }

    /// How many engine execution units are live under an embedding program
    /// that obeys the commands.
    pub open spec fn engines_live(self) -> nat {
        if self.engine_running {
            1
        } else {
            0
        }
    }

    /// The state a fresh dispatcher holds: inactive, default rate, no
    /// engine.
    pub open spec fn spec_new() -> Dispatcher {
        Dispatcher { control: ControlState::spec_new(), engine_running: false }
    }

    /// The decision of `set`: the dispatcher afterwards, and the command the
    /// caller must obey. A command other than `Idle` is issued only when the
    /// active flag actually changes.
    pub open spec fn spec_set(self, active: bool) -> (Dispatcher, EngineCommand) {
        let next = Dispatcher {
            control: ControlState { active, rate_millihz: self.control.rate_millihz },
            engine_running: active,
        };
        let command = if active == self.control.active {
            EngineCommand::Idle
        } else if active {
            EngineCommand::Start { rate_millihz: self.control.rate_millihz }
        } else {
            EngineCommand::Stop
        };
        (next, command)
    }

    /// The decision of `toggle`: a `set` to the opposite of the current
    /// active flag.
    pub open spec fn spec_toggle(self) -> (Dispatcher, EngineCommand) {
        self.spec_set(!self.control.active)
    }

    /// The dispatcher after storing a requested rate.
    pub open spec fn spec_set_rate(self, raw_millihz: u64) -> Dispatcher {
        Dispatcher {
            control: self.control.spec_set_rate(raw_millihz),
            engine_running: self.engine_running,
        }
    }

    /// Creates the dispatcher a process starts with.
    pub fn new() -> (dispatcher: Dispatcher)
        ensures
            dispatcher == Dispatcher::spec_new(),
            dispatcher.wf(),
    {
        Dispatcher { control: ControlState::new(), engine_running: false }
    }

    /// Reads the control state: the active flag and the stored rate.
    pub fn read(&self) -> (out: (bool, u64))
        ensures
            out.0 == self.control.active,
            out.1 == self.control.rate_millihz,
    {
        self.control.read()
    }

    /// Drives the active flag to the given value and returns the command
    /// that keeps the engine in step with it. When the flag already has that
    /// value nothing changes and no command is issued.
    pub fn set(&mut self, active: bool) -> (command: EngineCommand)
        requires
            old(self).wf(),
        ensures
            *final(self) == old(self).spec_set(active).0,
            command == old(self).spec_set(active).1,
            final(self).wf(),
            final(self).control.active == active,
    {
        let command = if active == self.control.active {
            EngineCommand::Idle
        } else if active {
            EngineCommand::Start { rate_millihz: self.control.rate_millihz }
        } else {
            EngineCommand::Stop
        };
        self.control.set_active(active);
        self.engine_running = active;
        command
    }

    /// Flips the active flag and returns the command that keeps the engine
    /// in step with it.
    pub fn toggle(&mut self) -> (command: EngineCommand)
        requires
            old(self).wf(),
        ensures
            *final(self) == old(self).spec_toggle().0,
            command == old(self).spec_toggle().1,
            final(self).wf(),
            final(self).control.active == !old(self).control.active,
    {
        let active = !self.control.active;
        self.set(active)
    }

    /// Stores a requested rate, clamped into range; the engine is left as it
    /// is.
    pub fn set_rate(&mut self, raw_millihz: u64)
        requires
            old(self).wf(),
        ensures
            *final(self) == old(self).spec_set_rate(raw_millihz),
            final(self).wf(),
            final(self).control.rate_millihz == clamped_rate(raw_millihz),
    {
        self.control.set_rate(raw_millihz);
    }
}

/// How many engines are live after the embedding program obeys one command.
pub open spec fn obey(live: nat, command: EngineCommand) -> nat {
    match command {
        EngineCommand::Start { .. } => live + 1,
        EngineCommand::Stop => if live >= 1 {
            (live - 1) as nat
        } else {
            0
        },
        EngineCommand::Idle => live,
    }
}

/// The dispatcher and the live-engine count after one call is made and its
/// command obeyed.
pub open spec fn step_call(dispatcher: Dispatcher, live: nat, call: DispatcherCall) -> (
    Dispatcher,
    nat,
) {
    match call {
        DispatcherCall::Toggle => {
            let (next, command) = dispatcher.spec_toggle();
            (next, obey(live, command))
        },
        DispatcherCall::SetActive { active } => {
            let (next, command) = dispatcher.spec_set(active);
            (next, obey(live, command))
        },
        DispatcherCall::SetRate { raw_millihz } => (dispatcher.spec_set_rate(raw_millihz), live),
    }
}

/// The dispatcher and the live-engine count after a whole sequence of calls.
pub open spec fn run_calls(dispatcher: Dispatcher, live: nat, calls: Seq<DispatcherCall>) -> (
    Dispatcher,
    nat,
)
    decreases calls.len(),
{
    if calls.len() == 0 {
        (dispatcher, live)
    } else {
        let (next, live_next) = step_call(dispatcher, live, calls[0]);
        run_calls(next, live_next, calls.drop_first())
    }
}

/// At most one engine: under any sequence of dispatcher calls from any
/// input sources, an embedding program that obeys the commands keeps the
/// count of live engines equal to the dispatcher's `engine_running` flag —
/// never more than one.
pub proof fn lemma_at_most_one_engine(
    dispatcher: Dispatcher,
    live: nat,
    calls: Seq<DispatcherCall>,
)
    requires
        dispatcher.wf(),
        live == dispatcher.engines_live(),
    ensures
        run_calls(dispatcher, live, calls).0.wf(),
        run_calls(dispatcher, live, calls).1 == run_calls(dispatcher, live, calls).0.engines_live(),
        run_calls(dispatcher, live, calls).1 <= 1,
    decreases calls.len(),
{
    if calls.len() > 0 {
        let (next, live_next) = step_call(dispatcher, live, calls[0]);
        lemma_at_most_one_engine(next, live_next, calls.drop_first());
    }
}

/// Idempotence: a second `set` to the same target changes nothing and
/// issues no command — two `set(true)` in a row start exactly one engine,
/// two `set(false)` in a row leave the system stopped.
pub proof fn lemma_set_idempotent(dispatcher: Dispatcher, active: bool)
    ensures
        dispatcher.spec_set(active).0.spec_set(active).1 == EngineCommand::Idle,
        dispatcher.spec_set(active).0.spec_set(active).0 == dispatcher.spec_set(active).0,
{
}

/// Round trip through the dispatcher: after storing a requested rate,
/// reading gives back exactly the requested value clamped into range, and
/// the active flag is untouched.
pub proof fn lemma_set_rate_round_trip(dispatcher: Dispatcher, raw_millihz: u64)
    ensures
        dispatcher.spec_set_rate(raw_millihz).control.rate_millihz == clamped_rate(raw_millihz),
        dispatcher.spec_set_rate(raw_millihz).control.active == dispatcher.control.active,
{
}

} // verus!
