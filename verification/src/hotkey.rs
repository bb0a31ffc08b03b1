//! The hotkey state machine: tracks the two modifier keys and the trigger
//! key of the global toggle combination, and fires exactly once per trigger
//! press.
//!
//! The embedding program feeds it every key event the global listener
//! observes, translated to [`KeyInput`]; when `observe` returns true it
//! calls the dispatcher's toggle, exactly as the visible controls would.

use vstd::prelude::*;

verus! {

/// One key event of the global feed, as far as the combination cares:
/// down or up of either modifier or of the trigger key, or anything else.
#[derive(Clone, Copy, PartialEq, Eq, Structural, Debug)]
pub enum KeyInput {
    ModifierADown,
    ModifierAUp,
    ModifierBDown,
    ModifierBUp,
    TriggerDown,
    TriggerUp,
    Other,
}

/// Which of the combination's keys are currently held down.
///
/// The trigger key's own state is tracked so that a repeated down event for
/// a key already held — as keyboard auto-repeat produces — cannot re-fire.
#[derive(Clone, Copy, PartialEq, Eq, Structural, Debug)]
pub struct HotkeyTracker {
    pub modifier_a_down: bool,
    pub modifier_b_down: bool,
    pub trigger_down: bool,
}

impl HotkeyTracker {
    /// The state a fresh tracker holds: no key down.
    pub open spec fn spec_new() -> HotkeyTracker {
        HotkeyTracker { modifier_a_down: false, modifier_b_down: false, trigger_down: false }
    }

    /// Whether an event fires the toggle: the trigger key goes down while
    /// both modifiers are held and the trigger key was not already down.
    pub open spec fn spec_fires(self, event: KeyInput) -> bool {
        &&& event is TriggerDown
        &&& self.modifier_a_down
        &&& self.modifier_b_down
        &&& !self.trigger_down
    }

    /// The tracker after observing one event; events of other keys are
    /// ignored.
    pub open spec fn spec_observe(self, event: KeyInput) -> HotkeyTracker {
        match event {
            KeyInput::ModifierADown => HotkeyTracker { modifier_a_down: true, ..self },
            KeyInput::ModifierAUp => HotkeyTracker { modifier_a_down: false, ..self },
            KeyInput::ModifierBDown => HotkeyTracker { modifier_b_down: true, ..self },
            KeyInput::ModifierBUp => HotkeyTracker { modifier_b_down: false, ..self },
            KeyInput::TriggerDown => HotkeyTracker { trigger_down: true, ..self },
            KeyInput::TriggerUp => HotkeyTracker { trigger_down: false, ..self },
            KeyInput::Other => self,
        }
    }

    /// Creates a tracker with no key held down.
    pub fn new() -> (tracker: HotkeyTracker)
        ensures
            tracker == HotkeyTracker::spec_new(),
    {
        HotkeyTracker { modifier_a_down: false, modifier_b_down: false, trigger_down: false }
    }

    /// Feeds one key event; returns whether the toggle fires on it.
    pub fn observe(&mut self, event: KeyInput) -> (fired: bool)
        ensures
            *final(self) == old(self).spec_observe(event),
            fired == old(self).spec_fires(event),
    {
        let fired = match event {
            KeyInput::TriggerDown => {
                self.modifier_a_down && self.modifier_b_down && !self.trigger_down
            },
            _ => false,
        };
        match event {
            KeyInput::ModifierADown => self.modifier_a_down = true,
            KeyInput::ModifierAUp => self.modifier_a_down = false,
            KeyInput::ModifierBDown => self.modifier_b_down = true,
            KeyInput::ModifierBUp => self.modifier_b_down = false,
            KeyInput::TriggerDown => self.trigger_down = true,
            KeyInput::TriggerUp => self.trigger_down = false,
            KeyInput::Other => (),
        }
        fired
    }
}

/// The tracker after a whole sequence of events.
pub open spec fn run_events(tracker: HotkeyTracker, events: Seq<KeyInput>) -> HotkeyTracker
    decreases events.len(),
{
    if events.len() == 0 {
        tracker
    } else {
        run_events(tracker.spec_observe(events[0]), events.drop_first())
    }
}

/// How many toggles a whole sequence of events fires.
pub open spec fn fires_in(tracker: HotkeyTracker, events: Seq<KeyInput>) -> nat
    decreases events.len(),
{
    if events.len() == 0 {
        0
    } else {
        (if tracker.spec_fires(events[0]) { 1nat } else { 0nat })
            + fires_in(tracker.spec_observe(events[0]), events.drop_first())
    }
}

/// While the trigger key stays held down, nothing fires: a sequence without
/// a trigger-up event, started with the trigger key down, fires no toggle.
pub proof fn lemma_held_trigger_never_fires(tracker: HotkeyTracker, events: Seq<KeyInput>)
    requires
        tracker.trigger_down,
        forall|i: int| 0 <= i < events.len() ==> events[i] != KeyInput::TriggerUp,
    ensures
        fires_in(tracker, events) == 0,
    decreases events.len(),
{
    if events.len() > 0 {
        assert(events[0] != KeyInput::TriggerUp);
        lemma_held_trigger_never_fires(tracker.spec_observe(events[0]), events.drop_first());
    }
}

/// Edge-triggering: one press of the trigger key fires at most one toggle.
/// Over any sequence of events in which the trigger key never goes up —
/// in particular under keyboard auto-repeat, which repeats down events —
/// at most one toggle fires.
pub proof fn lemma_at_most_one_fire_per_press(tracker: HotkeyTracker, events: Seq<KeyInput>)
    requires
        forall|i: int| 0 <= i < events.len() ==> events[i] != KeyInput::TriggerUp,
    ensures
        fires_in(tracker, events) <= 1,
    decreases events.len(),
{
    if events.len() > 0 {
        if tracker.spec_fires(events[0]) {
            lemma_held_trigger_never_fires(tracker.spec_observe(events[0]), events.drop_first());
        } else {
            lemma_at_most_one_fire_per_press(tracker.spec_observe(events[0]), events.drop_first());
        }
    }
}

} // verus!
