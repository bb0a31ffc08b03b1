use clicky::control::ControlState;
use clicky::dispatcher::Dispatcher;
use clicky::dispatcher::EngineCommand;
use clicky::engine::engine_step;
use clicky::engine::EngineStep;
use clicky::hotkey::HotkeyTracker;
use clicky::hotkey::KeyInput;
use clicky::rate::clamp_rate_millihz;
use clicky::rate::click_period_micros;
use clicky::rate::click_sleep_micros;
use clicky::rate::CLICK_OVERHEAD_MICROS;
use clicky::rate::RATE_DEFAULT_MILLIHZ;
use clicky::rate::RATE_MAX_MILLIHZ;
use clicky::rate::RATE_MIN_MILLIHZ;

/// Obeys one dispatcher command the way the embedding program does, keeping
/// a count of live engine execution units.
fn obey(live: &mut u32, command: EngineCommand) {
    match command {
        EngineCommand::Start { .. } => *live += 1,
        EngineCommand::Stop => *live = live.saturating_sub(1),
        EngineCommand::Idle => {}
    }
}

#[test]
fn fresh_state_is_inactive_at_default_rate() {
    let state = ControlState::new();
    assert_eq!(state.read(), (false, RATE_DEFAULT_MILLIHZ));
    let dispatcher = Dispatcher::new();
    assert_eq!(dispatcher.read(), (false, RATE_DEFAULT_MILLIHZ));
}

#[test]
fn rate_is_clamped_into_range() {
    assert_eq!(clamp_rate_millihz(0), RATE_MIN_MILLIHZ);
    assert_eq!(clamp_rate_millihz(999), RATE_MIN_MILLIHZ);
    assert_eq!(clamp_rate_millihz(RATE_MIN_MILLIHZ), RATE_MIN_MILLIHZ);
    assert_eq!(clamp_rate_millihz(10_000), 10_000);
    assert_eq!(clamp_rate_millihz(RATE_MAX_MILLIHZ), RATE_MAX_MILLIHZ);
    assert_eq!(clamp_rate_millihz(150_001), RATE_MAX_MILLIHZ);
    assert_eq!(clamp_rate_millihz(u64::MAX), RATE_MAX_MILLIHZ);
}

#[test]
fn set_rate_read_round_trip() {
    let mut state = ControlState::new();
    state.set_rate(42_500);
    assert_eq!(state.read(), (false, 42_500));
    state.set_rate(0);
    assert_eq!(state.read().1, RATE_MIN_MILLIHZ);
    state.set_rate(u64::MAX);
    assert_eq!(state.read().1, RATE_MAX_MILLIHZ);

    let mut dispatcher = Dispatcher::new();
    dispatcher.set_rate(90_000);
    assert_eq!(dispatcher.read(), (false, 90_000));
    dispatcher.set_rate(500);
    assert_eq!(dispatcher.read(), (false, RATE_MIN_MILLIHZ));
}

#[test]
fn period_formula_exact_values() {
    // 1 Hz: one second per pair.
    assert_eq!(click_period_micros(1_000), 1_000_000);
    // 10 Hz: a tenth of a second per pair.
    assert_eq!(click_period_micros(10_000), 100_000);
    // 150 Hz: 1_000_000 / 150 = 6666.67 rounds to 6667.
    assert_eq!(click_period_micros(150_000), 6_667);
    // 3 Hz: 1_000_000 / 3 = 333_333.33 rounds down.
    assert_eq!(click_period_micros(3_000), 333_333);
}

#[test]
fn sleep_is_period_minus_overhead() {
    assert_eq!(
        click_sleep_micros(10_000),
        click_period_micros(10_000) - CLICK_OVERHEAD_MICROS
    );
    assert_eq!(click_sleep_micros(1_000), 999_990);
    assert_eq!(click_sleep_micros(150_000), 6_657);
}

#[test]
fn ten_pairs_per_second_at_ten_hertz() {
    // At 10 Hz the nominal schedule spaces pairs 100_000 microseconds
    // apart, so one second holds exactly ten of them.
    let period = click_period_micros(10_000);
    assert_eq!(1_000_000 / period, 10);
}

#[test]
fn engine_step_exits_on_stop_and_clicks_otherwise() {
    assert_eq!(engine_step(true, 10_000), EngineStep::Exit);
    assert_eq!(
        engine_step(false, 10_000),
        EngineStep::Click {
            sleep_micros: 99_990
        }
    );
    // The stop signal wins whatever the rate.
    assert_eq!(engine_step(true, RATE_MIN_MILLIHZ), EngineStep::Exit);
    assert_eq!(engine_step(true, RATE_MAX_MILLIHZ), EngineStep::Exit);
}

#[test]
fn engine_loop_stops_after_signal() {
    // Run the loop the way the embedding program does, against a stop
    // signal that goes up before the third iteration: two pairs come out,
    // none after the signal is seen.
    let samples = [false, false, true, true, true];
    let mut pairs: u32 = 0;
    for &stop in samples.iter() {
        match engine_step(stop, 10_000) {
            EngineStep::Click { .. } => pairs += 1,
            EngineStep::Exit => break,
        }
    }
    assert_eq!(pairs, 2);
}

#[test]
fn engine_loop_with_signal_up_front_emits_nothing() {
    let mut pairs: u32 = 0;
    match engine_step(true, 1_000) {
        EngineStep::Click { .. } => pairs += 1,
        EngineStep::Exit => {}
    }
    assert_eq!(pairs, 0);
}

#[test]
fn hotkey_combination_fires_exactly_once() {
    let mut tracker = HotkeyTracker::new();
    assert!(!tracker.observe(KeyInput::ModifierADown));
    assert!(!tracker.observe(KeyInput::ModifierBDown));
    // The full combination fires...
    assert!(tracker.observe(KeyInput::TriggerDown));
    // ...and holding the trigger down (auto-repeat) must not re-fire.
    assert!(!tracker.observe(KeyInput::TriggerDown));
    assert!(!tracker.observe(KeyInput::TriggerDown));
    // Releasing and pressing again fires again.
    assert!(!tracker.observe(KeyInput::TriggerUp));
    assert!(tracker.observe(KeyInput::TriggerDown));
}

#[test]
fn hotkey_needs_both_modifiers() {
    let mut tracker = HotkeyTracker::new();
    assert!(!tracker.observe(KeyInput::TriggerDown));
    assert!(!tracker.observe(KeyInput::TriggerUp));
    assert!(!tracker.observe(KeyInput::ModifierADown));
    assert!(!tracker.observe(KeyInput::TriggerDown));
    assert!(!tracker.observe(KeyInput::TriggerUp));
    assert!(!tracker.observe(KeyInput::ModifierBDown));
    assert!(tracker.observe(KeyInput::TriggerDown));
}

#[test]
fn hotkey_released_modifier_disarms() {
    let mut tracker = HotkeyTracker::new();
    assert!(!tracker.observe(KeyInput::ModifierADown));
    assert!(!tracker.observe(KeyInput::ModifierBDown));
    assert!(!tracker.observe(KeyInput::ModifierAUp));
    assert!(!tracker.observe(KeyInput::TriggerDown));
}

#[test]
fn hotkey_ignores_other_keys() {
    let mut tracker = HotkeyTracker::new();
    assert!(!tracker.observe(KeyInput::ModifierADown));
    assert!(!tracker.observe(KeyInput::ModifierBDown));
    assert!(!tracker.observe(KeyInput::Other));
    assert!(tracker.observe(KeyInput::TriggerDown));
}

#[test]
fn set_is_idempotent() {
    let mut dispatcher = Dispatcher::new();
    let mut live: u32 = 0;

    // Two set(true) in a row start exactly one engine.
    obey(&mut live, dispatcher.set(true));
    assert_eq!(live, 1);
    obey(&mut live, dispatcher.set(true));
    assert_eq!(live, 1);

    // Two set(false) in a row leave the system stopped without error.
    obey(&mut live, dispatcher.set(false));
    assert_eq!(live, 0);
    obey(&mut live, dispatcher.set(false));
    assert_eq!(live, 0);
}

#[test]
fn start_carries_the_stored_rate() {
    let mut dispatcher = Dispatcher::new();
    dispatcher.set_rate(25_000);
    assert_eq!(
        dispatcher.set(true),
        EngineCommand::Start {
            rate_millihz: 25_000
        }
    );
    assert_eq!(dispatcher.set(false), EngineCommand::Stop);
}

#[test]
fn toggle_alternates_start_and_stop() {
    let mut dispatcher = Dispatcher::new();
    assert_eq!(
        dispatcher.toggle(),
        EngineCommand::Start {
            rate_millihz: RATE_DEFAULT_MILLIHZ
        }
    );
    assert_eq!(dispatcher.toggle(), EngineCommand::Stop);
    assert_eq!(
        dispatcher.toggle(),
        EngineCommand::Start {
            rate_millihz: RATE_DEFAULT_MILLIHZ
        }
    );
}

#[test]
fn toggle_sequences_never_hold_two_engines() {
    // Drive the dispatcher through every three-call mix of toggles and
    // sets, obeying each command; the live-engine count must match the
    // active flag and never pass one.
    let calls: [fn(&mut Dispatcher) -> EngineCommand; 4] = [
        |d| d.toggle(),
        |d| d.set(true),
        |d| d.set(false),
        |d| {
            d.set_rate(77_000);
            EngineCommand::Idle
        },
    ];
    for a in 0..calls.len() {
        for b in 0..calls.len() {
            for c in 0..calls.len() {
                let mut dispatcher = Dispatcher::new();
                let mut live: u32 = 0;
                for call in [calls[a], calls[b], calls[c]] {
                    obey(&mut live, call(&mut dispatcher));
                    assert!(live <= 1);
                    let (active, _) = dispatcher.read();
                    assert_eq!(live == 1, active);
                }
            }
        }
    }
}
