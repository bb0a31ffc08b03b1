//! Verified core of a rate-controlled auto-clicker.
//!
//! The library holds the logic that has real invariants: the shared control
//! state (active flag and click rate), the timing arithmetic of the click
//! loop, the hotkey state machine that edge-triggers a toggle, and the
//! dispatcher that starts and stops the engine without ever letting two
//! engines run at once. The embedding program supplies what the library
//! cannot: threads, sleeps, the simulated button presses and the global key
//! event feed. It keeps the dispatcher behind a single lock, holds the lock
//! across each call, and obeys the command the call returns.

pub mod control;
pub mod dispatcher;
pub mod engine;
pub mod hotkey;
pub mod rate;
