//! The click rate and the timing arithmetic of the click loop.
//!
//! Rates are carried in thousandths of a hertz so that the whole library
//! works on plain integers; the embedding program converts to and from
//! whatever unit its controls use.

use vstd::prelude::*;

verus! {

/// Smallest storable rate: 1 Hz, in millihertz.
pub const RATE_MIN_MILLIHZ: u64 = 1_000;

/// Largest storable rate: 150 Hz, in millihertz.
pub const RATE_MAX_MILLIHZ: u64 = 150_000;

/// Rate a fresh control state starts with: 1 Hz, in millihertz.
pub const RATE_DEFAULT_MILLIHZ: u64 = 1_000;

/// Fixed allowance, in microseconds, for the time one press/release pair
/// takes; it is subtracted from each sleep so the loop holds its period.
pub const CLICK_OVERHEAD_MICROS: u64 = 10;

/// A stored rate always lies in `[RATE_MIN_MILLIHZ, RATE_MAX_MILLIHZ]`.
pub open spec fn rate_in_range(rate_millihz: u64) -> bool {
    RATE_MIN_MILLIHZ <= rate_millihz <= RATE_MAX_MILLIHZ
}

/// What storing a requested rate yields: the nearest value in range.
pub open spec fn clamped_rate(raw_millihz: u64) -> u64 {
    if raw_millihz < RATE_MIN_MILLIHZ {
        RATE_MIN_MILLIHZ
    } else if raw_millihz > RATE_MAX_MILLIHZ {
        RATE_MAX_MILLIHZ
    } else {
        raw_millihz
    }
}

/// Nominal time between two press/release pairs: one second divided by the
/// rate, rounded to the nearest microsecond. Over millihertz that is
/// `1_000_000_000 / rate_millihz`, rounded half up.
pub open spec fn period_micros(rate_millihz: u64) -> int {
    (2_000_000_000 + rate_millihz) / (2 * rate_millihz)
}

/// How long the engine sleeps after each press/release pair: the nominal
/// period minus the fixed overhead, clamped at zero so the subtraction
/// cannot underflow when the overhead exceeds the requested interval.
pub open spec fn sleep_amount_micros(rate_millihz: u64) -> int {
    if period_micros(rate_millihz) > CLICK_OVERHEAD_MICROS {
        period_micros(rate_millihz) - CLICK_OVERHEAD_MICROS
    } else {
        0
    }
}

/// Clamps a requested rate into the storable range.
pub fn clamp_rate_millihz(raw_millihz: u64) -> (stored: u64)
    ensures
        stored == clamped_rate(raw_millihz),
        rate_in_range(stored),
{
    if raw_millihz < RATE_MIN_MILLIHZ {
        RATE_MIN_MILLIHZ
    } else if raw_millihz > RATE_MAX_MILLIHZ {
        RATE_MAX_MILLIHZ
    } else {
        raw_millihz
    }
}

/// Nominal period of the click loop for a stored rate, in microseconds.
pub fn click_period_micros(rate_millihz: u64) -> (period: u64)
    requires
        rate_in_range(rate_millihz),
    ensures
        period == period_micros(rate_millihz),
{
    (2_000_000_000 + rate_millihz) / (2 * rate_millihz)
}

/// Sleep the engine performs after each press/release pair, in microseconds.
pub fn click_sleep_micros(rate_millihz: u64) -> (sleep: u64)
    requires
        rate_in_range(rate_millihz),
    ensures
        sleep == sleep_amount_micros(rate_millihz),
{
    let period = click_period_micros(rate_millihz);
    if period > CLICK_OVERHEAD_MICROS {
        period - CLICK_OVERHEAD_MICROS
    } else {
        0
    }
}

/// Every stored rate is in range: clamping lands in
/// `[RATE_MIN_MILLIHZ, RATE_MAX_MILLIHZ]` whatever value was requested,
/// so the delay computation never sees a rate outside it.
pub proof fn lemma_clamped_rate_in_range(raw_millihz: u64)
    ensures
        rate_in_range(clamped_rate(raw_millihz)),
{
}

} // verus!
