//! The click engine's loop logic: what one iteration decides, and what a
//! whole run emits as a function of the stop signal it samples.
//!
//! The engine itself runs as one execution unit of the embedding program:
//! a loop that calls [`engine_step`] with the stop signal and the current
//! stored rate (re-sampled every iteration, so a rate change takes effect on
//! the next iteration boundary), performs the press/release pair and the
//! sleep a [`EngineStep::Click`] asks for, and leaves on [`EngineStep::Exit`].

use vstd::prelude::*;

use crate::rate::click_sleep_micros;
use crate::rate::rate_in_range;
use crate::rate::sleep_amount_micros;

verus! {

/// One decision of the click loop: perform a press/release pair and then
/// sleep for the given time, or leave the loop.
#[derive(Clone, Copy, PartialEq, Eq, Structural, Debug)]
pub enum EngineStep {
    Click { sleep_micros: u64 },
    Exit,
}

/// Decides one iteration of the click loop.
///
/// The loop exits as soon as it samples the stop signal raised; otherwise it
/// clicks once and sleeps for the nominal period minus the fixed overhead.
pub fn engine_step(stop_requested: bool, rate_millihz: u64) -> (step: EngineStep)
    requires
        rate_in_range(rate_millihz),
    ensures
        stop_requested ==> step == EngineStep::Exit,
        !stop_requested ==> (step matches EngineStep::Click { sleep_micros }
            && sleep_micros == sleep_amount_micros(rate_millihz)),
{
    if stop_requested {
        EngineStep::Exit
    } else {
        EngineStep::Click { sleep_micros: click_sleep_micros(rate_millihz) }
    }
}

/// How many press/release pairs a run of the loop emits, as a function of
/// the stop-signal values it samples at the top of its iterations: one pair
/// per sample until the first raised one, none from there on.
pub open spec fn clicks_emitted(samples: Seq<bool>) -> nat
    decreases samples.len(),
{
    if samples.len() == 0 {
        0
    } else if samples[0] {
        0
    } else {
        1 + clicks_emitted(samples.drop_first())
    }
}

/// Stop latency: once the stop signal is raised and stays raised, the loop
/// emits no further pair. If the signal is seen raised from the sample at
/// index `i` on, the run emits at most `i` pairs in all — so beyond the one
/// pair possibly in flight when the signal went up, nothing more is emitted.
pub proof fn lemma_stop_bounds_clicks(samples: Seq<bool>, i: int)
    requires
        0 <= i < samples.len(),
        forall|j: int| i <= j < samples.len() ==> samples[j],
    ensures
        clicks_emitted(samples) <= i,
    decreases samples.len(),
{
    if !samples[0] {
        assert(i >= 1);
        let rest = samples.drop_first();
        assert(forall|j: int| i - 1 <= j < rest.len() ==> rest[j] == samples[j + 1]);
        lemma_stop_bounds_clicks(rest, i - 1);
    }
}

} // verus!
