//! Decisions of the unit's main loop that rest on flags and counters: the
//! WiFi link check, and switching the output and re-applying its voltage.

use vstd::prelude::*;
use crate::displayctl::LoggingStatus;

verus! {

/// The link is up exactly when an RSSI is reported (not 0); while it is
/// down, a reconnection is attempted every hundredth pass of the loop.
pub open spec fn link_check_spec(rssi: i32, pass: u32) -> (bool, bool) {
    if rssi == 0 {
        (false, pass % 100 == 0)
    } else {
        (true, false)
    }
}

/// Checks the WiFi link on pass `pass` of the loop: (link up, reconnect now).
pub fn link_check(rssi: i32, pass: u32) -> (r: (bool, bool))
    ensures
        r == link_check_spec(rssi, pass),
{
    if rssi == 0 {
        (false, pass % 100 == 0)
    } else {
        (true, false)
    }
}

/// What the main loop does about the output on one pass.
#[derive(Clone, Copy, Debug, PartialEq, Eq, Structural)]
pub struct OutputDecision {
    /// Negotiate the set-point with the source now.
    pub apply_voltage: bool,
    /// Switch the output on once the set-point is applied.
    pub switch_on: bool,
    /// Switch the output off now.
    pub switch_off: bool,
    /// What the screen shows.
    pub status: LoggingStatus,
}

/// The decision for one pass, given whether the output is wanted on, whether
/// it was on at the last pass that settled, whether the set-point moved by
/// 50 mV or more since it was last applied, and whether that set-point has
/// stood for 3 s: an output wanted on is (re)negotiated when it was off, or
/// when its set-point moved and has settled, and is switched on when it was
/// off; an output wanted off is switched off when it was on.
pub open spec fn output_decision_spec(load_on: bool, was_on: bool, moved: bool, settled: bool) -> OutputDecision {
    if load_on {
        let apply = (moved && settled) || !was_on;
        OutputDecision { apply_voltage: apply, switch_on: apply && !was_on, switch_off: false, status: LoggingStatus::Start }
    } else {
        OutputDecision { apply_voltage: false, switch_on: false, switch_off: was_on, status: LoggingStatus::Stop }
    }
}

/// Decides what to do about the output on one pass of the loop.
pub fn output_decision(load_on: bool, was_on: bool, moved: bool, settled: bool) -> (r: OutputDecision)
    ensures
        r == output_decision_spec(load_on, was_on, moved, settled),
{
    if load_on {
        let apply = (moved && settled) || !was_on;
        OutputDecision { apply_voltage: apply, switch_on: apply && !was_on, switch_off: false, status: LoggingStatus::Start }
    } else {
        OutputDecision { apply_voltage: false, switch_on: false, switch_off: was_on, status: LoggingStatus::Stop }
    }
}

/// With the output wanted on: an output that was off is negotiated and
/// switched on; an output already on is renegotiated exactly when its
/// set-point moved and has settled, and is not switched again. With the
/// output wanted off nothing is negotiated, and it is switched off exactly
/// when it was on.
pub proof fn lemma_output_decision_cases(load_on: bool, was_on: bool, moved: bool, settled: bool)
    ensures
        ({
            let d = output_decision_spec(load_on, was_on, moved, settled);
            &&& load_on && !was_on ==> d.apply_voltage && d.switch_on && !d.switch_off
            &&& load_on && was_on ==> d.apply_voltage == (moved && settled) && !d.switch_on && !d.switch_off
            &&& !load_on ==> !d.apply_voltage && !d.switch_on && d.switch_off == was_on
            &&& d.status == if load_on { LoggingStatus::Start } else { LoggingStatus::Stop }
        }),
{
}

/// An output switched on is always negotiated first, and the output is never
/// switched both on and off in one pass.
pub proof fn lemma_switch_on_applies(load_on: bool, was_on: bool, moved: bool, settled: bool)
    ensures
        ({
            let d = output_decision_spec(load_on, was_on, moved, settled);
            &&& d.switch_on ==> d.apply_voltage && !was_on
            &&& !(d.switch_on && d.switch_off)
            &&& d.switch_off ==> !load_on && was_on
        }),
{
}

} // verus!
