//! A model of the opt-in platform's console output device, and the verified
//! enable procedure against it.
//!
//! On the one platform where virtual-terminal processing is opt-in, enabling
//! it takes three device operations: open the console output device, query
//! its mode bitmask, and — only if the bit is clear — apply the mask with the
//! bit ORed in. Each operation can fail, and a failing operation leaves a
//! non-zero last-error code. [`SimConsole`] models such a device, with
//! failure injection per operation and a spy counter of mode-set calls;
//! [`SimConsole::enable`] is the procedure itself, its contract pinned to the
//! step function [`sim_step`] and outcome function [`sim_outcome`].

use vstd::prelude::*;

use crate::mode::{vt_enabled, with_vt, vt_bit_is_set, set_vt_bit};
use crate::mode::lemma_with_vt_adds_exactly_the_bit;
use crate::mode::ENABLE_VIRTUAL_TERMINAL_PROCESSING;

verus! {

/// A simulated console output device.
///
/// `mode` is the device's mode bitmask. The three `*_fails` flags inject a
/// failure into the corresponding device operation, and the paired `*_error`
/// field is the last-error code the platform would record for it (non-zero on
/// a well-formed device, as the platform's error facility guarantees).
/// `set_calls` counts the mode-set calls issued to the device, so a test can
/// observe that no write happened.
#[derive(Clone, Copy, Debug, PartialEq, Eq, Structural)]
pub struct SimConsole {
    /// Opening the console output device fails (an invalid handle comes back).
    pub open_fails: bool,
    /// Last-error code recorded when the open fails.
    pub open_error: u32,
    /// Querying the mode bitmask fails.
    pub get_fails: bool,
    /// Last-error code recorded when the query fails.
    pub get_error: u32,
    /// Applying a new mode bitmask fails.
    pub set_fails: bool,
    /// Last-error code recorded when the apply fails.
    pub set_error: u32,
    /// The device's current mode bitmask.
    pub mode: u32,
    /// How many mode-set calls the device has received.
    pub set_calls: u64,
}

/// A failing platform call records a non-zero last-error code.
pub open spec fn wf_device(d: SimConsole) -> bool {
    &&& (d.open_fails ==> d.open_error != 0)
    &&& (d.get_fails ==> d.get_error != 0)
    &&& (d.set_fails ==> d.set_error != 0)
}

/// Whether the enable procedure reaches the point of issuing a mode-set call:
/// the open and the query succeed and the bit is not already set.
pub open spec fn set_attempted(d: SimConsole) -> bool {
    &&& !d.open_fails
    &&& !d.get_fails
    &&& !vt_enabled(d.mode)
}

/// What the enable procedure returns on device `d`: success, or the
/// last-error code of the first operation that failed.
pub open spec fn sim_outcome(d: SimConsole) -> Result<(), u32> {
    if d.open_fails {
        Err(d.open_error)
    } else if d.get_fails {
        Err(d.get_error)
    } else if vt_enabled(d.mode) {
        Ok(())
    } else if d.set_fails {
        Err(d.set_error)
    } else {
        Ok(())
    }
}

/// The device's mode bitmask after the enable procedure: changed only when a
/// mode-set call is issued and succeeds, and then only by ORing in the bit.
pub open spec fn next_mode(d: SimConsole) -> u32 {
    if set_attempted(d) && !d.set_fails {
        with_vt(d.mode)
    } else {
        d.mode
    }
}

/// One more recorded call, saturating at the counter's ceiling.
pub open spec fn count_inc(c: u64) -> u64 {
    if c == u64::MAX {
        c
    } else {
        (c + 1) as u64
    }
}

/// The whole device after the enable procedure: the new mode, one more
/// mode-set call if one was issued, everything else untouched.
pub open spec fn sim_step(d: SimConsole) -> SimConsole {
    SimConsole {
        mode: next_mode(d),
        set_calls: if set_attempted(d) { count_inc(d.set_calls) } else { d.set_calls },
        ..d
    }
}

impl SimConsole {
    /// A healthy device with the given mode bitmask: every operation
    /// succeeds and no mode-set call has been recorded yet.
    pub fn new(mode: u32) -> (d: SimConsole)
        ensures
            d == (SimConsole {
                open_fails: false,
                open_error: 0,
                get_fails: false,
                get_error: 0,
                set_fails: false,
                set_error: 0,
                mode: mode,
                set_calls: 0,
            }),
            wf_device(d),
    {
        SimConsole {
            open_fails: false,
            open_error: 0,
            get_fails: false,
            get_error: 0,
            set_fails: false,
            set_error: 0,
            mode: mode,
            set_calls: 0,
        }
    }

    /// Runs the enable procedure against this device: open, query the mode,
    /// and set the virtual-terminal bit only if it is clear. Stops at the
    /// first failing operation and returns its last-error code; otherwise
    /// succeeds, leaving the bit set and every other bit as it was.
    pub fn enable(&mut self) -> (r: Result<(), u32>)
        requires
            wf_device(*old(self)),
        ensures
            *final(self) == sim_step(*old(self)),
            r == sim_outcome(*old(self)),
            (r matches Err(code) ==> code != 0),
    {
        if self.open_fails {
            return Err(self.open_error);
        }
        if self.get_fails {
            return Err(self.get_error);
        }
        let mode: u32 = self.mode;
        if !vt_bit_is_set(mode) {
            self.set_calls = if self.set_calls == u64::MAX {
                u64::MAX
            } else {
                self.set_calls + 1
            };
            if self.set_fails {
                return Err(self.set_error);
            }
            self.mode = set_vt_bit(mode);
        }
        Ok(())
    }
}

/// Law: when the device cannot be opened, the procedure fails with the
/// device's non-zero last-error code and leaves the device untouched.
pub proof fn lemma_open_failure_reports_last_error(d: SimConsole)
    requires
        wf_device(d),
        d.open_fails,
    ensures
        sim_outcome(d) == Err::<(), u32>(d.open_error),
        d.open_error != 0,
        sim_step(d) == d,
{
}

/// Law: when the bit is already set (and the open and the query succeed),
/// the procedure succeeds without issuing a mode-set call: the device comes
/// out exactly as it went in.
pub proof fn lemma_already_enabled_is_noop(d: SimConsole)
    requires
        !d.open_fails,
        !d.get_fails,
        vt_enabled(d.mode),
    ensures
        sim_outcome(d) == Ok::<(), u32>(()),
        sim_step(d) == d,
{
}

/// Law: when the bit is clear and every operation succeeds, the procedure
/// succeeds and the new bitmask is the old one with exactly the
/// virtual-terminal bit added: that bit is now set, all other bits are
/// bitwise unchanged.
pub proof fn lemma_enable_adds_exactly_the_bit(d: SimConsole)
    requires
        !d.open_fails,
        !d.get_fails,
        !vt_enabled(d.mode),
        !d.set_fails,
    ensures
        sim_outcome(d) == Ok::<(), u32>(()),
        sim_step(d).mode == with_vt(d.mode),
        vt_enabled(sim_step(d).mode),
        sim_step(d).mode & !ENABLE_VIRTUAL_TERMINAL_PROCESSING
            == d.mode & !ENABLE_VIRTUAL_TERMINAL_PROCESSING,
{
    lemma_with_vt_adds_exactly_the_bit(d.mode);
}

/// Law: the procedure is idempotent on the bitmask. Running it twice leaves
/// the same mode as running it once, on every device.
pub proof fn lemma_enable_idempotent_on_mode(d: SimConsole)
    ensures
        sim_step(sim_step(d)).mode == sim_step(d).mode,
{
    lemma_with_vt_adds_exactly_the_bit(d.mode);
}

} // verus!
