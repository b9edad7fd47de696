//! Enable ANSI escape-sequence support in a console.
//!
//! Terminal-formatting crates emit ANSI/VT escape sequences for colour and
//! cursor movement. Most platforms interpret those sequences natively; one
//! platform keeps virtual-terminal processing off by default and turns it on
//! per console device through a mode bitmask. This crate holds the verified
//! half of that job: the bitmask arithmetic ([`mode`]) and the complete
//! query-test-set procedure, proved against a device model ([`device`]).
//! The raw handle calls on the opt-in platform are unsafe platform API and
//! sit in the embedding binary, which drives them with the functions from
//! [`mode`]; on every other platform [`enable_ansi_support`] is the whole
//! story: a no-op that succeeds.

use vstd::prelude::*;

pub mod device;
pub mod mode;

verus! {

/// Enables ANSI escape-sequence support for the current console.
///
/// On a platform whose console interprets escape sequences natively there is
/// nothing to configure: the call makes no system call, has no side effect,
/// and always succeeds. The opt-in platform's procedure — open the console
/// output device, read its mode, set the virtual-terminal bit if it is clear —
/// is the one modelled and verified in [`device`].
pub fn enable_ansi_support() -> (r: Result<(), u32>)
    ensures
        r == Ok::<(), u32>(()),
{
    Ok(())
}

} // verus!
