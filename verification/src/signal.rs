//! The cancellation flag: a shared boolean that a stop signal raises.

use std::sync::atomic::AtomicBool;
use std::sync::atomic::Ordering;
use std::sync::Arc;
use vstd::prelude::*;

verus! {

/// The signals that ask the program to stop.
pub(crate) enum StopSignal {
    /// The interactive interrupt (`SIGINT`).
    Interrupt,
    /// The request to terminate (`SIGTERM`).
    Terminate,
}

/// A flag that has not been raised.
pub(crate) fn lowered_flag() -> Arc<AtomicBool> {
    Arc::new(AtomicBool::new(false))
}

/// Calls `signal_hook::flag::register` with the number that `signal_hook::consts`
/// gives the signal and a new handle to `flag`. Trusted, and nothing is claimed
/// of the result: it tells whether the handler was installed, which the
/// operating system decides. Neither signal is among those that `register`
/// refuses with a panic.
#[verifier::external_body]
pub(crate) fn raise_on(signal: StopSignal, flag: &Arc<AtomicBool>) -> (installed: bool) {
    let number = match signal {
        StopSignal::Interrupt => signal_hook::consts::SIGINT,
        StopSignal::Terminate => signal_hook::consts::SIGTERM,
    };
    signal_hook::flag::register(number, Arc::clone(flag)).is_ok()
}

/// Whether the flag is raised at this moment.
pub(crate) fn is_raised(flag: &Arc<AtomicBool>) -> bool {
    flag.load(Ordering::Relaxed)
}

} // verus!
