//! The readiness latch that keeps a backend's worker threads from calling back before the
//! stream has been handed to its caller: what a waiting thread does on each look at it.
use vstd::prelude::*;

verus! {

/// What a waiting worker does after looking at the latch.
#[derive(Clone, Copy, Debug, PartialEq, Eq, Structural)]
pub enum WaitStep {
    /// The stream was handed over: go on and run callbacks.
    Ready,
    /// The stream was dropped before it was handed over: stop without calling back.
    Abandoned,
    /// Not yet: park until woken, then look again.
    Park,
}

/// The next step of a worker waiting on the latch, given what it sees: `None` once the
/// latch is gone, else whether it has been released.
pub fn wait_step(seen: Option<bool>) -> (s: WaitStep)
    ensures
        seen is None ==> s == WaitStep::Abandoned,
        seen == Some(true) ==> s == WaitStep::Ready,
        seen == Some(false) ==> s == WaitStep::Park,
{
    match seen {
        None => WaitStep::Abandoned,
        Some(true) => WaitStep::Ready,
        Some(false) => WaitStep::Park,
    }
}

/// Whether the latch has been released, given what a waiter sees: a latch that is gone
/// was not.
pub fn is_released(seen: Option<bool>) -> (b: bool)
    ensures
        b == (seen == Some(true)),
{
    match seen {
        Some(flag) => flag,
        None => false,
    }
}

} // verus!
