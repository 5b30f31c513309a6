//! Presentation of a poll's outcome to an untrusted remote caller.

use vstd::prelude::*;
use crate::poller::PollError;
use crate::snapshot::Snapshot;

verus! {

/// The one opaque failure signal shown to external callers. It carries
/// nothing: internal register addresses stay internal.
#[derive(Clone, Copy, Debug, PartialEq, Eq, Structural)]
pub struct ServiceUnavailable;

/// Prepares one poll outcome for an external data request: a full snapshot
/// passes through unchanged, and every failure — whatever its kind or
/// register — collapses into the same opaque unavailable signal.
pub fn data(outcome: Result<Snapshot, PollError>) -> (r: Result<Snapshot, ServiceUnavailable>)
    ensures
        (outcome matches Ok(s) ==> r == Result::<Snapshot, ServiceUnavailable>::Ok(s)),
        (outcome is Err ==> r == Result::<Snapshot, ServiceUnavailable>::Err(ServiceUnavailable)),
{
    match outcome {
        Ok(s) => Ok(s),
        Err(_) => Err(ServiceUnavailable),
    }
}

} // verus!
