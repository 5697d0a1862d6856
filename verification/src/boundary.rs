//! The panic-safe invocation boundary's decision rules.
//!
//! Every entry point the foreign side can call runs its handler behind a
//! boundary that intercepts abnormal termination.  The interception itself
//! (catching an unwinding handler, reading its payload) happens outside
//! this crate; what is handed in is how the invocation ended, and what
//! stands here is the one decision the boundary makes on it.  The ABI has
//! no out-of-band failure channel: a raw call must return a well-formed
//! cell in every case, so both failure branches route a message through
//! the host's own error signal, which itself produces the sentinel cell
//! the caller propagates.

use vstd::prelude::*;
use vstd::string::StringSliceAdditionalSpecFns;
use vstd::utf8::encode_utf8;
use crate::cell::cell_t;

verus! {

/// How one foreign-reachable invocation of handler code ended: normal
/// completion with a value, a reported failure with its description, or
/// abnormal termination with a best-effort text payload (none when the
/// payload was not recognizable text).
#[derive(Debug, PartialEq, Eq)]
pub enum HandlerOutcome {
    Completed(cell_t),
    Reported(Vec<u8>),
    Aborted(Option<Vec<u8>>),
}

/// What the boundary does next: hand the value back unchanged, or route a
/// message through the host's error signal and propagate the sentinel cell
/// that the signal returns.
#[derive(Debug, PartialEq, Eq)]
pub enum BoundaryAction {
    Return(cell_t),
    ThrowError(Vec<u8>),
}

/// The bytes that introduce every abnormal-termination message.
pub open spec fn panic_prefix() -> Seq<u8> {
    encode_utf8("Unexpected panic: "@)
}

/// The whole message routed when the abnormal payload was not text.
pub open spec fn unknown_panic_message() -> Seq<u8> {
    panic_prefix() + encode_utf8("Unknown message"@)
}

/// What the boundary decides for each way an invocation can end.
pub open spec fn boundary_post(outcome: HandlerOutcome, r: BoundaryAction) -> bool {
    match outcome {
        HandlerOutcome::Completed(c) => r == BoundaryAction::Return(c),
        HandlerOutcome::Reported(m) => r matches BoundaryAction::ThrowError(e) && e@ == m@,
        HandlerOutcome::Aborted(Some(p)) => r matches BoundaryAction::ThrowError(e) && e@
            == panic_prefix() + p@,
        HandlerOutcome::Aborted(None) => r matches BoundaryAction::ThrowError(e) && e@
            == unknown_panic_message(),
    }
}

/// Decides what crosses back to the foreign caller after an invocation.
pub fn boundary_action(outcome: HandlerOutcome) -> (r: BoundaryAction)
    ensures
        boundary_post(outcome, r),
{
    match outcome {
        HandlerOutcome::Completed(c) => BoundaryAction::Return(c),
        HandlerOutcome::Reported(m) => BoundaryAction::ThrowError(m),
        HandlerOutcome::Aborted(payload) => {
            let mut msg: Vec<u8> = vstd::slice::slice_to_vec("Unexpected panic: ".as_bytes());
            match payload {
                Some(p) => {
                    let mut p = p;
                    msg.append(&mut p);
                },
                None => {
                    let mut unknown: Vec<u8> = vstd::slice::slice_to_vec(
                        "Unknown message".as_bytes(),
                    );
                    msg.append(&mut unknown);
                },
            }
            BoundaryAction::ThrowError(msg)
        },
    }
}

/// The boundary never lets an abnormal termination cross the seam: an
/// aborted invocation always becomes a routed message that carries the
/// text payload whole (or the fixed fallback when there was none), a value
/// crosses back exactly on normal completion, and in every case what
/// returns is a well-formed cell — the handler's own, or the error
/// signal's sentinel.
pub proof fn lemma_boundary_never_unwinds(outcome: HandlerOutcome, r: BoundaryAction)
    requires
        boundary_post(outcome, r),
    ensures
        outcome is Aborted ==> r is ThrowError,
        outcome matches HandlerOutcome::Aborted(Some(p)) ==> (r
            matches BoundaryAction::ThrowError(e) && e@.len() == panic_prefix().len() + p@.len()
            && e@.skip(panic_prefix().len() as int) == p@),
        outcome matches HandlerOutcome::Aborted(None) ==> (r matches BoundaryAction::ThrowError(e)
            && e@ == unknown_panic_message()),
        outcome is Completed <==> r is Return,
{
    match outcome {
        HandlerOutcome::Aborted(Some(p)) => {
            if let BoundaryAction::ThrowError(e) = r {
                assert(e@.skip(panic_prefix().len() as int) =~= p@);
            }
        },
        _ => {},
    }
}

} // verus!
