//! The decode-and-handle task that one worker runs for one work unit.
//!
//! A worker decodes the captured bytes with the message codec. Decoding is
//! the codec's business, so the task decision here takes its result: a
//! decoded request, or nothing for a malformed datagram. A malformed datagram
//! is dropped silently — no response, no fault — and never reaches the
//! handler; a decoded request is delivered to the handler together with a
//! responder bound to the datagram's source address.

use vstd::prelude::*;

use crate::addr::PeerAddr;

verus! {

/// A handler for decoded requests: a copyable, stateless capability.
/// `handle` is invoked once per successfully decoded datagram, from whichever
/// worker thread runs the task, so an implementation must be safe to invoke
/// concurrently from any number of threads; a handler with state owns its
/// synchronization internally.
pub trait CoAPHandler<M, R>: Sync + Send + Copy {
    /// Handles one decoded request; `response` can send bytes back to the
    /// peer the request came from.
    fn handle(&self, request: M, response: R);
}

/// What one worker task does after decoding.
pub enum TaskAction<M> {
    /// Deliver this request to the handler, with a responder bound to the
    /// given peer.
    Invoke(M, PeerAddr),
    /// The datagram was malformed: the task ends silently.
    Discard,
}

/// What the task decides for each decode result.
pub open spec fn spec_execute<M>(decoded: Option<M>, peer: PeerAddr) -> TaskAction<M> {
    match decoded {
        Some(request) => TaskAction::Invoke(request, peer),
        None => TaskAction::Discard,
    }
}

/// Whether the handler is invoked for one decode result: exactly when the
/// datagram decoded.
pub open spec fn spec_invoked<M>(decoded: Option<M>) -> bool {
    decoded is Some
}

/// How many handler invocations a run of decode results produces: one per
/// decoded datagram, none for a malformed one.
pub open spec fn invocations<M>(decodes: Seq<Option<M>>) -> nat
    decreases decodes.len(),
{
    if decodes.len() == 0 {
        0
    } else {
        invocations(decodes.drop_last()) + if spec_invoked(decodes.last()) {
            1nat
        } else {
            0nat
        }
    }
}

/// Law: a decode failure is isolated. A malformed datagram never reaches the
/// handler and a decoded one always does, wherever they stand in a run: a
/// malformed datagram followed by a well-formed one adds exactly one handler
/// invocation to the run, the one for the well-formed datagram.
pub proof fn lemma_decode_failure_isolation<M>(
    run: Seq<Option<M>>,
    bad: Option<M>,
    good: Option<M>,
    bad_peer: PeerAddr,
    good_peer: PeerAddr,
)
    requires
        bad is None,
        good is Some,
    ensures
        spec_execute(bad, bad_peer) is Discard,
        spec_execute(good, good_peer) is Invoke,
        invocations(run.push(bad).push(good)) == invocations(run) + 1,
{
    let with_bad = run.push(bad);
    let with_both = with_bad.push(good);
    assert(with_both.drop_last() =~= with_bad);
    assert(with_bad.drop_last() =~= run);
    assert(with_both.last() == good);
    assert(with_bad.last() == bad);
    assert(invocations(with_both) == invocations(with_bad) + 1);
    assert(invocations(with_bad) == invocations(run));
}

/// Decides one worker task from the codec's result for the captured bytes. A
/// decoded request is delivered to the handler with the peer the datagram
/// came from; a malformed datagram ends the task silently, with no response
/// and no fault surfaced to the reactor or the controller.
pub fn execute<M>(decoded: Option<M>, peer: PeerAddr) -> (a: TaskAction<M>)
    ensures
        a == spec_execute(decoded, peer),
        a is Invoke <==> spec_invoked(decoded),
{
    match decoded {
        Some(request) => TaskAction::Invoke(request, peer),
        None => TaskAction::Discard,
    }
}

/// Delivers one decoded request to the handler: the invocation step of a
/// worker task, run once the task decided [`TaskAction::Invoke`] and a
/// responder for the peer was built.
pub fn deliver<M, R, H: CoAPHandler<M, R>>(handler: &H, request: M, response: R) {
    handler.handle(request, response);
}

} // verus!
