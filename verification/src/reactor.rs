//! Decisions of the reactor thread.
//!
//! The reactor is the single thread that polls the bound socket for
//! readability. On each readiness notification it reads one datagram into a
//! fresh buffer; what it does with the result of that read is decided here.
//! The shutdown token, delivered out of band, is the only path to reactor
//! termination.

use vstd::prelude::*;

use crate::addr::PeerAddr;

verus! {

/// Capacity of the buffer a datagram is read into: the expected maximum
/// datagram size for the protocol. An oversized datagram is cut off by the
/// read, never by the reactor.
pub const MAX_DATAGRAM_SIZE: usize = 1500;

/// One captured datagram: the bytes read and the peer they came from. Each
/// work unit owns its buffer, so no two workers ever share message bytes.
pub struct WorkUnit {
    /// The datagram's bytes, read into a fresh buffer.
    pub buffer: Vec<u8>,
    /// The source address of the datagram.
    pub peer: PeerAddr,
}

/// The result of reading one datagram from the socket.
pub enum ReadOutcome {
    /// A datagram arrived: its bytes and its source address.
    Datagram(Vec<u8>, PeerAddr),
    /// No datagram was available.
    NoDatagram,
    /// The read failed with a socket error.
    SocketError,
}

/// What the reactor does next.
pub enum ReactorAction {
    /// Submit this work unit to the worker pool, fire-and-forget.
    Submit(WorkUnit),
    /// Nothing to do; keep polling.
    Continue,
    /// A socket error: the run is faulty and the reactor stops polling.
    Fault,
    /// The shutdown token arrived: the reactor loop terminates.
    Shutdown,
}

/// What the reactor decides for each way a read can end.
pub open spec fn spec_ready(outcome: ReadOutcome) -> ReactorAction {
    match outcome {
        ReadOutcome::Datagram(buffer, peer) => ReactorAction::Submit(WorkUnit { buffer, peer }),
        ReadOutcome::NoDatagram => ReactorAction::Continue,
        ReadOutcome::SocketError => ReactorAction::Fault,
    }
}

/// Decides what the reactor does with the result of one read, on a readiness
/// notification for the registered socket. A datagram becomes a work unit for
/// the pool, carrying exactly the bytes read and the peer they came from; an
/// empty read is a no-op; a socket error is a fault that stops the reactor,
/// never a reason to crash the process.
pub fn ready(outcome: ReadOutcome) -> (a: ReactorAction)
    ensures
        a == spec_ready(outcome),
{
    match outcome {
        ReadOutcome::Datagram(buffer, peer) => ReactorAction::Submit(WorkUnit { buffer, peer }),
        ReadOutcome::NoDatagram => ReactorAction::Continue,
        ReadOutcome::SocketError => ReactorAction::Fault,
    }
}

/// Decides what the reactor does when the shutdown token arrives: the loop
/// terminates. This is the only event that ends the reactor normally.
pub fn notify() -> (a: ReactorAction)
    ensures
        a is Shutdown,
{
    ReactorAction::Shutdown
}

} // verus!
