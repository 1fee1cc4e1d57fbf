//! The engine's error taxonomy.
//!
//! Domain-level failures are not listed here: the state machine returns
//! them as ordinary result values, and callers distinguish them by
//! inspecting the payload.

use vstd::prelude::*;

verus! {

/// An engine-level failure, as distinct from a domain error carried inside
/// a successful round trip.
#[derive(Debug, Clone, Copy, PartialEq, Eq, Structural)]
pub enum EngineError {
    /// Registration was attempted for an identifier already pending. Given
    /// a unique identifier supply this should be unreachable; it is
    /// defended against and surfaced to the submitting caller.
    DuplicateId,
    /// Resolution was attempted for an identifier with no pending entry:
    /// already resolved, never registered, or abandoned by a caller whose
    /// wait timed out. Always recoverable, never fatal to the serial loop.
    UnknownId,
    /// The waiting caller's deadline elapsed before its result arrived.
    /// The engine core never mints this value itself: the transport that
    /// bounds the wait does, and the command is still applied regardless.
    Timeout,
    /// The serial loop is no longer accepting work: the submission was
    /// rejected before anything was registered or queued.
    EnqueueFailed,
    /// A pending entry was found and removed, but its caller's receiving
    /// half was already gone, so the value could not be handed over.
    DeliveryFailed,
}

} // verus!
