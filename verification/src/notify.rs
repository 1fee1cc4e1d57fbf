//! The result notifier: maps an in-flight request identifier to a
//! single-use response slot and resolves each slot exactly once.
//!
//! The table holds one sending half per pending request; the matching
//! receiving half is what the submitting caller waits on. An entry exists
//! if and only if a submission is awaiting its result, and it is removed
//! atomically with resolution, so a second resolution of the same
//! identifier always fails with `UnknownId` and touches nothing else.

use std::collections::HashMap;
use tokio::sync::oneshot;
use vstd::prelude::*;

use crate::errors::EngineError;

verus! {

broadcast use vstd::std_specs::hash::group_hash_axioms;

/// The sending half of a single-use response slot, held in the table
/// until the slot is resolved.
#[verifier::external_type_specification]
#[verifier::external_body]
#[verifier::reject_recursive_types(T)]
pub struct ExOneshotSender<T>(oneshot::Sender<T>);

/// The receiving half of a single-use response slot, handed to the
/// submitting caller to wait on exactly once.
#[verifier::external_type_specification]
#[verifier::external_body]
#[verifier::reject_recursive_types(T)]
pub struct ExOneshotReceiver<T>(oneshot::Receiver<T>);

/// The error a waiting caller sees when the sending half is dropped
/// unused. Declared because the receiving half's `Future` impl names it.
#[verifier::external_type_specification]
#[verifier::external_body]
pub struct ExRecvError(oneshot::error::RecvError);

/// Relies on tokio::sync::oneshot::channel to create a connected
/// sender/receiver pair; nothing is assumed about the pair itself.
pub assume_specification<T>[ oneshot::channel::<T> ]() -> (r: (
    oneshot::Sender<T>,
    oneshot::Receiver<T>,
));

/// Relies on tokio::sync::oneshot::Sender::send: it hands the value to the
/// receiving half and consumes the sender; if the receiving half was
/// already dropped, the value comes back unchanged in the error.
pub assume_specification<T>[ oneshot::Sender::<T>::send ](s: oneshot::Sender<T>, t: T) -> (r:
    Result<(), T>)
    ensures
        r matches Err(v) ==> v == t,
;

/// The notifier: one pending entry per in-flight request, resolved at
/// most once.
pub struct Notifier {
    /// The identifier-to-slot table. An entry exists exactly while a
    /// submission is awaiting its result.
    pub requests: HashMap<u64, oneshot::Sender<String>>,
}

impl Notifier {
    /// The set of identifiers with a pending entry.
    pub open spec fn pending(self) -> Set<u64> {
        self.requests@.dom()
    }

    /// Builds a notifier with no pending entries.
    pub fn new() -> (n: Notifier)
        ensures
            n.requests@ == Map::<u64, oneshot::Sender<String>>::empty(),
    {
        Notifier { requests: HashMap::new() }
    }

    /// Creates the pending entry for `id` and returns the receiving half
    /// the caller waits on. Fails with `DuplicateId`, changing nothing, if
    /// an entry for `id` already exists.
    pub fn register(&mut self, id: u64) -> (r: Result<oneshot::Receiver<String>, EngineError>)
        ensures
            old(self).requests@.contains_key(id) ==> {
                &&& r matches Err(e) && e == EngineError::DuplicateId
                &&& final(self).requests@ == old(self).requests@
            },
            !old(self).requests@.contains_key(id) ==> {
                &&& r is Ok
                &&& final(self).pending() == old(self).pending().insert(id)
                &&& forall|j: u64|
                    j != id && old(self).requests@.contains_key(j)
                        ==> final(self).requests@.contains_key(j) && final(self).requests@[j]
                        == old(self).requests@[j]
            },
    {
        let (request_tx, request_rx) = oneshot::channel();
        if self.requests.contains_key(&id) {
            return Err(EngineError::DuplicateId);
        }
        self.requests.insert(id, request_tx);
        proof {
            assert(self.pending() =~= old(self).pending().insert(id));
        }
        Ok(request_rx)
    }

    /// Looks up and atomically removes the entry for `id`, then delivers
    /// `x` to its receiving half. Fails with `UnknownId`, changing
    /// nothing, if no entry exists; fails with `DeliveryFailed`, with the
    /// entry nonetheless removed, if the caller's receiving half was
    /// already dropped. Entries for other identifiers are never touched.
    pub fn trigger(&mut self, id: u64, x: String) -> (r: Result<(), EngineError>)
        ensures
            !old(self).requests@.contains_key(id) ==> {
                &&& r matches Err(e) && e == EngineError::UnknownId
                &&& final(self).requests@ == old(self).requests@
            },
            old(self).requests@.contains_key(id) ==> {
                &&& final(self).requests@ == old(self).requests@.remove(id)
                &&& (r is Ok || (r matches Err(e) && e == EngineError::DeliveryFailed))
            },
    {
        match self.requests.remove(&id) {
            Some(request_tx) => match request_tx.send(x) {
                Ok(()) => Ok(()),
                Err(_) => Err(EngineError::DeliveryFailed),
            },
            None => {
                proof {
                    assert(self.requests@ =~= old(self).requests@);
                }
                Err(EngineError::UnknownId)
            },
        }
    }

    /// Drops the pending entry for `id` without resolving it: what a
    /// caller does when its wait times out, so that the slot is released
    /// while the command itself stays scheduled. Returns whether an entry
    /// was there; either way, no other entry is touched.
    pub fn abandon(&mut self, id: u64) -> (was_pending: bool)
        ensures
            was_pending == old(self).requests@.contains_key(id),
            final(self).requests@ == old(self).requests@.remove(id),
    {
        let entry = self.requests.remove(&id);
        proof {
            if !old(self).requests@.contains_key(id) {
                assert(self.requests@ =~= old(self).requests@.remove(id));
            }
        }
        match entry {
            Some(_) => true,
            None => false,
        }
    }
}

/// Delivery is exactly once: resolving an identifier removes its entry,
/// so a second resolution of the same identifier finds no entry — and
/// therefore fails with `UnknownId` — while every other pending entry is
/// exactly as the first resolution left it.
pub proof fn lemma_resolve_exactly_once(
    table: Map<u64, oneshot::Sender<String>>,
    id: u64,
)
    ensures
        !table.remove(id).contains_key(id),
        forall|j: u64|
            j != id ==> table.remove(id).contains_key(j) == table.contains_key(j),
        forall|j: u64|
            j != id && table.contains_key(j) ==> table.remove(id)[j] == table[j],
{
}

} // verus!
