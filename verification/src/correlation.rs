//! The table of pending requests: one single-use reply channel per request
//! identifier, consumed exactly once.

use std::collections::HashMap;
use tokio::sync::oneshot::{Receiver, Sender};
use vstd::prelude::*;

verus! {

/// The sending half of a `tokio` one-shot channel. Nothing inside it is visible
/// to the verifier: a value of it is only stored, handed on and consumed.
#[verifier::external_type_specification]
#[verifier::external_body]
#[verifier::reject_recursive_types(T)]
pub struct ExSender<T>(tokio::sync::oneshot::Sender<T>);

/// The receiving half of a `tokio` one-shot channel, opaque as the sending half.
#[verifier::external_type_specification]
#[verifier::external_body]
#[verifier::reject_recursive_types(T)]
pub struct ExReceiver<T>(tokio::sync::oneshot::Receiver<T>);

/// What awaiting the receiving half yields when the sending half was dropped
/// without a value. The library never holds one; the declaration lets the
/// receiving half be named.
#[verifier::external_type_specification]
#[verifier::external_body]
pub struct ExRecvError(tokio::sync::oneshot::error::RecvError);

/// Calls `tokio::sync::oneshot::channel`. Nothing is claimed of the two halves:
/// that they belong together is known to `tokio` alone.
#[verifier::external_body]
fn reply_channel() -> (halves: (Sender<Vec<u8>>, Receiver<Vec<u8>>)) {
    tokio::sync::oneshot::channel()
}

/// Calls `tokio::sync::oneshot::Sender::send`, which consumes the sender. It
/// answers `Ok` if the receiving half was still there, and otherwise hands the
/// value back in `Err`. Which of the two happens is not claimed.
#[verifier::external_body]
fn deliver(sender: Sender<Vec<u8>>, payload: Vec<u8>) -> (sent: Result<(), Vec<u8>>)
    ensures
        sent matches Err(returned) ==> returned == payload,
{
    sender.send(payload)
}

/// Why an operation on the table did nothing.
#[derive(Clone, Copy, Debug, PartialEq, Eq, Structural)]
pub enum TableError {
    /// `begin` was asked for an identifier that is already pending.
    DuplicateId,
    /// `resolve` was asked for an identifier that is not pending.
    NotFound,
}

/// The entries of a table: each pending identifier with the sender that
/// fulfils it.
pub type Entries = Map<u128, Sender<Vec<u8>>>;

/// Whether `resolve` finds an entry for `id`.
pub open spec fn resolves(entries: Entries, id: u128) -> bool {
    entries.contains_key(id)
}

/// The entries after `resolve` or `cancel` of `id`: its entry is gone, every
/// other entry is untouched.
pub open spec fn without(entries: Entries, id: u128) -> Entries {
    entries.remove(id)
}

/// The pending requests, keyed by request identifier.
pub struct CorrelationTable {
    entries: HashMap<u128, Sender<Vec<u8>>>,
}

impl View for CorrelationTable {
    type V = Entries;

    closed spec fn view(&self) -> Entries {
        self.entries@
    }
}

impl CorrelationTable {
    /// A table without entries.
    pub fn new() -> (table: CorrelationTable)
        ensures
            table@ == Map::<u128, Sender<Vec<u8>>>::empty(),
    {
        broadcast use vstd::std_specs::hash::group_hash_axioms;

        CorrelationTable { entries: HashMap::new() }
    }

    /// How many requests are pending.
    pub fn len(&self) -> (n: usize)
        ensures
            n == self@.len(),
    {
        broadcast use vstd::std_specs::hash::group_hash_axioms;

        self.entries.len()
    }

    /// Whether a request with this identifier is pending.
    pub fn is_pending(&self, id: u128) -> (pending: bool)
        ensures
            pending == self@.contains_key(id),
    {
        broadcast use vstd::std_specs::hash::group_hash_axioms;

        self.entries.contains_key(&id)
    }

    /// Opens a reply channel for `id`, stores its sending half and returns the
    /// receiving half. An identifier that is already pending is refused and the
    /// table stays as it was.
    pub fn begin(&mut self, id: u128) -> (reply: Result<Receiver<Vec<u8>>, TableError>)
        ensures
            old(self)@.contains_key(id) ==> reply == Err::<Receiver<Vec<u8>>, TableError>(
                TableError::DuplicateId,
            ) && final(self)@ == old(self)@,
            !old(self)@.contains_key(id) ==> reply is Ok && final(self)@.contains_key(id)
                && final(self)@.remove(id) == old(self)@,
    {
        broadcast use vstd::std_specs::hash::group_hash_axioms;

        if self.entries.contains_key(&id) {
            return Err(TableError::DuplicateId);
        }
        let (sender, receiver) = reply_channel();
        self.entries.insert(id, sender);
        assert(self.entries@.remove(id) =~= old(self).entries@);
        Ok(receiver)
    }

    /// Hands `payload` to the caller that waits for `id` and removes the entry.
    /// Fails with `NotFound`, changing nothing, if no request with this
    /// identifier is pending: the caller gave up, or the identifier is unknown.
    pub fn resolve(&mut self, id: u128, payload: Vec<u8>) -> (done: Result<(), TableError>)
        ensures
            done == if resolves(old(self)@, id) {
                Ok::<(), TableError>(())
            } else {
                Err(TableError::NotFound)
            },
            final(self)@ == without(old(self)@, id),
    {
        broadcast use vstd::std_specs::hash::group_hash_axioms;

        match self.entries.remove(&id) {
            Some(sender) => {
                let _ = deliver(sender, payload);
                Ok(())
            },
            None => {
                assert(self.entries@ =~= old(self).entries@.remove(id));
                Err(TableError::NotFound)
            },
        }
    }

    /// Removes the entry for `id` without fulfilling it, so that a reply that
    /// arrives later finds nothing. Does nothing if there is no such entry.
    pub fn cancel(&mut self, id: u128)
        ensures
            final(self)@ == without(old(self)@, id),
    {
        broadcast use vstd::std_specs::hash::group_hash_axioms;

        self.entries.remove(&id);
        assert(self.entries@ =~= old(self).entries@.remove(id));
    }
}

/// A request is fulfilled at most once. Once its entry is gone, by a `resolve`
/// or by a `cancel`, a `resolve` for the same identifier finds nothing and
/// leaves the table as it is; the other entries were never touched.
pub proof fn law_fulfilled_at_most_once(entries: Entries, id: u128)
    ensures
        !resolves(without(entries, id), id),
        without(without(entries, id), id) == without(entries, id),
        forall|other: u128|
            other != id ==> (resolves(#[trigger] without(entries, id), other) == resolves(
                entries,
                other,
            )),
{
    assert(without(without(entries, id), id) =~= without(entries, id));
}

} // verus!
