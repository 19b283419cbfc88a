//! The commit/abort protocol driver: accumulation of dirty handles during a
//! transaction, reconciliation with the host's pending-delete bookkeeping,
//! and the decision of which single outcome message (if any) to hand to the
//! external engine at each transaction boundary.
//!
//! The host's own bookkeeping query and the engine connection are external
//! collaborators; they live outside this crate and feed these functions
//! plain values. Everything decided here is verified.

use crate::handle::Handle;
use vstd::prelude::*;

verus! {

/// The transaction outcome the host announces at a boundary.
#[derive(Debug, Clone, Copy, PartialEq, Eq, Structural)]
pub enum TxnOutcome {
    Committing,
    Aborting,
}

/// Failures on the path between the coordinator and its collaborators.
#[derive(Debug, Clone)]
pub enum EngineError {
    /// The engine connection cannot be established or has dropped.
    ConnectionError { hint: String },
    /// The engine rejected or never acknowledged the outcome message.
    DeliveryError { hint: String },
    /// The host's own pending-delete query failed; always fatal.
    BridgeQueryError { hint: String },
}

impl EngineError {
    /// The human-readable cause carried by any of the error kinds.
    pub open spec fn spec_hint(&self) -> Seq<char> {
        match self {
            EngineError::ConnectionError { hint } => hint@,
            EngineError::DeliveryError { hint } => hint@,
            EngineError::BridgeQueryError { hint } => hint@,
        }
    }

    /// Reads the cause back out of whichever kind this error is.
    pub fn hint(&self) -> (r: &String)
        ensures
            r@ == self.spec_hint(),
    {
        match self {
            EngineError::ConnectionError { hint } => hint,
            EngineError::DeliveryError { hint } => hint,
            EngineError::BridgeQueryError { hint } => hint,
        }
    }
}

/// The single unit of information sent to the external engine per
/// transaction boundary.
pub enum OutcomeMessage {
    /// The transaction committed: these objects were deleted, these changed.
    Commit { deletes: Vec<Handle>, dirty: Vec<Handle> },
    /// The transaction rolled back: these objects were deleted by the
    /// rollback itself. Dirty marks of an aborted transaction are never sent.
    Abort { deletes: Vec<Handle> },
}

/// Ordered accumulation of the handles marked dirty since the last
/// transaction boundary. Duplicates are kept; registration order is kept.
pub struct DirtySet {
    handles: Vec<Handle>,
}

impl View for DirtySet {
    type V = Seq<Handle>;

    closed spec fn view(&self) -> Seq<Handle> {
        self.handles@
    }
}

impl DirtySet {
    /// An empty dirty set, the state at process start and after every
    /// transaction boundary.
    pub fn new() -> (r: DirtySet)
        ensures
            r@ == Seq::<Handle>::empty(),
    {
        DirtySet { handles: Vec::new() }
    }

    /// Appends `handle`; purely additive, never fails.
    pub fn register(&mut self, handle: Handle)
        ensures
            final(self)@ == old(self)@.push(handle),
    {
        self.handles.push(handle);
    }

    /// Atomically removes and returns the entire contents in registration
    /// order, resetting the set to empty.
    pub fn drain(&mut self) -> (r: Vec<Handle>)
        ensures
            r@ == old(self)@,
            final(self)@ == Seq::<Handle>::empty(),
    {
        let mut taken: Vec<Handle> = Vec::new();
        core::mem::swap(&mut taken, &mut self.handles);
        taken
    }

    /// Discards the contents without reporting them: the abort path, where
    /// the marks of a rolled-back transaction must never reach the engine.
    pub fn discard(&mut self)
        ensures
            final(self)@ == Seq::<Handle>::empty(),
    {
        let _ = self.drain();
    }

    /// How many handles are currently registered.
    pub fn len(&self) -> (r: usize)
        ensures
            r == self@.len(),
    {
        self.handles.len()
    }
}

/// Entry point for application code that has just mutated a storage object:
/// marks the object dirty in the current transaction.
pub fn callback_dirty(dirty: &mut DirtySet, handle: Handle)
    ensures
        final(dirty)@ == old(dirty)@.push(handle),
{
    dirty.register(handle);
}

/// The commit hook's decision. `deletes` is the host's pending-delete list
/// for a committing transaction, read at the boundary instant. Drains the
/// dirty set; returns the one `Commit` message to deliver, or `None` exactly
/// when there is nothing to report (skipping an empty message is observably
/// identical to sending it).
pub fn commit(dirty: &mut DirtySet, deletes: Vec<Handle>) -> (r: Option<OutcomeMessage>)
    ensures
        final(dirty)@ == Seq::<Handle>::empty(),
        (r is None) <==> (deletes@.len() == 0 && old(dirty)@.len() == 0),
        (r matches Some(m) ==> m matches OutcomeMessage::Commit { deletes: d, dirty: dd }
            && d@ == deletes@ && dd@ == old(dirty)@),
{
    let pending_dirty = dirty.drain();
    if deletes.len() == 0 && pending_dirty.len() == 0 {
        return None;
    }
    Some(OutcomeMessage::Commit { deletes, dirty: pending_dirty })
}

/// The abort hook's decision. `deletes` is the host's pending-delete list
/// for an aborting transaction. The dirty set is discarded, never delivered:
/// an aborted transaction's modifications are void. Returns the one `Abort`
/// message to deliver, or `None` exactly when no deletion is pending.
pub fn abort(dirty: &mut DirtySet, deletes: Vec<Handle>) -> (r: Option<OutcomeMessage>)
    ensures
        final(dirty)@ == Seq::<Handle>::empty(),
        (r is None) <==> deletes@.len() == 0,
        (r matches Some(m) ==> m matches OutcomeMessage::Abort { deletes: d }
            && d@ == deletes@),
{
    dirty.discard();
    if deletes.len() == 0 {
        return None;
    }
    Some(OutcomeMessage::Abort { deletes })
}

/// The asymmetric failure policy for a transaction boundary: any failure
/// on the commit path is fatal to the transaction and is escalated to the
/// host unchanged. On the abort path a connection or delivery failure is
/// swallowed, since the host's rollback has already happened and must not
/// be blocked; a failed pending-delete query, however, signals host-internal
/// corruption and is fatal on either path.
pub fn resolve_delivery(outcome: TxnOutcome, reply: Result<(), EngineError>) -> (r: Result<
    (),
    EngineError,
>)
    ensures
        outcome == TxnOutcome::Committing ==> r == reply,
        outcome == TxnOutcome::Aborting && (reply matches Err(
            EngineError::BridgeQueryError { .. },
        )) ==> r == reply,
        outcome == TxnOutcome::Aborting && !(reply matches Err(
            EngineError::BridgeQueryError { .. },
        )) ==> r is Ok,
{
    match outcome {
        TxnOutcome::Committing => reply,
        TxnOutcome::Aborting => match reply {
            Err(EngineError::BridgeQueryError { hint }) => Err(EngineError::BridgeQueryError {
                hint,
            }),
            _ => Ok(()),
        },
    }
}

/// Translates the host-native file identifiers of a pending-delete snapshot
/// into engine handles, keeping order and multiplicity.
pub fn translate_pending_deletes(ids: Vec<u32>) -> (r: Vec<Handle>)
    ensures
        r@.len() == ids@.len(),
        forall|i: int| 0 <= i < ids@.len() ==> r@[i].spec_value() == ids@[i],
{
    let mut out: Vec<Handle> = Vec::new();
    let mut j: usize = 0;
    while j < ids.len()
        invariant
            j <= ids@.len(),
            out@.len() == j,
            forall|i: int| 0 <= i < j ==> out@[i].spec_value() == ids@[i],
        decreases ids@.len() - j,
    {
        out.push(Handle::from_sys(ids[j]));
        j += 1;
    }
    out
}

/// The dirty sequence reached by registering `handles` one at a time, in
/// order, into an initially empty dirty set, as `DirtySet::register`'s
/// contract appends them.
pub open spec fn accumulated(handles: Seq<Handle>) -> Seq<Handle>
    decreases handles.len(),
{
    if handles.len() == 0 {
        Seq::empty()
    } else {
        accumulated(handles.drop_last()).push(handles.last())
    }
}

/// Law: any sequence of `register` calls on an initially empty dirty set
/// accumulates exactly the registered handles in registration order, so the
/// dirty list that `commit` then delivers is that sequence itself (and the
/// set is empty immediately after, by `commit`'s contract).
pub proof fn lemma_registration_order(handles: Seq<Handle>)
    ensures
        accumulated(handles) == handles,
    decreases handles.len(),
{
    if handles.len() == 0 {
        assert(accumulated(handles) =~= handles);
    } else {
        lemma_registration_order(handles.drop_last());
        assert(accumulated(handles) =~= handles);
    }
}

} // verus!
