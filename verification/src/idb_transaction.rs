//! The transaction: one atomic, mode-scoped unit of work over a fixed set of
//! object stores, and the single source of truth for that unit's terminal
//! outcome.
//!
//! A transaction owns exactly one completion listener set, bound at
//! construction — before the caller can observe any store operation, so even
//! an engine resolving immediately cannot slip past it. Awaiting the
//! transaction delegates to that bridge; disposing the transaction
//! de-registers the bridge's callbacks but deliberately does *not* abort the
//! engine-side work: cancelling the wait never cancels the work.

use vstd::prelude::*;

use crate::engine::{
    engine_wf, has_name, lemma_store_index, store_index_of, Engine, EngineFault,
    IdbTransactionMode, TxModel,
};
use crate::idb_database::IdbDatabase;
use crate::idb_object_store::IdbObjectStore;
use crate::listeners::{
    bridge_dispose, bridge_on_event, bridge_poll, outcome_of_event, BridgeState,
    IdbTransactionListeners, TerminalEvent, TransactionPoll,
};
use crate::outcome::OutcomeModel;

verus! {

/// Mathematical model of a transaction handle: its identity at the engine,
/// its fixed isolation mode, its scope's store names, and the state of its
/// completion bridge.
pub struct TxHandleModel {
    pub tx_id: int,
    pub mode: IdbTransactionMode,
    pub store_names: Seq<Seq<char>>,
    pub bridge: BridgeState,
}

/// One transaction over a fixed, non-empty set of object stores.
pub struct IdbTransaction<'db> {
    pub(crate) tx_id: usize,
    mode: IdbTransactionMode,
    store_names: Vec<String>,
    db: &'db IdbDatabase,
    listeners: IdbTransactionListeners,
}

impl<'db> View for IdbTransaction<'db> {
    type V = TxHandleModel;

    closed spec fn view(&self) -> TxHandleModel {
        TxHandleModel {
            tx_id: self.tx_id as int,
            mode: self.mode,
            store_names: self.store_names@.map_values(|s: String| s@),
            bridge: self.listeners@,
        }
    }
}

impl<'db> IdbTransaction<'db> {
    /// Bind a handle onto a freshly opened engine transaction; the listener
    /// set is constructed — and so registered — here, atomically with the
    /// handle.
    pub(crate) fn new(
        tx_id: usize,
        mode: IdbTransactionMode,
        store_names: Vec<String>,
        db: &'db IdbDatabase,
    ) -> (r: IdbTransaction<'db>)
        ensures
            r@.tx_id == tx_id as int,
            r@.mode == mode,
            r@.store_names == store_names@.map_values(|s: String| s@),
            r@.bridge == crate::listeners::bridge_fresh(),
    {
        IdbTransaction { tx_id, mode, store_names, db, listeners: IdbTransactionListeners::new() }
    }

    /// The transaction's identity at the engine — what the event loop hands
    /// to `Engine::settle` or `Engine::abort` for this unit of work.
    pub fn id(&self) -> (r: usize)
        ensures
            r as int == self@.tx_id,
    {
        self.tx_id
    }

    /// The names of the object stores in this transaction's scope.
    pub fn object_store_names(&self) -> (r: Vec<String>)
        ensures
            r@.map_values(|s: String| s@) == self@.store_names,
    {
        crate::engine::clone_names(&self.store_names)
    }

    /// The isolation mode, fixed at creation.
    pub fn mode(&self) -> (r: IdbTransactionMode)
        ensures
            r == self@.mode,
    {
        self.mode
    }

    /// The engine-reported error detail — present exactly when the
    /// transaction's recorded terminal outcome is the error variant; absent
    /// while pending, on clean success, and on abort.
    pub fn error(&self) -> (r: Option<&String>)
        ensures
            match r {
                Some(s) => self@.bridge.resolved == Some(OutcomeModel::Error(s@)),
                None => !(self@.bridge.resolved matches Some(o) && o is Error),
            },
    {
        self.listeners.error_detail()
    }

    /// The database this transaction was derived from.
    pub fn db(&self) -> (r: &'db IdbDatabase) {
        self.db
    }

    /// Request immediate rollback, consuming the transaction: no further
    /// operation can be issued through it and its outcome will not be
    /// observed. Aborting an already-finished transaction is an engine
    /// fault, surfaced rather than ignored.
    pub fn abort(self, engine: &mut Engine) -> (r: Result<(), EngineFault>)
        requires
            engine_wf(old(engine)@),
        ensures
            engine_wf(final (engine)@),
            ({
                let m = old(engine)@;
                if self@.tx_id >= m.txs.len() {
                    r == Err::<(), EngineFault>(EngineFault::NotFound) && *final (engine) == *old(engine)
                } else if m.txs[self@.tx_id].finished {
                    r == Err::<(), EngineFault>(EngineFault::TransactionInactive) && *final (engine) == *old(engine)
                } else {
                    &&& r is Ok
                    &&& final (engine)@.stores == m.stores
                    &&& final (engine)@.txs == m.txs.update(
                        self@.tx_id,
                        TxModel { finished: true, ..m.txs[self@.tx_id] },
                    )
                }
            }),
    {
        match engine.abort(self.tx_id) {
            Ok(_) => Ok(()),
            Err(f) => Err(f),
        }
    }

    /// An accessor for one store of this transaction's scope. A name outside
    /// the scope, or unknown to the engine, is a not-found fault.
    pub fn object_store<'a>(&'a self, engine: &Engine, name: &String) -> (r: Result<
        IdbObjectStore<'a>,
        EngineFault,
    >)
        requires
            engine_wf(engine@),
        ensures
            !has_name(self@.store_names, name@) ==> r == Err::<IdbObjectStore<'a>, EngineFault>(
                EngineFault::NotFound,
            ),
            has_name(self@.store_names, name@) && !crate::engine::has_store(engine@.stores, name@)
                ==> r == Err::<IdbObjectStore<'a>, EngineFault>(EngineFault::NotFound),
            has_name(self@.store_names, name@) && crate::engine::has_store(engine@.stores, name@)
                ==> (r matches Ok(st) && {
                &&& st@.store_idx == store_index_of(engine@.stores, name@)
                &&& st@.store_name == name@
                &&& st@.tx == Some(self@.tx_id)
            }),
    {
        let mut i: usize = 0;
        let mut in_scope = false;
        while i < self.store_names.len()
            invariant
                i <= self.store_names@.len(),
                self@.store_names.len() == self.store_names@.len(),
                in_scope ==> has_name(self@.store_names, name@),
                !in_scope ==> forall|j: int| 0 <= j < i ==> self@.store_names[j] != name@,
            decreases self.store_names@.len() - i,
        {
            if self.store_names[i] == *name {
                proof {
                    assert(self@.store_names[i as int] == name@);
                }
                in_scope = true;
            }
            i += 1;
        }
        if !in_scope {
            return Err(EngineFault::NotFound);
        }
        match engine.find_store(name) {
            Some(idx) => {
                proof {
                    lemma_store_index(engine@.stores, name@, idx as int);
                }
                Ok(IdbObjectStore::from_tx(idx, name.clone(), self))
            },
            None => Err(EngineFault::NotFound),
        }
    }

    /// Entry point for the engine's terminal callbacks, forwarded to the
    /// completion bridge; returns the wake handle to release, if any.
    pub fn deliver(&mut self, ev: TerminalEvent) -> (wake: Option<u64>)
        ensures
            final (self)@.tx_id == old(self)@.tx_id,
            final (self)@.mode == old(self)@.mode,
            final (self)@.store_names == old(self)@.store_names,
            final (self)@.bridge == bridge_on_event(old(self)@.bridge, outcome_of_event(ev)).0,
            wake == bridge_on_event(old(self)@.bridge, outcome_of_event(ev)).1,
    {
        self.listeners.on_event(ev)
    }

    /// One poll of the transaction as an awaitable: the recorded terminal
    /// outcome once resolved — identical on every later poll — else pending
    /// with the wake handle stored.
    pub fn poll(&mut self, wake: u64) -> (r: TransactionPoll)
        ensures
            final (self)@.tx_id == old(self)@.tx_id,
            final (self)@.mode == old(self)@.mode,
            final (self)@.store_names == old(self)@.store_names,
            final (self)@.bridge == bridge_poll(old(self)@.bridge, wake).0,
            match bridge_poll(old(self)@.bridge, wake).1 {
                Some(o) => r matches TransactionPoll::Ready(res) && res@ == o,
                None => r is Pending,
            },
    {
        self.listeners.do_poll(wake)
    }

    /// Stop observing the transaction: de-register the listener callbacks.
    /// The engine-side work is deliberately left to run to its natural
    /// outcome — cancelling the wait does not cancel the work — and no late
    /// callback can reach the disposed bridge.
    pub fn dispose(&mut self)
        ensures
            final (self)@.tx_id == old(self)@.tx_id,
            final (self)@.mode == old(self)@.mode,
            final (self)@.store_names == old(self)@.store_names,
            final (self)@.bridge == bridge_dispose(old(self)@.bridge),
    {
        self.listeners.dispose()
    }
}

} // verus!
