//! The object-store accessor: keyed CRUD against one store, scoped either
//! to a transaction or — when derived straight from the database handle —
//! to a short-lived read-write auto-transaction opened per operation.
//!
//! Every operation issues one engine request and returns immediately with a
//! single-resolution wrapper; nothing here blocks. What the issued queue
//! does to the store at settlement is fixed by [`crate::engine::run_ops`];
//! what issuing itself does is fixed by [`op_issued`] below.

use vstd::prelude::*;

use crate::engine::{
    engine_wf, has_name, has_store, lemma_store_index, scope_contains, Engine, EngineFault,
    IdbTransactionMode, OpModel, Operation, OperationModel, TxModel,
};
use crate::idb_database::IdbDatabase;
use crate::idb_transaction::IdbTransaction;
use crate::request::{
    request_fresh, AllValuesRequest, RequestHandleModel, ValueRequest, VoidRequest,
};
use crate::value::{StoreValue, ValueModel};

verus! {

/// Mathematical model of a store accessor: the store it aims at and the
/// transaction it is scoped to, if any.
pub struct StoreHandleModel {
    pub store_idx: int,
    pub store_name: Seq<char>,
    pub tx: Option<int>,
}

/// A secondary index of an object store, looked up or created by name.
pub struct IdbIndex {
    name: String,
}

impl View for IdbIndex {
    type V = Seq<char>;

    closed spec fn view(&self) -> Seq<char> {
        self.name@
    }
}

impl IdbIndex {
    /// The index's name.
    pub fn name(&self) -> (r: &String)
        ensures
            r@ == self@,
    {
        &self.name
    }
}

/// What issuing one operation through an accessor does: which fault it
/// raises synchronously — in the order the engine checks — or, on success,
/// the fresh request handle it returns and exactly how the engine's
/// transaction book-keeping grew. An accessor scoped to a transaction
/// queues on it; one scoped to the database alone opens a fresh read-write
/// auto-transaction holding just this operation.
pub open spec fn op_issued(
    st: StoreHandleModel,
    e0: crate::engine::EngineModel,
    e1: crate::engine::EngineModel,
    op: OperationModel,
    out: Result<RequestHandleModel, EngineFault>,
) -> bool {
    match st.tx {
        Some(tid) => {
            if tid >= e0.txs.len() {
                out == Err::<RequestHandleModel, EngineFault>(EngineFault::NotFound) && e1 == e0
            } else if e0.txs[tid].finished {
                out == Err::<RequestHandleModel, EngineFault>(EngineFault::TransactionInactive)
                    && e1 == e0
            } else if !scope_contains(e0.txs[tid].scope, st.store_idx) {
                out == Err::<RequestHandleModel, EngineFault>(EngineFault::NotFound) && e1 == e0
            } else if e0.txs[tid].mode == IdbTransactionMode::Readonly
                && crate::engine::is_mutation(op) {
                out == Err::<RequestHandleModel, EngineFault>(EngineFault::ReadOnly) && e1 == e0
            } else {
                &&& out matches Ok(q) && q == (RequestHandleModel {
                    tx: tid,
                    request: e0.txs[tid].ops.len() as int,
                    bridge: request_fresh(),
                })
                &&& e1.stores == e0.stores
                &&& e1.txs == e0.txs.update(
                    tid,
                    TxModel {
                        ops: e0.txs[tid].ops.push(OpModel { store: st.store_idx, op }),
                        ..e0.txs[tid]
                    },
                )
            }
        },
        None => {
            if !(0 <= st.store_idx < e0.stores.len() && e0.stores[st.store_idx].name
                == st.store_name) {
                out == Err::<RequestHandleModel, EngineFault>(EngineFault::NotFound) && e1 == e0
            } else {
                &&& out matches Ok(q) && q == (RequestHandleModel {
                    tx: e0.txs.len() as int,
                    request: 0,
                    bridge: request_fresh(),
                })
                &&& e1.stores == e0.stores
                &&& e1.txs == e0.txs.push(
                    TxModel {
                        mode: IdbTransactionMode::Readwrite,
                        scope: seq![st.store_idx],
                        ops: seq![OpModel { store: st.store_idx, op }],
                        finished: false,
                    },
                )
            }
        },
    }
}

/// The model a void-request result carries.
pub open spec fn void_result_model(r: Result<VoidRequest, EngineFault>) -> Result<
    RequestHandleModel,
    EngineFault,
> {
    match r {
        Ok(q) => Ok(q@),
        Err(f) => Err(f),
    }
}

/// The model a value-request result carries.
pub open spec fn value_result_model(r: Result<ValueRequest, EngineFault>) -> Result<
    RequestHandleModel,
    EngineFault,
> {
    match r {
        Ok(q) => Ok(q@),
        Err(f) => Err(f),
    }
}

/// The model a whole-store-request result carries.
pub open spec fn all_result_model(r: Result<AllValuesRequest, EngineFault>) -> Result<
    RequestHandleModel,
    EngineFault,
> {
    match r {
        Ok(q) => Ok(q@),
        Err(f) => Err(f),
    }
}

/// An accessor for one object store.
pub struct IdbObjectStore<'a> {
    store_idx: usize,
    store_name: String,
    db: &'a IdbDatabase,
    tx: Option<&'a IdbTransaction<'a>>,
}

impl<'a> View for IdbObjectStore<'a> {
    type V = StoreHandleModel;

    closed spec fn view(&self) -> StoreHandleModel {
        StoreHandleModel {
            store_idx: self.store_idx as int,
            store_name: self.store_name@,
            tx: match self.tx {
                Some(t) => Some(t@.tx_id),
                None => None,
            },
        }
    }
}

impl<'a> IdbObjectStore<'a> {
    /// An accessor scoped to the database alone: each operation opens its
    /// own short-lived read-write auto-transaction.
    pub(crate) fn from_db(store_idx: usize, store_name: String, db: &'a IdbDatabase) -> (r:
        IdbObjectStore<'a>)
        ensures
            r@ == (StoreHandleModel {
                store_idx: store_idx as int,
                store_name: store_name@,
                tx: None,
            }),
    {
        IdbObjectStore { store_idx, store_name, db, tx: None }
    }

    /// An accessor scoped to a transaction, borrowing it for the accessor's
    /// whole lifetime.
    pub(crate) fn from_tx(
        store_idx: usize,
        store_name: String,
        tx: &'a IdbTransaction<'a>,
    ) -> (r: IdbObjectStore<'a>)
        ensures
            r@ == (StoreHandleModel {
                store_idx: store_idx as int,
                store_name: store_name@,
                tx: Some(tx@.tx_id),
            }),
    {
        IdbObjectStore { store_idx, store_name, db: tx.db(), tx: Some(tx) }
    }

    /// The database this accessor was derived from.
    pub fn db(&self) -> (r: &'a IdbDatabase) {
        self.db
    }

    /// The transaction this accessor is scoped to, if any.
    pub fn transaction(&self) -> (r: &Option<&'a IdbTransaction<'a>>)
        ensures
            match r {
                Some(t) => self@.tx == Some(t@.tx_id),
                None => self@.tx is None,
            },
    {
        &self.tx
    }

    /// Issue one operation: queue it on the owning transaction, or on a
    /// fresh auto-transaction when there is none, and return the transaction
    /// and request identities for the wrapper.
    fn issue_op(&self, engine: &mut Engine, op: Operation) -> (r: Result<
        (usize, usize),
        EngineFault,
    >)
        requires
            engine_wf(old(engine)@),
        ensures
            engine_wf(final (engine)@),
            op_issued(
                self@,
                old(engine)@,
                final (engine)@,
                op@,
                match r {
                    Ok((t, q)) => Ok(
                        RequestHandleModel {
                            tx: t as int,
                            request: q as int,
                            bridge: request_fresh(),
                        },
                    ),
                    Err(f) => Err(f),
                },
            ),
    {
        match self.tx {
            Some(t) => {
                let tid = t.id();
                match engine.issue(tid, self.store_idx, op) {
                    Ok(q) => Ok((tid, q)),
                    Err(f) => Err(f),
                }
            },
            None => {
                let found = engine.find_store(&self.store_name);
                let matches_idx = match found {
                    Some(idx) => idx == self.store_idx,
                    None => false,
                };
                if !matches_idx {
                    proof {
                        if 0 <= self@.store_idx < engine@.stores.len()
                            && engine@.stores[self@.store_idx].name == self@.store_name {
                            lemma_store_index(engine@.stores, self.store_name@, self@.store_idx);
                            match found {
                                Some(idx) => {
                                    lemma_store_index(
                                        engine@.stores,
                                        self.store_name@,
                                        idx as int,
                                    );
                                },
                                None => {
                                    assert(has_store(engine@.stores, self@.store_name));
                                },
                            }
                        }
                    }
                    return Err(EngineFault::NotFound);
                }
                proof {
                    assert(0 <= self@.store_idx < old(engine)@.stores.len());
                    assert(old(engine)@.stores[self@.store_idx].name == self@.store_name);
                    assert(has_store(old(engine)@.stores, self@.store_name));
                }
                let mut names: Vec<String> = Vec::new();
                names.push(self.store_name.clone());
                proof {
                    assert(names@[0]@ == self@.store_name);
                    assert forall|j: int| 0 <= j < names@.len() implies has_store(
                        old(engine)@.stores,
                        names@[j]@,
                    ) by {
                        assert(names@[j]@ == self@.store_name);
                    }
                }
                let tid = match engine.begin(&names, IdbTransactionMode::Readwrite) {
                    Ok(t) => t,
                    Err(f) => {
                        proof {
                            assert(false);
                        }
                        return Err(f);
                    },
                };
                let ghost emid = engine@;
                proof {
                    let t = emid.txs.last();
                    assert(emid.stores[t.scope[0]].name == self@.store_name);
                    lemma_store_index(emid.stores, self.store_name@, t.scope[0]);
                    lemma_store_index(emid.stores, self.store_name@, self@.store_idx);
                    assert(t.scope[0] == self@.store_idx);
                    assert(tid as int == old(engine)@.txs.len());
                    assert(emid.txs[tid as int] == emid.txs.last());
                    assert(scope_contains(emid.txs[tid as int].scope, self@.store_idx));
                }
                match engine.issue(tid, self.store_idx, op) {
                    Ok(q) => {
                        proof {
                            let t0 = emid.txs.last();
                            let target = TxModel {
                                mode: IdbTransactionMode::Readwrite,
                                scope: seq![self@.store_idx],
                                ops: seq![OpModel { store: self@.store_idx, op: op@ }],
                                finished: false,
                            };
                            assert(t0.ops.push(OpModel { store: self@.store_idx, op: op@ })
                                =~= target.ops);
                            assert(t0.scope =~= target.scope);
                            assert(engine@.txs[tid as int] == target);
                            assert(engine@.txs =~= old(engine)@.txs.push(target));
                        }
                        Ok((tid, q))
                    },
                    Err(f) => {
                        proof {
                            assert(false);
                        }
                        Err(f)
                    },
                }
            },
        }
    }

    /// Queue a clear of every record in the store.
    pub fn clear(&self, engine: &mut Engine) -> (r: Result<VoidRequest, EngineFault>)
        requires
            engine_wf(old(engine)@),
        ensures
            engine_wf(final (engine)@),
            op_issued(
                self@,
                old(engine)@,
                final (engine)@,
                OperationModel::Clear,
                void_result_model(r),
            ),
    {
        match self.issue_op(engine, Operation::Clear) {
            Ok((t, q)) => Ok(VoidRequest::new(t, q)),
            Err(f) => Err(f),
        }
    }

    /// Queue an insert of `val` under the key derived from the value itself
    /// (its text) — the key-path policy of this store model. A value no key
    /// can be derived from is a synchronous data fault; a key that already
    /// exists fails asynchronously, through the returned wrapper.
    pub fn add_val(&self, engine: &mut Engine, val: &StoreValue) -> (r: Result<
        VoidRequest,
        EngineFault,
    >)
        requires
            engine_wf(old(engine)@),
        ensures
            engine_wf(final (engine)@),
            val@ is Opaque ==> r == Err::<VoidRequest, EngineFault>(EngineFault::Data) && *final (engine) == *old(engine),
            val@ matches ValueModel::Text(k) ==> op_issued(
                self@,
                old(engine)@,
                final (engine)@,
                OperationModel::Add(k, val@),
                void_result_model(r),
            ),
    {
        match val {
            StoreValue::Text(s) => {
                let key = s.clone();
                match self.issue_op(engine, Operation::Add(key, val.duplicate())) {
                    Ok((t, q)) => Ok(VoidRequest::new(t, q)),
                    Err(f) => Err(f),
                }
            },
            StoreValue::Opaque => Err(EngineFault::Data),
        }
    }

    /// Queue an insert of an owned value under its derived key.
    pub fn add_val_owned(&self, engine: &mut Engine, val: StoreValue) -> (r: Result<
        VoidRequest,
        EngineFault,
    >)
        requires
            engine_wf(old(engine)@),
        ensures
            engine_wf(final (engine)@),
            val@ is Opaque ==> r == Err::<VoidRequest, EngineFault>(EngineFault::Data) && *final (engine) == *old(engine),
            val@ matches ValueModel::Text(k) ==> op_issued(
                self@,
                old(engine)@,
                final (engine)@,
                OperationModel::Add(k, val@),
                void_result_model(r),
            ),
    {
        self.add_val(engine, &val)
    }

    /// Queue an insert of `val` at `key`; an existing key fails
    /// asynchronously, through the returned wrapper, and — if unhandled —
    /// drives the owning transaction to the error outcome.
    pub fn add_key_val(&self, engine: &mut Engine, key: &String, val: &StoreValue) -> (r: Result<
        VoidRequest,
        EngineFault,
    >)
        requires
            engine_wf(old(engine)@),
        ensures
            engine_wf(final (engine)@),
            op_issued(
                self@,
                old(engine)@,
                final (engine)@,
                OperationModel::Add(key@, val@),
                void_result_model(r),
            ),
    {
        match self.issue_op(engine, Operation::Add(key.clone(), val.duplicate())) {
            Ok((t, q)) => Ok(VoidRequest::new(t, q)),
            Err(f) => Err(f),
        }
    }

    /// Queue an insert of `val` at an owned `key`.
    pub fn add_key_val_owned(&self, engine: &mut Engine, key: String, val: &StoreValue) -> (r:
        Result<VoidRequest, EngineFault>)
        requires
            engine_wf(old(engine)@),
        ensures
            engine_wf(final (engine)@),
            op_issued(
                self@,
                old(engine)@,
                final (engine)@,
                OperationModel::Add(key@, val@),
                void_result_model(r),
            ),
    {
        self.add_key_val(engine, &key, val)
    }

    /// Queue a store of `val` under its derived key (its text), overwriting
    /// any existing record. A value no key can be derived from is a
    /// synchronous data fault.
    pub fn put_val(&self, engine: &mut Engine, val: &StoreValue) -> (r: Result<
        VoidRequest,
        EngineFault,
    >)
        requires
            engine_wf(old(engine)@),
        ensures
            engine_wf(final (engine)@),
            val@ is Opaque ==> r == Err::<VoidRequest, EngineFault>(EngineFault::Data) && *final (engine) == *old(engine),
            val@ matches ValueModel::Text(k) ==> op_issued(
                self@,
                old(engine)@,
                final (engine)@,
                OperationModel::Put(k, val@),
                void_result_model(r),
            ),
    {
        match val {
            StoreValue::Text(s) => {
                let key = s.clone();
                match self.issue_op(engine, Operation::Put(key, val.duplicate())) {
                    Ok((t, q)) => Ok(VoidRequest::new(t, q)),
                    Err(f) => Err(f),
                }
            },
            StoreValue::Opaque => Err(EngineFault::Data),
        }
    }

    /// Queue a store of an owned value under its derived key.
    pub fn put_val_owned(&self, engine: &mut Engine, val: StoreValue) -> (r: Result<
        VoidRequest,
        EngineFault,
    >)
        requires
            engine_wf(old(engine)@),
        ensures
            engine_wf(final (engine)@),
            val@ is Opaque ==> r == Err::<VoidRequest, EngineFault>(EngineFault::Data) && *final (engine) == *old(engine),
            val@ matches ValueModel::Text(k) ==> op_issued(
                self@,
                old(engine)@,
                final (engine)@,
                OperationModel::Put(k, val@),
                void_result_model(r),
            ),
    {
        self.put_val(engine, &val)
    }

    /// Queue a store of `val` at `key`, overwriting any existing record.
    pub fn put_key_val(&self, engine: &mut Engine, key: &String, val: &StoreValue) -> (r: Result<
        VoidRequest,
        EngineFault,
    >)
        requires
            engine_wf(old(engine)@),
        ensures
            engine_wf(final (engine)@),
            op_issued(
                self@,
                old(engine)@,
                final (engine)@,
                OperationModel::Put(key@, val@),
                void_result_model(r),
            ),
    {
        match self.issue_op(engine, Operation::Put(key.clone(), val.duplicate())) {
            Ok((t, q)) => Ok(VoidRequest::new(t, q)),
            Err(f) => Err(f),
        }
    }

    /// Queue a store of `val` at an owned `key`, overwriting any existing
    /// record.
    pub fn put_key_val_owned(&self, engine: &mut Engine, key: String, val: &StoreValue) -> (r:
        Result<VoidRequest, EngineFault>)
        requires
            engine_wf(old(engine)@),
        ensures
            engine_wf(final (engine)@),
            op_issued(
                self@,
                old(engine)@,
                final (engine)@,
                OperationModel::Put(key@, val@),
                void_result_model(r),
            ),
    {
        self.put_key_val(engine, &key, val)
    }

    /// Queue a delete of the record at `key`; deleting an absent key
    /// succeeds and leaves the store unchanged at settlement.
    pub fn delete(&self, engine: &mut Engine, key: &String) -> (r: Result<
        VoidRequest,
        EngineFault,
    >)
        requires
            engine_wf(old(engine)@),
        ensures
            engine_wf(final (engine)@),
            op_issued(
                self@,
                old(engine)@,
                final (engine)@,
                OperationModel::Delete(key@),
                void_result_model(r),
            ),
    {
        match self.issue_op(engine, Operation::Delete(key.clone())) {
            Ok((t, q)) => Ok(VoidRequest::new(t, q)),
            Err(f) => Err(f),
        }
    }

    /// Queue a delete of the record at an owned `key`.
    pub fn delete_owned(&self, engine: &mut Engine, key: String) -> (r: Result<
        VoidRequest,
        EngineFault,
    >)
        requires
            engine_wf(old(engine)@),
        ensures
            engine_wf(final (engine)@),
            op_issued(
                self@,
                old(engine)@,
                final (engine)@,
                OperationModel::Delete(key@),
                void_result_model(r),
            ),
    {
        self.delete(engine, &key)
    }

    /// Queue a lookup of the value at `key`; the wrapper resolves with the
    /// value as of this operation's place in the queue, or with its absence.
    pub fn get(&self, engine: &mut Engine, key: &String) -> (r: Result<ValueRequest, EngineFault>)
        requires
            engine_wf(old(engine)@),
        ensures
            engine_wf(final (engine)@),
            op_issued(
                self@,
                old(engine)@,
                final (engine)@,
                OperationModel::Get(key@),
                value_result_model(r),
            ),
    {
        match self.issue_op(engine, Operation::Get(key.clone())) {
            Ok((t, q)) => Ok(ValueRequest::new(t, q)),
            Err(f) => Err(f),
        }
    }

    /// Queue a lookup of the value at an owned `key`.
    pub fn get_owned(&self, engine: &mut Engine, key: String) -> (r: Result<
        ValueRequest,
        EngineFault,
    >)
        requires
            engine_wf(old(engine)@),
        ensures
            engine_wf(final (engine)@),
            op_issued(
                self@,
                old(engine)@,
                final (engine)@,
                OperationModel::Get(key@),
                value_result_model(r),
            ),
    {
        self.get(engine, &key)
    }

    /// Queue a lookup of every value in the store, in store order as of this
    /// operation's place in the queue.
    pub fn get_all(&self, engine: &mut Engine) -> (r: Result<AllValuesRequest, EngineFault>)
        requires
            engine_wf(old(engine)@),
        ensures
            engine_wf(final (engine)@),
            op_issued(
                self@,
                old(engine)@,
                final (engine)@,
                OperationModel::GetAll,
                all_result_model(r),
            ),
    {
        match self.issue_op(engine, Operation::GetAll) {
            Ok((t, q)) => Ok(AllValuesRequest::new(t, q)),
            Err(f) => Err(f),
        }
    }

    /// The store's key-generation policy: a synchronous attribute read, no
    /// request involved.
    pub fn auto_increment(&self, engine: &Engine) -> (r: bool)
        requires
            self@.store_idx < engine@.stores.len(),
        ensures
            r == engine@.stores[self@.store_idx].auto_increment,
    {
        engine.store_auto_increment(self.store_idx)
    }

    /// The names of the store's indices, re-read from engine state on every
    /// call; the engine leaves their order unspecified, so callers should
    /// treat the collection as a set.
    pub fn index_names(&self, engine: &Engine) -> (r: Vec<String>)
        requires
            self@.store_idx < engine@.stores.len(),
        ensures
            r@.map_values(|s: String| s@) == engine@.stores[self@.store_idx].index_names,
    {
        engine.store_index_names(self.store_idx)
    }

    /// Create an index named `name` on this store — permitted only inside a
    /// live version-change transaction; a taken name is a constraint fault.
    pub fn create_index(&self, engine: &mut Engine, name: &String) -> (r: Result<
        IdbIndex,
        EngineFault,
    >)
        requires
            engine_wf(old(engine)@),
        ensures
            engine_wf(final (engine)@),
            self@.tx is None ==> r == Err::<IdbIndex, EngineFault>(EngineFault::InvalidState)
                && *final (engine) == *old(engine),
            ({
                let m = old(engine)@;
                self@.tx matches Some(tid) ==> {
                    if tid >= m.txs.len() {
                        r == Err::<IdbIndex, EngineFault>(EngineFault::NotFound) && *final (engine)
                            == *old(engine)
                    } else if m.txs[tid].finished {
                        r == Err::<IdbIndex, EngineFault>(EngineFault::TransactionInactive)
                            && *final (engine) == *old(engine)
                    } else if m.txs[tid].mode != IdbTransactionMode::Versionchange {
                        r == Err::<IdbIndex, EngineFault>(EngineFault::InvalidState) && *final (engine) == *old(engine)
                    } else if !scope_contains(m.txs[tid].scope, self@.store_idx) {
                        r == Err::<IdbIndex, EngineFault>(EngineFault::NotFound) && *final (engine)
                            == *old(engine)
                    } else if has_name(m.stores[self@.store_idx].index_names, name@) {
                        r == Err::<IdbIndex, EngineFault>(EngineFault::Constraint) && final (engine)@ == old(engine)@
                    } else {
                        &&& r matches Ok(ix) && ix@ == name@
                        &&& final (engine)@.txs == m.txs
                        &&& final (engine)@.stores == m.stores.update(
                            self@.store_idx,
                            crate::engine::StoreModel {
                                index_names: m.stores[self@.store_idx].index_names.push(name@),
                                ..m.stores[self@.store_idx]
                            },
                        )
                    }
                }
            }),
    {
        match self.tx {
            Some(t) => {
                match engine.create_index(t.id(), self.store_idx, name) {
                    Ok(()) => Ok(IdbIndex { name: name.clone() }),
                    Err(f) => Err(f),
                }
            },
            None => Err(EngineFault::InvalidState),
        }
    }

    /// Look up an existing index by name; an absent name is a not-found
    /// fault.
    pub fn index(&self, engine: &Engine, name: &String) -> (r: Result<IdbIndex, EngineFault>)
        requires
            self@.store_idx < engine@.stores.len(),
        ensures
            has_name(engine@.stores[self@.store_idx].index_names, name@) ==> (r matches Ok(ix)
                && ix@ == name@),
            !has_name(engine@.stores[self@.store_idx].index_names, name@) ==> r == Err::<
                IdbIndex,
                EngineFault,
            >(EngineFault::NotFound),
    {
        if engine.store_has_index(self.store_idx, name) {
            Ok(IdbIndex { name: name.clone() })
        } else {
            Err(EngineFault::NotFound)
        }
    }
}

} // verus!
