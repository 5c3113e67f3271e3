//! The database handle: a named, versioned connection and the factory for
//! transactions. The handle must outlive every transaction derived from it;
//! transactions borrow it and hand the borrow on to their store accessors.

use vstd::prelude::*;

use crate::engine::{
    clone_names, engine_wf, has_store, lemma_store_index, store_index_of, Engine, EngineFault,
    IdbTransactionMode, OpModel,
};
use crate::idb_object_store::IdbObjectStore;
use crate::idb_transaction::IdbTransaction;
use crate::listeners::bridge_fresh;

verus! {

/// Mathematical model of a database handle.
pub struct DbModel {
    pub name: Seq<char>,
    pub version: u32,
}

/// A live connection to a named, versioned database.
pub struct IdbDatabase {
    name: String,
    version: u32,
}

impl View for IdbDatabase {
    type V = DbModel;

    closed spec fn view(&self) -> DbModel {
        DbModel { name: self.name@, version: self.version }
    }
}

impl IdbDatabase {
    /// A handle onto the named database at the given schema version.
    pub fn new(name: String, version: u32) -> (r: IdbDatabase)
        ensures
            r@ == (DbModel { name: name@, version: version }),
    {
        IdbDatabase { name, version }
    }

    /// The database's name.
    pub fn name(&self) -> (r: &String)
        ensures
            r@ == self@.name,
    {
        &self.name
    }

    /// The current schema version.
    pub fn version(&self) -> (r: u32)
        ensures
            r == self@.version,
    {
        self.version
    }

    /// An accessor scoped to this handle alone: each operation issued
    /// through it opens its own short-lived read-write auto-transaction. A
    /// name the engine does not know is a not-found fault.
    pub fn object_store<'db>(&'db self, engine: &Engine, name: &String) -> (r: Result<
        IdbObjectStore<'db>,
        EngineFault,
    >)
        requires
            engine_wf(engine@),
        ensures
            !has_store(engine@.stores, name@) ==> r == Err::<IdbObjectStore<'db>, EngineFault>(
                EngineFault::NotFound,
            ),
            has_store(engine@.stores, name@) ==> (r matches Ok(st) && {
                &&& st@.store_idx == store_index_of(engine@.stores, name@)
                &&& st@.store_name == name@
                &&& st@.tx is None
            }),
    {
        match engine.find_store(name) {
            Some(idx) => {
                proof {
                    lemma_store_index(engine@.stores, name@, idx as int);
                }
                Ok(IdbObjectStore::from_db(idx, name.clone(), self))
            },
            None => Err(EngineFault::NotFound),
        }
    }

    /// Open a transaction over several stores. The transaction's listener
    /// set is bound at construction, before any operation can be observed.
    /// Faults: an empty scope, or a store name the engine does not know.
    pub fn transaction_on_multi_with_mode<'db>(
        &'db self,
        engine: &mut Engine,
        names: &Vec<String>,
        mode: IdbTransactionMode,
    ) -> (r: Result<IdbTransaction<'db>, EngineFault>)
        requires
            engine_wf(old(engine)@),
        ensures
            engine_wf(final (engine)@),
            names@.len() == 0 ==> r is Err && *final (engine) == *old(engine),
            names@.len() > 0 && (exists|j: int|
                0 <= j < names@.len() && !has_store(old(engine)@.stores, names@[j]@)) ==> r is Err
                && *final (engine) == *old(engine),
            names@.len() > 0 && (forall|j: int|
                0 <= j < names@.len() ==> has_store(old(engine)@.stores, names@[j]@)) ==> (
            r matches Ok(tx) && {
                &&& tx@.tx_id == old(engine)@.txs.len()
                &&& tx@.mode == mode
                &&& tx@.store_names == names@.map_values(|s: String| s@)
                &&& tx@.bridge == bridge_fresh()
                &&& final (engine)@.stores == old(engine)@.stores
                &&& final (engine)@.txs.len() == old(engine)@.txs.len() + 1
                &&& final (engine)@.txs.take(old(engine)@.txs.len() as int) == old(engine)@.txs
                &&& ({
                    let t = final (engine)@.txs.last();
                    &&& t.mode == mode
                    &&& t.ops == Seq::<OpModel>::empty()
                    &&& !t.finished
                    &&& t.scope.len() == names@.len()
                    &&& forall|j: int|
                        0 <= j < t.scope.len() ==> 0 <= #[trigger] t.scope[j]
                            < final (engine)@.stores.len()
                            && final (engine)@.stores[t.scope[j]].name == names@[j]@
                })
            }),
    {
        match engine.begin(names, mode) {
            Ok(tid) => Ok(IdbTransaction::new(tid, mode, clone_names(names), self)),
            Err(f) => Err(f),
        }
    }

    /// Open a read-only transaction over several stores.
    pub fn transaction_on_multi<'db>(&'db self, engine: &mut Engine, names: &Vec<String>) -> (r:
        Result<IdbTransaction<'db>, EngineFault>)
        requires
            engine_wf(old(engine)@),
        ensures
            engine_wf(final (engine)@),
            names@.len() == 0 ==> r is Err && *final (engine) == *old(engine),
            names@.len() > 0 && (exists|j: int|
                0 <= j < names@.len() && !has_store(old(engine)@.stores, names@[j]@)) ==> r is Err
                && *final (engine) == *old(engine),
            names@.len() > 0 && (forall|j: int|
                0 <= j < names@.len() ==> has_store(old(engine)@.stores, names@[j]@)) ==> (
            r matches Ok(tx) && {
                &&& tx@.tx_id == old(engine)@.txs.len()
                &&& tx@.mode == IdbTransactionMode::Readonly
                &&& tx@.store_names == names@.map_values(|s: String| s@)
                &&& tx@.bridge == bridge_fresh()
                &&& final (engine)@.stores == old(engine)@.stores
                &&& final (engine)@.txs.len() == old(engine)@.txs.len() + 1
                &&& final (engine)@.txs.take(old(engine)@.txs.len() as int) == old(engine)@.txs
                &&& !final (engine)@.txs.last().finished
                &&& final (engine)@.txs.last().mode == IdbTransactionMode::Readonly
                &&& final (engine)@.txs.last().ops == Seq::<OpModel>::empty()
            }),
    {
        self.transaction_on_multi_with_mode(engine, names, IdbTransactionMode::Readonly)
    }

    /// Open a transaction over one store.
    pub fn transaction_on_one_with_mode<'db>(
        &'db self,
        engine: &mut Engine,
        name: &String,
        mode: IdbTransactionMode,
    ) -> (r: Result<IdbTransaction<'db>, EngineFault>)
        requires
            engine_wf(old(engine)@),
        ensures
            engine_wf(final (engine)@),
            !has_store(old(engine)@.stores, name@) ==> r is Err && *final (engine) == *old(engine),
            has_store(old(engine)@.stores, name@) ==> (r matches Ok(tx) && {
                &&& tx@.tx_id == old(engine)@.txs.len()
                &&& tx@.mode == mode
                &&& tx@.store_names == seq![name@]
                &&& tx@.bridge == bridge_fresh()
                &&& final (engine)@.stores == old(engine)@.stores
                &&& final (engine)@.txs.len() == old(engine)@.txs.len() + 1
                &&& final (engine)@.txs.take(old(engine)@.txs.len() as int) == old(engine)@.txs
                &&& ({
                    let t = final (engine)@.txs.last();
                    &&& t.mode == mode
                    &&& t.ops == Seq::<OpModel>::empty()
                    &&& !t.finished
                    &&& t.scope.len() == 1
                    &&& 0 <= t.scope[0] < final (engine)@.stores.len()
                    &&& final (engine)@.stores[t.scope[0]].name == name@
                })
            }),
    {
        let mut names: Vec<String> = Vec::new();
        names.push(name.clone());
        proof {
            assert(names@.map_values(|s: String| s@) =~= seq![name@]);
            if has_store(old(engine)@.stores, name@) {
                assert forall|j: int| 0 <= j < names@.len() implies has_store(
                    old(engine)@.stores,
                    names@[j]@,
                ) by {
                    assert(names@[j]@ == name@);
                }
            } else {
                assert(!has_store(old(engine)@.stores, names@[0]@));
            }
        }
        let r = self.transaction_on_multi_with_mode(engine, &names, mode);
        proof {
            if has_store(old(engine)@.stores, name@) {
                assert(r matches Ok(tx) && tx@.store_names =~= seq![name@]);
            }
        }
        r
    }

    /// Open a read-only transaction over one store.
    pub fn transaction_on_one<'db>(&'db self, engine: &mut Engine, name: &String) -> (r: Result<
        IdbTransaction<'db>,
        EngineFault,
    >)
        requires
            engine_wf(old(engine)@),
        ensures
            engine_wf(final (engine)@),
            !has_store(old(engine)@.stores, name@) ==> r is Err && *final (engine) == *old(engine),
            has_store(old(engine)@.stores, name@) ==> (r matches Ok(tx) && {
                &&& tx@.tx_id == old(engine)@.txs.len()
                &&& tx@.mode == IdbTransactionMode::Readonly
                &&& tx@.store_names == seq![name@]
                &&& tx@.bridge == bridge_fresh()
                &&& final (engine)@.stores == old(engine)@.stores
                &&& final (engine)@.txs.len() == old(engine)@.txs.len() + 1
                &&& final (engine)@.txs.take(old(engine)@.txs.len() as int) == old(engine)@.txs
                &&& ({
                    let t = final (engine)@.txs.last();
                    &&& t.mode == IdbTransactionMode::Readonly
                    &&& t.ops == Seq::<OpModel>::empty()
                    &&& !t.finished
                    &&& t.scope.len() == 1
                    &&& 0 <= t.scope[0] < final (engine)@.stores.len()
                    &&& final (engine)@.stores[t.scope[0]].name == name@
                })
            }),
    {
        self.transaction_on_one_with_mode(engine, name, IdbTransactionMode::Readonly)
    }
}

} // verus!
