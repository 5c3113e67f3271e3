//! An in-memory model of the storage engine.
//!
//! The real engine is a callback-driven, transactional object store owned by
//! the host. This module models the part of its behaviour that the rest of
//! the crate relies on: named object stores of keyed records, transactions
//! that queue keyed operations and settle them atomically in issuance order,
//! and the synchronous faults the engine raises at a call site.
//!
//! The records of one store are held as a sequence of key/value pairs with
//! pairwise distinct keys; [`put_records`], [`delete_records`] and
//! [`apply_op`] fix, at the specification level, what every operation does to
//! that sequence, and [`run_ops`] what a whole queued transaction does —
//! including the all-or-nothing rollback when an operation fails.

use vstd::prelude::*;

use crate::listeners::TerminalEvent;
use crate::request::{PayloadModel, RequestPayload};
use crate::value::{StoreValue, ValueModel};

verus! {

/// A synchronous engine fault, raised at the call site that provoked it —
/// never retried, never deferred to a callback.
#[derive(Clone, Copy, Debug, PartialEq, Eq, Structural)]
pub enum EngineFault {
    /// A named store or index does not exist (or is outside the
    /// transaction's scope).
    NotFound,
    /// The transaction has already settled or been aborted.
    TransactionInactive,
    /// A mutation was attempted through a read-only transaction.
    ReadOnly,
    /// A name that must be fresh (store, index, record key) already exists.
    Constraint,
    /// A transaction was requested over an empty scope.
    InvalidAccess,
    /// A schema mutation was attempted outside a version-change transaction.
    InvalidState,
    /// No key could be derived from the value of a keyless add or put.
    Data,
}

/// Mathematical model of one stored record.
pub struct RecordModel {
    pub key: Seq<char>,
    pub value: ValueModel,
}

/// One keyed record of an object store.
struct Record {
    key: String,
    value: StoreValue,
}

impl View for Record {
    type V = RecordModel;

    closed spec fn view(&self) -> RecordModel {
        RecordModel { key: self.key@, value: self.value@ }
    }
}

/// Keys of the record sequence are pairwise distinct.
pub open spec fn unique_keys(rs: Seq<RecordModel>) -> bool {
    forall|i: int, j: int| 0 <= i < j < rs.len() ==> rs[i].key != rs[j].key
}

/// Some record carries key `k`.
pub open spec fn has_key(rs: Seq<RecordModel>, k: Seq<char>) -> bool {
    exists|i: int| 0 <= i < rs.len() && rs[i].key == k
}

/// The position of the record carrying key `k` (unique when keys are).
pub open spec fn key_index(rs: Seq<RecordModel>, k: Seq<char>) -> int {
    choose|i: int| 0 <= i < rs.len() && rs[i].key == k
}

/// The value stored under `k`, if any.
pub open spec fn lookup(rs: Seq<RecordModel>, k: Seq<char>) -> Option<ValueModel> {
    if has_key(rs, k) {
        Some(rs[key_index(rs, k)].value)
    } else {
        None
    }
}

/// What a put leaves behind: the record under `k` replaced in place, or a
/// fresh record appended.
pub open spec fn put_records(rs: Seq<RecordModel>, k: Seq<char>, v: ValueModel) -> Seq<
    RecordModel,
> {
    if has_key(rs, k) {
        rs.update(key_index(rs, k), RecordModel { key: k, value: v })
    } else {
        rs.push(RecordModel { key: k, value: v })
    }
}

/// What a delete leaves behind: the record under `k` removed, or — when no
/// such record exists — the sequence exactly as it was.
pub open spec fn delete_records(rs: Seq<RecordModel>, k: Seq<char>) -> Seq<RecordModel> {
    if has_key(rs, k) {
        rs.remove(key_index(rs, k))
    } else {
        rs
    }
}

/// When keys are unique, the witness position of a key is the position.
pub proof fn lemma_key_index(rs: Seq<RecordModel>, k: Seq<char>, i: int)
    requires
        unique_keys(rs),
        0 <= i < rs.len(),
        rs[i].key == k,
    ensures
        has_key(rs, k),
        key_index(rs, k) == i,
{
    assert(has_key(rs, k));
    let j = key_index(rs, k);
    if i < j {
        assert(rs[i].key != rs[j].key);
    } else if j < i {
        assert(rs[j].key != rs[i].key);
    }
}

/// A put preserves key uniqueness.
pub proof fn lemma_put_unique(rs: Seq<RecordModel>, k: Seq<char>, v: ValueModel)
    requires
        unique_keys(rs),
    ensures
        unique_keys(put_records(rs, k, v)),
        lookup(put_records(rs, k, v), k) == Some(v),
        forall|k2: Seq<char>|
            k2 != k ==> #[trigger] lookup(put_records(rs, k, v), k2) == lookup(rs, k2),
{
    let ps = put_records(rs, k, v);
    if has_key(rs, k) {
        let i = key_index(rs, k);
        assert(0 <= i < rs.len() && rs[i].key == k);
        assert forall|a: int, b: int| 0 <= a < b < ps.len() implies ps[a].key != ps[b].key by {
            assert(rs[a].key != rs[b].key);
        }
        lemma_key_index(ps, k, i);
        assert forall|k2: Seq<char>| k2 != k implies #[trigger] lookup(ps, k2) == lookup(
            rs,
            k2,
        ) by {
            lemma_lookup_pointwise(rs, ps, k2);
        }
    } else {
        assert forall|a: int, b: int| 0 <= a < b < ps.len() implies ps[a].key != ps[b].key by {
            if b < ps.len() - 1 {
                assert(rs[a].key != rs[b].key);
            } else {
                assert(!(rs[a].key == k));
            }
        }
        lemma_key_index(ps, k, rs.len() as int);
        assert forall|k2: Seq<char>| k2 != k implies #[trigger] lookup(ps, k2) == lookup(
            rs,
            k2,
        ) by {
            lemma_lookup_pointwise(rs, ps, k2);
        }
    }
}

/// A delete preserves key uniqueness, removes exactly the asked-for key, and
/// on an absent key leaves the records untouched.
pub proof fn lemma_delete_unique(rs: Seq<RecordModel>, k: Seq<char>)
    requires
        unique_keys(rs),
    ensures
        unique_keys(delete_records(rs, k)),
        lookup(delete_records(rs, k), k) is None,
        forall|k2: Seq<char>|
            k2 != k ==> #[trigger] lookup(delete_records(rs, k), k2) == lookup(rs, k2),
        !has_key(rs, k) ==> delete_records(rs, k) == rs,
{
    let ds = delete_records(rs, k);
    if has_key(rs, k) {
        let i = key_index(rs, k);
        assert(0 <= i < rs.len() && rs[i].key == k);
        assert forall|a: int, b: int| 0 <= a < b < ds.len() implies ds[a].key != ds[b].key by {
            let a0 = if a < i {
                a
            } else {
                a + 1
            };
            let b0 = if b < i {
                b
            } else {
                b + 1
            };
            assert(rs[a0].key != rs[b0].key);
        }
        if has_key(ds, k) {
            let j = key_index(ds, k);
            assert(0 <= j < ds.len() && ds[j].key == k);
            let j0 = if j < i {
                j
            } else {
                j + 1
            };
            assert(rs[j0].key == k);
            lemma_key_index(rs, k, j0);
        }
        assert forall|k2: Seq<char>| k2 != k implies #[trigger] lookup(ds, k2) == lookup(
            rs,
            k2,
        ) by {
            lemma_lookup_pointwise_delete(rs, ds, i, k2);
        }
    }
}

/// Pointwise agreement of lookups between a sequence and its put image, for
/// keys other than the one put.
proof fn lemma_lookup_pointwise(rs: Seq<RecordModel>, ps: Seq<RecordModel>, k2: Seq<char>)
    requires
        unique_keys(rs),
        unique_keys(ps),
        rs.len() <= ps.len(),
        ps.len() <= rs.len() + 1,
        forall|i: int| 0 <= i < rs.len() && rs[i].key == k2 ==> ps[i] == rs[i],
        forall|i: int| 0 <= i < ps.len() && ps[i].key == k2 ==> i < rs.len() && ps[i] == rs[i],
    ensures
        lookup(ps, k2) == lookup(rs, k2),
{
    if has_key(rs, k2) {
        let i = key_index(rs, k2);
        assert(0 <= i < rs.len() && rs[i].key == k2);
        assert(ps[i] == rs[i]);
        lemma_key_index(ps, k2, i);
    } else if has_key(ps, k2) {
        let i = key_index(ps, k2);
        assert(0 <= i < ps.len() && ps[i].key == k2);
        assert(rs[i].key == k2);
    }
}

/// Pointwise agreement of lookups between a sequence and its delete image,
/// for keys other than the one deleted.
proof fn lemma_lookup_pointwise_delete(
    rs: Seq<RecordModel>,
    ds: Seq<RecordModel>,
    i: int,
    k2: Seq<char>,
)
    requires
        unique_keys(rs),
        unique_keys(ds),
        0 <= i < rs.len(),
        rs[i].key != k2,
        ds == rs.remove(i),
    ensures
        lookup(ds, k2) == lookup(rs, k2),
{
    if has_key(rs, k2) {
        let j = key_index(rs, k2);
        assert(0 <= j < rs.len() && rs[j].key == k2);
        let j1 = if j < i {
            j
        } else {
            j - 1
        };
        assert(ds[j1].key == k2);
        lemma_key_index(ds, k2, j1);
    } else if has_key(ds, k2) {
        let j = key_index(ds, k2);
        assert(0 <= j < ds.len() && ds[j].key == k2);
        let j0 = if j < i {
            j
        } else {
            j + 1
        };
        assert(rs[j0].key == k2);
    }
}

/// Names of the sequence are pairwise distinct.
pub open spec fn unique_names(ns: Seq<Seq<char>>) -> bool {
    forall|i: int, j: int| 0 <= i < j < ns.len() ==> ns[i] != ns[j]
}

/// Some name of the sequence equals `n`.
pub open spec fn has_name(ns: Seq<Seq<char>>, n: Seq<char>) -> bool {
    exists|i: int| 0 <= i < ns.len() && ns[i] == n
}

/// Mathematical model of one object store.
pub struct StoreModel {
    pub name: Seq<char>,
    pub records: Seq<RecordModel>,
    pub index_names: Seq<Seq<char>>,
    pub auto_increment: bool,
}

/// Well-formedness of a store: record keys and index names are unique.
pub open spec fn store_wf(m: StoreModel) -> bool {
    unique_keys(m.records) && unique_names(m.index_names)
}

/// One named object store of the engine model.
pub struct ObjectStoreState {
    name: String,
    records: Vec<Record>,
    index_names: Vec<String>,
    auto_increment: bool,
}

impl View for ObjectStoreState {
    type V = StoreModel;

    closed spec fn view(&self) -> StoreModel {
        StoreModel {
            name: self.name@,
            records: self.records@.map_values(|r: Record| r@),
            index_names: self.index_names@.map_values(|s: String| s@),
            auto_increment: self.auto_increment,
        }
    }
}

impl ObjectStoreState {
    /// An empty store under the given name.
    pub fn new(name: String, auto_increment: bool) -> (r: ObjectStoreState)
        ensures
            r@ == (StoreModel {
                name: name@,
                records: Seq::<RecordModel>::empty(),
                index_names: Seq::<Seq<char>>::empty(),
                auto_increment: auto_increment,
            }),
            store_wf(r@),
    {
        let r = ObjectStoreState { name, records: Vec::new(), index_names: Vec::new(), auto_increment };
        proof {
            assert(r@.records =~= Seq::<RecordModel>::empty());
            assert(r@.index_names =~= Seq::<Seq<char>>::empty());
        }
        r
    }

    /// The store's name.
    pub fn name(&self) -> (r: &String)
        ensures
            r@ == self@.name,
    {
        &self.name
    }

    /// The store's key-generation policy, fixed at creation.
    pub fn auto_increment(&self) -> (r: bool)
        ensures
            r == self@.auto_increment,
    {
        self.auto_increment
    }

    /// The position of the record under `key`, scanning in store order.
    fn find_key(&self, key: &String) -> (r: Option<usize>)
        ensures
            match r {
                Some(i) => i < self@.records.len() && self@.records[i as int].key == key@,
                None => !has_key(self@.records, key@),
            },
    {
        let ghost rs = self@.records;
        let mut i: usize = 0;
        while i < self.records.len()
            invariant
                i <= rs.len(),
                rs == self@.records,
                rs.len() == self.records@.len(),
                forall|j: int| 0 <= j < i ==> rs[j].key != key@,
            decreases rs.len() - i,
        {
            if self.records[i].key == *key {
                assert(rs[i as int].key == key@);
                return Some(i);
            }
            i += 1;
        }
        None
    }

    /// Store `value` under `key`, overwriting any existing record in place.
    pub fn put(&mut self, key: &String, value: &StoreValue)
        requires
            store_wf(old(self)@),
        ensures
            final (self)@ == (StoreModel {
                records: put_records(old(self)@.records, key@, value@),
                ..old(self)@
            }),
            store_wf(final (self)@),
    {
        proof {
            lemma_put_unique(self@.records, key@, value@);
        }
        match self.find_key(key) {
            Some(i) => {
                proof {
                    lemma_key_index(self@.records, key@, i as int);
                }
                let slot = &mut self.records[i];
                slot.key = key.clone();
                slot.value = value.duplicate();
                assert(self@.records =~= put_records(old(self)@.records, key@, value@));
            },
            None => {
                self.records.push(Record { key: key.clone(), value: value.duplicate() });
                assert(self@.records =~= put_records(old(self)@.records, key@, value@));
            },
        }
        assert(self@ =~= (StoreModel {
            records: put_records(old(self)@.records, key@, value@),
            ..old(self)@
        }));
    }

    /// Store `value` under `key` only if the key is fresh; an existing key is
    /// the engine's constraint failure, reported with its diagnostic detail
    /// and leaving the store untouched.
    pub fn add(&mut self, key: &String, value: &StoreValue) -> (r: Result<(), String>)
        requires
            store_wf(old(self)@),
        ensures
            !has_key(old(self)@.records, key@) ==> r is Ok && final (self)@ == (StoreModel {
                records: old(self)@.records.push(RecordModel { key: key@, value: value@ }),
                ..old(self)@
            }),
            has_key(old(self)@.records, key@) ==> (r matches Err(m) && m@ == dup_key_detail())
                && *final (self) == *old(self),
            store_wf(final (self)@),
    {
        match self.find_key(key) {
            Some(i) => {
                proof {
                    assert(has_key(self@.records, key@));
                }
                Err(dup_key_string())
            },
            None => {
                proof {
                    lemma_put_unique(self@.records, key@, value@);
                }
                self.records.push(Record { key: key.clone(), value: value.duplicate() });
                assert(self@.records =~= old(self)@.records.push(
                    RecordModel { key: key@, value: value@ },
                ));
                assert(self@ =~= (StoreModel {
                    records: old(self)@.records.push(RecordModel { key: key@, value: value@ }),
                    ..old(self)@
                }));
                Ok(())
            },
        }
    }

    /// Remove the record under `key`; removing an absent key succeeds and
    /// leaves the store exactly as it was.
    pub fn delete(&mut self, key: &String)
        requires
            store_wf(old(self)@),
        ensures
            final (self)@ == (StoreModel {
                records: delete_records(old(self)@.records, key@),
                ..old(self)@
            }),
            store_wf(final (self)@),
    {
        proof {
            lemma_delete_unique(self@.records, key@);
        }
        match self.find_key(key) {
            Some(i) => {
                proof {
                    lemma_key_index(self@.records, key@, i as int);
                }
                self.records.remove(i);
                assert(self@.records =~= delete_records(old(self)@.records, key@));
            },
            None => {
                assert(self@.records =~= delete_records(old(self)@.records, key@));
            },
        }
        assert(self@ =~= (StoreModel {
            records: delete_records(old(self)@.records, key@),
            ..old(self)@
        }));
    }

    /// Remove every record of the store.
    pub fn clear(&mut self)
        ensures
            final (self)@ == (StoreModel { records: Seq::<RecordModel>::empty(), ..old(self)@ }),
            store_wf(final (self)@) == unique_names(old(self)@.index_names),
    {
        self.records.clear();
        assert(self@.records =~= Seq::<RecordModel>::empty());
        assert(self@ =~= (StoreModel {
            records: Seq::<RecordModel>::empty(),
            ..old(self)@
        }));
    }

    /// The value under `key`, if any, as a copy of the stored record.
    pub fn get(&self, key: &String) -> (r: Option<StoreValue>)
        requires
            store_wf(self@),
        ensures
            match r {
                Some(v) => lookup(self@.records, key@) == Some(v@),
                None => lookup(self@.records, key@) is None,
            },
    {
        match self.find_key(key) {
            Some(i) => {
                proof {
                    lemma_key_index(self@.records, key@, i as int);
                }
                Some(self.records[i].value.duplicate())
            },
            None => None,
        }
    }

    /// Every stored value, in store order.
    pub fn get_all(&self) -> (r: Vec<StoreValue>)
        ensures
            r@.map_values(|x: StoreValue| x@) == self@.records.map_values(
                |rec: RecordModel| rec.value,
            ),
    {
        let mut out: Vec<StoreValue> = Vec::new();
        let mut i: usize = 0;
        while i < self.records.len()
            invariant
                i <= self@.records.len(),
                self@.records.len() == self.records@.len(),
                out@.len() == i,
                forall|j: int| 0 <= j < i ==> out@[j]@ == self@.records[j].value,
            decreases self@.records.len() - i,
        {
            out.push(self.records[i].value.duplicate());
            i += 1;
        }
        assert(out@.map_values(|x: StoreValue| x@) =~= self@.records.map_values(
            |rec: RecordModel| rec.value,
        ));
        out
    }

    /// The position of `name` among the store's index names.
    fn find_index_name(&self, name: &String) -> (r: Option<usize>)
        ensures
            match r {
                Some(i) => i < self@.index_names.len() && self@.index_names[i as int] == name@,
                None => !has_name(self@.index_names, name@),
            },
    {
        let ghost ns = self@.index_names;
        let mut i: usize = 0;
        while i < self.index_names.len()
            invariant
                i <= ns.len(),
                ns == self@.index_names,
                ns.len() == self.index_names@.len(),
                forall|j: int| 0 <= j < i ==> ns[j] != name@,
            decreases ns.len() - i,
        {
            if self.index_names[i] == *name {
                assert(ns[i as int] == name@);
                return Some(i);
            }
            i += 1;
        }
        None
    }

    /// Whether the store carries an index named `name`.
    pub fn has_index(&self, name: &String) -> (r: bool)
        ensures
            r == has_name(self@.index_names, name@),
    {
        self.find_index_name(name).is_some()
    }

    /// Record a new index name; an existing one is the engine's constraint
    /// fault, raised synchronously and leaving the store untouched.
    pub fn create_index_name(&mut self, name: &String) -> (r: Result<(), EngineFault>)
        requires
            store_wf(old(self)@),
        ensures
            !has_name(old(self)@.index_names, name@) ==> r is Ok && final (self)@ == (StoreModel {
                index_names: old(self)@.index_names.push(name@),
                ..old(self)@
            }),
            has_name(old(self)@.index_names, name@) ==> r == Err::<(), EngineFault>(
                EngineFault::Constraint,
            ) && *final (self) == *old(self),
            store_wf(final (self)@),
    {
        match self.find_index_name(name) {
            Some(_) => Err(EngineFault::Constraint),
            None => {
                self.index_names.push(name.clone());
                assert(self@.index_names =~= old(self)@.index_names.push(name@));
                assert(self@ =~= (StoreModel {
                    index_names: old(self)@.index_names.push(name@),
                    ..old(self)@
                }));
                assert forall|a: int, b: int|
                    0 <= a < b < self@.index_names.len() implies self@.index_names[a]
                    != self@.index_names[b] by {
                    if b < self@.index_names.len() - 1 {
                        assert(old(self)@.index_names[a] != old(self)@.index_names[b]);
                    } else {
                        assert(!(old(self)@.index_names[a] == name@));
                    }
                }
                Ok(())
            },
        }
    }

    /// The store's index names, in creation order; the engine leaves the
    /// order unspecified, so callers should treat the collection as a set.
    pub fn index_names(&self) -> (r: Vec<String>)
        ensures
            r@.map_values(|s: String| s@) == self@.index_names,
    {
        let mut out: Vec<String> = Vec::new();
        let mut i: usize = 0;
        while i < self.index_names.len()
            invariant
                i <= self@.index_names.len(),
                self@.index_names.len() == self.index_names@.len(),
                out@.len() == i,
                forall|j: int| 0 <= j < i ==> out@[j]@ == self@.index_names[j],
            decreases self@.index_names.len() - i,
        {
            out.push(self.index_names[i].clone());
            i += 1;
        }
        assert(out@.map_values(|s: String| s@) =~= self@.index_names);
        out
    }
}

/// The diagnostic detail the engine reports for an add on an existing key.
pub open spec fn dup_key_detail() -> Seq<char> {
    "key already exists"@
}

/// The diagnostic detail delivered to requests queued behind a failed
/// operation, whose transaction aborts before they are processed.
pub open spec fn aborted_detail() -> Seq<char> {
    "transaction aborted"@
}

fn dup_key_string() -> (r: String)
    ensures
        r@ == dup_key_detail(),
{
    "key already exists".to_owned()
}

fn aborted_string() -> (r: String)
    ensures
        r@ == aborted_detail(),
{
    "transaction aborted".to_owned()
}


/// Isolation modes of a transaction, fixed at creation.
#[derive(Clone, Copy, Debug, PartialEq, Eq, Structural)]
pub enum IdbTransactionMode {
    Readonly,
    Readwrite,
    Versionchange,
}

/// Mathematical model of one keyed operation.
pub enum OperationModel {
    Add(Seq<char>, ValueModel),
    Put(Seq<char>, ValueModel),
    Delete(Seq<char>),
    Clear,
    Get(Seq<char>),
    GetAll,
}

/// One keyed operation as queued on a transaction.
pub enum Operation {
    Add(String, StoreValue),
    Put(String, StoreValue),
    Delete(String),
    Clear,
    Get(String),
    GetAll,
}

impl View for Operation {
    type V = OperationModel;

    open spec fn view(&self) -> OperationModel {
        match self {
            Operation::Add(k, v) => OperationModel::Add(k@, v@),
            Operation::Put(k, v) => OperationModel::Put(k@, v@),
            Operation::Delete(k) => OperationModel::Delete(k@),
            Operation::Clear => OperationModel::Clear,
            Operation::Get(k) => OperationModel::Get(k@),
            Operation::GetAll => OperationModel::GetAll,
        }
    }
}

/// Whether the operation writes the store (reads are permitted in any mode).
pub open spec fn is_mutation(op: OperationModel) -> bool {
    match op {
        OperationModel::Add(_, _) => true,
        OperationModel::Put(_, _) => true,
        OperationModel::Delete(_) => true,
        OperationModel::Clear => true,
        OperationModel::Get(_) => false,
        OperationModel::GetAll => false,
    }
}

/// What one operation does to one store's records: the records afterwards
/// and the payload its request resolves with, or the engine's diagnostic
/// detail when the operation fails. Only an add on an existing key fails.
pub open spec fn apply_op(rs: Seq<RecordModel>, op: OperationModel) -> Result<
    (Seq<RecordModel>, PayloadModel),
    Seq<char>,
> {
    match op {
        OperationModel::Add(k, v) => if has_key(rs, k) {
            Err(dup_key_detail())
        } else {
            Ok((rs.push(RecordModel { key: k, value: v }), PayloadModel::Empty))
        },
        OperationModel::Put(k, v) => Ok((put_records(rs, k, v), PayloadModel::Empty)),
        OperationModel::Delete(k) => Ok((delete_records(rs, k), PayloadModel::Empty)),
        OperationModel::Clear => Ok((Seq::<RecordModel>::empty(), PayloadModel::Empty)),
        OperationModel::Get(k) => Ok((rs, PayloadModel::Single(lookup(rs, k)))),
        OperationModel::GetAll => Ok(
            (rs, PayloadModel::Many(rs.map_values(|r: RecordModel| r.value))),
        ),
    }
}

/// A delete never fails, and on an absent key it leaves the records exactly
/// as they were: removing what is not there is a successful no-op.
pub proof fn lemma_delete_nonexistent(rs: Seq<RecordModel>, k: Seq<char>)
    ensures
        apply_op(rs, OperationModel::Delete(k)) is Ok,
        !has_key(rs, k) ==> apply_op(rs, OperationModel::Delete(k)) == Ok::<
            (Seq<RecordModel>, PayloadModel),
            Seq<char>,
        >((rs, PayloadModel::Empty)),
{
}

/// An add on an already-present key fails with the engine's constraint
/// detail — and with exactly that detail, leaving no other way to fail.
pub proof fn lemma_add_duplicate_fails(rs: Seq<RecordModel>, k: Seq<char>, v: ValueModel)
    ensures
        has_key(rs, k) <==> apply_op(rs, OperationModel::Add(k, v)) == Err::<
            (Seq<RecordModel>, PayloadModel),
            Seq<char>,
        >(dup_key_detail()),
        !has_key(rs, k) ==> apply_op(rs, OperationModel::Add(k, v)) is Ok,
{
}

impl ObjectStoreState {
    /// Deep copy of the store with an exact contract.
    pub fn duplicate(&self) -> (r: ObjectStoreState)
        ensures
            r@ == self@,
    {
        let mut records: Vec<Record> = Vec::new();
        let mut i: usize = 0;
        while i < self.records.len()
            invariant
                i <= self.records@.len(),
                records@.len() == i,
                forall|j: int| 0 <= j < i ==> records@[j]@ == self.records@[j]@,
            decreases self.records@.len() - i,
        {
            let src = &self.records[i];
            records.push(Record { key: src.key.clone(), value: src.value.duplicate() });
            i += 1;
        }
        let r = ObjectStoreState {
            name: self.name.clone(),
            records,
            index_names: self.index_names(),
            auto_increment: self.auto_increment,
        };
        proof {
            assert(r@.records =~= self@.records);
            assert(r@.index_names =~= self@.index_names);
            assert(r@ =~= self@);
        }
        r
    }

    /// Perform one queued operation against this store, as the engine does at
    /// settlement: the store afterwards and the request payload (or the
    /// diagnostic detail, the store untouched) are exactly [`apply_op`] of
    /// the store's records.
    fn apply(&mut self, op: &Operation) -> (r: Result<RequestPayload, String>)
        requires
            store_wf(old(self)@),
        ensures
            store_wf(final (self)@),
            match apply_op(old(self)@.records, op@) {
                Ok((rs2, p)) => r matches Ok(pay) && pay@ == p && final (self)@ == (StoreModel {
                    records: rs2,
                    ..old(self)@
                }),
                Err(m) => (r matches Err(s) && s@ == m) && *final (self) == *old(self),
            },
    {
        match op {
            Operation::Add(k, v) => {
                match self.add(k, v) {
                    Ok(()) => Ok(RequestPayload::Empty),
                    Err(m) => Err(m),
                }
            },
            Operation::Put(k, v) => {
                self.put(k, v);
                Ok(RequestPayload::Empty)
            },
            Operation::Delete(k) => {
                self.delete(k);
                Ok(RequestPayload::Empty)
            },
            Operation::Clear => {
                self.clear();
                Ok(RequestPayload::Empty)
            },
            Operation::Get(k) => {
                let v = self.get(k);
                Ok(RequestPayload::Single(v))
            },
            Operation::GetAll => {
                let vs = self.get_all();
                Ok(RequestPayload::Many(vs))
            },
        }
    }
}


/// One operation queued on a transaction, aimed at the store it was issued
/// against.
pub struct QueuedOp {
    store: usize,
    op: Operation,
}

/// Mathematical model of a queued operation.
pub struct OpModel {
    pub store: int,
    pub op: OperationModel,
}

impl View for QueuedOp {
    type V = OpModel;

    closed spec fn view(&self) -> OpModel {
        OpModel { store: self.store as int, op: self.op@ }
    }
}

/// Mathematical model of one transaction's book-keeping in the engine.
pub struct TxModel {
    pub mode: IdbTransactionMode,
    pub scope: Seq<int>,
    pub ops: Seq<OpModel>,
    pub finished: bool,
}

/// One transaction's book-keeping in the engine.
struct TxState {
    mode: IdbTransactionMode,
    scope: Vec<usize>,
    ops: Vec<QueuedOp>,
    finished: bool,
}

impl View for TxState {
    type V = TxModel;

    closed spec fn view(&self) -> TxModel {
        TxModel {
            mode: self.mode,
            scope: self.scope@.map_values(|i: usize| i as int),
            ops: self.ops@.map_values(|q: QueuedOp| q@),
            finished: self.finished,
        }
    }
}

/// Mathematical model of the whole engine.
pub struct EngineModel {
    pub stores: Seq<StoreModel>,
    pub txs: Seq<TxModel>,
}

/// The models of a sequence of stores.
pub open spec fn stores_model(ss: Seq<ObjectStoreState>) -> Seq<StoreModel> {
    ss.map_values(|s: ObjectStoreState| s@)
}

/// The models of a sequence of queued operations.
pub open spec fn ops_model(qs: Seq<QueuedOp>) -> Seq<OpModel> {
    qs.map_values(|q: QueuedOp| q@)
}

/// The resolutions a sequence of request events carries.
pub open spec fn events_model(evs: Seq<crate::request::RequestEvent>) -> Seq<
    crate::request::RequestOutcomeModel,
> {
    evs.map_values(|e: crate::request::RequestEvent| crate::request::outcome_of_request_event(e))
}

/// Every store of the sequence is well-formed.
pub open spec fn stores_wf(ms: Seq<StoreModel>) -> bool {
    forall|i: int| 0 <= i < ms.len() ==> store_wf(#[trigger] ms[i])
}

/// Every operation aims at a store index below `n`.
pub open spec fn ops_bounded(ops: Seq<OpModel>, n: int) -> bool {
    forall|i: int| 0 <= i < ops.len() ==> 0 <= (#[trigger] ops[i]).store < n
}

/// `i` is one of the transaction's scoped store indices.
pub open spec fn scope_contains(scope: Seq<int>, i: int) -> bool {
    exists|j: int| 0 <= j < scope.len() && scope[j] == i
}

/// Well-formedness of one transaction record against `n` stores.
pub open spec fn tx_wf(t: TxModel, n: int) -> bool {
    &&& forall|i: int| 0 <= i < t.scope.len() ==> 0 <= #[trigger] t.scope[i] < n
    &&& ops_bounded(t.ops, n)
}

/// Some store of the sequence is named `name`.
pub open spec fn has_store(ms: Seq<StoreModel>, name: Seq<char>) -> bool {
    exists|i: int| 0 <= i < ms.len() && ms[i].name == name
}

/// Store names are pairwise distinct.
pub open spec fn unique_store_names(ms: Seq<StoreModel>) -> bool {
    forall|i: int, j: int|
        0 <= i < j < ms.len() ==> (#[trigger] ms[i]).name != (#[trigger] ms[j]).name
}

/// The position of the store named `name` (unique when names are).
pub open spec fn store_index_of(ms: Seq<StoreModel>, name: Seq<char>) -> int {
    choose|i: int| 0 <= i < ms.len() && ms[i].name == name
}

/// When store names are unique, the witness position of a name is the
/// position.
pub proof fn lemma_store_index(ms: Seq<StoreModel>, name: Seq<char>, i: int)
    requires
        unique_store_names(ms),
        0 <= i < ms.len(),
        ms[i].name == name,
    ensures
        has_store(ms, name),
        store_index_of(ms, name) == i,
{
    assert(has_store(ms, name));
    let j = store_index_of(ms, name);
    if i < j {
        assert(ms[i].name != ms[j].name);
    } else if j < i {
        assert(ms[j].name != ms[i].name);
    }
}

/// Well-formedness of the engine: stores well-formed and uniquely named,
/// every transaction's scope and queue within bounds.
pub open spec fn engine_wf(m: EngineModel) -> bool {
    &&& stores_wf(m.stores)
    &&& unique_store_names(m.stores)
    &&& forall|t: int| 0 <= t < m.txs.len() ==> tx_wf(#[trigger] m.txs[t], m.stores.len() as int)
}

/// What one queued operation does to the engine's stores: the records of the
/// store it aims at change as [`apply_op`] says; everything else stands.
pub open spec fn apply_store_op(stores: Seq<StoreModel>, o: OpModel) -> Result<
    (Seq<StoreModel>, PayloadModel),
    Seq<char>,
> {
    if 0 <= o.store < stores.len() {
        match apply_op(stores[o.store].records, o.op) {
            Ok((rs2, p)) => Ok(
                (stores.update(o.store, StoreModel { records: rs2, ..stores[o.store] }), p),
            ),
            Err(m) => Err(m),
        }
    } else {
        Err(aborted_detail())
    }
}

/// What settling a whole queue yields: the stores afterwards, one resolution
/// per queued request, and the first failure if there was one.
pub struct RunModel {
    pub stores: Seq<StoreModel>,
    pub events: Seq<crate::request::RequestOutcomeModel>,
    pub error: Option<Seq<char>>,
}

/// Settle a queue of operations in issuance order, atomically: each
/// operation acts on the stores the previous ones left, and its request
/// resolves with the payload it produced; the first failing operation
/// resolves with its diagnostic, every request queued behind it resolves
/// with the abort diagnostic, and the stores roll back to exactly their
/// state before the first operation.
pub open spec fn run_ops(stores: Seq<StoreModel>, ops: Seq<OpModel>) -> RunModel
    decreases ops.len(),
{
    if ops.len() == 0 {
        RunModel { stores, events: Seq::<crate::request::RequestOutcomeModel>::empty(), error: None }
    } else {
        match apply_store_op(stores, ops[0]) {
            Ok((s2, p)) => {
                let rest = run_ops(s2, ops.drop_first());
                RunModel {
                    stores: if rest.error is Some {
                        stores
                    } else {
                        rest.stores
                    },
                    events: seq![crate::request::RequestOutcomeModel::Success(p)] + rest.events,
                    error: rest.error,
                }
            },
            Err(m) => RunModel {
                stores,
                events: seq![crate::request::RequestOutcomeModel::Failure(m)] + Seq::new(
                    (ops.len() - 1) as nat,
                    |i: int| crate::request::RequestOutcomeModel::Failure(aborted_detail()),
                ),
                error: Some(m),
            },
        }
    }
}

/// Settling leaves every store's identity alone — its name, index names and
/// key policy — changes only records, preserves well-formedness, and on any
/// failure leaves the stores exactly as they were (atomic rollback).
pub proof fn lemma_run_ops_frame(stores: Seq<StoreModel>, ops: Seq<OpModel>)
    requires
        stores_wf(stores),
        ops_bounded(ops, stores.len() as int),
    ensures
        ({
            let run = run_ops(stores, ops);
            &&& run.stores.len() == stores.len()
            &&& stores_wf(run.stores)
            &&& forall|i: int|
                0 <= i < stores.len() ==> (#[trigger] run.stores[i]).name == stores[i].name
                    && run.stores[i].index_names == stores[i].index_names
                    && run.stores[i].auto_increment == stores[i].auto_increment
            &&& run.error is Some ==> run.stores == stores
            &&& run.events.len() == ops.len()
        }),
    decreases ops.len(),
{
    if ops.len() > 0 {
        let o = ops[0];
        match apply_store_op(stores, o) {
            Ok((s2, p)) => {
                let rs = stores[o.store].records;
                match o.op {
                    OperationModel::Add(k, v) => {
                        lemma_put_unique(rs, k, v);
                    },
                    OperationModel::Put(k, v) => {
                        lemma_put_unique(rs, k, v);
                    },
                    OperationModel::Delete(k) => {
                        lemma_delete_unique(rs, k);
                    },
                    _ => {},
                }
                assert(stores_wf(s2));
                assert(ops_bounded(ops.drop_first(), s2.len() as int));
                lemma_run_ops_frame(s2, ops.drop_first());
            },
            Err(_) => {},
        }
    }
}

/// Operations settle in issuance order: running `ops1 + ops2` is running
/// `ops1`, then running `ops2` on what `ops1` left — with the whole queue
/// rolling back to the original stores if the later part fails. Awaiting a
/// transaction therefore observes the effects of everything issued before
/// it, in order, all or nothing.
pub proof fn lemma_run_ops_append(stores: Seq<StoreModel>, ops1: Seq<OpModel>, ops2: Seq<OpModel>)
    ensures
        ({
            let r1 = run_ops(stores, ops1);
            let r12 = run_ops(stores, ops1 + ops2);
            &&& r1.error is None ==> {
                let r2 = run_ops(r1.stores, ops2);
                &&& r12.error == r2.error
                &&& r12.stores == (if r2.error is None {
                    r2.stores
                } else {
                    stores
                })
                &&& r12.events == r1.events + r2.events
            }
            &&& r1.error is Some ==> r12.error == r1.error && r12.stores == stores
        }),
    decreases ops1.len(),
{
    let r1 = run_ops(stores, ops1);
    let r12 = run_ops(stores, ops1 + ops2);
    if ops1.len() == 0 {
        assert(ops1 + ops2 =~= ops2);
        let r2 = run_ops(stores, ops2);
        assert(r1.events + r2.events =~= r2.events);
    } else {
        let o = ops1[0];
        assert((ops1 + ops2)[0] == o);
        assert((ops1 + ops2).drop_first() =~= ops1.drop_first() + ops2);
        match apply_store_op(stores, o) {
            Ok((s2, p)) => {
                lemma_run_ops_append(s2, ops1.drop_first(), ops2);
                let rest1 = run_ops(s2, ops1.drop_first());
                if rest1.error is None {
                    let r2 = run_ops(rest1.stores, ops2);
                    let rest12 = run_ops(s2, ops1.drop_first() + ops2);
                    let hd = seq![crate::request::RequestOutcomeModel::Success(p)];
                    assert(r12.events =~= hd + rest12.events);
                    assert((hd + rest1.events) + r2.events =~= hd + (rest1.events + r2.events));
                }
            },
            Err(m) => {},
        }
    }
}

/// If everything issued before position `i` settles cleanly but the
/// operation at `i` fails on the stores those left behind — an unhandled
/// add on a duplicate key, say — then the whole transaction settles to a
/// failure and the stores roll back to exactly their original state.
pub proof fn lemma_failure_aborts_transaction(stores: Seq<StoreModel>, ops: Seq<OpModel>, i: int)
    requires
        0 <= i < ops.len(),
        run_ops(stores, ops.take(i)).error is None,
        apply_store_op(run_ops(stores, ops.take(i)).stores, ops[i]) is Err,
    ensures
        run_ops(stores, ops).error is Some,
        run_ops(stores, ops).stores == stores,
{
    assert(ops =~= ops.take(i) + ops.skip(i));
    lemma_run_ops_append(stores, ops.take(i), ops.skip(i));
    let r1 = run_ops(stores, ops.take(i));
    assert(ops.skip(i)[0] == ops[i]);
    let r2 = run_ops(r1.stores, ops.skip(i));
    assert(r2.error is Some);
}


/// The engine model: named object stores and the transactions opened on
/// them. All mutation flows through transactions; settlement applies a
/// transaction's queue atomically, in issuance order.
pub struct Engine {
    stores: Vec<ObjectStoreState>,
    txs: Vec<TxState>,
}

impl View for Engine {
    type V = EngineModel;

    closed spec fn view(&self) -> EngineModel {
        EngineModel {
            stores: stores_model(self.stores@),
            txs: self.txs@.map_values(|t: TxState| t@),
        }
    }
}

fn copy_stores(v: &Vec<ObjectStoreState>) -> (r: Vec<ObjectStoreState>)
    ensures
        stores_model(r@) == stores_model(v@),
{
    let mut out: Vec<ObjectStoreState> = Vec::new();
    let mut i: usize = 0;
    while i < v.len()
        invariant
            i <= v@.len(),
            out@.len() == i,
            forall|j: int| 0 <= j < i ==> out@[j]@ == v@[j]@,
        decreases v@.len() - i,
    {
        out.push(v[i].duplicate());
        i += 1;
    }
    proof {
        assert(stores_model(out@) =~= stores_model(v@));
    }
    out
}

/// Settle the queue from position `i` on against `stores`, recording one
/// resolution event per operation; returns the first failure's detail.
/// Exactly [`run_ops`] of the remaining queue — except that on failure the
/// partially mutated stores are left for the caller to discard.
fn run_queue(
    stores: &mut Vec<ObjectStoreState>,
    ops: &Vec<QueuedOp>,
    i: usize,
    events: &mut Vec<crate::request::RequestEvent>,
) -> (err: Option<String>)
    requires
        i <= ops@.len(),
        stores_wf(stores_model(old(stores)@)),
        ops_bounded(ops_model(ops@), old(stores)@.len() as int),
    ensures
        ({
            let run = run_ops(stores_model(old(stores)@), ops_model(ops@).skip(i as int));
            &&& events_model(final (events)@) == events_model(old(events)@) + run.events
            &&& match err {
                None => run.error is None,
                Some(m) => run.error == Some(m@),
            }
            &&& err is None ==> stores_model(final (stores)@) == run.stores
        }),
    decreases ops@.len() - i,
{
    let ghost stores0 = stores_model(stores@);
    let ghost opsm = ops_model(ops@);
    if i == ops.len() {
        proof {
            assert(opsm.skip(i as int) =~= Seq::<OpModel>::empty());
            let run = run_ops(stores0, opsm.skip(i as int));
            assert(events_model(events@) =~= events_model(events@) + run.events);
        }
        return None;
    }
    let q = &ops[i];
    proof {
        assert(opsm[i as int] == q@);
        assert(0 <= q@.store < stores0.len());
    }
    let res = stores[q.store].apply(&q.op);
    proof {
        assert(opsm.skip(i as int)[0] == opsm[i as int]);
        assert(opsm.skip(i as int).drop_first() =~= opsm.skip(i as int + 1));
    }
    match res {
        Ok(p) => {
            proof {
                assert(stores_model(stores@) =~= apply_store_op(stores0, q@)->Ok_0.0);
                assert(stores_wf(stores_model(stores@)));
            }
            events.push(crate::request::RequestEvent::Success(p));
            let err = run_queue(stores, ops, i + 1, events);
            proof {
                let run = run_ops(stores0, opsm.skip(i as int));
                assert(events_model(events@) =~= events_model(old(events)@) + run.events);
            }
            err
        },
        Err(m) => {
            let detail = m.clone();
            let ghost mm = m@;
            events.push(crate::request::RequestEvent::Error(m));
            let ghost evsnap = events@;
            let ghost evlen = events@.len() as int;
            let mut j: usize = i + 1;
            while j < ops.len()
                invariant
                    i + 1 <= j <= ops@.len(),
                    0 <= evlen <= events@.len(),
                    evlen == evsnap.len(),
                    events@.len() == evlen + (j - i - 1),
                    forall|k: int| 0 <= k < evlen ==> events@[k] == evsnap[k],
                    forall|k: int|
                        evlen <= k < events@.len() ==> ((#[trigger] events@[k]) matches
                            crate::request::RequestEvent::Error(t) && t@ == aborted_detail()),
                decreases ops@.len() - j,
            {
                let ghost pre = events@;
                events.push(crate::request::RequestEvent::Error(aborted_string()));
                proof {
                    assert(events@ == pre.push(events@.last()));
                    assert forall|k: int|
                        evlen <= k < events@.len() implies ((#[trigger] events@[k]) matches
                        crate::request::RequestEvent::Error(t) && t@ == aborted_detail()) by {
                        if k < pre.len() {
                            assert((pre.push(events@.last()))[k] == pre[k]);
                            assert(events@[k] == pre[k]);
                        }
                    }
                }
                j += 1;
            }
            proof {
                let run = run_ops(stores0, opsm.skip(i as int));
                assert(run.error == Some(mm));
                assert(events_model(events@) =~= events_model(old(events)@) + run.events);
            }
            Some(detail)
        },
    }
}

impl Engine {
    /// An engine with no stores and no transactions.
    pub fn new() -> (r: Engine)
        ensures
            r@.stores == Seq::<StoreModel>::empty(),
            r@.txs == Seq::<TxModel>::empty(),
            engine_wf(r@),
    {
        let r = Engine { stores: Vec::new(), txs: Vec::new() };
        proof {
            assert(r@.stores =~= Seq::<StoreModel>::empty());
            assert(r@.txs =~= Seq::<TxModel>::empty());
        }
        r
    }

    /// The number of object stores.
    pub fn store_count(&self) -> (r: usize)
        ensures
            r == self@.stores.len(),
    {
        self.stores.len()
    }

    /// The position of the store named `name`.
    pub fn find_store(&self, name: &String) -> (r: Option<usize>)
        ensures
            match r {
                Some(i) => i < self@.stores.len() && self@.stores[i as int].name == name@,
                None => !has_store(self@.stores, name@),
            },
    {
        let mut i: usize = 0;
        while i < self.stores.len()
            invariant
                i <= self@.stores.len(),
                self@.stores.len() == self.stores@.len(),
                forall|j: int| 0 <= j < i ==> self@.stores[j].name != name@,
            decreases self@.stores.len() - i,
        {
            if *self.stores[i].name() == *name {
                return Some(i);
            }
            i += 1;
        }
        None
    }

    /// Create an empty object store under a fresh name; a taken name is the
    /// engine's constraint fault and changes nothing.
    pub fn create_object_store(&mut self, name: &String, auto_increment: bool) -> (r: Result<
        usize,
        EngineFault,
    >)
        requires
            engine_wf(old(self)@),
        ensures
            engine_wf(final (self)@),
            has_store(old(self)@.stores, name@) ==> r == Err::<usize, EngineFault>(
                EngineFault::Constraint,
            ) && *final (self) == *old(self),
            !has_store(old(self)@.stores, name@) ==> {
                &&& r matches Ok(i) && i as int == old(self)@.stores.len()
                &&& final (self)@.txs == old(self)@.txs
                &&& final (self)@.stores == old(self)@.stores.push(StoreModel {
                    name: name@,
                    records: Seq::<RecordModel>::empty(),
                    index_names: Seq::<Seq<char>>::empty(),
                    auto_increment: auto_increment,
                })
            },
    {
        match self.find_store(name) {
            Some(_) => Err(EngineFault::Constraint),
            None => {
                let id = self.stores.len();
                self.stores.push(ObjectStoreState::new(name.clone(), auto_increment));
                proof {
                    assert(self@.stores =~= old(self)@.stores.push(StoreModel {
                        name: name@,
                        records: Seq::<RecordModel>::empty(),
                        index_names: Seq::<Seq<char>>::empty(),
                        auto_increment: auto_increment,
                    }));
                    assert(self@.txs =~= old(self)@.txs);
                    assert forall|t: int| 0 <= t < self@.txs.len() implies tx_wf(
                        #[trigger] self@.txs[t],
                        self@.stores.len() as int,
                    ) by {
                        assert(tx_wf(old(self)@.txs[t], old(self)@.stores.len() as int));
                    }
                }
                Ok(id)
            },
        }
    }

    /// Open a transaction over the named stores. An empty scope is an
    /// invalid-access fault; an unknown store name is a not-found fault;
    /// otherwise the new transaction starts live, with an empty queue, and
    /// its scope resolves the names in order.
    pub fn begin(&mut self, scope_names: &Vec<String>, mode: IdbTransactionMode) -> (r: Result<
        usize,
        EngineFault,
    >)
        requires
            engine_wf(old(self)@),
        ensures
            engine_wf(final (self)@),
            scope_names@.len() == 0 ==> r == Err::<usize, EngineFault>(EngineFault::InvalidAccess)
                && *final (self) == *old(self),
            scope_names@.len() > 0 && (exists|j: int|
                0 <= j < scope_names@.len() && !has_store(
                    old(self)@.stores,
                    scope_names@[j]@,
                )) ==> r == Err::<usize, EngineFault>(EngineFault::NotFound) && *final (self)
                == *old(self),
            scope_names@.len() > 0 && (forall|j: int|
                0 <= j < scope_names@.len() ==> has_store(old(self)@.stores, scope_names@[j]@))
                ==> {
                &&& r matches Ok(tid) && tid as int == old(self)@.txs.len()
                &&& final (self)@.stores == old(self)@.stores
                &&& final (self)@.txs.len() == old(self)@.txs.len() + 1
                &&& final (self)@.txs.take(old(self)@.txs.len() as int) == old(self)@.txs
                &&& ({
                    let t = final (self)@.txs.last();
                    &&& t.mode == mode
                    &&& t.ops == Seq::<OpModel>::empty()
                    &&& !t.finished
                    &&& t.scope.len() == scope_names@.len()
                    &&& forall|j: int|
                        0 <= j < t.scope.len() ==> 0 <= #[trigger] t.scope[j]
                            < final (self)@.stores.len()
                            && final (self)@.stores[t.scope[j]].name == scope_names@[j]@
                })
            },
    {
        if scope_names.len() == 0 {
            return Err(EngineFault::InvalidAccess);
        }
        let mut scope: Vec<usize> = Vec::new();
        let mut i: usize = 0;
        while i < scope_names.len()
            invariant
                i <= scope_names@.len(),
                scope@.len() == i,
                engine_wf(self@),
                self@.stores.len() == self.stores@.len(),
                forall|j: int|
                    0 <= j < i ==> (#[trigger] scope@[j]) < self@.stores.len()
                        && self@.stores[scope@[j] as int].name == scope_names@[j]@,
            decreases scope_names@.len() - i,
        {
            match self.find_store(&scope_names[i]) {
                Some(idx) => {
                    scope.push(idx);
                },
                None => {
                    return Err(EngineFault::NotFound);
                },
            }
            i += 1;
        }
        let id = self.txs.len();
        self.txs.push(TxState { mode, scope, ops: Vec::new(), finished: false });
        proof {
            assert(self@.stores =~= old(self)@.stores);
            assert forall|j: int| 0 <= j < scope_names@.len() implies has_store(
                old(self)@.stores,
                scope_names@[j]@,
            ) by {
                assert(old(self)@.stores[scope@[j] as int].name == scope_names@[j]@);
            }
            assert(self@.txs =~= old(self)@.txs.push(self@.txs.last()));
            assert(self@.txs.take(old(self)@.txs.len() as int) =~= old(self)@.txs);
            let t = self@.txs.last();
            assert(t.ops =~= Seq::<OpModel>::empty());
            assert forall|j: int| 0 <= j < t.scope.len() implies 0 <= #[trigger] t.scope[j]
                < self@.stores.len() && self@.stores[t.scope[j]].name == scope_names@[j]@ by {
                assert(t.scope[j] == scope@[j] as int);
            }
            assert forall|x: int| 0 <= x < self@.txs.len() implies tx_wf(
                #[trigger] self@.txs[x],
                self@.stores.len() as int,
            ) by {
                if x < old(self)@.txs.len() {
                    assert(tx_wf(old(self)@.txs[x], old(self)@.stores.len() as int));
                } else {
                    assert(ops_bounded(t.ops, self@.stores.len() as int));
                }
            }
        }
        Ok(id)
    }
}


fn scope_has(scope: &Vec<usize>, idx: usize) -> (r: bool)
    ensures
        r == scope_contains(scope@.map_values(|x: usize| x as int), idx as int),
{
    let mut i: usize = 0;
    while i < scope.len()
        invariant
            i <= scope@.len(),
            forall|j: int| 0 <= j < i ==> scope@[j] != idx,
        decreases scope@.len() - i,
    {
        if scope[i] == idx {
            assert(scope@.map_values(|x: usize| x as int)[i as int] == idx as int);
            return true;
        }
        i += 1;
    }
    proof {
        let sm = scope@.map_values(|x: usize| x as int);
        assert forall|j: int| 0 <= j < sm.len() implies #[trigger] sm[j] != idx as int by {
            assert(scope@[j] != idx);
        }
    }
    false
}

/// Whether the operation writes the store.
fn op_is_mutation(op: &Operation) -> (r: bool)
    ensures
        r == is_mutation(op@),
{
    match op {
        Operation::Add(_, _) => true,
        Operation::Put(_, _) => true,
        Operation::Delete(_) => true,
        Operation::Clear => true,
        Operation::Get(_) => false,
        Operation::GetAll => false,
    }
}

impl Engine {
    /// Queue one operation on a live transaction, returning the request
    /// position that identifies its resolution at settlement. Faults, in the
    /// order checked: unknown transaction; transaction already finished;
    /// store outside the transaction's scope; a mutation through a read-only
    /// transaction.
    pub fn issue(&mut self, tx_id: usize, store_idx: usize, op: Operation) -> (r: Result<
        usize,
        EngineFault,
    >)
        requires
            engine_wf(old(self)@),
        ensures
            engine_wf(final (self)@),
            ({
                let m = old(self)@;
                if tx_id as int >= m.txs.len() {
                    r == Err::<usize, EngineFault>(EngineFault::NotFound) && *final (self) == *old(self)
                } else if m.txs[tx_id as int].finished {
                    r == Err::<usize, EngineFault>(EngineFault::TransactionInactive) && *final (self) == *old(self)
                } else if !scope_contains(m.txs[tx_id as int].scope, store_idx as int) {
                    r == Err::<usize, EngineFault>(EngineFault::NotFound) && *final (self) == *old(self)
                } else if m.txs[tx_id as int].mode == IdbTransactionMode::Readonly && is_mutation(
                    op@,
                ) {
                    r == Err::<usize, EngineFault>(EngineFault::ReadOnly) && *final (self) == *old(self)
                } else {
                    &&& r matches Ok(q) && q as int == m.txs[tx_id as int].ops.len()
                    &&& final (self)@.stores == m.stores
                    &&& final (self)@.txs == m.txs.update(
                        tx_id as int,
                        TxModel {
                            ops: m.txs[tx_id as int].ops.push(
                                OpModel { store: store_idx as int, op: op@ },
                            ),
                            ..m.txs[tx_id as int]
                        },
                    )
                }
            }),
    {
        if tx_id >= self.txs.len() {
            return Err(EngineFault::NotFound);
        }
        if self.txs[tx_id].finished {
            return Err(EngineFault::TransactionInactive);
        }
        if !scope_has(&self.txs[tx_id].scope, store_idx) {
            return Err(EngineFault::NotFound);
        }
        if self.txs[tx_id].mode == IdbTransactionMode::Readonly && op_is_mutation(&op) {
            return Err(EngineFault::ReadOnly);
        }
        let t = &mut self.txs[tx_id];
        let id = t.ops.len();
        t.ops.push(QueuedOp { store: store_idx, op });
        proof {
            let m = old(self)@;
            let target = TxModel {
                ops: m.txs[tx_id as int].ops.push(OpModel { store: store_idx as int, op: op@ }),
                ..m.txs[tx_id as int]
            };
            assert(self@.txs[tx_id as int].ops =~= target.ops);
            assert(self@.txs[tx_id as int].scope =~= target.scope);
            assert(self@.txs[tx_id as int] == target);
            assert(self@.txs =~= m.txs.update(tx_id as int, target));
            assert(self@.stores =~= m.stores);
            assert forall|x: int| 0 <= x < self@.txs.len() implies tx_wf(
                #[trigger] self@.txs[x],
                self@.stores.len() as int,
            ) by {
                assert(tx_wf(m.txs[x], m.stores.len() as int));
                if x == tx_id as int {
                    assert(ops_bounded(target.ops, m.stores.len() as int));
                }
            }
        }
        Ok(id)
    }

    /// Roll back a live transaction: its queue is discarded, the stores
    /// stand untouched, and the terminal event is the clean abort. Aborting
    /// a finished transaction is itself a fault, surfaced, not ignored.
    pub fn abort(&mut self, tx_id: usize) -> (r: Result<TerminalEvent, EngineFault>)
        requires
            engine_wf(old(self)@),
        ensures
            engine_wf(final (self)@),
            ({
                let m = old(self)@;
                if tx_id as int >= m.txs.len() {
                    r == Err::<TerminalEvent, EngineFault>(EngineFault::NotFound) && *final (self)
                        == *old(self)
                } else if m.txs[tx_id as int].finished {
                    r == Err::<TerminalEvent, EngineFault>(EngineFault::TransactionInactive)
                        && *final (self) == *old(self)
                } else {
                    &&& r matches Ok(ev) && crate::listeners::outcome_of_event(ev)
                        == crate::outcome::OutcomeModel::Abort
                    &&& final (self)@.stores == m.stores
                    &&& final (self)@.txs == m.txs.update(
                        tx_id as int,
                        TxModel { finished: true, ..m.txs[tx_id as int] },
                    )
                }
            }),
    {
        if tx_id >= self.txs.len() {
            return Err(EngineFault::NotFound);
        }
        if self.txs[tx_id].finished {
            return Err(EngineFault::TransactionInactive);
        }
        let t = &mut self.txs[tx_id];
        t.finished = true;
        proof {
            let m = old(self)@;
            let target = TxModel { finished: true, ..m.txs[tx_id as int] };
            assert(self@.txs[tx_id as int].ops =~= target.ops);
            assert(self@.txs[tx_id as int].scope =~= target.scope);
            assert(self@.txs[tx_id as int] == target);
            assert(self@.txs =~= m.txs.update(tx_id as int, target));
            assert(self@.stores =~= m.stores);
            assert forall|x: int| 0 <= x < self@.txs.len() implies tx_wf(
                #[trigger] self@.txs[x],
                self@.stores.len() as int,
            ) by {
                assert(tx_wf(m.txs[x], m.stores.len() as int));
            }
        }
        Ok(TerminalEvent::Abort)
    }

    /// Settle a live transaction: apply its queue in issuance order,
    /// atomically, as [`run_ops`] describes. Returns the terminal event —
    /// complete, or error carrying the first failure's detail — together
    /// with one resolution event per queued request, in request order.
    /// Delivering those events to their bridges is the event loop's job.
    pub fn settle(&mut self, tx_id: usize) -> (r: Result<
        (TerminalEvent, Vec<crate::request::RequestEvent>),
        EngineFault,
    >)
        requires
            engine_wf(old(self)@),
        ensures
            engine_wf(final (self)@),
            ({
                let m = old(self)@;
                if tx_id as int >= m.txs.len() {
                    r == Err::<(TerminalEvent, Vec<crate::request::RequestEvent>), EngineFault>(
                        EngineFault::NotFound,
                    ) && *final (self) == *old(self)
                } else if m.txs[tx_id as int].finished {
                    r == Err::<(TerminalEvent, Vec<crate::request::RequestEvent>), EngineFault>(
                        EngineFault::TransactionInactive,
                    ) && *final (self) == *old(self)
                } else {
                    let run = run_ops(m.stores, m.txs[tx_id as int].ops);
                    &&& r matches Ok((ev, evs)) && ({
                        &&& final (self)@.stores == run.stores
                        &&& final (self)@.txs == m.txs.update(
                            tx_id as int,
                            TxModel { finished: true, ..m.txs[tx_id as int] },
                        )
                        &&& crate::listeners::outcome_of_event(ev) == (match run.error {
                            None => crate::outcome::OutcomeModel::Success,
                            Some(d) => crate::outcome::OutcomeModel::Error(d),
                        })
                        &&& events_model(evs@) == run.events
                        &&& evs@.len() == m.txs[tx_id as int].ops.len()
                    })
                }
            }),
    {
        if tx_id >= self.txs.len() {
            return Err(EngineFault::NotFound);
        }
        if self.txs[tx_id].finished {
            return Err(EngineFault::TransactionInactive);
        }
        proof {
            assert(tx_wf(self@.txs[tx_id as int], self@.stores.len() as int));
            assert(ops_model(self.txs@[tx_id as int].ops@) =~= self@.txs[tx_id as int].ops);
            lemma_run_ops_frame(self@.stores, self@.txs[tx_id as int].ops);
        }
        let mut working = copy_stores(&self.stores);
        let mut events: Vec<crate::request::RequestEvent> = Vec::new();
        let err = run_queue(&mut working, &self.txs[tx_id].ops, 0, &mut events);
        proof {
            let opsm = old(self)@.txs[tx_id as int].ops;
            assert(ops_model(self.txs@[tx_id as int].ops@).skip(0) =~= opsm);
            let run = run_ops(old(self)@.stores, opsm);
            assert(events_model(events@) =~= events_model(Seq::<
                crate::request::RequestEvent,
            >::empty()) + run.events);
            assert(events_model(events@) =~= run.events);
            assert(events@.len() == run.events.len());
        }
        let t = &mut self.txs[tx_id];
        t.finished = true;
        proof {
            let m = old(self)@;
            let target = TxModel { finished: true, ..m.txs[tx_id as int] };
            assert(self@.txs[tx_id as int].ops =~= target.ops);
            assert(self@.txs[tx_id as int].scope =~= target.scope);
            assert(self@.txs[tx_id as int] == target);
            assert(self@.txs =~= m.txs.update(tx_id as int, target));
            assert(self@.stores =~= m.stores);
            assert forall|x: int| 0 <= x < self@.txs.len() implies tx_wf(
                #[trigger] self@.txs[x],
                self@.stores.len() as int,
            ) by {
                assert(tx_wf(m.txs[x], m.stores.len() as int));
            }
        }
        match err {
            None => {
                self.stores = working;
                proof {
                    let m = old(self)@;
                    let run = run_ops(m.stores, m.txs[tx_id as int].ops);
                    assert(self@.stores == run.stores);
                    assert forall|x: int| 0 <= x < self@.txs.len() implies tx_wf(
                        #[trigger] self@.txs[x],
                        self@.stores.len() as int,
                    ) by {
                        assert(tx_wf(m.txs[x], m.stores.len() as int));
                    }
                }
                Ok((TerminalEvent::Complete, events))
            },
            Some(m) => Ok((TerminalEvent::Error(m), events)),
        }
    }

    /// The key-generation policy of the store at `store_idx`.
    pub fn store_auto_increment(&self, store_idx: usize) -> (r: bool)
        requires
            store_idx < self@.stores.len(),
        ensures
            r == self@.stores[store_idx as int].auto_increment,
    {
        self.stores[store_idx].auto_increment()
    }

    /// The index names of the store at `store_idx`, in creation order.
    pub fn store_index_names(&self, store_idx: usize) -> (r: Vec<String>)
        requires
            store_idx < self@.stores.len(),
        ensures
            r@.map_values(|s: String| s@) == self@.stores[store_idx as int].index_names,
    {
        self.stores[store_idx].index_names()
    }

    /// Whether the store at `store_idx` carries an index named `name`.
    pub fn store_has_index(&self, store_idx: usize, name: &String) -> (r: bool)
        requires
            store_idx < self@.stores.len(),
        ensures
            r == has_name(self@.stores[store_idx as int].index_names, name@),
    {
        self.stores[store_idx].has_index(name)
    }

    /// Whether the transaction has settled or been aborted.
    pub fn tx_finished(&self, tx_id: usize) -> (r: bool)
        requires
            tx_id < self@.txs.len(),
        ensures
            r == self@.txs[tx_id as int].finished,
    {
        self.txs[tx_id].finished
    }

    /// Create an index named `name` on the store at `store_idx`, a schema
    /// mutation the engine permits only inside a live version-change
    /// transaction whose scope covers the store; a taken name is a
    /// constraint fault. Index creation is synchronous: no request is
    /// queued.
    pub fn create_index(&mut self, tx_id: usize, store_idx: usize, name: &String) -> (r: Result<
        (),
        EngineFault,
    >)
        requires
            engine_wf(old(self)@),
        ensures
            engine_wf(final (self)@),
            ({
                let m = old(self)@;
                if tx_id as int >= m.txs.len() {
                    r == Err::<(), EngineFault>(EngineFault::NotFound) && *final (self) == *old(self)
                } else if m.txs[tx_id as int].finished {
                    r == Err::<(), EngineFault>(EngineFault::TransactionInactive) && *final (self)
                        == *old(self)
                } else if m.txs[tx_id as int].mode != IdbTransactionMode::Versionchange {
                    r == Err::<(), EngineFault>(EngineFault::InvalidState) && *final (self) == *old(self)
                } else if !scope_contains(m.txs[tx_id as int].scope, store_idx as int) {
                    r == Err::<(), EngineFault>(EngineFault::NotFound) && *final (self) == *old(self)
                } else if has_name(m.stores[store_idx as int].index_names, name@) {
                    r == Err::<(), EngineFault>(EngineFault::Constraint) && final (self)@ == old(self)@
                } else {
                    &&& r is Ok
                    &&& final (self)@.txs == m.txs
                    &&& final (self)@.stores == m.stores.update(
                        store_idx as int,
                        StoreModel {
                            index_names: m.stores[store_idx as int].index_names.push(name@),
                            ..m.stores[store_idx as int]
                        },
                    )
                }
            }),
    {
        if tx_id >= self.txs.len() {
            return Err(EngineFault::NotFound);
        }
        if self.txs[tx_id].finished {
            return Err(EngineFault::TransactionInactive);
        }
        if !(self.txs[tx_id].mode == IdbTransactionMode::Versionchange) {
            return Err(EngineFault::InvalidState);
        }
        if !scope_has(&self.txs[tx_id].scope, store_idx) {
            return Err(EngineFault::NotFound);
        }
        proof {
            assert(tx_wf(self@.txs[tx_id as int], self@.stores.len() as int));
            assert(scope_contains(self@.txs[tx_id as int].scope, store_idx as int));
            assert(store_idx < self@.stores.len());
        }
        proof {
            assert(self@.stores[store_idx as int] == self.stores@[store_idx as int]@);
            assert(store_wf(self@.stores[store_idx as int]));
        }
        let st = &mut self.stores[store_idx];
        let res = st.create_index_name(name);
        proof {
            let m = old(self)@;
            assert(self@.txs =~= m.txs);
            match res {
                Ok(()) => {
                    let target = StoreModel {
                        index_names: m.stores[store_idx as int].index_names.push(name@),
                        ..m.stores[store_idx as int]
                    };
                    assert(self@.stores[store_idx as int] == target);
                    assert(self@.stores =~= m.stores.update(store_idx as int, target));
                },
                Err(_) => {
                    assert(self@.stores =~= m.stores);
                },
            }
            assert forall|x: int| 0 <= x < self@.txs.len() implies tx_wf(
                #[trigger] self@.txs[x],
                self@.stores.len() as int,
            ) by {
                assert(tx_wf(m.txs[x], m.stores.len() as int));
            }
        }
        res
    }
}


/// Copy a list of names, preserving each name's characters.
pub(crate) fn clone_names(names: &Vec<String>) -> (r: Vec<String>)
    ensures
        r@.map_values(|s: String| s@) == names@.map_values(|s: String| s@),
{
    let mut out: Vec<String> = Vec::new();
    let mut i: usize = 0;
    while i < names.len()
        invariant
            i <= names@.len(),
            out@.len() == i,
            forall|j: int| 0 <= j < i ==> out@[j]@ == names@[j]@,
        decreases names@.len() - i,
    {
        out.push(names[i].clone());
        i += 1;
    }
    proof {
        assert(out@.map_values(|s: String| s@) =~= names@.map_values(|s: String| s@));
    }
    out
}

} // verus!
