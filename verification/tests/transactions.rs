//! End-to-end scenarios against the engine model: transactions, store
//! accessors, settlement, rollback, indices, and cancellation.

use indexed_db_futures::engine::{Engine, EngineFault, IdbTransactionMode};
use indexed_db_futures::idb_database::IdbDatabase;
use indexed_db_futures::idb_transaction::IdbTransaction;
use indexed_db_futures::listeners::TransactionPoll;
use indexed_db_futures::outcome::IdbTransactionResult;
use indexed_db_futures::request::{
    AllValuesPoll, RequestError, RequestEvent, RequestPayload, ValuePoll, VoidPoll,
};
use indexed_db_futures::value::StoreValue;

fn setup() -> (Engine, IdbDatabase) {
    let mut engine = Engine::new();
    engine.create_object_store(&String::from("store"), false).unwrap();
    (engine, IdbDatabase::new(String::from("db"), 1))
}

fn text(s: &str) -> StoreValue {
    StoreValue::Text(String::from(s))
}

fn await_tx(engine: &mut Engine, tx: &mut IdbTransaction) -> (IdbTransactionResult, Vec<RequestEvent>) {
    let (ev, evs) = engine.settle(tx.id()).unwrap();
    tx.deliver(ev);
    match tx.poll(0) {
        TransactionPoll::Ready(r) => (r, evs),
        TransactionPoll::Pending => panic!("transaction should have resolved"),
    }
}

fn read_back(engine: &mut Engine, db: &IdbDatabase, key: &str) -> Option<StoreValue> {
    let mut tx = db.transaction_on_one(engine, &String::from("store")).unwrap();
    let store = tx.object_store(engine, &String::from("store")).unwrap();
    let mut req = store.get(engine, &String::from(key)).unwrap();
    let rid = req.request_id();
    let (ev, mut evs) = engine.settle(tx.id()).unwrap();
    req.on_event(evs.remove(rid));
    tx.deliver(ev);
    match req.poll(0) {
        ValuePoll::Ready(Ok(v)) => v,
        _ => panic!("read should have resolved successfully"),
    }
}

#[test]
fn write_read_round_trip() {
    let (mut engine, db) = setup();
    let mut tx = db
        .transaction_on_one_with_mode(&mut engine, &String::from("store"), IdbTransactionMode::Readwrite)
        .unwrap();
    let store = tx.object_store(&engine, &String::from("store")).unwrap();
    let mut put = store.put_key_val(&mut engine, &String::from("foo"), &text("bar")).unwrap();
    let (outcome, mut evs) = await_tx(&mut engine, &mut tx);
    assert!(matches!(outcome, IdbTransactionResult::Success));
    put.on_event(evs.remove(0));
    assert!(matches!(put.poll(0), VoidPoll::Ready(Ok(()))));

    match read_back(&mut engine, &db, "foo") {
        Some(StoreValue::Text(s)) => assert_eq!(s, "bar"),
        _ => panic!("expected the stored text back"),
    }
}

#[test]
fn duplicate_key_rolls_the_transaction_back() {
    let (mut engine, db) = setup();
    let mut tx = db
        .transaction_on_one_with_mode(&mut engine, &String::from("store"), IdbTransactionMode::Readwrite)
        .unwrap();
    let store = tx.object_store(&engine, &String::from("store")).unwrap();
    let mut first = store.add_key_val(&mut engine, &String::from("foo"), &text("a")).unwrap();
    let mut second = store.add_key_val(&mut engine, &String::from("foo"), &text("b")).unwrap();

    let (outcome, mut evs) = await_tx(&mut engine, &mut tx);
    match &outcome {
        IdbTransactionResult::Error(d) => assert_eq!(d, "key already exists"),
        _ => panic!("expected the error outcome"),
    }
    assert_eq!(tx.error().map(String::as_str), Some("key already exists"));

    second.on_event(evs.remove(1));
    first.on_event(evs.remove(0));
    assert!(matches!(first.poll(0), VoidPoll::Ready(Ok(()))));
    match second.poll(0) {
        VoidPoll::Ready(Err(d)) => assert_eq!(d, "key already exists"),
        _ => panic!("expected the duplicate-key failure"),
    }

    // Atomic rollback: "foo" is absent, never "b".
    assert!(read_back(&mut engine, &db, "foo").is_none());
}

#[test]
fn delete_of_missing_key_succeeds_and_changes_nothing() {
    let (mut engine, db) = setup();
    let mut tx = db
        .transaction_on_one_with_mode(&mut engine, &String::from("store"), IdbTransactionMode::Readwrite)
        .unwrap();
    let store = tx.object_store(&engine, &String::from("store")).unwrap();
    store.add_key_val(&mut engine, &String::from("foo"), &text("qux")).unwrap();
    let (outcome, _) = await_tx(&mut engine, &mut tx);
    assert!(matches!(outcome, IdbTransactionResult::Success));

    let mut tx = db
        .transaction_on_one_with_mode(&mut engine, &String::from("store"), IdbTransactionMode::Readwrite)
        .unwrap();
    let store = tx.object_store(&engine, &String::from("store")).unwrap();
    let mut del = store.delete_owned(&mut engine, String::from("bar")).unwrap();
    let (outcome, mut evs) = await_tx(&mut engine, &mut tx);
    assert!(matches!(outcome, IdbTransactionResult::Success));
    del.on_event(evs.remove(0));
    assert!(matches!(del.poll(0), VoidPoll::Ready(Ok(()))));

    match read_back(&mut engine, &db, "foo") {
        Some(StoreValue::Text(s)) => assert_eq!(s, "qux"),
        _ => panic!("the untouched record should survive"),
    }
    assert!(read_back(&mut engine, &db, "bar").is_none());
}

#[test]
fn clear_empties_the_store() {
    let (mut engine, db) = setup();
    let mut tx = db
        .transaction_on_one_with_mode(&mut engine, &String::from("store"), IdbTransactionMode::Readwrite)
        .unwrap();
    let store = tx.object_store(&engine, &String::from("store")).unwrap();
    store.add_key_val(&mut engine, &String::from("a"), &text("1")).unwrap();
    store.add_key_val(&mut engine, &String::from("b"), &text("2")).unwrap();
    store.add_key_val(&mut engine, &String::from("c"), &text("3")).unwrap();
    store.clear(&mut engine).unwrap();
    let (outcome, _) = await_tx(&mut engine, &mut tx);
    assert!(matches!(outcome, IdbTransactionResult::Success));

    let mut tx = db.transaction_on_one(&mut engine, &String::from("store")).unwrap();
    let store = tx.object_store(&engine, &String::from("store")).unwrap();
    let mut all = store.get_all(&mut engine).unwrap();
    let rid = all.request_id();
    let (ev, mut evs) = engine.settle(tx.id()).unwrap();
    all.on_event(evs.remove(rid));
    tx.deliver(ev);
    match all.poll(0) {
        AllValuesPoll::Ready(Ok(vs)) => assert_eq!(vs.len(), 0),
        _ => panic!("the whole-store read should succeed"),
    }
}

#[test]
fn operations_settle_in_issuance_order() {
    let (mut engine, db) = setup();
    let mut tx = db
        .transaction_on_one_with_mode(&mut engine, &String::from("store"), IdbTransactionMode::Readwrite)
        .unwrap();
    let store = tx.object_store(&engine, &String::from("store")).unwrap();
    store.put_key_val(&mut engine, &String::from("k"), &text("first")).unwrap();
    store.put_key_val(&mut engine, &String::from("k"), &text("second")).unwrap();
    let mut get = store.get(&mut engine, &String::from("k")).unwrap();
    let rid = get.request_id();
    let (outcome, mut evs) = await_tx(&mut engine, &mut tx);
    assert!(matches!(outcome, IdbTransactionResult::Success));
    get.on_event(evs.remove(rid));
    match get.poll(0) {
        ValuePoll::Ready(Ok(Some(StoreValue::Text(s)))) => assert_eq!(s, "second"),
        _ => panic!("the read should observe the later overwrite"),
    }
}

#[test]
fn failure_in_one_store_rolls_back_the_whole_scope() {
    let (mut engine, db) = setup();
    engine.create_object_store(&String::from("other"), false).unwrap();
    let mut tx = db
        .transaction_on_multi_with_mode(
            &mut engine,
            &vec![String::from("store"), String::from("other")],
            IdbTransactionMode::Readwrite,
        )
        .unwrap();
    let first = tx.object_store(&engine, &String::from("store")).unwrap();
    let second = tx.object_store(&engine, &String::from("other")).unwrap();
    first.put_key_val(&mut engine, &String::from("x"), &text("1")).unwrap();
    second.add_key_val(&mut engine, &String::from("y"), &text("2")).unwrap();
    second.add_key_val(&mut engine, &String::from("y"), &text("3")).unwrap();
    let (outcome, _) = await_tx(&mut engine, &mut tx);
    assert!(matches!(outcome, IdbTransactionResult::Error(_)));

    assert!(read_back(&mut engine, &db, "x").is_none());
}

#[test]
fn index_names_after_two_creations() {
    let (mut engine, db) = setup();
    let mut tx = db
        .transaction_on_one_with_mode(&mut engine, &String::from("store"), IdbTransactionMode::Versionchange)
        .unwrap();
    let store = tx.object_store(&engine, &String::from("store")).unwrap();
    let idx = store.create_index(&mut engine, &String::from("idx1")).unwrap();
    assert_eq!(idx.name().as_str(), "idx1");
    store.create_index(&mut engine, &String::from("idx2")).unwrap();

    let mut names = store.index_names(&engine);
    names.sort();
    assert_eq!(names, vec![String::from("idx1"), String::from("idx2")]);

    assert_eq!(
        store.create_index(&mut engine, &String::from("idx1")).map(|_| ()),
        Err(EngineFault::Constraint)
    );
    assert_eq!(store.index(&engine, &String::from("idx2")).unwrap().name().as_str(), "idx2");
    assert_eq!(
        store.index(&engine, &String::from("missing")).map(|_| ()),
        Err(EngineFault::NotFound)
    );
    let (outcome, _) = await_tx(&mut engine, &mut tx);
    assert!(matches!(outcome, IdbTransactionResult::Success));
}

#[test]
fn create_index_outside_versionchange_faults() {
    let (mut engine, db) = setup();
    let tx = db
        .transaction_on_one_with_mode(&mut engine, &String::from("store"), IdbTransactionMode::Readwrite)
        .unwrap();
    let store = tx.object_store(&engine, &String::from("store")).unwrap();
    assert_eq!(
        store.create_index(&mut engine, &String::from("idx")).map(|_| ()),
        Err(EngineFault::InvalidState)
    );
}

#[test]
fn cancelling_the_wait_does_not_cancel_the_work() {
    let (mut engine, db) = setup();
    let mut tx = db
        .transaction_on_one_with_mode(&mut engine, &String::from("store"), IdbTransactionMode::Readwrite)
        .unwrap();
    let store = tx.object_store(&engine, &String::from("store")).unwrap();
    store.put_key_val(&mut engine, &String::from("foo"), &text("bar")).unwrap();

    // The awaiting context goes away before resolution...
    assert!(matches!(tx.poll(9), TransactionPoll::Pending));
    tx.dispose();

    // ...the engine still settles to a definite outcome...
    let (ev, _) = engine.settle(tx.id()).unwrap();

    // ...and the late callback fires into nothing: no wake, no observation.
    assert_eq!(tx.deliver(ev), None);
    assert!(matches!(tx.poll(10), TransactionPoll::Pending));

    // The committed write is visible to a later transaction.
    match read_back(&mut engine, &db, "foo") {
        Some(StoreValue::Text(s)) => assert_eq!(s, "bar"),
        _ => panic!("the engine-side work should have committed"),
    }
}

#[test]
fn abort_discards_queued_work_and_finishes_the_transaction() {
    let (mut engine, db) = setup();
    let tx = db
        .transaction_on_one_with_mode(&mut engine, &String::from("store"), IdbTransactionMode::Readwrite)
        .unwrap();
    let tid = tx.id();
    let store = tx.object_store(&engine, &String::from("store")).unwrap();
    store.put_key_val(&mut engine, &String::from("foo"), &text("bar")).unwrap();
    tx.abort(&mut engine).unwrap();

    assert_eq!(engine.settle(tid).map(|_| ()), Err(EngineFault::TransactionInactive));
    assert!(read_back(&mut engine, &db, "foo").is_none());
}

#[test]
fn aborting_a_finished_transaction_faults() {
    let (mut engine, db) = setup();
    let mut tx = db
        .transaction_on_one_with_mode(&mut engine, &String::from("store"), IdbTransactionMode::Readwrite)
        .unwrap();
    let tid = tx.id();
    assert!(!engine.tx_finished(tid));
    let (outcome, _) = await_tx(&mut engine, &mut tx);
    assert!(matches!(outcome, IdbTransactionResult::Success));
    assert!(engine.tx_finished(tid));
    assert_eq!(tx.abort(&mut engine), Err(EngineFault::TransactionInactive));
}

#[test]
fn mutation_through_readonly_transaction_faults() {
    let (mut engine, db) = setup();
    let tx = db.transaction_on_one(&mut engine, &String::from("store")).unwrap();
    let store = tx.object_store(&engine, &String::from("store")).unwrap();
    match store.put_key_val(&mut engine, &String::from("k"), &text("v")) {
        Err(EngineFault::ReadOnly) => {},
        _ => panic!("a read-only transaction must reject mutations"),
    }
}

#[test]
fn scope_and_existence_faults() {
    let (mut engine, db) = setup();
    assert!(db.transaction_on_one(&mut engine, &String::from("nope")).is_err());
    assert!(db.transaction_on_multi(&mut engine, &Vec::new()).is_err());

    engine.create_object_store(&String::from("other"), false).unwrap();
    assert_eq!(engine.store_count(), 2);
    let tx = db.transaction_on_one(&mut engine, &String::from("store")).unwrap();
    match tx.object_store(&engine, &String::from("other")) {
        Err(EngineFault::NotFound) => {},
        _ => panic!("a store outside the scope must be rejected"),
    }
    assert_eq!(
        engine.create_object_store(&String::from("store"), false).map(|_| ()),
        Err(EngineFault::Constraint)
    );
}

#[test]
fn db_scoped_accessor_uses_an_auto_transaction() {
    let (mut engine, db) = setup();
    let store = db.object_store(&engine, &String::from("store")).unwrap();
    assert!(store.transaction().is_none());
    assert_eq!(store.db().name().as_str(), "db");

    let mut put = store.put_key_val(&mut engine, &String::from("foo"), &text("bar")).unwrap();
    let rid = put.request_id();
    let (_ev, mut evs) = engine.settle(put.transaction_id()).unwrap();
    put.on_event(evs.remove(rid));
    assert!(matches!(put.poll(0), VoidPoll::Ready(Ok(()))));

    match read_back(&mut engine, &db, "foo") {
        Some(StoreValue::Text(s)) => assert_eq!(s, "bar"),
        _ => panic!("the auto-transaction should have committed"),
    }
}

#[test]
fn keyless_add_derives_the_key_from_the_value() {
    let (mut engine, db) = setup();
    let mut tx = db
        .transaction_on_one_with_mode(&mut engine, &String::from("store"), IdbTransactionMode::Readwrite)
        .unwrap();
    let store = tx.object_store(&engine, &String::from("store")).unwrap();
    store.add_val(&mut engine, &text("foo")).unwrap();
    assert_eq!(
        store.add_val(&mut engine, &StoreValue::Opaque).map(|_| ()),
        Err(EngineFault::Data)
    );
    let (outcome, _) = await_tx(&mut engine, &mut tx);
    assert!(matches!(outcome, IdbTransactionResult::Success));

    match read_back(&mut engine, &db, "foo") {
        Some(StoreValue::Text(s)) => assert_eq!(s, "foo"),
        _ => panic!("the value should be stored under its own text"),
    }
}

#[test]
fn opaque_values_are_carried_through_unread() {
    let (mut engine, db) = setup();
    let mut tx = db
        .transaction_on_one_with_mode(&mut engine, &String::from("store"), IdbTransactionMode::Readwrite)
        .unwrap();
    let store = tx.object_store(&engine, &String::from("store")).unwrap();
    store.put_key_val(&mut engine, &String::from("blob"), &StoreValue::Opaque).unwrap();
    let (outcome, _) = await_tx(&mut engine, &mut tx);
    assert!(matches!(outcome, IdbTransactionResult::Success));

    match read_back(&mut engine, &db, "blob") {
        Some(v) => assert!(v.as_text().is_none()),
        None => panic!("the opaque value should be stored"),
    }
}

#[test]
fn decode_failure_is_distinct_from_engine_failure() {
    let (mut engine, db) = setup();
    let tx = db.transaction_on_one(&mut engine, &String::from("store")).unwrap();
    let store = tx.object_store(&engine, &String::from("store")).unwrap();

    let mut shaped_wrong = store.get(&mut engine, &String::from("x")).unwrap();
    shaped_wrong.on_event(RequestEvent::Success(RequestPayload::Empty));
    assert!(matches!(shaped_wrong.poll(0), ValuePoll::Ready(Err(RequestError::Decode))));

    let mut engine_failed = store.get(&mut engine, &String::from("y")).unwrap();
    engine_failed.on_event(RequestEvent::Error(String::from("backing store gone")));
    match engine_failed.poll(0) {
        ValuePoll::Ready(Err(RequestError::Engine(d))) => assert_eq!(d, "backing store gone"),
        _ => panic!("an engine failure must surface as such"),
    }
}

#[test]
fn transaction_metadata_accessors() {
    let (mut engine, db) = setup();
    let tx = db
        .transaction_on_one_with_mode(&mut engine, &String::from("store"), IdbTransactionMode::Readwrite)
        .unwrap();
    assert_eq!(tx.mode(), IdbTransactionMode::Readwrite);
    assert_eq!(tx.object_store_names(), vec![String::from("store")]);
    assert_eq!(tx.db().name().as_str(), "db");
    assert_eq!(tx.db().version(), 1);
    assert!(tx.error().is_none());

    let store = tx.object_store(&engine, &String::from("store")).unwrap();
    assert!(store.transaction().is_some());
    assert_eq!(store.db().name().as_str(), "db");
    assert!(!store.auto_increment(&engine));
}
