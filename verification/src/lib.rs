//! An awaitable access layer over a transactional, callback-driven object
//! store in the style of the browser's IndexedDB.
//!
//! The heart of the crate is the completion bridge: the machinery that turns
//! the engine's at-most-once terminal callbacks (complete / abort / error for
//! a transaction, success / error for a single request) into single-resolution,
//! poll-compatible completions. Around it sit the transaction and object-store
//! surface and an in-memory model of the engine itself, so that every rule —
//! atomic application of queued operations, first-event-wins resolution,
//! idempotent polling, safe disposal — is stated as a contract and proved.

pub mod engine;
pub mod idb_database;
pub mod idb_object_store;
pub mod idb_transaction;
pub mod listeners;
pub mod outcome;
pub mod request;
pub mod value;
