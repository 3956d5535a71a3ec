//! A revision reconciliation store for one collaboratively edited document.
//!
//! The store orders locally authored revisions, tracks which of them a peer
//! has acknowledged, debounces the write-back of its cache to a durable log,
//! and replays a revision chain into a document snapshot. Storage, the remote
//! peer, timers and the delta algebra live outside: every function here goes
//! from values to values, and its contract is proved.
//!
//! - [`entities`] and [`errors`]: the values, each with its mathematical view.
//! - [`cache`]: the revision cache, over a concurrent map.
//! - [`pending`]: the queue of revisions that wait for an acknowledgment.
//! - [`model`]: the store as a state machine over mathematical values.
//! - [`store`]: the executable store, proved to follow the model.
//! - [`replay`]: rebuilding a document from its revision chain.
//! - [`laws`]: what holds of every store and every replay.

pub mod cache;
pub mod entities;
pub mod errors;
pub mod laws;
pub mod model;
pub mod pending;
pub mod replay;
pub mod store;
