//! Shared-ownership and concurrency primitives.
//!
//! The crate is a small runtime-support layer for building object graphs,
//! caches and concurrent counters:
//!
//! - [`region`]: allocation records with explicit strong and weak counts,
//!   owning [`region::StrongHandle`]s and non-owning [`region::WeakHandle`]s;
//! - [`atomic`]: the cross-thread variants of the counted handles;
//! - [`graph`]: counted graph nodes with iterative, cascading teardown;
//! - [`cell`]: single-threaded interior mutability with a runtime-checked
//!   borrow state;
//! - [`sync_cell`]: a mutual-exclusion guard over a value, with a wait queue
//!   and a poison flag;
//! - [`channel`]: a multi-producer, single-consumer FIFO queue;
//! - [`task`]: the outcome state machine of a spawned unit of work.
//!
//! Blocking itself (parking a thread until a lock frees, until a message
//! arrives, or until a task completes) cannot happen inside verified code;
//! every operation here is a single atomic step on explicit state, and an
//! embedding runtime loops on the non-blocking operations to block.  The
//! remaining modules are small consumers of the same style of contracts.

pub mod aggregator;
pub mod atomic;
pub mod blog;
pub mod blog_typed;
pub mod cell;
pub mod channel;
pub mod colors;
pub mod errors;
pub mod geometry;
pub mod graph;
pub mod gui;
pub mod region;
pub mod restaurant;
pub mod sync_cell;
pub mod task;
