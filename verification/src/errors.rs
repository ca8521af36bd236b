//! Error values returned by the primitives.
//!
//! All of them report expected, locally recoverable conditions; none of the
//! verified operations panics.

use vstd::prelude::*;

verus! {

/// An aliasing violation on a [`crate::cell::MutableCell`]: a shared and an
/// exclusive borrow, or two exclusive borrows, were requested at once.
#[derive(Clone, Copy, Debug, PartialEq, Eq, Structural)]
pub struct BorrowConflict;

/// A non-blocking operation had no immediate result; the caller may retry.
#[derive(Clone, Copy, Debug, PartialEq, Eq, Structural)]
pub struct WouldBlock;

/// The receiving half of a channel is gone; nothing sent can be delivered.
#[derive(Clone, Copy, Debug, PartialEq, Eq, Structural)]
pub struct ChannelClosed;

/// Every sender of a channel is gone and the queue has been drained.
#[derive(Clone, Copy, Debug, PartialEq, Eq, Structural)]
pub struct Disconnected;

/// Why a non-blocking receive returned no item.
#[derive(Clone, Copy, Debug, PartialEq, Eq, Structural)]
pub enum TryRecvError {
    /// The queue is empty but senders remain; an item may still arrive.
    WouldBlock,
    /// The queue is empty and every sender is gone.
    Disconnected,
}

/// A spawned task terminated abnormally; its failure is captured and handed
/// back from `join`, never re-raised asynchronously.
#[derive(Clone, Copy, Debug, PartialEq, Eq, Structural)]
pub struct Failure;

} // verus!
