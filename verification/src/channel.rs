//! A multi-producer, single-consumer FIFO message queue.
//!
//! A [`Channel`] models the queue together with its endpoint bookkeeping: how
//! many senders exist and whether the receiver is still there.  The channel
//! is closed exactly when the sender count has reached zero; once closed and
//! drained, every further receive reports
//! [`Disconnected`](crate::errors::Disconnected).  Sending fails exactly when
//! the receiver is gone.  Every operation is one atomic step on the channel;
//! the embedding runtime blocks a receiver by looping on
//! [`Channel::try_recv`] while it reports
//! [`WouldBlock`](crate::errors::TryRecvError::WouldBlock).
//!
//! Items travel in order: a receive always hands out the oldest item, so `k`
//! receives yield the oldest `k` items in arrival order
//! ([`lemma_received_in_order`]), and items pushed by one sender arrive in
//! the order that sender pushed them.

use crate::errors::ChannelClosed;
use crate::errors::Disconnected;
use crate::errors::TryRecvError;
use vstd::prelude::*;

verus! {

/// The shared state of one channel: the queued items, the sender count and
/// the receiver's liveness.
pub struct Channel<T> {
    queue: Vec<T>,
    senders: u64,
    receiver_alive: bool,
}

impl<T> Channel<T> {
    /// The queued items, oldest first, for specifications.
    pub closed spec fn items(&self) -> Seq<T> {
        self.queue@
    }

    /// How many senders exist, for specifications.
    pub closed spec fn senders(&self) -> u64 {
        self.senders
    }

    /// Whether the receiver still exists, for specifications.
    pub closed spec fn receiver_alive(&self) -> bool {
        self.receiver_alive
    }

    /// The channel is closed once every sender is gone; it can never reopen,
    /// because cloning a sender needs a sender to clone.
    pub open spec fn closed(&self) -> bool {
        self.senders() == 0
    }

    /// A fresh channel: empty queue, one sender, the receiver present.
    pub fn new() -> (c: Channel<T>)
        ensures
            c.items() == Seq::<T>::empty(),
            c.senders() == 1,
            c.receiver_alive(),
    {
        let c = Channel { queue: Vec::new(), senders: 1, receiver_alive: true };
        proof {
            assert(c.items() =~= Seq::<T>::empty());
        }
        c
    }

    /// Sends `item` through one of the live senders.  Fails with
    /// `ChannelClosed` exactly when the receiver has been dropped; otherwise
    /// the item joins the back of the queue.
    pub fn send(&mut self, item: T) -> (r: Result<(), ChannelClosed>)
        requires
            old(self).senders() > 0,
        ensures
            r is Ok <==> old(self).receiver_alive(),
            r is Ok ==> final(self).items() == old(self).items().push(item),
            r is Err ==> final(self).items() == old(self).items(),
            final(self).senders() == old(self).senders(),
            final(self).receiver_alive() == old(self).receiver_alive(),
    {
        if self.receiver_alive {
            self.queue.push(item);
            Ok(())
        } else {
            Err(ChannelClosed)
        }
    }

    /// Receives the oldest item without blocking.  Reports `WouldBlock` when
    /// the queue is empty but a sender remains, and `Disconnected` when the
    /// queue is empty and every sender is gone.
    pub fn try_recv(&mut self) -> (r: Result<T, TryRecvError>)
        requires
            old(self).receiver_alive(),
        ensures
            old(self).items().len() > 0 ==> r == Ok::<T, TryRecvError>(old(self).items()[0])
                && final(self).items() == old(self).items().subrange(
                1,
                old(self).items().len() as int,
            ),
            old(self).items().len() == 0 && old(self).closed() ==> r == Err::<T, TryRecvError>(
                TryRecvError::Disconnected,
            ) && final(self).items() == old(self).items(),
            old(self).items().len() == 0 && !old(self).closed() ==> r == Err::<T, TryRecvError>(
                TryRecvError::WouldBlock,
            ) && final(self).items() == old(self).items(),
            final(self).senders() == old(self).senders(),
            final(self).receiver_alive() == old(self).receiver_alive(),
    {
        if self.queue.len() > 0 {
            let item = self.queue.remove(0);
            proof {
                assert(self.items() =~= old(self).items().subrange(
                    1,
                    old(self).items().len() as int,
                ));
            }
            Ok(item)
        } else if self.senders == 0 {
            Err(TryRecvError::Disconnected)
        } else {
            Err(TryRecvError::WouldBlock)
        }
    }

    /// Receives the oldest item.  A call that would have to block — empty
    /// queue, senders remaining — is excluded by contract; the embedding
    /// runtime loops on [`Channel::try_recv`] instead and parks between
    /// polls.  Reports `Disconnected` exactly when the queue is empty and
    /// every sender is gone.
    pub fn recv(&mut self) -> (r: Result<T, Disconnected>)
        requires
            old(self).receiver_alive(),
            old(self).items().len() == 0 ==> old(self).closed(),
        ensures
            old(self).items().len() > 0 ==> r == Ok::<T, Disconnected>(old(self).items()[0])
                && final(self).items() == old(self).items().subrange(
                1,
                old(self).items().len() as int,
            ),
            old(self).items().len() == 0 ==> r == Err::<T, Disconnected>(Disconnected) && final(self).items() == old(self).items(),
            final(self).senders() == old(self).senders(),
            final(self).receiver_alive() == old(self).receiver_alive(),
    {
        match self.try_recv() {
            Ok(item) => Ok(item),
            Err(_) => Err(Disconnected),
        }
    }

    /// Clones one of the live senders: one more sender exists.
    pub fn clone_sender(&mut self)
        requires
            old(self).senders() > 0,
            old(self).senders() < u64::MAX,
        ensures
            final(self).senders() == old(self).senders() + 1,
            final(self).items() == old(self).items(),
            final(self).receiver_alive() == old(self).receiver_alive(),
    {
        self.senders = self.senders + 1;
    }

    /// Drops one of the live senders.  When the last sender goes, the
    /// channel is closed: a receiver that drains the queue from then on is
    /// told `Disconnected` instead of being kept waiting.
    pub fn drop_sender(&mut self)
        requires
            old(self).senders() > 0,
        ensures
            final(self).senders() == old(self).senders() - 1,
            final(self).items() == old(self).items(),
            final(self).receiver_alive() == old(self).receiver_alive(),
    {
        self.senders = self.senders - 1;
    }

    /// Drops the receiver: every later send fails with `ChannelClosed`.
    pub fn drop_receiver(&mut self)
        requires
            old(self).receiver_alive(),
        ensures
            !final(self).receiver_alive(),
            final(self).items() == old(self).items(),
            final(self).senders() == old(self).senders(),
    {
        self.receiver_alive = false;
    }

    /// Consumes the whole queue, as iterating a receiver does: repeated
    /// receives until the disconnection would be reported.  The channel must
    /// already be closed — as it is once every sender is done — so that the
    /// iteration ends instead of waiting for more items.
    pub fn drain(&mut self) -> (r: Vec<T>)
        requires
            old(self).receiver_alive(),
            old(self).closed(),
        ensures
            r@ == old(self).items(),
            final(self).items() == Seq::<T>::empty(),
            final(self).senders() == old(self).senders(),
            final(self).receiver_alive() == old(self).receiver_alive(),
    {
        let mut out: Vec<T> = Vec::new();
        proof {
            assert(out@ + self.items() =~= old(self).items());
        }
        while self.pending() > 0
            invariant
                self.receiver_alive(),
                self.closed(),
                out@ + self.items() == old(self).items(),
                self.senders() == old(self).senders(),
            decreases self.items().len(),
        {
            let item = match self.recv() {
                Ok(item) => item,
                Err(_) => vstd::pervasive::unreached(),
            };
            out.push(item);
            proof {
                assert(out@ + self.items() =~= old(self).items());
            }
        }
        proof {
            assert(self.items() =~= Seq::<T>::empty());
            assert(out@ =~= old(self).items());
        }
        out
    }

    /// How many items are queued.
    pub fn pending(&self) -> (n: usize)
        ensures
            n == self.items().len(),
    {
        self.queue.len()
    }

    /// Whether every sender is gone.
    pub fn is_closed(&self) -> (b: bool)
        ensures
            b == self.closed(),
    {
        self.senders == 0
    }
}

/// The items handed out by `k` successive receives from a queue holding
/// `q`: each receive takes the front of what is left.
pub open spec fn received<T>(q: Seq<T>, k: nat) -> Seq<T>
    decreases k,
{
    if k == 0 {
        Seq::empty()
    } else {
        seq![q[0]] + received(q.subrange(1, q.len() as int), (k - 1) as nat)
    }
}

/// Law: receives preserve send order — `k` successive receives from a queue
/// holding `q` yield exactly the oldest `k` items of `q`, in order.  With a
/// single sender, `q` lists that sender's items in the order it sent them,
/// so they are received in send order.
pub proof fn lemma_received_in_order<T>(q: Seq<T>, k: nat)
    requires
        k <= q.len(),
    ensures
        received(q, k) == q.take(k as int),
    decreases k,
{
    if k == 0 {
        assert(received(q, k) =~= q.take(k as int));
    } else {
        let tail = q.subrange(1, q.len() as int);
        lemma_received_in_order(tail, (k - 1) as nat);
        assert(received(q, k) =~= q.take(k as int));
    }
}

} // verus!
