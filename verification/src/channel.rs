//! The bounded event channel between the runtime's callback threads and the
//! scan stream's consumer.
//!
//! The channel is the sole synchronization point of a scan session: the
//! trampoline is purely a producer, the stream purely a receiver.  Its
//! capacity is a small fixed bound, so a slow consumer exerts backpressure
//! on the callback threads instead of buffering without limit — a producer
//! blocked on a full channel is intentional, not an error.
//!
//! The channel itself comes from an outside crate and is shared mutable
//! state between its two endpoints, so its operations are trusted with
//! contracts that hold of every outcome; the backpressure policy is proved
//! over the model below.

use vstd::prelude::*;

verus! {

/// The channel's sending endpoint (trusted declaration).
#[verifier::external_type_specification]
#[verifier::external_body]
#[verifier::reject_recursive_types(T)]
pub struct ExSender<T>(async_channel::Sender<T>);

/// The channel's receiving endpoint (trusted declaration).
#[verifier::external_type_specification]
#[verifier::external_body]
#[verifier::reject_recursive_types(T)]
pub struct ExReceiver<T>(async_channel::Receiver<T>);

/// What asking the channel for a message without waiting produced.
#[derive(Clone, Copy, Debug, PartialEq, Eq)]
pub enum RecvOutcome<T> {
    /// A message arrived.
    Received(T),
    /// The channel was empty at the moment of asking.
    Empty,
    /// The channel is closed and drained; no message will ever arrive.
    ClosedAndDrained,
}

/// Relies on async_channel::bounded: creates a channel holding at most
/// `cap` messages at a time; it panics on a zero capacity, so that is ruled
/// out here.
#[verifier::external_body]
pub(crate) fn new_bounded_channel<T>(cap: usize) -> (pair: (
    async_channel::Sender<T>,
    async_channel::Receiver<T>,
))
    requires
        cap >= 1,
{
    async_channel::bounded(cap)
}

/// Relies on async_channel::Sender::send_blocking: blocks the calling
/// thread while the channel is full — the backpressure seam — and returns
/// the message inside the error exactly when the channel is closed.
#[verifier::external_body]
pub(crate) fn channel_send_blocking<T>(sender: &async_channel::Sender<T>, msg: T) -> (r: Result<
    (),
    T,
>)
    ensures
        r matches Err(m) ==> m == msg,
{
    match sender.send_blocking(msg) {
        Ok(()) => Ok(()),
        Err(async_channel::SendError(m)) => Err(m),
    }
}

/// Relies on async_channel::Receiver::recv_blocking: blocks until a message
/// arrives, and returns nothing exactly when the channel is closed and
/// drained.
#[verifier::external_body]
pub(crate) fn channel_recv_blocking<T>(receiver: &async_channel::Receiver<T>) -> (r: Option<T>) {
    match receiver.recv_blocking() {
        Ok(msg) => Some(msg),
        Err(async_channel::RecvError) => None,
    }
}

/// Relies on async_channel::Receiver::try_recv: pops a message if one is
/// ready, and otherwise reports whether the channel was merely empty or
/// closed and drained.
#[verifier::external_body]
pub(crate) fn channel_try_recv<T>(receiver: &async_channel::Receiver<T>) -> (r: RecvOutcome<T>) {
    match receiver.try_recv() {
        Ok(msg) => RecvOutcome::Received(msg),
        Err(async_channel::TryRecvError::Empty) => RecvOutcome::Empty,
        Err(async_channel::TryRecvError::Closed) => RecvOutcome::ClosedAndDrained,
    }
}

/// Relies on async_channel::Receiver::close: closes the channel so that
/// every later send fails; messages already enqueued can still be received.
/// Returns whether this call was the one that closed it.
#[verifier::external_body]
pub(crate) fn channel_close<T>(receiver: &async_channel::Receiver<T>) -> (r: bool) {
    receiver.close()
}

/// What offering one message to a bounded queue does: it is appended when
/// there is room, and rejected — leaving the queue unchanged — when the
/// queue is full.
pub open spec fn spec_offer<T>(q: Seq<T>, cap: int, x: T) -> (Seq<T>, bool) {
    if q.len() < cap {
        (q.push(x), true)
    } else {
        (q, false)
    }
}

/// Offers a whole batch of ready messages, in order, while the consumer is
/// paused: the final queue and, per message, whether it was accepted.
pub open spec fn spec_produce<T>(q: Seq<T>, cap: int, msgs: Seq<T>) -> (Seq<T>, Seq<bool>)
    decreases msgs.len(),
{
    if msgs.len() == 0 {
        (q, Seq::empty())
    } else {
        let (q1, flags) = spec_produce(q, cap, msgs.drop_last());
        let (q2, accepted) = spec_offer(q1, cap, msgs.last());
        (q2, flags.push(accepted))
    }
}

/// Producing against a paused consumer accepts messages exactly while there
/// is room: the message at position `i` is accepted if and only if the
/// queue's initial fill plus `i` is below the capacity.
pub proof fn lemma_produce_saturates<T>(q: Seq<T>, cap: int, msgs: Seq<T>)
    requires
        q.len() <= cap,
    ensures
        spec_produce(q, cap, msgs).1.len() == msgs.len(),
        forall|i: int|
            0 <= i < msgs.len() ==> spec_produce(q, cap, msgs).1[i] == (q.len() + i < cap),
        spec_produce(q, cap, msgs).0.len() == (if q.len() + msgs.len() <= cap {
            q.len() + msgs.len()
        } else {
            cap as nat
        }),
    decreases msgs.len(),
{
    if msgs.len() > 0 {
        lemma_produce_saturates(q, cap, msgs.drop_last());
    }
}

/// Backpressure: with capacity `cap` and more ready events than the channel
/// can hold, producing them all while the consumer is paused accepts
/// exactly the first `cap`, blocks the producer at the next event, and as
/// soon as the consumer drains one slot, offering that event again
/// succeeds.
pub proof fn lemma_backpressure<T>(cap: int, msgs: Seq<T>)
    requires
        cap >= 1,
        msgs.len() > cap,
    ensures
        forall|i: int|
            0 <= i < msgs.len() ==> spec_produce(Seq::<T>::empty(), cap, msgs).1[i] == (i < cap),
        spec_produce(Seq::<T>::empty(), cap, msgs).1[cap] == false,
        spec_produce(Seq::<T>::empty(), cap, msgs).0.len() == cap,
        spec_offer(spec_produce(Seq::<T>::empty(), cap, msgs).0.drop_first(), cap, msgs[cap]).1,
{
    lemma_produce_saturates(Seq::<T>::empty(), cap, msgs);
}

/// A bounded queue of plain values: the verified model of the event
/// channel, usable where both endpoints live on one thread.
pub struct BoundedBuffer<T> {
    items: Vec<T>,
    capacity: usize,
}

impl<T> BoundedBuffer<T> {
    /// The queue never holds more than its capacity, which is positive.
    pub closed spec fn wf(self) -> bool {
        self.items@.len() <= self.capacity && self.capacity >= 1
    }

    /// The queued messages, oldest first.
    pub closed spec fn contents(self) -> Seq<T> {
        self.items@
    }

    /// The fixed bound the queue was created with.
    pub closed spec fn spec_capacity(self) -> int {
        self.capacity as int
    }

    /// An empty queue with the given bound.
    pub fn new(capacity: usize) -> (q: BoundedBuffer<T>)
        requires
            capacity >= 1,
        ensures
            q.wf(),
            q.contents() == Seq::<T>::empty(),
            q.spec_capacity() == capacity,
    {
        BoundedBuffer { items: Vec::new(), capacity }
    }

    /// How many messages are queued.
    pub fn len(&self) -> (n: usize)
        ensures
            n == self.contents().len(),
    {
        self.items.len()
    }

    /// The fixed bound.
    pub fn capacity(&self) -> (c: usize)
        ensures
            c == self.spec_capacity(),
    {
        self.capacity
    }

    /// Offers one message: appended when there is room, rejected when the
    /// queue is full — exactly [`spec_offer`].
    pub fn try_push(&mut self, x: T) -> (accepted: bool)
        requires
            old(self).wf(),
        ensures
            final(self).wf(),
            final(self).spec_capacity() == old(self).spec_capacity(),
            (final(self).contents(), accepted) == spec_offer(
                old(self).contents(),
                old(self).spec_capacity(),
                x,
            ),
    {
        if self.items.len() < self.capacity {
            self.items.push(x);
            true
        } else {
            false
        }
    }

    /// Drains the oldest message, if any.
    pub fn pop_front(&mut self) -> (r: Option<T>)
        requires
            old(self).wf(),
        ensures
            final(self).wf(),
            final(self).spec_capacity() == old(self).spec_capacity(),
            old(self).contents().len() == 0 ==> r is None && final(self).contents()
                == old(self).contents(),
            old(self).contents().len() > 0 ==> (r matches Some(x) && x == old(self).contents()[0]
                && final(self).contents() == old(self).contents().drop_first()),
    {
        if self.items.len() > 0 {
            let x = self.items.remove(0);
            proof {
                assert(self.items@ =~= old(self).items@.drop_first());
            }
            Some(x)
        } else {
            None
        }
    }
}

} // verus!
