//! The publisher hands completed transactions to any number of subscribers.
//!
//! It is a bounded broadcast topic, carried by a `tokio` broadcast channel.
//! Publishing never waits for a subscriber. Each subscriber reads at its own
//! pace; one that falls behind by more than the topic retains loses the
//! oldest transactions it has not read, and learns on its next read how many
//! it lost.
//!
//! The channel is shared with whoever holds a handle to it, on this thread or
//! another, so what a call returns depends on more than its arguments. The
//! contracts of the channel's operations are taken on trust and say only what
//! holds of every outcome; the functions around them are verified for every
//! value that the channel may hand back.
use crate::model::Transaction;
use vstd::prelude::*;

verus! {

#[verifier::external_type_specification]
#[verifier::external_body]
#[verifier::reject_recursive_types(T)]
pub struct ExSender<T>(tokio::sync::broadcast::Sender<T>);

#[verifier::external_type_specification]
#[verifier::external_body]
#[verifier::reject_recursive_types(T)]
pub struct ExReceiver<T>(tokio::sync::broadcast::Receiver<T>);

/// The number of transactions that a topic retains unless told otherwise.
pub const DEFAULT_CAPACITY: usize = 100;

/// Whether a topic can be made to retain `capacity` transactions.
pub open spec fn capacity_allowed(capacity: usize) -> bool {
    0 < capacity <= usize::MAX / 2
}

/// What a subscriber gets when it reads.
#[derive(Clone, Debug, PartialEq, Eq)]
pub enum Delivery {
    /// The next transaction.
    Transaction(Transaction),
    /// The subscriber fell behind and lost this many transactions. Its next
    /// read resumes at the oldest one that the topic still retains.
    Lagged(u64),
    /// Nothing has been published that the subscriber has not read.
    Empty,
    /// The publisher is gone and everything has been read.
    Closed,
}

/// Why a transaction reached nobody.
#[derive(Clone, Debug, PartialEq, Eq)]
pub enum PublishError {
    /// No subscriber was there. The transaction comes back.
    NoSubscribers(Transaction),
}

/// The topic that a sender feeds: which channel stands behind the handle. A
/// handle keeps its channel for as long as it lives.
pub uninterp spec fn topic_fed(sender: tokio::sync::broadcast::Sender<Transaction>) -> int;

/// The topic that a receiver reads: which channel stands behind the handle.
pub uninterp spec fn topic_read(receiver: tokio::sync::broadcast::Receiver<Transaction>) -> int;

/// The read cursor of a receiver: the number of values of its channel that it
/// has passed, read or lost, counted from the start of the channel modulo
/// 2^64. It belongs to the receiver alone; no other handle moves it.
pub uninterp spec fn cursor(receiver: tokio::sync::broadcast::Receiver<Transaction>) -> u64;

/// The cursor `position` moved forward by `by` values. Cursors wrap at 2^64.
pub open spec fn advanced(position: u64, by: u64) -> u64 {
    ((position + by) % 0x1_0000_0000_0000_0000) as u64
}

/// Where the cursor of a subscriber stands after a read that began at
/// `before` and came to `delivery`: one further after a transaction, as many
/// further as were lost after a lag, and where it was when there was nothing
/// to read. Nothing is said of a closed topic.
pub open spec fn cursor_after(before: u64, delivery: Delivery, after: u64) -> bool {
    match delivery {
        Delivery::Transaction(_) => after == advanced(before, 1),
        Delivery::Lagged(lost) => lost >= 1 && after == advanced(before, lost),
        Delivery::Empty => after == before,
        Delivery::Closed => true,
    }
}

/// `tokio::sync::broadcast::Sender::new`: the sending half of a fresh channel
/// without receivers. It panics on a capacity of zero or above half of
/// `usize::MAX`, which the precondition rules out. Nothing is claimed of the
/// channel made.
#[verifier::external_body]
fn channel_new(capacity: usize) -> (sender: tokio::sync::broadcast::Sender<Transaction>)
    requires
        capacity_allowed(capacity),
{
    tokio::sync::broadcast::Sender::new(capacity)
}

/// `tokio::sync::broadcast::Sender::send`: stores the value for all current
/// receivers and returns their number, which is at least one, or hands the
/// value back when there is no receiver. It never waits.
#[verifier::external_body]
fn channel_send(sender: &tokio::sync::broadcast::Sender<Transaction>, transaction: Transaction) -> (r:
    Result<usize, Transaction>)
    ensures
        match r {
            Ok(receivers) => receivers >= 1,
            Err(back) => back == transaction,
        },
{
    match sender.send(transaction) {
        Ok(receivers) => Ok(receivers),
        Err(refused) => Err(refused.0),
    }
}

/// `tokio::sync::broadcast::Sender::subscribe`: a new receiver on the
/// sender's own channel, which sees the values sent after this call. Where
/// its cursor starts is not claimed: that is the channel's send count, which
/// any handle may move. It panics only when a quarter of `usize::MAX`
/// receivers exist, more than memory can hold.
#[verifier::external_body]
fn channel_subscribe(sender: &tokio::sync::broadcast::Sender<Transaction>) -> (receiver:
    tokio::sync::broadcast::Receiver<Transaction>)
    ensures
        topic_read(receiver) == topic_fed(*sender),
{
    sender.subscribe()
}

/// `tokio::sync::broadcast::Receiver::try_recv`: the next value if one is
/// there, else why not. It never waits. Which of these comes depends on what
/// other handles did, so only what holds of each is claimed: a value moves
/// the receiver's cursor on by one; a lag is reported with the number of
/// values lost, never zero, and moves the cursor on by that number, to the
/// oldest value retained; an empty channel leaves the cursor where it was.
/// Whatever comes, the receiver stays on its channel.
#[verifier::external_body]
fn channel_try_recv(receiver: &mut tokio::sync::broadcast::Receiver<Transaction>) -> (r: Delivery)
    ensures
        cursor_after(cursor(*old(receiver)), r, cursor(*final(receiver))),
        topic_read(*final(receiver)) == topic_read(*old(receiver)),
{
    match receiver.try_recv() {
        Ok(transaction) => Delivery::Transaction(transaction),
        Err(tokio::sync::broadcast::error::TryRecvError::Lagged(lost)) => Delivery::Lagged(lost),
        Err(tokio::sync::broadcast::error::TryRecvError::Empty) => Delivery::Empty,
        Err(tokio::sync::broadcast::error::TryRecvError::Closed) => Delivery::Closed,
    }
}

/// What publishing comes to, for each answer of the channel: the number of
/// subscribers reached, or the transaction back with the reason.
pub fn publication(sent: Result<usize, Transaction>) -> (r: Result<usize, PublishError>)
    ensures
        match sent {
            Ok(receivers) => r == Ok::<usize, PublishError>(receivers),
            Err(back) => r == Err::<usize, PublishError>(PublishError::NoSubscribers(back)),
        },
{
    match sent {
        Ok(receivers) => Ok(receivers),
        Err(back) => Err(PublishError::NoSubscribers(back)),
    }
}

/// The sending side of the topic.
pub struct Publisher {
    sender: tokio::sync::broadcast::Sender<Transaction>,
    capacity: usize,
}

/// A subscriber's handle: an independent reader of the topic.
pub struct Subscription {
    receiver: tokio::sync::broadcast::Receiver<Transaction>,
}

impl Publisher {
    /// The capacity that the topic was made with.
    pub closed spec fn spec_capacity(&self) -> usize {
        self.capacity
    }

    /// The topic that this publisher feeds.
    pub closed spec fn topic(&self) -> int {
        topic_fed(self.sender)
    }

    /// A topic that retains at least `capacity` transactions for a slow
    /// subscriber, or none where the capacity is zero or above half of
    /// `usize::MAX`.
    pub fn new(capacity: usize) -> (r: Option<Publisher>)
        ensures
            r is Some <==> capacity_allowed(capacity),
            r matches Some(publisher) ==> publisher.spec_capacity() == capacity,
    {
        if capacity == 0 || capacity > usize::MAX / 2 {
            None
        } else {
            Some(Publisher { sender: channel_new(capacity), capacity })
        }
    }

    /// A topic of the default capacity.
    pub fn with_default_capacity() -> (publisher: Publisher)
        ensures
            publisher.spec_capacity() == DEFAULT_CAPACITY,
    {
        Publisher { sender: channel_new(DEFAULT_CAPACITY), capacity: DEFAULT_CAPACITY }
    }

    /// The capacity that the topic was made with.
    pub fn capacity(&self) -> (c: usize)
        ensures
            c == self.spec_capacity(),
            capacity_allowed(c),
    {
        proof {
            use_type_invariant(self);
        }
        self.capacity
    }

    /// Hands a transaction to all current subscribers without waiting for any
    /// of them. Returns how many subscribers there were, at least one, or the
    /// transaction itself when there was none.
    pub fn publish(&self, transaction: Transaction) -> (r: Result<usize, PublishError>)
        ensures
            match r {
                Ok(receivers) => receivers >= 1,
                Err(e) => e == PublishError::NoSubscribers(transaction),
            },
    {
        publication(channel_send(&self.sender, transaction))
    }

    /// A new subscriber: an independent reader of this publisher's topic. It
    /// sees the transactions published from now on.
    pub fn subscribe(&self) -> (subscription: Subscription)
        ensures
            subscription.topic() == self.topic(),
    {
        Subscription { receiver: channel_subscribe(&self.sender) }
    }

    #[verifier::type_invariant]
    spec fn well_formed(self) -> bool {
        capacity_allowed(self.capacity)
    }
}

impl Subscription {
    /// The subscriber's read cursor: how many transactions of the topic it
    /// has passed, read or lost, modulo 2^64.
    pub closed spec fn position(&self) -> u64 {
        cursor(self.receiver)
    }

    /// The topic that this subscriber reads.
    pub closed spec fn topic(&self) -> int {
        topic_read(self.receiver)
    }

    /// Reads without waiting: the next transaction, the number of
    /// transactions lost to lag, or the news that there is nothing to read.
    ///
    /// Which of these comes is for the topic to decide. Each moves the
    /// subscriber's cursor as [`cursor_after`] says: a transaction by one, a
    /// lag by the number lost, which is at least one, and an empty topic not
    /// at all. The subscriber stays on its topic.
    pub fn poll(&mut self) -> (r: Delivery)
        ensures
            cursor_after(old(self).position(), r, final(self).position()),
            final(self).topic() == old(self).topic(),
    {
        channel_try_recv(&mut self.receiver)
    }

    /// Gives up the subscription for the channel handle beneath it, for a
    /// consumer that wants to wait for the next transaction rather than poll.
    /// The handle reads the same topic from the same position.
    pub fn into_receiver(self) -> (receiver: tokio::sync::broadcast::Receiver<Transaction>)
        ensures
            cursor(receiver) == self.position(),
            topic_read(receiver) == self.topic(),
    {
        self.receiver
    }
}

} // verus!
