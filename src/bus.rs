//! The broadcast bus: one shared channel that hands every published line to
//! every current subscription, built on tokio's broadcast channel.
//!
//! Publishing never waits. A subscription that falls more than the bus's
//! capacity behind loses the oldest lines it has not read, learns how many
//! through [`Received::Lagged`], and then reads on from the oldest line kept.
use vstd::prelude::*;
use tokio::sync::broadcast::{Receiver, Sender};

verus! {

#[verifier::external_type_specification]
#[verifier::external_body]
#[verifier::reject_recursive_types(T)]
pub struct ExSender<T>(Sender<T>);

#[verifier::external_type_specification]
#[verifier::external_body]
#[verifier::reject_recursive_types(T)]
pub struct ExReceiver<T>(Receiver<T>);

/// How many lines the bus keeps for a subscription that has not read them.
pub const BUS_CAPACITY: usize = 16;

/// The number of slots of the channel that `tx` sends on.
pub uninterp spec fn capacity_of(tx: Sender<String>) -> nat;

/// Whether two senders send on one channel.
pub uninterp spec fn same_channel(a: Sender<String>, b: Sender<String>) -> bool;

/// Whether `rx` receives from the channel that `tx` sends on.
pub uninterp spec fn reads_from(rx: Receiver<String>, tx: Sender<String>) -> bool;

/// 1, 2, 4, 8, ...
pub open spec fn is_power_of_two(n: nat) -> bool
    decreases n,
{
    if n <= 1 {
        n == 1
    } else {
        n % 2 == 0 && is_power_of_two(n / 2)
    }
}

/// Relies on tokio::sync::broadcast::channel, which panics on a capacity of
/// zero or above `usize::MAX / 2`, rounds the capacity up to a power of two,
/// and gives a receiver on the new channel.
#[verifier::external_body]
fn open_channel(capacity: usize) -> (r: (Sender<String>, Receiver<String>))
    requires
        0 < capacity <= usize::MAX / 2,
    ensures
        is_power_of_two(capacity as nat) ==> capacity_of(r.0) == capacity,
        reads_from(r.1, r.0),
{
    tokio::sync::broadcast::channel(capacity)
}

/// Relies on Sender::send: it fails only when no receiver exists, and then
/// hands the value back in its error; on success it returns the number of
/// receivers, which is at least one.
#[verifier::external_body]
fn send_on(tx: &Sender<String>, m: String) -> (r: Result<usize, String>)
    ensures
        match r {
            Ok(n) => n >= 1,
            Err(v) => v@ == m@,
        },
{
    tx.send(m).map_err(|e| e.0)
}

/// Relies on Sender::subscribe: a new receiver on the sender's channel. It
/// panics once `usize::MAX >> 2` receivers are alive at once, a count that no
/// process reaches.
#[verifier::external_body]
fn subscribe_to(tx: &Sender<String>) -> (r: Receiver<String>)
    ensures
        reads_from(r, *tx),
{
    tx.subscribe()
}

/// Relies on Sender's Clone: a second handle on the same channel.
#[verifier::external_body]
fn clone_sender(tx: &Sender<String>) -> (r: Sender<String>)
    ensures
        same_channel(r, *tx),
        capacity_of(r) == capacity_of(*tx),
{
    tx.clone()
}

/// Relies on Sender::same_channel: whether both handles share one channel.
#[verifier::external_body]
fn senders_share_channel(a: &Sender<String>, b: &Sender<String>) -> (r: bool)
    ensures
        r == same_channel(*a, *b),
{
    a.same_channel(b)
}

/// Relies on Receiver::try_recv, whose lag count is never zero, and which
/// leaves the receiver on its channel.
#[verifier::external_body]
fn try_recv_from(rx: &mut Receiver<String>) -> (r: Received)
    ensures
        r matches Received::Lagged(n) ==> n > 0,
        forall|tx: Sender<String>| #[trigger] reads_from(*final(rx), tx) == reads_from(*old(rx), tx),
{
    match rx.try_recv() {
        Ok(m) => Received::Message(m),
        Err(tokio::sync::broadcast::error::TryRecvError::Empty) => Received::Empty,
        Err(tokio::sync::broadcast::error::TryRecvError::Lagged(n)) => Received::Lagged(n),
        Err(tokio::sync::broadcast::error::TryRecvError::Closed) => Received::Closed,
    }
}

/// What a subscription found when it looked for its next line.
pub enum Received {
    /// The next line.
    Message(String),
    /// Nothing new yet; publishers remain.
    Empty,
    /// This many lines were lost to the subscription; it reads on.
    Lagged(u64),
    /// No publisher remains.
    Closed,
}

/// A publishing handle on the bus. Every handle made by [`Bus::handle`]
/// publishes to the same subscriptions.
pub struct Bus {
    tx: Sender<String>,
}

impl Bus {
    /// How many unread lines the bus keeps per subscription.
    pub closed spec fn capacity(&self) -> nat {
        capacity_of(self.tx)
    }

    /// Whether two handles publish on one bus.
    pub closed spec fn same_bus(&self, other: Bus) -> bool {
        same_channel(self.tx, other.tx)
    }

    /// A bus that keeps [`BUS_CAPACITY`] unread lines per subscription, with
    /// no subscription yet.
    pub fn new() -> (b: Bus)
        ensures
            b.capacity() == BUS_CAPACITY as nat,
    {
        proof {
            reveal_with_fuel(is_power_of_two, 5);
        }
        let (tx, _rx) = open_channel(BUS_CAPACITY);
        Bus { tx }
    }

    /// Another handle on the same bus.
    pub fn handle(&self) -> (r: Bus)
        ensures
            r.same_bus(*self),
            r.capacity() == self.capacity(),
    {
        Bus { tx: clone_sender(&self.tx) }
    }

    /// Whether `other` is a handle on this bus.
    pub fn is_same_bus(&self, other: &Bus) -> (r: bool)
        ensures
            r == self.same_bus(*other),
    {
        senders_share_channel(&self.tx, &other.tx)
    }

    /// Publishes `m` to every current subscription without waiting. Gives
    /// the number of subscriptions it was queued for, or, when there is
    /// none, `m` back.
    pub fn publish(&self, m: String) -> (r: Result<usize, String>)
        ensures
            match r {
                Ok(n) => n >= 1,
                Err(v) => v@ == m@,
            },
    {
        send_on(&self.tx, m)
    }

    /// A new subscription to this bus, which sees the lines published after
    /// this call.
    pub fn subscribe(&self) -> (s: Subscription)
        ensures
            s.reads(*self),
    {
        Subscription { rx: subscribe_to(&self.tx) }
    }
}

/// One read cursor into the bus.
pub struct Subscription {
    rx: Receiver<String>,
}

impl Subscription {
    /// Whether this subscription reads what is published on `bus`.
    pub closed spec fn reads(&self, bus: Bus) -> bool {
        reads_from(self.rx, bus.tx)
    }

    /// Looks for the next line without waiting; the subscription stays on
    /// its bus.
    pub fn try_receive(&mut self) -> (r: Received)
        ensures
            r matches Received::Lagged(n) ==> n > 0,
            forall|b: Bus| #[trigger] final(self).reads(b) == old(self).reads(b),
    {
        try_recv_from(&mut self.rx)
    }

    /// The underlying receiver, for a caller that waits on it.
    pub fn into_receiver(self) -> Receiver<String> {
        self.rx
    }
}

} // verus!
