//! The single point of publication. The sampler is its only writer; every
//! connection subscribes to it and reads at its own pace.
//!
//! The hub is a broadcast channel of tokio that retains one snapshot: a
//! subscriber that has not read a snapshot when the next one is published
//! loses it, and learns on its next read how many it lost. The channel's
//! state is shared between threads, so what its calls return is not a function
//! of their arguments: the contracts below state what holds of every outcome.

use vstd::prelude::*;
use tokio::sync::broadcast::error::SendError;
use tokio::sync::broadcast::{channel, Receiver, Sender};
use crate::snapshot::WsData;

verus! {

/// The sending half of tokio's broadcast channel, carried as it is.
#[verifier::external_type_specification]
#[verifier::external_body]
#[verifier::reject_recursive_types(T)]
pub struct ExSender<T>(Sender<T>);

/// A receiving half of tokio's broadcast channel, carried as it is.
#[verifier::external_type_specification]
#[verifier::external_body]
#[verifier::reject_recursive_types(T)]
pub struct ExReceiver<T>(Receiver<T>);

/// The error of `Sender::send`, which holds the value that was not sent.
#[verifier::external_type_specification]
#[verifier::external_body]
#[verifier::reject_recursive_types(T)]
pub struct ExSendError<T>(SendError<T>);

/// `n` is a power of two.
pub open spec fn is_power_of_two(n: nat) -> bool
    decreases n,
{
    n == 1 || (n > 1 && n % 2 == 0 && is_power_of_two(n / 2))
}

/// The least power of two that is at least `n`.
pub open spec fn rounded_up(n: nat) -> nat {
    choose|p: nat|
        is_power_of_two(p) && n <= p && forall|q: nat|
            #[trigger] is_power_of_two(q) && n <= q ==> p <= q
}

/// A power of two is rounded up to itself.
pub proof fn lemma_power_of_two_stays(n: nat)
    requires
        is_power_of_two(n),
    ensures
        rounded_up(n) == n,
{
    assert(is_power_of_two(n) && n <= n && forall|q: nat|
        #[trigger] is_power_of_two(q) && n <= q ==> n <= q);
}

/// How many values the channel behind `tx` retains for a receiver that is
/// behind. It is the length of the channel's ring buffer, which is set when
/// the channel is made and never changes.
pub uninterp spec fn retained_by(tx: Sender<WsData>) -> nat;

/// How many values the channel behind `rx` retains for it while it is
/// behind: the length of the same ring buffer, seen from a receiver.
pub uninterp spec fn retained_for(rx: Receiver<WsData>) -> nat;

/// `channel` of tokio's broadcast module: the two halves of a new channel.
/// Claimed of it is how many values the channel retains: `capacity`, rounded
/// up to a power of two. It panics on a capacity of zero or above
/// `usize::MAX / 2`, which the precondition leaves out.
#[verifier::external_body]
fn open_channel(capacity: usize) -> (halves: (Sender<WsData>, Receiver<WsData>))
    requires
        0 < capacity <= usize::MAX / 2,
    ensures
        retained_by(halves.0) == rounded_up(capacity as nat),
        retained_for(halves.1) == rounded_up(capacity as nat),
{
    channel(capacity)
}

/// `Sender::subscribe` of tokio's broadcast channel: a new receiver, which
/// sees the values sent after the call. Claimed of it is only that the
/// receiver is one of the sender's channel, which retains as many values for
/// it as the channel was made to retain. The call panics only when a quarter
/// of `usize::MAX` receivers are subscribed already, which is more than
/// memory holds.
#[verifier::external_body]
fn new_receiver(tx: &Sender<WsData>) -> (rx: Receiver<WsData>)
    ensures
        retained_for(rx) == retained_by(*tx),
{
    tx.subscribe()
}

/// `Sender::send` of tokio's broadcast channel. It stores the value for the
/// receivers that are subscribed at that moment and reports how many there
/// are, or hands the value back when there is none. Claimed of it is only
/// that a count it reports is never zero.
pub assume_specification<T>[ Sender::<T>::send ](tx: &Sender<T>, value: T) -> (outcome: Result<
    usize,
    SendError<T>,
>)
    ensures
        outcome matches Ok(receivers) ==> receivers >= 1,
;

/// `Sender::receiver_count` of tokio's broadcast channel: the number of
/// receivers that are subscribed at the moment of the call. Receivers come
/// and go on other threads, so nothing is claimed of the number.
pub assume_specification<T>[ Sender::<T>::receiver_count ](tx: &Sender<T>) -> (receivers: usize)
;

/// How many snapshots the hub retains for a subscriber that is behind.
pub const QUEUE_DEPTH: usize = 1;

/// How many subscribers a publication reached, going by what the channel
/// reported of it: the count it gave, or none when it handed the snapshot
/// back.
pub open spec fn reached_by(outcome: Result<usize, SendError<WsData>>) -> usize {
    match outcome {
        Ok(receivers) => receivers,
        Err(_) => 0,
    }
}

/// Reads off what the channel reported of a publication. That nobody was
/// subscribed is not an error.
pub fn reached(outcome: Result<usize, SendError<WsData>>) -> (subscribers: usize)
    ensures
        subscribers == reached_by(outcome),
{
    match outcome {
        Ok(receivers) => receivers,
        Err(_) => 0,
    }
}

/// The publish point, constructed once and shared by reference.
pub struct Hub {
    tx: Sender<WsData>,
}

impl Hub {
    /// How many snapshots the hub retains for a subscriber that is behind.
    /// When more are published before the subscriber reads, the oldest are
    /// overwritten.
    pub closed spec fn depth(&self) -> nat {
        retained_by(self.tx)
    }

    /// A hub to which nobody is subscribed yet. It retains one snapshot, so
    /// that the latest always wins.
    pub fn new() -> (hub: Hub)
        ensures
            hub.depth() == QUEUE_DEPTH,
    {
        proof {
            lemma_power_of_two_stays(QUEUE_DEPTH as nat);
        }
        let (tx, _) = open_channel(QUEUE_DEPTH);
        Hub { tx }
    }

    /// How many subscriptions are alive at this moment.
    pub fn subscriber_count(&self) -> (subscribers: usize) {
        self.tx.receiver_count()
    }

    /// A new subscription, which observes every snapshot published from now
    /// on, but for those it loses by lagging: its queue is as deep as the hub
    /// was made.
    pub fn subscribe(&self) -> (subscription: Receiver<WsData>)
        ensures
            retained_for(subscription) == self.depth(),
    {
        new_receiver(&self.tx)
    }

    /// Sends `snapshot` to the subscriptions that are alive at this moment
    /// and returns how many the channel counted. It neither waits for a
    /// subscriber nor fails when there is none.
    pub fn publish(&self, snapshot: WsData) -> (subscribers: usize) {
        reached(self.tx.send(snapshot))
    }
}

} // verus!
