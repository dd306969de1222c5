//! One connection: what is done with each thing its subscription yields and
//! with the outcome of each write, from the moment the connection subscribes
//! until it ends.
//!
//! The relay decides; whoever drives it awaits the subscription, performs the
//! writes, and hands back what happened.

use vstd::prelude::*;
use tokio::sync::broadcast::Receiver;
use crate::hub::{retained_for, Hub};
use crate::snapshot::{SnapshotView, WsData};
use crate::wire::{encode, encoding, Projection};

verus! {

/// What a subscription yielded.
pub enum Received {
    /// The next snapshot, with the text of each core's usage percentage.
    Snapshot(WsData, Vec<String>),
    /// Snapshots were published faster than this connection read them, and
    /// this many were dropped unread.
    Lagged(u64),
    /// The publishing side is gone for good.
    Closed,
}

/// What a [`Received`] holds.
pub enum ReceivedView {
    Snapshot(SnapshotView, Seq<Seq<char>>),
    Lagged(u64),
    Closed,
}

impl View for Received {
    type V = ReceivedView;

    open spec fn view(&self) -> ReceivedView {
        match self {
            Received::Snapshot(snapshot, usage_texts) => ReceivedView::Snapshot(
                snapshot@,
                usage_texts.deep_view(),
            ),
            Received::Lagged(dropped) => ReceivedView::Lagged(*dropped),
            Received::Closed => ReceivedView::Closed,
        }
    }
}

/// What is to be done next for the connection.
#[derive(Debug, PartialEq, Eq)]
pub enum RelayAction {
    /// Wait for the subscription to yield again.
    Await,
    /// Write this message to the connection, and report how the write went.
    Deliver(String),
    /// End the connection's task and drop its subscription.
    Stop,
}

/// What a [`RelayAction`] holds.
pub enum ActionView {
    Await,
    Deliver(Seq<char>),
    Stop,
}

impl View for RelayAction {
    type V = ActionView;

    open spec fn view(&self) -> ActionView {
        match self {
            RelayAction::Await => ActionView::Await,
            RelayAction::Deliver(message) => ActionView::Deliver(message@),
            RelayAction::Stop => ActionView::Stop,
        }
    }
}

/// What a [`Relay`] holds.
pub struct RelayView {
    pub projection: Projection,
    /// Whether the connection is still served.
    pub open: bool,
    /// How many snapshots were dropped unread so far, at most `u64::MAX`.
    pub missed: u64,
}

/// The relay once its connection has ended.
pub open spec fn ended(relay: RelayView) -> RelayView {
    RelayView { open: false, ..relay }
}

/// A relay and its action after its subscription yielded `received`.
///
/// A snapshot is written to the connection, or ends it if no message can be
/// written for it. A lag is counted and otherwise passed over. The end of
/// publication ends the connection. A relay that has ended stays so.
pub open spec fn after_received(relay: RelayView, received: ReceivedView) -> (RelayView, ActionView) {
    if !relay.open {
        (relay, ActionView::Stop)
    } else {
        match received {
            ReceivedView::Snapshot(snapshot, usages) => match encoding(
                relay.projection,
                snapshot,
                usages,
            ) {
                Ok(message) => (relay, ActionView::Deliver(message)),
                Err(_) => (ended(relay), ActionView::Stop),
            },
            ReceivedView::Lagged(dropped) => (
                RelayView { missed: relay.missed.saturating_add(dropped), ..relay },
                ActionView::Await,
            ),
            ReceivedView::Closed => (ended(relay), ActionView::Stop),
        }
    }
}

/// A relay and its action after a write to the connection succeeded or
/// failed. A failed write ends the connection; there is no retry.
pub open spec fn after_written(relay: RelayView, delivered: bool) -> (RelayView, ActionView) {
    if relay.open && delivered {
        (relay, ActionView::Await)
    } else {
        (ended(relay), ActionView::Stop)
    }
}

/// The state of one connection's relay.
pub struct Relay {
    projection: Projection,
    open: bool,
    missed: u64,
}

impl View for Relay {
    type V = RelayView;

    closed spec fn view(&self) -> RelayView {
        RelayView { projection: self.projection, open: self.open, missed: self.missed }
    }
}

impl Relay {
    /// The relay of a connection that has just subscribed.
    pub fn new(projection: Projection) -> (relay: Relay)
        ensures
            relay@ == (RelayView { projection, open: true, missed: 0 }),
    {
        Relay { projection, open: true, missed: 0 }
    }

    /// Subscribes a connection that has just been upgraded: its subscription
    /// to `hub`, which observes what is published from now on, and its relay.
    pub fn connect(hub: &Hub, projection: Projection) -> (connection: (Receiver<WsData>, Relay))
        ensures
            retained_for(connection.0) == hub.depth(),
            connection.1@ == (RelayView { projection, open: true, missed: 0 }),
    {
        (hub.subscribe(), Relay::new(projection))
    }

    pub fn is_open(&self) -> (open: bool)
        ensures
            open == self@.open,
    {
        self.open
    }

    /// How many snapshots this connection has missed by lagging.
    pub fn missed(&self) -> (missed: u64)
        ensures
            missed == self@.missed,
    {
        self.missed
    }

    pub fn projection(&self) -> (projection: Projection)
        ensures
            projection == self@.projection,
    {
        self.projection
    }

    /// Takes what the subscription yielded and says what to do next.
    pub fn on_received(&mut self, received: Received) -> (action: RelayAction)
        ensures
            (final(self)@, action@) == after_received(old(self)@, received@),
    {
        if !self.open {
            return RelayAction::Stop;
        }
        match received {
            Received::Snapshot(snapshot, usage_texts) => {
                match encode(self.projection, &snapshot, &usage_texts) {
                    Ok(message) => RelayAction::Deliver(message),
                    Err(_) => {
                        self.open = false;
                        RelayAction::Stop
                    },
                }
            },
            Received::Lagged(dropped) => {
                self.missed = self.missed.saturating_add(dropped);
                RelayAction::Await
            },
            Received::Closed => {
                self.open = false;
                RelayAction::Stop
            },
        }
    }

    /// Takes the outcome of the write that was asked for and says what to do
    /// next.
    pub fn on_written(&mut self, delivered: bool) -> (action: RelayAction)
        ensures
            (final(self)@, action@) == after_written(old(self)@, delivered),
    {
        if self.open && delivered {
            RelayAction::Await
        } else {
            self.open = false;
            RelayAction::Stop
        }
    }
}

/// One thing handed to a relay: what its subscription yielded, or how a write
/// went.
pub enum RelayInput {
    Received(ReceivedView),
    Written(bool),
}

/// A relay and its action after one input.
pub open spec fn after_input(relay: RelayView, input: RelayInput) -> (RelayView, ActionView) {
    match input {
        RelayInput::Received(received) => after_received(relay, received),
        RelayInput::Written(delivered) => after_written(relay, delivered),
    }
}

/// A relay after a run of inputs.
pub open spec fn after_inputs(relay: RelayView, inputs: Seq<RelayInput>) -> RelayView
    decreases inputs.len(),
{
    if inputs.len() == 0 {
        relay
    } else {
        after_input(after_inputs(relay, inputs.drop_last()), inputs.last()).0
    }
}

/// The messages that a relay asks to be written over a run of inputs, in the
/// order in which it asks.
pub open spec fn deliveries(relay: RelayView, inputs: Seq<RelayInput>) -> Seq<Seq<char>>
    decreases inputs.len(),
{
    if inputs.len() == 0 {
        Seq::empty()
    } else {
        let before = deliveries(relay, inputs.drop_last());
        match after_input(after_inputs(relay, inputs.drop_last()), inputs.last()).1 {
            ActionView::Deliver(message) => before.push(message),
            _ => before,
        }
    }
}

/// The messages of the snapshots in a run of inputs, in the order in which
/// they were received. A snapshot for which no message can be written has
/// none.
pub open spec fn messages_received(projection: Projection, inputs: Seq<RelayInput>) -> Seq<
    Seq<char>,
>
    decreases inputs.len(),
{
    if inputs.len() == 0 {
        Seq::empty()
    } else {
        let before = messages_received(projection, inputs.drop_last());
        match inputs.last() {
            RelayInput::Received(ReceivedView::Snapshot(snapshot, usages)) => match encoding(
                projection,
                snapshot,
                usages,
            ) {
                Ok(message) => before.push(message),
                Err(_) => before,
            },
            _ => before,
        }
    }
}

/// A relay that has ended stays ended and asks for no further write.
pub proof fn lemma_ended_relay_is_silent(relay: RelayView, inputs: Seq<RelayInput>)
    requires
        !relay.open,
    ensures
        after_inputs(relay, inputs) == relay,
        deliveries(relay, inputs) == Seq::<Seq<char>>::empty(),
    decreases inputs.len(),
{
    if inputs.len() > 0 {
        lemma_ended_relay_is_silent(relay, inputs.drop_last());
    }
}

/// No input changes what a relay projects, and none reopens it.
pub proof fn lemma_relay_only_ends(relay: RelayView, inputs: Seq<RelayInput>)
    ensures
        after_inputs(relay, inputs).projection == relay.projection,
        after_inputs(relay, inputs).open ==> relay.open,
        after_inputs(relay, inputs).missed >= relay.missed,
    decreases inputs.len(),
{
    if inputs.len() > 0 {
        lemma_relay_only_ends(relay, inputs.drop_last());
    }
}

/// Snapshots reach the connection in the order in which the subscription
/// yielded them: what a relay asks to be written is, message for message, the
/// beginning of what it received, and all of it for as long as the relay has
/// not ended.
pub proof fn lemma_deliveries_keep_order(relay: RelayView, inputs: Seq<RelayInput>)
    requires
        relay.open,
    ensures
        deliveries(relay, inputs).is_prefix_of(messages_received(relay.projection, inputs)),
        after_inputs(relay, inputs).open ==> deliveries(relay, inputs) == messages_received(
            relay.projection,
            inputs,
        ),
    decreases inputs.len(),
{
    if inputs.len() > 0 {
        let earlier = inputs.drop_last();
        lemma_deliveries_keep_order(relay, earlier);
        lemma_relay_only_ends(relay, earlier);
    }
}

/// What a connection is sent depends on what its subscription yields and on
/// nothing else: two relays with the same projection that are handed the
/// same inputs ask for the same writes, however much either has missed
/// before.
pub proof fn lemma_same_inputs_same_deliveries(a: RelayView, b: RelayView, inputs: Seq<RelayInput>)
    requires
        a.projection == b.projection,
        a.open == b.open,
    ensures
        deliveries(a, inputs) == deliveries(b, inputs),
        after_inputs(a, inputs).open == after_inputs(b, inputs).open,
        after_inputs(a, inputs).projection == after_inputs(b, inputs).projection,
    decreases inputs.len(),
{
    if inputs.len() > 0 {
        lemma_same_inputs_same_deliveries(a, b, inputs.drop_last());
    }
}

/// A lag is counted and changes nothing else: the relay stays as open as it
/// was, and whatever comes after the lag is handled as if there had been
/// none. A subscriber that fell behind is served the next snapshot.
pub proof fn lemma_lag_is_survived(relay: RelayView, dropped: u64, next: RelayInput)
    requires
        relay.open,
    ensures
        after_received(relay, ReceivedView::Lagged(dropped)).1 == ActionView::Await,
        after_received(relay, ReceivedView::Lagged(dropped)).0 == (RelayView {
            missed: relay.missed.saturating_add(dropped),
            ..relay
        }),
        after_input(after_received(relay, ReceivedView::Lagged(dropped)).0, next).1 == after_input(
            relay,
            next,
        ).1,
        after_input(after_received(relay, ReceivedView::Lagged(dropped)).0, next).0.open
            == after_input(relay, next).0.open,
{
}

} // verus!
