//! The publisher: the single consumer of the bus. It says what is done with
//! each event and keeps the lifecycle of the broker channel.

use crate::event::{
    event_views, BridgeEvent, CursorPayload, CursorView, EventView, PublishPayload, PublishView,
};
use vstd::prelude::*;

verus! {

/// Where the broker channel stands in its lifecycle.
#[derive(Debug, Clone, Copy, PartialEq, Eq, Structural)]
pub enum ChannelState {
    /// No channel has been opened yet.
    Absent,
    /// The first connection is being opened.
    Connecting,
    /// A channel is open and was healthy when last probed.
    Connected,
    /// The channel failed its health probe and a fresh one is being opened.
    Reconnecting,
    /// The publisher has given the channel up for good.
    Closed,
}

/// The publisher's state: where to connect, where to publish, and the
/// lifecycle of the channel.
#[derive(Debug, Clone, PartialEq, Eq)]
pub struct Publisher {
    pub amqp_uri: String,
    pub exchange: String,
    pub channel: ChannelState,
}

/// The mathematical content of a [`Publisher`].
pub struct PublisherView {
    pub amqp_uri: Seq<char>,
    pub exchange: Seq<char>,
    pub channel: ChannelState,
}

impl View for Publisher {
    type V = PublisherView;

    open spec fn view(&self) -> PublisherView {
        PublisherView {
            amqp_uri: self.amqp_uri@,
            exchange: self.exchange@,
            channel: self.channel,
        }
    }
}

/// One publish call to the broker.
#[derive(Debug, Clone, PartialEq, Eq)]
pub struct Delivery {
    pub exchange: String,
    pub routing_key: String,
    pub body: Vec<u8>,
}

/// The mathematical content of a [`Delivery`].
pub struct DeliveryView {
    pub exchange: Seq<char>,
    pub routing_key: Seq<char>,
    pub body: Seq<u8>,
}

impl View for Delivery {
    type V = DeliveryView;

    open spec fn view(&self) -> DeliveryView {
        DeliveryView {
            exchange: self.exchange@,
            routing_key: self.routing_key@,
            body: self.body@,
        }
    }
}

/// What the publisher does with one event of the bus.
#[derive(Debug, Clone, PartialEq, Eq)]
pub enum Action {
    /// Write the checkpoint to the cursor store and wait for it; a failure is
    /// fatal.
    Persist(CursorPayload),
    /// Make sure of the channel, publish the change and wait for the broker's
    /// acknowledgment.
    Publish(PublishPayload),
    /// Leave the loop.
    Exit,
}

/// The mathematical content of an [`Action`].
pub enum ActionView {
    Persist(CursorView),
    Publish(PublishView),
    Exit,
}

impl View for Action {
    type V = ActionView;

    open spec fn view(&self) -> ActionView {
        match self {
            Action::Persist(c) => ActionView::Persist(c@),
            Action::Publish(p) => ActionView::Publish(p@),
            Action::Exit => ActionView::Exit,
        }
    }
}

/// Why the publisher gives up.
#[derive(Debug, Clone, Copy, PartialEq, Eq, Structural)]
pub enum PublisherError {
    /// The connection or the channel could not be opened.
    ConnectFailed,
    /// A checkpoint could not be written to the cursor store.
    PersistFailed,
    /// The broker did not take or did not acknowledge a message.
    PublishFailed,
}

/// The steps of the channel lifecycle: from `Absent` through `Connecting` to
/// `Connected`, between `Connected` and `Reconnecting`, and from anywhere to
/// `Closed`.
pub open spec fn lifecycle_edge(from: ChannelState, to: ChannelState) -> bool {
    match (from, to) {
        (ChannelState::Absent, ChannelState::Connecting) => true,
        (ChannelState::Connecting, ChannelState::Connected) => true,
        (ChannelState::Connected, ChannelState::Reconnecting) => true,
        (ChannelState::Reconnecting, ChannelState::Connected) => true,
        (_, ChannelState::Closed) => true,
        _ => false,
    }
}

/// Whether a move of the channel from `from` to `to` stays put or follows the
/// lifecycle.
pub open spec fn lifecycle_move(from: ChannelState, to: ChannelState) -> bool {
    from == to || lifecycle_edge(from, to)
}

/// What a publisher whose channel is in state `channel` does with an event of
/// the bus; `None` is the closed bus. A publisher that has given up acts on
/// nothing any more.
pub open spec fn action_for(channel: ChannelState, event: Option<EventView>) -> ActionView {
    if channel == ChannelState::Closed {
        ActionView::Exit
    } else {
        match event {
            Some(EventView::Cursor(c)) => ActionView::Persist(c),
            Some(EventView::Publish(p)) => ActionView::Publish(p),
            Some(EventView::Stop) => ActionView::Exit,
            None => ActionView::Exit,
        }
    }
}

/// The channel after the outcome of a step that must not fail: a failure
/// closes it.
pub open spec fn settled(channel: ChannelState, succeeded: bool) -> ChannelState {
    if succeeded {
        channel
    } else {
        ChannelState::Closed
    }
}

/// The channel after a health probe before a publish, and whether a fresh
/// connection has to be opened. The probe counts only where a channel is
/// open.
pub open spec fn probed(channel: ChannelState, connected: bool) -> (ChannelState, bool) {
    match channel {
        ChannelState::Absent => (ChannelState::Connecting, true),
        ChannelState::Connected => if connected {
            (ChannelState::Connected, false)
        } else {
            (ChannelState::Reconnecting, true)
        },
        ChannelState::Connecting => (ChannelState::Connecting, true),
        ChannelState::Reconnecting => (ChannelState::Reconnecting, true),
        ChannelState::Closed => (ChannelState::Closed, false),
    }
}

/// Creates the publisher for the broker at `amqp_uri` and the exchange
/// `amqp_exchange`. No channel is opened before the first publish.
pub fn start(amqp_uri: &str, amqp_exchange: &str) -> (publisher: Publisher)
    ensures
        publisher@ == (PublisherView {
            amqp_uri: amqp_uri@,
            exchange: amqp_exchange@,
            channel: ChannelState::Absent,
        }),
{
    Publisher {
        amqp_uri: amqp_uri.to_owned(),
        exchange: amqp_exchange.to_owned(),
        channel: ChannelState::Absent,
    }
}

impl Publisher {
    /// Whether a connection is being opened.
    pub open spec fn opening(&self) -> bool {
        self.channel == ChannelState::Connecting || self.channel == ChannelState::Reconnecting
    }

    /// Says what is done with the next event of the bus; `None` is the closed
    /// bus. On `Stop` and on the closed bus the publisher leaves its loop;
    /// once it has given up, it leaves on any event.
    pub fn dispatch(&self, event: Option<BridgeEvent>) -> (action: Action)
        ensures
            action@ == action_for(
                self.channel,
                match event {
                    Some(e) => Some(e@),
                    None => None,
                },
            ),
    {
        match self.channel {
            ChannelState::Closed => {
                return Action::Exit;
            },
            _ => {},
        }
        match event {
            Some(BridgeEvent::Cursor(payload)) => Action::Persist(payload),
            Some(BridgeEvent::Publish(payload)) => Action::Publish(payload),
            Some(BridgeEvent::Stop) => Action::Exit,
            None => Action::Exit,
        }
    }

    /// Gives the channel up for good: the publisher has left its loop.
    pub fn close(&mut self)
        ensures
            final(self).channel == ChannelState::Closed,
            final(self).amqp_uri == old(self).amqp_uri,
            final(self).exchange == old(self).exchange,
            lifecycle_move(old(self).channel, final(self).channel),
    {
        self.channel = ChannelState::Closed;
    }

    /// Takes the outcome of a checkpoint write. A failed write is fatal: the
    /// publisher gives up and takes no further event.
    pub fn persisted(&mut self, saved: bool) -> (r: Result<(), PublisherError>)
        ensures
            final(self).channel == settled(old(self).channel, saved),
            r == if saved {
                Ok::<(), PublisherError>(())
            } else {
                Err::<(), PublisherError>(PublisherError::PersistFailed)
            },
            final(self).amqp_uri == old(self).amqp_uri,
            final(self).exchange == old(self).exchange,
            lifecycle_move(old(self).channel, final(self).channel),
    {
        if saved {
            Ok(())
        } else {
            self.channel = ChannelState::Closed;
            Err(PublisherError::PersistFailed)
        }
    }

    /// Takes the outcome of a publish call and of the broker's
    /// acknowledgment. A failure is fatal: the publisher gives up and takes
    /// no further event.
    pub fn acknowledged(&mut self, confirmed: bool) -> (r: Result<(), PublisherError>)
        ensures
            final(self).channel == settled(old(self).channel, confirmed),
            r == if confirmed {
                Ok::<(), PublisherError>(())
            } else {
                Err::<(), PublisherError>(PublisherError::PublishFailed)
            },
            final(self).amqp_uri == old(self).amqp_uri,
            final(self).exchange == old(self).exchange,
            lifecycle_move(old(self).channel, final(self).channel),
    {
        if confirmed {
            Ok(())
        } else {
            self.channel = ChannelState::Closed;
            Err(PublisherError::PublishFailed)
        }
    }

    /// Takes the result of the health probe before a publish and says whether
    /// a fresh connection and channel have to be opened: when there is no
    /// channel yet, and when the channel is no longer connected, which is
    /// then discarded.
    pub fn create_channel_if_needed(&mut self, connected: bool) -> (open: bool)
        ensures
            (final(self).channel, open) == probed(old(self).channel, connected),
            final(self).amqp_uri == old(self).amqp_uri,
            final(self).exchange == old(self).exchange,
            lifecycle_move(old(self).channel, final(self).channel),
            open == final(self).opening(),
    {
        match self.channel {
            ChannelState::Absent => {
                self.channel = ChannelState::Connecting;
                true
            },
            ChannelState::Connected => {
                if connected {
                    false
                } else {
                    self.channel = ChannelState::Reconnecting;
                    true
                }
            },
            ChannelState::Connecting => true,
            ChannelState::Reconnecting => true,
            ChannelState::Closed => false,
        }
    }

    /// Takes the outcome of opening a connection and a channel. A failure is
    /// fatal: the channel is given up.
    pub fn create_channel(&mut self, opened: bool) -> (r: Result<(), PublisherError>)
        requires
            old(self).opening(),
        ensures
            final(self).channel == if opened {
                ChannelState::Connected
            } else {
                ChannelState::Closed
            },
            r == if opened {
                Ok::<(), PublisherError>(())
            } else {
                Err::<(), PublisherError>(PublisherError::ConnectFailed)
            },
            final(self).amqp_uri == old(self).amqp_uri,
            final(self).exchange == old(self).exchange,
            lifecycle_move(old(self).channel, final(self).channel),
    {
        if opened {
            self.channel = ChannelState::Connected;
            Ok(())
        } else {
            self.channel = ChannelState::Closed;
            Err(PublisherError::ConnectFailed)
        }
    }

    /// The publish call for a change: to the publisher's exchange, routed by
    /// the table's name, with the payload as the body. Needs an open channel.
    pub fn publish(&self, payload: PublishPayload) -> (delivery: Delivery)
        requires
            self.channel == ChannelState::Connected,
        ensures
            delivery@ == (DeliveryView {
                exchange: self.exchange@,
                routing_key: payload.table_name@,
                body: payload.payload@,
            }),
    {
        Delivery {
            exchange: self.exchange.clone(),
            routing_key: payload.table_name,
            body: payload.payload,
        }
    }
}

/// The contents of a list of actions, first to last.
pub open spec fn action_views(actions: Seq<Action>) -> Seq<ActionView> {
    actions.map_values(|a: Action| a@)
}

/// What a publisher whose channel is in state `channel` does with the events
/// of the bus, oldest first: each is acted on in turn, up to and with the
/// first `Stop`; what follows a `Stop` is not taken from the bus. A publisher
/// that has given up leaves at once.
pub open spec fn drained(channel: ChannelState, events: Seq<EventView>) -> Seq<ActionView>
    decreases events.len(),
{
    if events.len() == 0 {
        Seq::empty()
    } else if action_for(channel, Some(events[0])) is Exit {
        seq![ActionView::Exit]
    } else {
        seq![action_for(channel, Some(events[0]))] + drained(channel, events.drop_first())
    }
}

impl Publisher {
    /// Says what is done with a batch of events taken from the bus, oldest
    /// first: one action for each event, up to and with the one on which the
    /// publisher leaves its loop.
    pub fn drain(&self, events: Vec<BridgeEvent>) -> (actions: Vec<Action>)
        ensures
            action_views(actions@) == drained(self.channel, event_views(events@)),
    {
        let ghost all = event_views(events@);
        let mut actions: Vec<Action> = Vec::new();
        assert(all.skip(0) =~= all);
        assert(action_views(actions@) =~= Seq::<ActionView>::empty());
        for event in it: events
            invariant
                all == event_views(events@),
                all == event_views(it.seq()),
                drained(self.channel, all) == action_views(actions@) + drained(
                    self.channel,
                    all.skip(it.index() as int),
                ),
        {
            let ghost done = actions@;
            let ghost index = it.index() as int;
            assert(all.skip(index).drop_first() =~= all.skip(index + 1));
            assert(all.skip(index)[0] == event@);
            let action = self.dispatch(Some(event));
            match action {
                Action::Exit => {
                    actions.push(action);
                    assert(action_views(actions@) =~= action_views(done) + seq![ActionView::Exit]);
                    return actions;
                },
                _ => {
                    actions.push(action);
                    assert(action_views(actions@) =~= action_views(done).push(action@));
                    assert(action_views(actions@) + drained(self.channel, all.skip(index + 1))
                        =~= action_views(done) + (seq![action@] + drained(
                        self.channel,
                        all.skip(index + 1),
                    )));
                },
            }
        }
        assert(action_views(actions@) + Seq::<ActionView>::empty() =~= action_views(actions@));
        actions
    }
}

/// Whether `Stop` is among the events.
pub open spec fn has_stop(events: Seq<EventView>) -> bool {
    exists|i: int| 0 <= i < events.len() && #[trigger] events[i] is Stop
}

/// What a publisher whose channel is in state `channel` does with each of the
/// events, one action for each.
pub open spec fn actions_for(channel: ChannelState, events: Seq<EventView>) -> Seq<ActionView> {
    Seq::new(events.len(), |i: int| action_for(channel, Some(events[i])))
}

/// As long as no `Stop` comes, a publisher that has not given up acts on every
/// event, in the order in which they were enqueued.
pub proof fn lemma_drained_without_stop(channel: ChannelState, events: Seq<EventView>)
    requires
        channel != ChannelState::Closed,
        !has_stop(events),
    ensures
        drained(channel, events) == actions_for(channel, events),
    decreases events.len(),
{
    if events.len() == 0 {
        assert(actions_for(channel, events) =~= Seq::<ActionView>::empty());
    } else {
        let rest = events.drop_first();
        assert(!(events[0] is Stop));
        assert(!has_stop(rest)) by {
            if has_stop(rest) {
                let i = choose|i: int| 0 <= i < rest.len() && #[trigger] rest[i] is Stop;
                assert(events[i + 1] is Stop);
            }
        }
        lemma_drained_without_stop(channel, rest);
        assert(actions_for(channel, events) =~= seq![action_for(channel, Some(events[0]))]
            + actions_for(channel, rest));
    }
}

/// Shutdown drains. When `Stop` is enqueued behind other events, a publisher
/// that has not given up acts on every one of those events, in the order in
/// which they were enqueued, before it leaves its loop: none of them is
/// dropped, and `Exit` is the last thing it does.
pub proof fn stop_drains_the_bus(channel: ChannelState, events: Seq<EventView>, stop: int)
    requires
        channel != ChannelState::Closed,
        0 <= stop < events.len(),
        events[stop] is Stop,
        forall|i: int| 0 <= i < stop ==> !(#[trigger] events[i] is Stop),
    ensures
        drained(channel, events).len() == stop + 1,
        forall|i: int|
            0 <= i < stop ==> #[trigger] drained(channel, events)[i] == action_for(
                channel,
                Some(events[i]),
            ) && !(drained(channel, events)[i] is Exit),
        drained(channel, events)[stop] is Exit,
    decreases stop,
{
    if stop == 0 {
    } else {
        let rest = events.drop_first();
        assert(rest[stop - 1] == events[stop]);
        assert forall|i: int| 0 <= i < stop - 1 implies !(#[trigger] rest[i] is Stop) by {
            assert(rest[i] == events[i + 1]);
        }
        stop_drains_the_bus(channel, rest, stop - 1);
        assert(!(events[0] is Stop));
        assert forall|i: int| 0 <= i < stop implies #[trigger] drained(channel, events)[i]
            == action_for(channel, Some(events[i])) && !(drained(channel, events)[i] is Exit) by {
            if i > 0 {
                assert(drained(channel, events)[i] == drained(channel, rest)[i - 1]);
                assert(rest[i - 1] == events[i]);
            }
        }
        assert(drained(channel, events)[stop] == drained(channel, rest)[stop - 1]);
    }
}

} // verus!
