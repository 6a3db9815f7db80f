//! The events that flow from the consumers to the publisher.

use vstd::prelude::*;

verus! {

/// A change ready for delivery: the table it belongs to and the encoded
/// message body.
#[derive(Debug, Clone, PartialEq, Eq)]
pub struct PublishPayload {
    pub table_name: String,
    pub payload: Vec<u8>,
}

/// A checkpoint ready for durable persistence.
#[derive(Debug, Clone, PartialEq, Eq)]
pub struct CursorPayload {
    pub table_name: String,
    pub cursor: String,
}

/// One unit of work on the bus between consumers and publisher.
#[derive(Debug, Clone, PartialEq, Eq)]
pub enum BridgeEvent {
    /// A change ready for delivery.
    Publish(PublishPayload),
    /// A checkpoint ready for durable persistence.
    Cursor(CursorPayload),
    /// The pipeline shuts down.
    Stop,
}

/// The mathematical content of a [`PublishPayload`].
pub struct PublishView {
    pub table_name: Seq<char>,
    pub payload: Seq<u8>,
}

/// The mathematical content of a [`CursorPayload`].
pub struct CursorView {
    pub table_name: Seq<char>,
    pub cursor: Seq<char>,
}

/// The mathematical content of a [`BridgeEvent`].
pub enum EventView {
    Publish(PublishView),
    Cursor(CursorView),
    Stop,
}

impl View for PublishPayload {
    type V = PublishView;

    open spec fn view(&self) -> PublishView {
        PublishView { table_name: self.table_name@, payload: self.payload@ }
    }
}

impl View for CursorPayload {
    type V = CursorView;

    open spec fn view(&self) -> CursorView {
        CursorView { table_name: self.table_name@, cursor: self.cursor@ }
    }
}

impl View for BridgeEvent {
    type V = EventView;

    open spec fn view(&self) -> EventView {
        match self {
            BridgeEvent::Publish(p) => EventView::Publish(p@),
            BridgeEvent::Cursor(c) => EventView::Cursor(c@),
            BridgeEvent::Stop => EventView::Stop,
        }
    }
}

/// The contents of a queue of events, oldest first.
pub open spec fn event_views(events: Seq<BridgeEvent>) -> Seq<EventView> {
    events.map_values(|e: BridgeEvent| e@)
}

} // verus!
