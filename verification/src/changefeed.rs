//! The consumer of one table's change stream: it classifies each row, keeps
//! the cursor state and says which events go on the bus.
//!
//! Two tokens are kept apart. The resume token, with which the next
//! subscription is opened, follows the watermark of every checkpoint. The
//! cursor that is handed on for persistence is the `updated` timestamp of the
//! latest change that was handed on: it never names a point that no delivered
//! change covers. A checkpoint is handed on only when a change is pending, so
//! that a quiet table costs no writes.

use crate::event::{
    event_views, BridgeEvent, CursorPayload, CursorView, EventView, PublishPayload, PublishView,
};
use crate::json::{
    encode_document, json_document, json_encoding, json_object, json_text, json_text_member,
    object_value, parse_document, text_member, text_value,
};
use crate::options::{query_text, ChangefeedOptions, Envelope, OptionsView};
use serde_json::Value;
use vstd::prelude::*;
use vstd::string::*;
use vstd::utf8::{decode_utf8, valid_utf8};

verus! {

/// One row of the upstream stream, as the transport delivers it: a change has
/// all three columns, a checkpoint the value alone.
#[derive(Debug, Clone, PartialEq, Eq)]
pub struct ChangeData {
    pub table: Option<String>,
    pub key: Option<Vec<u8>>,
    pub value: Option<Vec<u8>>,
}

/// The mathematical content of a [`ChangeData`].
pub struct ChangeDataView {
    pub table: Option<Seq<char>>,
    pub key: Option<Seq<u8>>,
    pub value: Option<Seq<u8>>,
}

impl View for ChangeData {
    type V = ChangeDataView;

    open spec fn view(&self) -> ChangeDataView {
        ChangeDataView {
            table: match self.table {
                Some(t) => Some(t@),
                None => None,
            },
            key: match self.key {
                Some(k) => Some(k@),
                None => None,
            },
            value: match self.value {
                Some(v) => Some(v@),
                None => None,
            },
        }
    }
}

/// A row after classification and decoding.
#[derive(Debug, Clone, PartialEq, Eq)]
pub enum Row {
    /// One row-level mutation: its table, the `updated` timestamp of its value
    /// where the value has one, and the message body made of key and value.
    Change { table: String, updated: Option<String>, payload: Vec<u8> },
    /// A watermark: no change older than `resolved` will follow.
    Checkpoint { resolved: String },
    /// A row that is neither.
    Other,
}

/// The mathematical content of a [`Row`].
pub enum RowView {
    Change { table: Seq<char>, updated: Option<Seq<char>>, payload: Seq<u8> },
    Checkpoint { resolved: Seq<char> },
    Other,
}

impl View for Row {
    type V = RowView;

    open spec fn view(&self) -> RowView {
        match self {
            Row::Change { table, updated, payload } => RowView::Change {
                table: table@,
                updated: match updated {
                    Some(u) => Some(u@),
                    None => None,
                },
                payload: payload@,
            },
            Row::Checkpoint { resolved } => RowView::Checkpoint { resolved: resolved@ },
            Row::Other => RowView::Other,
        }
    }
}

/// Why a row could not be decoded.
#[derive(Debug, Clone, Copy, PartialEq, Eq, Structural)]
pub enum DecodeError {
    /// The key of a change is not UTF-8.
    InvalidKey,
    /// The value of a change is not a JSON document.
    InvalidValue,
    /// The message body of a change could not be written.
    Unencodable,
    /// The value of a checkpoint is not a JSON object with a string `resolved`.
    InvalidCheckpoint,
}

/// The document `{"key": key, "value": value}` that is sent for a change.
pub open spec fn change_document(key: Seq<char>, value: Value) -> Value {
    json_object(seq![("key"@, json_text(key)), ("value"@, value)])
}

/// What a change row holds: the key must be UTF-8 and the value a JSON
/// document; the message body is the encoding of [`change_document`].
pub open spec fn decoded_change(table: Seq<char>, key: Seq<u8>, value: Seq<u8>) -> Result<
    RowView,
    DecodeError,
> {
    if !valid_utf8(key) {
        Err(DecodeError::InvalidKey)
    } else {
        match json_document(value) {
            None => Err(DecodeError::InvalidValue),
            Some(document) => match json_encoding(
                change_document(decode_utf8(key), document),
            ) {
                None => Err(DecodeError::Unencodable),
                Some(payload) => Ok(
                    RowView::Change {
                        table,
                        updated: json_text_member(document, "updated"@),
                        payload,
                    },
                ),
            },
        }
    }
}

/// What a checkpoint row holds: a JSON object whose member `resolved` is a
/// string.
pub open spec fn decoded_checkpoint(value: Seq<u8>) -> Result<RowView, DecodeError> {
    match json_document(value) {
        None => Err(DecodeError::InvalidCheckpoint),
        Some(document) => match json_text_member(document, "resolved"@) {
            None => Err(DecodeError::InvalidCheckpoint),
            Some(resolved) => Ok(RowView::Checkpoint { resolved }),
        },
    }
}

/// The classification of a row by the columns that are present, and what it
/// decodes to.
pub open spec fn decoded(data: ChangeDataView) -> Result<RowView, DecodeError> {
    match (data.table, data.key, data.value) {
        (Some(table), Some(key), Some(value)) => decoded_change(table, key, value),
        (None, None, Some(value)) => decoded_checkpoint(value),
        _ => Ok(RowView::Other),
    }
}

/// Calls `String::from_utf8`: it succeeds exactly on valid UTF-8 and then
/// holds the characters that the bytes encode.
#[verifier::external_body]
fn utf8_text(bytes: Vec<u8>) -> (r: Option<String>)
    ensures
        match r {
            Some(text) => valid_utf8(bytes@) && text@ == decode_utf8(bytes@),
            None => !valid_utf8(bytes@),
        },
{
    String::from_utf8(bytes).ok()
}

/// Decodes a change row from its three columns.
pub fn decode_change(table: String, key: Vec<u8>, value: Vec<u8>) -> (r: Result<Row, DecodeError>)
    ensures
        match r {
            Ok(row) => decoded_change(table@, key@, value@) == Ok::<RowView, DecodeError>(row@),
            Err(e) => decoded_change(table@, key@, value@) == Err::<RowView, DecodeError>(e),
        },
{
    let ghost key_bytes = key@;
    let key = match utf8_text(key) {
        Some(text) => text,
        None => {
            return Err(DecodeError::InvalidKey);
        },
    };
    let document = match parse_document(value.as_slice()) {
        Ok(document) => document,
        Err(_) => {
            return Err(DecodeError::InvalidValue);
        },
    };
    let updated = text_member(&document, "updated");
    let ghost value_document = document;
    let mut members: Vec<(String, Value)> = Vec::new();
    members.push((String::from_str("key"), text_value(key)));
    members.push((String::from_str("value"), document));
    assert(crate::json::member_views(members@) =~= seq![
        ("key"@, json_text(decode_utf8(key_bytes))),
        ("value"@, value_document),
    ]);
    let body = object_value(members);
    match encode_document(&body) {
        Ok(payload) => Ok(Row::Change { table, updated, payload }),
        Err(_) => Err(DecodeError::Unencodable),
    }
}

/// Decodes a checkpoint row from its value column.
pub fn decode_checkpoint(value: Vec<u8>) -> (r: Result<Row, DecodeError>)
    ensures
        match r {
            Ok(row) => decoded_checkpoint(value@) == Ok::<RowView, DecodeError>(row@),
            Err(e) => decoded_checkpoint(value@) == Err::<RowView, DecodeError>(e),
        },
{
    match parse_document(value.as_slice()) {
        Ok(document) => match text_member(&document, "resolved") {
            Some(resolved) => Ok(Row::Checkpoint { resolved }),
            None => Err(DecodeError::InvalidCheckpoint),
        },
        Err(_) => Err(DecodeError::InvalidCheckpoint),
    }
}

/// Classifies a row by the columns that are present and decodes it.
pub fn decode_row(data: ChangeData) -> (r: Result<Row, DecodeError>)
    ensures
        match r {
            Ok(row) => decoded(data@) == Ok::<RowView, DecodeError>(row@),
            Err(e) => decoded(data@) == Err::<RowView, DecodeError>(e),
        },
{
    match data {
        ChangeData { table: Some(table), key: Some(key), value: Some(value) } => decode_change(
            table,
            key,
            value,
        ),
        ChangeData { table: None, key: None, value: Some(value) } => decode_checkpoint(value),
        _ => Ok(Row::Other),
    }
}

/// The state of one table's consumer.
#[derive(Debug, Clone, PartialEq, Eq)]
pub struct Changefeed {
    /// The options of the next subscription attempt; their cursor is the
    /// in-memory resume token.
    pub feed_options: ChangefeedOptions,
    /// Whether a checkpoint has been handed on since the last change.
    pub cursor_saved: bool,
    /// The `updated` timestamp of the latest change that carried one.
    pub cursor: String,
}

/// The mathematical content of a [`Changefeed`].
pub struct FeedView {
    pub options: OptionsView,
    pub cursor_saved: bool,
    pub cursor: Seq<char>,
}

impl View for Changefeed {
    type V = FeedView;

    open spec fn view(&self) -> FeedView {
        FeedView {
            options: self.feed_options@,
            cursor_saved: self.cursor_saved,
            cursor: self.cursor@,
        }
    }
}

/// Why a subscription attempt ends without being fatal.
#[derive(Debug, Clone, Copy, PartialEq, Eq, Structural)]
pub enum Cause {
    /// A row that is neither a change nor a checkpoint.
    UnknownShape,
    /// The transport reported the end of the result set.
    EndOfResults,
    /// The transport reported that the connection was aborted.
    ConnectionAborted,
    /// The transport reported another error.
    TransportError,
}

/// One item of the stream of a subscription attempt.
#[derive(Debug, Clone, PartialEq, Eq)]
pub enum StreamItem {
    /// A row.
    Row(ChangeData),
    /// The marker that ends the result set, or the end of the stream itself.
    Done,
    /// The connection was aborted.
    ConnectionAborted,
    /// Any other transport error.
    Failed,
}

/// The mathematical content of a [`StreamItem`].
pub enum ItemView {
    Row(ChangeDataView),
    Done,
    ConnectionAborted,
    Failed,
}

impl View for StreamItem {
    type V = ItemView;

    open spec fn view(&self) -> ItemView {
        match self {
            StreamItem::Row(data) => ItemView::Row(data@),
            StreamItem::Done => ItemView::Done,
            StreamItem::ConnectionAborted => ItemView::ConnectionAborted,
            StreamItem::Failed => ItemView::Failed,
        }
    }
}

/// What the consumer does with one item of the stream.
#[derive(Debug, Clone, PartialEq, Eq)]
pub enum Step {
    /// Enqueue the event and go on with the next item.
    Forward(BridgeEvent),
    /// Enqueue nothing and go on with the next item.
    Skip,
    /// Stop consuming this attempt and open a fresh subscription with the
    /// current options.
    Reopen(Cause),
    /// The consumer cannot go on: enqueue `Stop` and end.
    Abort(DecodeError),
}

/// The mathematical content of a [`Step`].
pub enum StepView {
    Forward(EventView),
    Skip,
    Reopen(Cause),
    Abort(DecodeError),
}

impl View for Step {
    type V = StepView;

    open spec fn view(&self) -> StepView {
        match self {
            Step::Forward(event) => StepView::Forward(event@),
            Step::Skip => StepView::Skip,
            Step::Reopen(cause) => StepView::Reopen(*cause),
            Step::Abort(error) => StepView::Abort(*error),
        }
    }
}

/// The state in which the consumer of `table_name` starts: the resume token is
/// the one that the cursor store held, no change is pending and no timestamp
/// has been seen.
pub open spec fn initial_feed(table_name: Seq<char>, cursor: Option<Seq<char>>) -> FeedView {
    FeedView {
        options: OptionsView { envelope: Envelope::Row, cursor, table_name },
        cursor_saved: true,
        cursor: Seq::empty(),
    }
}

/// The state after a change and the event that hands it on. The change
/// becomes pending, and its `updated` timestamp, where it has one, becomes the
/// cursor that the next checkpoint persists.
pub open spec fn change_step(
    s: FeedView,
    table: Seq<char>,
    updated: Option<Seq<char>>,
    payload: Seq<u8>,
) -> (FeedView, StepView) {
    (
        FeedView {
            cursor: match updated {
                Some(u) => u,
                None => s.cursor,
            },
            cursor_saved: false,
            ..s
        },
        StepView::Forward(EventView::Publish(PublishView { table_name: table, payload })),
    )
}

/// The state after a checkpoint and what is handed on: the cursor, once, if
/// changes are pending. The resume token advances to `resolved` in any case.
pub open spec fn checkpoint_step(s: FeedView, resolved: Seq<char>) -> (FeedView, StepView) {
    (
        FeedView {
            options: OptionsView { cursor: Some(resolved), ..s.options },
            cursor_saved: true,
            ..s
        },
        if s.cursor_saved {
            StepView::Skip
        } else {
            StepView::Forward(
                EventView::Cursor(
                    CursorView { table_name: s.options.table_name, cursor: s.cursor },
                ),
            )
        },
    )
}

/// The state after a decoded row and what the consumer does with it.
pub open spec fn row_step(s: FeedView, row: RowView) -> (FeedView, StepView) {
    match row {
        RowView::Change { table, updated, payload } => change_step(s, table, updated, payload),
        RowView::Checkpoint { resolved } => checkpoint_step(s, resolved),
        RowView::Other => (s, StepView::Reopen(Cause::UnknownShape)),
    }
}

/// The state after one item of the stream and what the consumer does with it.
/// A row that cannot be decoded leaves the state as it was.
pub open spec fn item_step(s: FeedView, item: ItemView) -> (FeedView, StepView) {
    match item {
        ItemView::Row(data) => match decoded(data) {
            Ok(row) => row_step(s, row),
            Err(error) => (s, StepView::Abort(error)),
        },
        ItemView::Done => (s, StepView::Reopen(Cause::EndOfResults)),
        ItemView::ConnectionAborted => (s, StepView::Reopen(Cause::ConnectionAborted)),
        ItemView::Failed => (s, StepView::Reopen(Cause::TransportError)),
    }
}

/// Creates the consumer of `table_name`, seeded with the token that the
/// cursor store holds for it, if any. A consumer needs a table name.
pub fn start(table_name: String, cursor: Option<String>) -> (feed: Changefeed)
    requires
        table_name@.len() > 0,
    ensures
        feed.wf(),
        feed@ == initial_feed(
            table_name@,
            match cursor {
                Some(c) => Some(c@),
                None => None,
            },
        ),
{
    Changefeed {
        feed_options: ChangefeedOptions { envelope: Envelope::Row, cursor, table_name },
        cursor_saved: true,
        cursor: String::new(),
    }
}

impl Changefeed {
    /// A consumer is well formed when it has a table to subscribe to.
    pub open spec fn wf(&self) -> bool {
        self.feed_options.table_name@.len() > 0
    }

    /// The request of the next subscription attempt.
    pub fn query_string(&self) -> (query: String)
        requires
            self.wf(),
        ensures
            query@ == query_text(self@.options),
    {
        self.feed_options.query_string()
    }

    /// Takes a change: hands it on and marks it pending.
    pub fn record_change(&mut self, table: String, updated: Option<String>, payload: Vec<u8>) -> (step:
        Step)
        ensures
            (final(self)@, step@) == change_step(
                old(self)@,
                table@,
                match updated {
                    Some(u) => Some(u@),
                    None => None,
                },
                payload@,
            ),
            old(self).wf() ==> final(self).wf(),
    {
        match updated {
            Some(timestamp) => {
                self.cursor = timestamp;
            },
            None => {},
        }
        self.cursor_saved = false;
        Step::Forward(BridgeEvent::Publish(PublishPayload { table_name: table, payload }))
    }

    /// Takes a checkpoint: hands the cursor on if changes are pending, and
    /// advances the resume token.
    pub fn record_checkpoint(&mut self, resolved: String) -> (step: Step)
        ensures
            (final(self)@, step@) == checkpoint_step(old(self)@, resolved@),
            old(self).wf() ==> final(self).wf(),
    {
        let step = if self.cursor_saved {
            Step::Skip
        } else {
            Step::Forward(
                BridgeEvent::Cursor(
                    CursorPayload {
                        table_name: self.feed_options.table_name.clone(),
                        cursor: self.cursor.clone(),
                    },
                ),
            )
        };
        self.cursor_saved = true;
        self.feed_options.cursor = Some(resolved);
        step
    }

    /// Takes a decoded row.
    pub fn apply(&mut self, row: Row) -> (step: Step)
        ensures
            (final(self)@, step@) == row_step(old(self)@, row@),
            old(self).wf() ==> final(self).wf(),
    {
        match row {
            Row::Change { table, updated, payload } => self.record_change(table, updated, payload),
            Row::Checkpoint { resolved } => self.record_checkpoint(resolved),
            Row::Other => Step::Reopen(Cause::UnknownShape),
        }
    }

    /// Takes one item of the stream: decodes it where it is a row, and says
    /// what the consumer does next.
    pub fn handle(&mut self, item: StreamItem) -> (step: Step)
        ensures
            (final(self)@, step@) == item_step(old(self)@, item@),
            old(self).wf() ==> final(self).wf(),
    {
        match item {
            StreamItem::Row(data) => match decode_row(data) {
                Ok(row) => self.apply(row),
                Err(error) => Step::Abort(error),
            },
            StreamItem::Done => Step::Reopen(Cause::EndOfResults),
            StreamItem::ConnectionAborted => Step::Reopen(Cause::ConnectionAborted),
            StreamItem::Failed => Step::Reopen(Cause::TransportError),
        }
    }
}

/// How the consumption of a run of stream items ended.
#[derive(Debug, Clone, Copy, PartialEq, Eq, Structural)]
pub enum AttemptEnd {
    /// Every item was consumed.
    Drained,
    /// An item ended the attempt; the items after it were not consumed.
    Reopen(Cause),
    /// A row could not be decoded; the items after it were not consumed.
    Aborted(DecodeError),
}

/// The outcome of consuming a run of stream items.
#[derive(Debug, Clone, PartialEq, Eq)]
pub struct Attempt {
    /// The events to enqueue, in this order.
    pub events: Vec<BridgeEvent>,
    /// How the run ended.
    pub end: AttemptEnd,
}

/// The mathematical content of the consumption of a run of stream items.
pub struct RunView {
    pub state: FeedView,
    pub events: Seq<EventView>,
    pub end: AttemptEnd,
}

/// The contents of a run of stream items, in arrival order.
pub open spec fn item_views(items: Seq<StreamItem>) -> Seq<ItemView> {
    items.map_values(|i: StreamItem| i@)
}

/// The consumption of `items` in arrival order from state `s`: each item is
/// taken by [`item_step`] until one ends the attempt. A fatal item is followed
/// by `Stop`.
pub open spec fn run(s: FeedView, items: Seq<ItemView>) -> RunView
    decreases items.len(),
{
    if items.len() == 0 {
        RunView { state: s, events: Seq::empty(), end: AttemptEnd::Drained }
    } else {
        let (next, step) = item_step(s, items[0]);
        match step {
            StepView::Forward(event) => {
                let rest = run(next, items.drop_first());
                RunView { events: seq![event] + rest.events, ..rest }
            },
            StepView::Skip => run(next, items.drop_first()),
            StepView::Reopen(cause) => RunView {
                state: next,
                events: Seq::empty(),
                end: AttemptEnd::Reopen(cause),
            },
            StepView::Abort(error) => RunView {
                state: next,
                events: seq![EventView::Stop],
                end: AttemptEnd::Aborted(error),
            },
        }
    }
}

/// A run whose events follow `events`.
pub open spec fn after_events(events: Seq<EventView>, rest: RunView) -> RunView {
    RunView { events: events + rest.events, ..rest }
}

impl Changefeed {
    /// Consumes a run of stream items in arrival order, up to the first item
    /// that ends the attempt.
    pub fn consume(&mut self, items: Vec<StreamItem>) -> (attempt: Attempt)
        ensures
            final(self)@ == run(old(self)@, item_views(items@)).state,
            event_views(attempt.events@) == run(old(self)@, item_views(items@)).events,
            attempt.end == run(old(self)@, item_views(items@)).end,
            old(self).wf() ==> final(self).wf(),
    {
        let ghost all = item_views(items@);
        let ghost start = self@;
        let mut events: Vec<BridgeEvent> = Vec::new();
        assert(all.skip(0) =~= all);
        assert(event_views(events@) =~= Seq::<EventView>::empty());
        for item in it: items
            invariant
                start == old(self)@,
                all == item_views(items@),
                all == item_views(it.seq()),
                run(start, all) == after_events(
                    event_views(events@),
                    run(self@, all.skip(it.index() as int)),
                ),
                old(self).wf() ==> self.wf(),
        {
            let ghost before = self@;
            let ghost seen = events@;
            let ghost index = it.index() as int;
            assert(all.skip(index).drop_first() =~= all.skip(index + 1));
            assert(all.skip(index)[0] == item@);
            match self.handle(item) {
                Step::Forward(event) => {
                    events.push(event);
                    assert(event_views(events@) =~= event_views(seen).push(event@));
                    assert(event_views(events@) + run(self@, all.skip(index + 1)).events
                        =~= event_views(seen) + (seq![event@] + run(
                        self@,
                        all.skip(index + 1),
                    ).events));
                },
                Step::Skip => {},
                Step::Reopen(cause) => {
                    assert(event_views(seen) + Seq::<EventView>::empty() =~= event_views(seen));
                    return Attempt { events, end: AttemptEnd::Reopen(cause) };
                },
                Step::Abort(error) => {
                    events.push(BridgeEvent::Stop);
                    assert(event_views(events@) =~= event_views(seen) + seq![EventView::Stop]);
                    return Attempt { events, end: AttemptEnd::Aborted(error) };
                },
            }
        }
        assert(event_views(events@) + Seq::<EventView>::empty() =~= event_views(events@));
        Attempt { events, end: AttemptEnd::Drained }
    }
}

} // verus!
