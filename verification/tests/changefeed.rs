use cdc_bridge::changefeed::{
    self, decode_change, decode_checkpoint, decode_row, Attempt, AttemptEnd, Cause, ChangeData,
    Changefeed, DecodeError, Row, Step, StreamItem,
};
use cdc_bridge::options::Envelope;
use cdc_bridge::{BridgeEvent, CursorPayload, PublishPayload};

fn change_data(table: &str, key: &str, value: &str) -> ChangeData {
    ChangeData {
        table: Some(table.to_string()),
        key: Some(key.as_bytes().to_vec()),
        value: Some(value.as_bytes().to_vec()),
    }
}

fn checkpoint_data(value: &str) -> ChangeData {
    ChangeData { table: None, key: None, value: Some(value.as_bytes().to_vec()) }
}

fn change_item(table: &str, key: &str, value: &str) -> StreamItem {
    StreamItem::Row(change_data(table, key, value))
}

fn checkpoint_item(resolved: &str) -> StreamItem {
    StreamItem::Row(checkpoint_data(&format!("{{\"resolved\":\"{}\"}}", resolved)))
}

fn publish(table: &str, body: &str) -> BridgeEvent {
    BridgeEvent::Publish(PublishPayload {
        table_name: table.to_string(),
        payload: body.as_bytes().to_vec(),
    })
}

fn cursor(table: &str, token: &str) -> BridgeEvent {
    BridgeEvent::Cursor(CursorPayload { table_name: table.to_string(), cursor: token.to_string() })
}

fn feed(table: &str) -> Changefeed {
    changefeed::start(table.to_string(), None)
}

fn document(bytes: &[u8]) -> serde_json::Value {
    serde_json::from_slice(bytes).unwrap()
}

#[test]
fn consumer_starts_with_nothing_pending() {
    let f = changefeed::start("orders".to_string(), Some("99.0".to_string()));
    assert_eq!(f.feed_options.table_name, "orders");
    assert_eq!(f.feed_options.cursor, Some("99.0".to_string()));
    assert_eq!(f.feed_options.envelope, Envelope::Row);
    assert!(f.cursor_saved);
    assert_eq!(f.cursor, "");
}

#[test]
fn consumer_without_stored_cursor_starts_at_the_beginning() {
    let f = feed("orders");
    assert_eq!(f.feed_options.cursor, None);
    assert_eq!(f.query_string(), "SUBSCRIBE CHANGES FOR orders WITH updated, resolved='10s';");
}

#[test]
fn restart_opens_at_the_stored_token() {
    let f = changefeed::start("orders".to_string(), Some("1610000000.5".to_string()));
    assert_eq!(
        f.query_string(),
        "SUBSCRIBE CHANGES FOR orders WITH updated, resolved='10s', cursor='1610000000.5';"
    );
}

#[test]
fn change_row_decodes_to_key_and_value() {
    let row = decode_change(
        "orders".to_string(),
        b"1".to_vec(),
        b"{\"amount\":5,\"updated\":\"100.0\"}".to_vec(),
    );
    assert_eq!(
        row,
        Ok(Row::Change {
            table: "orders".to_string(),
            updated: Some("100.0".to_string()),
            payload: b"{\"key\":\"1\",\"value\":{\"amount\":5,\"updated\":\"100.0\"}}".to_vec(),
        })
    );
}

#[test]
fn change_payload_is_the_document_of_key_and_value() {
    let row = decode_row(change_data(
        "orders",
        "[\"a\", 7]",
        " { \"updated\" : \"100.0\", \"amount\" : 5, \"tags\" : [1, null, true] } ",
    ));
    match row {
        Ok(Row::Change { table, updated, payload }) => {
            assert_eq!(table, "orders");
            assert_eq!(updated, Some("100.0".to_string()));
            let sent = document(&payload);
            let members = sent.as_object().unwrap();
            assert_eq!(members.len(), 2);
            assert_eq!(sent.get("key"), Some(&serde_json::Value::from("[\"a\", 7]")));
            assert_eq!(
                sent.get("value"),
                Some(&document(b"{\"updated\":\"100.0\",\"amount\":5,\"tags\":[1,null,true]}"))
            );
        }
        other => panic!("not a change: {:?}", other),
    }
}

#[test]
fn change_without_timestamp_has_none() {
    let row = decode_row(change_data("orders", "1", "{\"amount\":5}"));
    assert_eq!(
        row,
        Ok(Row::Change {
            table: "orders".to_string(),
            updated: None,
            payload: b"{\"key\":\"1\",\"value\":{\"amount\":5}}".to_vec(),
        })
    );
}

#[test]
fn timestamp_must_be_a_string() {
    let row = decode_row(change_data("orders", "1", "{\"updated\":100.5}"));
    match row {
        Ok(Row::Change { updated, .. }) => assert_eq!(updated, None),
        other => panic!("not a change: {:?}", other),
    }
}

#[test]
fn value_that_is_no_object_has_no_timestamp() {
    let row = decode_row(change_data("orders", "1", "[\"updated\"]"));
    assert_eq!(
        row,
        Ok(Row::Change {
            table: "orders".to_string(),
            updated: None,
            payload: b"{\"key\":\"1\",\"value\":[\"updated\"]}".to_vec(),
        })
    );
}

#[test]
fn key_is_escaped_in_the_payload() {
    let row = decode_row(change_data("t", "a\"b", "null"));
    assert_eq!(
        row,
        Ok(Row::Change {
            table: "t".to_string(),
            updated: None,
            payload: b"{\"key\":\"a\\\"b\",\"value\":null}".to_vec(),
        })
    );
}

#[test]
fn key_that_is_not_utf8_is_rejected() {
    let data = ChangeData {
        table: Some("orders".to_string()),
        key: Some(vec![0xff, 0xfe]),
        value: Some(b"{}".to_vec()),
    };
    assert_eq!(decode_row(data), Err(DecodeError::InvalidKey));
}

#[test]
fn key_is_looked_at_before_the_value() {
    let data = ChangeData {
        table: Some("orders".to_string()),
        key: Some(vec![0xc3]),
        value: Some(b"not json".to_vec()),
    };
    assert_eq!(decode_row(data), Err(DecodeError::InvalidKey));
}

#[test]
fn value_that_is_not_json_is_rejected() {
    assert_eq!(decode_row(change_data("orders", "1", "{\"amount\":")), Err(DecodeError::InvalidValue));
    assert_eq!(decode_row(change_data("orders", "1", "")), Err(DecodeError::InvalidValue));
}

#[test]
fn checkpoint_row_decodes_to_its_watermark() {
    assert_eq!(
        decode_row(checkpoint_data("{\"resolved\":\"101.0\"}")),
        Ok(Row::Checkpoint { resolved: "101.0".to_string() })
    );
    assert_eq!(
        decode_checkpoint(b"{\"resolved\":\"101.0\",\"more\":1}".to_vec()),
        Ok(Row::Checkpoint { resolved: "101.0".to_string() })
    );
}

#[test]
fn checkpoint_without_watermark_is_rejected() {
    assert_eq!(decode_row(checkpoint_data("{}")), Err(DecodeError::InvalidCheckpoint));
    assert_eq!(decode_row(checkpoint_data("{\"resolved\":17}")), Err(DecodeError::InvalidCheckpoint));
    assert_eq!(decode_row(checkpoint_data("\"101.0\"")), Err(DecodeError::InvalidCheckpoint));
    assert_eq!(decode_row(checkpoint_data("{\"resolved\"")), Err(DecodeError::InvalidCheckpoint));
}

#[test]
fn other_shapes_are_neither() {
    let shapes = vec![
        ChangeData { table: None, key: None, value: None },
        ChangeData { table: Some("t".to_string()), key: None, value: Some(b"{}".to_vec()) },
        ChangeData { table: None, key: Some(b"1".to_vec()), value: Some(b"{}".to_vec()) },
        ChangeData { table: Some("t".to_string()), key: Some(b"1".to_vec()), value: None },
        ChangeData { table: Some("t".to_string()), key: None, value: None },
        ChangeData { table: None, key: Some(b"1".to_vec()), value: None },
    ];
    for shape in shapes {
        assert_eq!(decode_row(shape), Ok(Row::Other));
    }
}

#[test]
fn change_becomes_pending() {
    let mut f = feed("orders");
    let step = f.record_change("orders".to_string(), Some("100.0".to_string()), b"body".to_vec());
    assert_eq!(step, Step::Forward(publish("orders", "body")));
    assert!(!f.cursor_saved);
    assert_eq!(f.cursor, "100.0");
    assert_eq!(f.feed_options.cursor, None);
}

#[test]
fn change_without_timestamp_keeps_the_cursor() {
    let mut f = feed("orders");
    f.record_change("orders".to_string(), Some("100.0".to_string()), b"a".to_vec());
    let step = f.record_change("orders".to_string(), None, b"b".to_vec());
    assert_eq!(step, Step::Forward(publish("orders", "b")));
    assert_eq!(f.cursor, "100.0");
    assert!(!f.cursor_saved);
}

#[test]
fn publish_carries_the_table_of_the_row() {
    let mut f = feed("orders");
    let step = f.apply(Row::Change {
        table: "orders_archive".to_string(),
        updated: None,
        payload: b"x".to_vec(),
    });
    assert_eq!(step, Step::Forward(publish("orders_archive", "x")));
}

#[test]
fn checkpoint_with_nothing_pending_is_not_persisted() {
    let mut f = feed("orders");
    let step = f.record_checkpoint("101.0".to_string());
    assert_eq!(step, Step::Skip);
    assert!(f.cursor_saved);
    assert_eq!(f.feed_options.cursor, Some("101.0".to_string()));
}

#[test]
fn checkpoint_after_a_change_persists_its_timestamp() {
    let mut f = feed("orders");
    f.record_change("orders".to_string(), Some("100.0".to_string()), b"a".to_vec());
    let step = f.apply(Row::Checkpoint { resolved: "101.0".to_string() });
    assert_eq!(step, Step::Forward(cursor("orders", "100.0")));
    assert!(f.cursor_saved);
    assert_eq!(f.cursor, "100.0");
    assert_eq!(f.feed_options.cursor, Some("101.0".to_string()));
}

#[test]
fn unknown_shape_ends_the_attempt() {
    let mut f = feed("orders");
    let before = f.clone();
    assert_eq!(f.apply(Row::Other), Step::Reopen(Cause::UnknownShape));
    assert_eq!(f, before);
}

#[test]
fn change_then_checkpoint() {
    let mut f = feed("orders");
    let first = f.handle(change_item("orders", "1", "{\"updated\":\"100.0\",\"amount\":5}"));
    match first {
        Step::Forward(BridgeEvent::Publish(p)) => {
            assert_eq!(p.table_name, "orders");
            let sent = document(&p.payload);
            assert_eq!(sent.as_object().unwrap().len(), 2);
            assert_eq!(sent.get("key"), Some(&serde_json::Value::from("1")));
            assert_eq!(sent.get("value"), Some(&document(b"{\"updated\":\"100.0\",\"amount\":5}")));
        }
        other => panic!("not a publish: {:?}", other),
    }
    let second = f.handle(checkpoint_item("101.0"));
    assert_eq!(second, Step::Forward(cursor("orders", "100.0")));
    assert_eq!(f.feed_options.cursor, Some("101.0".to_string()));
    assert_eq!(
        f.query_string(),
        "SUBSCRIBE CHANGES FOR orders WITH updated, resolved='10s', cursor='101.0';"
    );
}

#[test]
fn two_checkpoints_in_a_row() {
    let mut f = feed("orders");
    let Attempt { events, end } =
        f.consume(vec![checkpoint_item("101.0"), checkpoint_item("102.0")]);
    assert_eq!(events, vec![]);
    assert_eq!(end, AttemptEnd::Drained);
    assert_eq!(f.feed_options.cursor, Some("102.0".to_string()));
}

#[test]
fn two_checkpoints_after_a_change() {
    let mut f = feed("orders");
    let Attempt { events, end } = f.consume(vec![
        change_item("orders", "1", "{\"updated\":\"100.0\"}"),
        checkpoint_item("101.0"),
        checkpoint_item("102.0"),
    ]);
    assert_eq!(
        events,
        vec![
            publish("orders", "{\"key\":\"1\",\"value\":{\"updated\":\"100.0\"}}"),
            cursor("orders", "100.0"),
        ]
    );
    assert_eq!(end, AttemptEnd::Drained);
    assert_eq!(f.feed_options.cursor, Some("102.0".to_string()));
    assert!(f.cursor_saved);
}

#[test]
fn many_checkpoints_persist_once() {
    let mut f = feed("orders");
    f.record_change("orders".to_string(), Some("5.0".to_string()), b"x".to_vec());
    let mut items = Vec::new();
    for i in 0..20 {
        items.push(checkpoint_item(&format!("{}.0", 10 + i)));
    }
    let Attempt { events, end } = f.consume(items);
    assert_eq!(events, vec![cursor("orders", "5.0")]);
    assert_eq!(end, AttemptEnd::Drained);
    assert_eq!(f.feed_options.cursor, Some("29.0".to_string()));
}

#[test]
fn changes_keep_their_order() {
    let mut f = feed("orders");
    let Attempt { events, end } = f.consume(vec![
        change_item("orders", "1", "{\"updated\":\"100.0\"}"),
        change_item("orders", "2", "{\"updated\":\"100.5\"}"),
        change_item("orders", "3", "{}"),
        checkpoint_item("101.0"),
    ]);
    assert_eq!(
        events,
        vec![
            publish("orders", "{\"key\":\"1\",\"value\":{\"updated\":\"100.0\"}}"),
            publish("orders", "{\"key\":\"2\",\"value\":{\"updated\":\"100.5\"}}"),
            publish("orders", "{\"key\":\"3\",\"value\":{}}"),
            cursor("orders", "100.5"),
        ]
    );
    assert_eq!(end, AttemptEnd::Drained);
}

#[test]
fn each_run_of_changes_gets_its_cursor() {
    let mut f = feed("orders");
    let Attempt { events, .. } = f.consume(vec![
        change_item("orders", "1", "{\"updated\":\"1.0\"}"),
        checkpoint_item("2.0"),
        checkpoint_item("3.0"),
        change_item("orders", "2", "{\"updated\":\"3.5\"}"),
        checkpoint_item("4.0"),
    ]);
    assert_eq!(
        events,
        vec![
            publish("orders", "{\"key\":\"1\",\"value\":{\"updated\":\"1.0\"}}"),
            cursor("orders", "1.0"),
            publish("orders", "{\"key\":\"2\",\"value\":{\"updated\":\"3.5\"}}"),
            cursor("orders", "3.5"),
        ]
    );
}

#[test]
fn changes_without_timestamps_persist_the_empty_cursor() {
    let mut f = feed("orders");
    let Attempt { events, .. } =
        f.consume(vec![change_item("orders", "1", "{}"), checkpoint_item("2.0")]);
    assert_eq!(
        events,
        vec![publish("orders", "{\"key\":\"1\",\"value\":{}}"), cursor("orders", "")]
    );
}

#[test]
fn aborted_connection_reopens_at_the_resume_token() {
    let mut f = changefeed::start("orders".to_string(), Some("50.0".to_string()));
    let Attempt { events, end } = f.consume(vec![
        change_item("orders", "1", "{\"updated\":\"100.0\"}"),
        checkpoint_item("101.0"),
        StreamItem::ConnectionAborted,
        change_item("orders", "2", "{\"updated\":\"102.0\"}"),
    ]);
    assert_eq!(
        events,
        vec![
            publish("orders", "{\"key\":\"1\",\"value\":{\"updated\":\"100.0\"}}"),
            cursor("orders", "100.0"),
        ]
    );
    assert_eq!(end, AttemptEnd::Reopen(Cause::ConnectionAborted));
    assert_eq!(
        f.query_string(),
        "SUBSCRIBE CHANGES FOR orders WITH updated, resolved='10s', cursor='101.0';"
    );
}

#[test]
fn aborted_connection_before_any_checkpoint_keeps_the_stored_token() {
    let mut f = changefeed::start("orders".to_string(), Some("50.0".to_string()));
    let before = f.clone();
    assert_eq!(f.handle(StreamItem::ConnectionAborted), Step::Reopen(Cause::ConnectionAborted));
    assert_eq!(f, before);
    assert_eq!(
        f.query_string(),
        "SUBSCRIBE CHANGES FOR orders WITH updated, resolved='10s', cursor='50.0';"
    );
}

#[test]
fn end_of_results_and_errors_reopen() {
    let mut f = feed("orders");
    let before = f.clone();
    assert_eq!(f.handle(StreamItem::Done), Step::Reopen(Cause::EndOfResults));
    assert_eq!(f.handle(StreamItem::Failed), Step::Reopen(Cause::TransportError));
    assert_eq!(
        f.handle(StreamItem::Row(ChangeData { table: None, key: None, value: None })),
        Step::Reopen(Cause::UnknownShape)
    );
    assert_eq!(f, before);
}

#[test]
fn pending_change_survives_a_reopen() {
    let mut f = feed("orders");
    let first = f.consume(vec![
        change_item("orders", "1", "{\"updated\":\"100.0\"}"),
        StreamItem::Done,
    ]);
    assert_eq!(first.end, AttemptEnd::Reopen(Cause::EndOfResults));
    let second = f.consume(vec![checkpoint_item("101.0")]);
    assert_eq!(second.events, vec![cursor("orders", "100.0")]);
    assert_eq!(second.end, AttemptEnd::Drained);
}

#[test]
fn undecodable_row_stops_the_pipeline() {
    let mut f = feed("orders");
    let Attempt { events, end } = f.consume(vec![
        change_item("orders", "1", "{\"updated\":\"100.0\"}"),
        change_item("orders", "2", "{broken"),
        checkpoint_item("101.0"),
    ]);
    assert_eq!(
        events,
        vec![
            publish("orders", "{\"key\":\"1\",\"value\":{\"updated\":\"100.0\"}}"),
            BridgeEvent::Stop,
        ]
    );
    assert_eq!(end, AttemptEnd::Aborted(DecodeError::InvalidValue));
    assert_eq!(f.cursor, "100.0");
    assert!(!f.cursor_saved);
    assert_eq!(f.feed_options.cursor, None);
}

#[test]
fn undecodable_checkpoint_does_not_advance_the_token() {
    let mut f = changefeed::start("orders".to_string(), Some("50.0".to_string()));
    let step = f.handle(StreamItem::Row(checkpoint_data("{\"resolved\":null}")));
    assert_eq!(step, Step::Abort(DecodeError::InvalidCheckpoint));
    assert_eq!(f.feed_options.cursor, Some("50.0".to_string()));
    assert!(f.cursor_saved);
}

#[test]
fn empty_run_changes_nothing() {
    let mut f = feed("orders");
    let before = f.clone();
    let Attempt { events, end } = f.consume(vec![]);
    assert_eq!(events, vec![]);
    assert_eq!(end, AttemptEnd::Drained);
    assert_eq!(f, before);
}
