use cdc_bridge::options::{ChangefeedOptions, Envelope};

fn options(envelope: Envelope, cursor: Option<&str>, table_name: &str) -> ChangefeedOptions {
    ChangefeedOptions {
        envelope,
        cursor: cursor.map(|c| c.to_string()),
        table_name: table_name.to_string(),
    }
}

#[test]
fn envelope_defaults_to_row() {
    assert_eq!(Envelope::default(), Envelope::Row);
}

#[test]
fn options_default_to_nothing() {
    let o = ChangefeedOptions::default();
    assert_eq!(o.envelope, Envelope::Row);
    assert_eq!(o.cursor, None);
    assert_eq!(o.table_name, "");
}

#[test]
fn query_for_a_table_alone() {
    let o = options(Envelope::Row, None, "orders");
    assert_eq!(o.query_string(), "SUBSCRIBE CHANGES FOR orders WITH updated, resolved='10s';");
}

#[test]
fn query_with_key_only_envelope() {
    let o = options(Envelope::KeyOnly, None, "orders");
    assert_eq!(
        o.query_string(),
        "SUBSCRIBE CHANGES FOR orders WITH updated, resolved='10s', envelope=key_only;"
    );
}

#[test]
fn query_with_cursor() {
    let o = options(Envelope::Row, Some("1610000000.0000000000"), "orders");
    assert_eq!(
        o.query_string(),
        "SUBSCRIBE CHANGES FOR orders WITH updated, resolved='10s', cursor='1610000000.0000000000';"
    );
}

#[test]
fn query_with_envelope_and_cursor() {
    let o = options(Envelope::KeyOnly, Some("7"), "t");
    assert_eq!(
        o.query_string(),
        "SUBSCRIBE CHANGES FOR t WITH updated, resolved='10s', envelope=key_only, cursor='7';"
    );
}

#[test]
fn query_with_empty_cursor() {
    let o = options(Envelope::Row, Some(""), "t");
    assert_eq!(o.query_string(), "SUBSCRIBE CHANGES FOR t WITH updated, resolved='10s', cursor='';");
}

#[test]
fn query_is_the_same_each_time() {
    let o = options(Envelope::KeyOnly, Some("42.5"), "users");
    assert_eq!(o.query_string(), o.query_string());
}

#[test]
fn query_keeps_non_ascii_names() {
    let o = options(Envelope::Row, None, "bücher");
    assert_eq!(o.query_string(), "SUBSCRIBE CHANGES FOR bücher WITH updated, resolved='10s';");
}
