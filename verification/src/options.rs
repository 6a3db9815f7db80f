//! What a consumer asks of the upstream change stream.

use vstd::prelude::*;
use vstd::string::*;

verus! {

/// The shape of the value emitted per change.
#[derive(Debug, Clone, Copy, PartialEq, Eq, Structural)]
pub enum Envelope {
    /// The full row value.
    Row,
    /// The primary key only.
    KeyOnly,
}

impl Default for Envelope {
    fn default() -> (e: Self)
        ensures
            e == Envelope::Row,
    {
        Envelope::Row
    }
}

/// Per-consumer configuration, from which the subscription request is built.
#[derive(Debug, Clone, PartialEq, Eq)]
pub struct ChangefeedOptions {
    pub envelope: Envelope,
    pub cursor: Option<String>,
    pub table_name: String,
}

/// The mathematical content of a [`ChangefeedOptions`].
pub struct OptionsView {
    pub envelope: Envelope,
    pub cursor: Option<Seq<char>>,
    pub table_name: Seq<char>,
}

impl View for ChangefeedOptions {
    type V = OptionsView;

    open spec fn view(&self) -> OptionsView {
        OptionsView {
            envelope: self.envelope,
            cursor: match self.cursor {
                Some(c) => Some(c@),
                None => None,
            },
            table_name: self.table_name@,
        }
    }
}

/// The envelope clause of a request: present only for `KeyOnly`.
pub open spec fn envelope_clause(envelope: Envelope) -> Seq<char> {
    match envelope {
        Envelope::Row => Seq::empty(),
        Envelope::KeyOnly => ", envelope=key_only"@,
    }
}

/// The cursor clause of a request: present only when a resume token is known.
pub open spec fn cursor_clause(cursor: Option<Seq<char>>) -> Seq<char> {
    match cursor {
        Some(token) => ", cursor='"@ + token + "'"@,
        None => Seq::empty(),
    }
}

/// The text of the subscription request for the given options.
pub open spec fn query_text(options: OptionsView) -> Seq<char> {
    "SUBSCRIBE CHANGES FOR "@ + options.table_name + " WITH updated, resolved='10s'"@
        + envelope_clause(options.envelope) + cursor_clause(options.cursor) + ";"@
}

impl Default for ChangefeedOptions {
    fn default() -> (o: Self)
        ensures
            o@ == (OptionsView { envelope: Envelope::Row, cursor: None, table_name: Seq::empty() }),
    {
        ChangefeedOptions { envelope: Envelope::Row, cursor: None, table_name: String::new() }
    }
}

impl ChangefeedOptions {
    /// Builds the subscription request. A request cannot be built without a
    /// table name.
    pub fn query_string(&self) -> (query: String)
        requires
            self.table_name@.len() > 0,
        ensures
            query@ == query_text(self@),
    {
        let mut query = String::from_str("SUBSCRIBE CHANGES FOR ");
        query.append(self.table_name.as_str());
        query.append(" WITH updated, resolved='10s'");
        match self.envelope {
            Envelope::KeyOnly => {
                query.append(", envelope=key_only");
            },
            Envelope::Row => {},
        }
        match &self.cursor {
            Some(cursor) => {
                query.append(", cursor='");
                query.append(cursor.as_str());
                query.append("'");
            },
            None => {},
        }
        query.append(";");
        query
    }
}

} // verus!
