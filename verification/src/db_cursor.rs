//! The cursor store: one row per table, holding the token from which that
//! table's stream resumes. This file says which statements are sent to the
//! database and what their answers mean; sending them is the caller's part.

use vstd::prelude::*;
use vstd::string::*;

verus! {

/// A statement for the database with the values bound to `$1`, `$2`, ... in
/// this order.
#[derive(Debug, Clone, PartialEq, Eq)]
pub struct Statement {
    pub sql: String,
    pub binds: Vec<String>,
}

/// The mathematical content of a [`Statement`].
pub struct StatementView {
    pub sql: Seq<char>,
    pub binds: Seq<Seq<char>>,
}

impl View for Statement {
    type V = StatementView;

    open spec fn view(&self) -> StatementView {
        StatementView { sql: self.sql@, binds: self.binds@.map_values(|b: String| b@) }
    }
}

/// What the database answered to the lookup of a cursor.
#[derive(Debug, Clone, PartialEq, Eq)]
pub enum Lookup {
    /// The row of the table, with its token.
    Found(String),
    /// There is no row for the table.
    RowNotFound,
    /// Any other failure.
    Failed,
}

/// Why the cursor store could not be read.
#[derive(Debug, Clone, Copy, PartialEq, Eq, Structural)]
pub enum StoreError {
    /// The lookup failed for another reason than a missing row.
    LookupFailed,
}

/// The text that creates the backing table unless it exists.
pub open spec fn create_cursor_table_sql() -> Seq<char> {
    "CREATE TABLE IF NOT EXISTS _amqp_bridge_cursors (\"table_name\" VARCHAR(100) PRIMARY KEY, \"cursor\" VARCHAR(30));"@
}

/// The text that reads the token of the table bound to `$1`.
pub open spec fn get_cursor_sql() -> Seq<char> {
    "SELECT cursor FROM _amqp_bridge_cursors WHERE table_name = $1;"@
}

/// The text that writes the token `$2` for the table `$1`, over any earlier
/// one.
pub open spec fn save_cursor_sql() -> Seq<char> {
    "UPSERT INTO _amqp_bridge_cursors (table_name, cursor) VALUES ($1, $2);"@
}

/// The statement that creates the backing table. It creates the table only
/// if it does not exist, so it can be sent on every startup.
pub fn create_cursor_table() -> (statement: Statement)
    ensures
        statement@ == (StatementView { sql: create_cursor_table_sql(), binds: Seq::empty() }),
{
    let statement = Statement {
        sql: String::from_str(
            "CREATE TABLE IF NOT EXISTS _amqp_bridge_cursors (\"table_name\" VARCHAR(100) PRIMARY KEY, \"cursor\" VARCHAR(30));",
        ),
        binds: Vec::new(),
    };
    assert(statement@.binds =~= Seq::<Seq<char>>::empty());
    statement
}

/// The statement that looks up the cursor of `table`.
pub fn get_cursor(table: &str) -> (statement: Statement)
    ensures
        statement@ == (StatementView { sql: get_cursor_sql(), binds: seq![table@] }),
{
    let mut binds: Vec<String> = Vec::new();
    binds.push(table.to_owned());
    let statement = Statement {
        sql: String::from_str("SELECT cursor FROM _amqp_bridge_cursors WHERE table_name = $1;"),
        binds,
    };
    assert(statement@.binds =~= seq![table@]);
    statement
}

/// The statement that stores `cursor` as the cursor of `table`, whether or
/// not the table has one already.
pub fn save_cursor(table: &str, cursor: &str) -> (statement: Statement)
    ensures
        statement@ == (StatementView { sql: save_cursor_sql(), binds: seq![table@, cursor@] }),
{
    let mut binds: Vec<String> = Vec::new();
    binds.push(table.to_owned());
    binds.push(cursor.to_owned());
    let statement = Statement {
        sql: String::from_str(
            "UPSERT INTO _amqp_bridge_cursors (table_name, cursor) VALUES ($1, $2);",
        ),
        binds,
    };
    assert(statement@.binds =~= seq![table@, cursor@]);
    statement
}

/// What a lookup means for the consumer: a missing row is the normal case of
/// a table that starts from the beginning of its stream; any other failure is
/// an error.
pub open spec fn cursor_of(lookup: Lookup) -> Result<Option<Seq<char>>, StoreError> {
    match lookup {
        Lookup::Found(token) => Ok(Some(token@)),
        Lookup::RowNotFound => Ok(None),
        Lookup::Failed => Err(StoreError::LookupFailed),
    }
}

/// Reads the answer to [`get_cursor`].
pub fn stored_cursor(lookup: Lookup) -> (r: Result<Option<String>, StoreError>)
    ensures
        match r {
            Ok(Some(token)) => cursor_of(lookup) == Ok::<Option<Seq<char>>, StoreError>(
                Some(token@),
            ),
            Ok(None) => cursor_of(lookup) == Ok::<Option<Seq<char>>, StoreError>(None),
            Err(e) => cursor_of(lookup) == Err::<Option<Seq<char>>, StoreError>(e),
        },
{
    match lookup {
        Lookup::Found(token) => Ok(Some(token)),
        Lookup::RowNotFound => Ok(None),
        Lookup::Failed => Err(StoreError::LookupFailed),
    }
}

} // verus!
