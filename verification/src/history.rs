//! Lookup history, stored in SQLite.
//!
//! This is a log, not a word list: looking a word up twice records it twice.
//! Both entry points (selection capture and the main window) record here.
//!
//! SQLite does the storing, ordering and matching; this module decides what
//! is sent to it and how its rows become summaries and sessions.
use vstd::prelude::*;

use crate::json::{
    at_key, at_key_exec, parse_json, parsed_json, str_of, str_of_exec, str_or_empty,
    str_or_empty_exec, unfence, unfenced,
};
use crate::text::{owned, push_char, push_str, str_eq, trim, trimmed};

verus! {

pub const DB_FILE: &'static str = "history.db";

/// Creates the tables and indexes when they are missing. Foreign keys are
/// switched on so that deleting a lookup deletes its turns.
pub const MIGRATION: &'static str = "
        PRAGMA foreign_keys = ON;

        CREATE TABLE IF NOT EXISTS lookups (
            id          TEXT PRIMARY KEY,
            text        TEXT NOT NULL,
            context     TEXT,
            explanation TEXT NOT NULL,
            source      TEXT NOT NULL,
            created_at  INTEGER NOT NULL
        );

        CREATE TABLE IF NOT EXISTS turns (
            id        INTEGER PRIMARY KEY AUTOINCREMENT,
            lookup_id TEXT NOT NULL REFERENCES lookups(id) ON DELETE CASCADE,
            seq       INTEGER NOT NULL,
            role      TEXT NOT NULL,
            content   TEXT NOT NULL
        );

        CREATE INDEX IF NOT EXISTS idx_lookups_created ON lookups(created_at DESC);
        CREATE INDEX IF NOT EXISTS idx_turns_lookup ON turns(lookup_id, seq);
        ";

pub const INSERT_LOOKUP: &'static str = "INSERT OR REPLACE INTO lookups (id, text, context, explanation, source, created_at)
         VALUES (?1, ?2, ?3, ?4, ?5, ?6)";

pub const NEXT_SEQ: &'static str = "SELECT COALESCE(MAX(seq), -1) + 1 FROM turns WHERE lookup_id = ?1";

pub const INSERT_TURN: &'static str = "INSERT INTO turns (lookup_id, seq, role, content) VALUES (?1, ?2, ?3, ?4)";

pub const GET_TURN: &'static str = "SELECT role, content FROM turns WHERE lookup_id = ?1 AND seq = ?2";

pub const LIST_LOOKUPS: &'static str = "SELECT id, text, explanation, source, created_at
           FROM lookups
          WHERE (?1 IS NULL OR text LIKE ?1)
          ORDER BY created_at DESC
          LIMIT ?2 OFFSET ?3";

pub const GET_LOOKUP: &'static str = "SELECT id, text, context, explanation, source, created_at FROM lookups WHERE id = ?1";

pub const GET_TURNS: &'static str = "SELECT role, content FROM turns WHERE lookup_id = ?1 ORDER BY seq";

pub const DELETE_LOOKUP: &'static str = "DELETE FROM lookups WHERE id = ?1";

pub const CLEAR_LOOKUPS: &'static str = "DELETE FROM lookups;";

// ------------------------------------------------------------------ SQLite access

#[verifier::external_type_specification]
#[verifier::external_body]
pub struct ExConnection(rusqlite::Connection);

#[verifier::external_type_specification]
#[verifier::external_body]
pub struct ExSqlError(rusqlite::Error);

#[verifier::external_type_specification]
#[verifier::external_body]
pub struct ExSqlValue(rusqlite::types::Value);

/// A value bound to or read from SQL.
#[derive(Clone, Debug)]
pub enum SqlValue {
    Null,
    Integer(i64),
    Text(String),
}

/// How a column of a result row is read.
#[derive(Clone, Copy, Debug, PartialEq, Eq, Structural)]
pub enum Column {
    /// Text, which must not be NULL.
    Text,
    /// Text or NULL.
    OptionalText,
    /// A 64-bit integer.
    Integer,
}

/// Converts a bound parameter, variant by variant.
#[verifier::external_body]
fn sql_param(p: &SqlValue) -> rusqlite::types::Value {
    match p {
        SqlValue::Null => rusqlite::types::Value::Null,
        SqlValue::Integer(i) => rusqlite::types::Value::Integer(*i),
        SqlValue::Text(s) => rusqlite::types::Value::Text(s.clone()),
    }
}

/// `rusqlite::Connection::open`. What is on disk decides the outcome, so
/// nothing is claimed of it.
#[verifier::external_body]
fn sql_open(path: &str) -> (r: Result<rusqlite::Connection, rusqlite::Error>) {
    rusqlite::Connection::open(path)
}

/// `rusqlite::Connection::open_in_memory`. Nothing is claimed of the outcome.
#[verifier::external_body]
fn sql_open_in_memory() -> (r: Result<rusqlite::Connection, rusqlite::Error>) {
    rusqlite::Connection::open_in_memory()
}

/// `rusqlite::Connection::execute_batch`. The database decides the outcome,
/// so nothing is claimed of it.
#[verifier::external_body]
fn sql_execute_batch(conn: &rusqlite::Connection, sql: &str) -> (r: Result<(), rusqlite::Error>) {
    conn.execute_batch(sql)
}

/// `rusqlite::Connection::execute` with positional parameters. The database
/// decides the outcome, so nothing is claimed of it.
#[verifier::external_body]
fn sql_execute(conn: &rusqlite::Connection, sql: &str, params: &Vec<SqlValue>) -> (r: Result<
    usize,
    rusqlite::Error,
>) {
    conn.execute(sql, rusqlite::params_from_iter(params.iter().map(sql_param)))
}

#[verifier::external_type_specification]
#[verifier::external_body]
pub struct ExStatement<'conn>(rusqlite::Statement<'conn>);

#[verifier::external_type_specification]
#[verifier::external_body]
pub struct ExRows<'stmt>(rusqlite::Rows<'stmt>);

#[verifier::external_type_specification]
#[verifier::external_body]
pub struct ExRow<'stmt>(rusqlite::Row<'stmt>);

/// `rusqlite::Connection::prepare`. The database decides the outcome, so
/// nothing is claimed of it.
#[verifier::external_body]
fn sql_prepare<'conn>(conn: &'conn rusqlite::Connection, sql: &str) -> (r: Result<
    rusqlite::Statement<'conn>,
    rusqlite::Error,
>) {
    conn.prepare(sql)
}

/// `rusqlite::Statement::query` with positional parameters. Nothing is
/// claimed of the outcome.
#[verifier::external_body]
fn sql_rows<'stmt, 'conn>(stmt: &'stmt mut rusqlite::Statement<'conn>, params: &Vec<SqlValue>) -> (r: Result<
    rusqlite::Rows<'stmt>,
    rusqlite::Error,
>) {
    stmt.query(rusqlite::params_from_iter(params.iter().map(sql_param)))
}

/// `rusqlite::Rows::next`: the next row, or `None` once every row has been
/// read. The database decides the outcome, so nothing is claimed of it.
#[verifier::external_body]
fn sql_next<'a, 'stmt>(rows: &'a mut rusqlite::Rows<'stmt>) -> (r: Result<
    Option<&'a rusqlite::Row<'stmt>>,
    rusqlite::Error,
>) {
    rows.next()
}

/// `rusqlite::Row::get::<usize, String>`: column `i` as text. A NULL, a
/// non-text value or text that is not UTF-8 is an error, not a panic.
/// Nothing is claimed of the value.
#[verifier::external_body]
fn sql_get_text(row: &rusqlite::Row<'_>, i: usize) -> (r: Result<String, rusqlite::Error>) {
    row.get::<usize, String>(i)
}

/// `rusqlite::Row::get::<usize, Option<String>>`: column `i` as text or
/// NULL; other values and text that is not UTF-8 are errors. Nothing is
/// claimed of the value.
#[verifier::external_body]
fn sql_get_optional_text(row: &rusqlite::Row<'_>, i: usize) -> (r: Result<
    Option<String>,
    rusqlite::Error,
>) {
    row.get::<usize, Option<String>>(i)
}

/// `rusqlite::Row::get::<usize, i64>`: column `i` as an integer; other
/// values are errors. Nothing is claimed of the value.
#[verifier::external_body]
fn sql_get_integer(row: &rusqlite::Row<'_>, i: usize) -> (r: Result<i64, rusqlite::Error>) {
    row.get::<usize, i64>(i)
}

/// Whether a value read from a column has that column's type.
pub open spec fn fits(v: SqlValue, c: Column) -> bool {
    match c {
        Column::Text => v is Text,
        Column::OptionalText => v is Text || v is Null,
        Column::Integer => v is Integer,
    }
}

/// Whether `row` holds one value of each of `columns`, in order.
pub open spec fn row_fits(row: Seq<SqlValue>, columns: Seq<Column>) -> bool {
    row.len() == columns.len() && forall|k: int| 0 <= k < row.len() ==> #[trigger] fits(row[k], columns[k])
}

/// Reads column `k` of `row` as `column` says.
fn read_column(row: &rusqlite::Row<'_>, k: usize, column: Column) -> (r: Result<SqlValue, rusqlite::Error>)
    ensures
        r matches Ok(v) ==> fits(v, column),
{
    match column {
        Column::Text => match sql_get_text(row, k) {
            Ok(t) => Ok(SqlValue::Text(t)),
            Err(e) => Err(e),
        },
        Column::OptionalText => match sql_get_optional_text(row, k) {
            Ok(Some(t)) => Ok(SqlValue::Text(t)),
            Ok(None) => Ok(SqlValue::Null),
            Err(e) => Err(e),
        },
        Column::Integer => match sql_get_integer(row, k) {
            Ok(i) => Ok(SqlValue::Integer(i)),
            Err(e) => Err(e),
        },
    }
}

/// Runs `sql` with `params` and reads each row as `columns` says, in the
/// order the database returns the rows.
fn sql_query(
    conn: &rusqlite::Connection,
    sql: &str,
    params: &Vec<SqlValue>,
    columns: &Vec<Column>,
) -> (r: Result<Vec<Vec<SqlValue>>, rusqlite::Error>)
    ensures
        r matches Ok(rows) ==> forall|i: int| 0 <= i < rows@.len() ==> row_fits(#[trigger] rows@[i]@, columns@),
{
    let mut stmt = match sql_prepare(conn, sql) {
        Ok(s) => s,
        Err(e) => {
            return Err(e);
        },
    };
    let mut rows = match sql_rows(&mut stmt, params) {
        Ok(r) => r,
        Err(e) => {
            return Err(e);
        },
    };
    let mut out: Vec<Vec<SqlValue>> = Vec::new();
    // No result set holds `usize::MAX` rows in memory; the count only gives
    // the loop a measure.
    let mut left: usize = usize::MAX;
    while left > 0
        invariant
            forall|i: int| 0 <= i < out@.len() ==> row_fits(#[trigger] out@[i]@, columns@),
        decreases left,
    {
        left = left - 1;
        let row = match sql_next(&mut rows) {
            Ok(Some(row)) => row,
            Ok(None) => {
                return Ok(out);
            },
            Err(e) => {
                return Err(e);
            },
        };
        let mut values: Vec<SqlValue> = Vec::new();
        let mut k: usize = 0;
        while k < columns.len()
            invariant
                k <= columns.len(),
                values@.len() == k,
                forall|j: int| 0 <= j < k ==> #[trigger] fits(values@[j], columns@[j]),
            decreases columns.len() - k,
        {
            match read_column(row, k, columns[k]) {
                Ok(v) => values.push(v),
                Err(e) => {
                    return Err(e);
                },
            }
            k += 1;
        }
        assert(row_fits(values@, columns@));
        out.push(values);
    }
    Ok(out)
}

/// `rusqlite::Error`'s `Display`. Nothing is claimed of the text.
#[verifier::external_body]
fn sql_error_text(e: &rusqlite::Error) -> (r: String) {
    e.to_string()
}

// ------------------------------------------------------------------ errors and records

/// A failure of the history store.
#[derive(Clone, Debug)]
pub enum HistoryError {
    /// SQLite reported an error.
    Database(String),
    /// A row did not have the shape the schema promises.
    UnexpectedRow,
}

fn db_error(e: rusqlite::Error) -> (r: HistoryError)
    ensures
        r is Database,
{
    HistoryError::Database(sql_error_text(&e))
}

/// The sidebar entry of a lookup: no conversation.
#[derive(Clone, Debug)]
pub struct LookupSummary {
    pub id: String,
    pub text: String,
    /// `senseHere` of the explanation, or empty when it cannot be read.
    pub sense: String,
    pub source: String,
    pub created_at: i64,
}

/// A whole stored session: the explanation and every follow-up turn.
#[derive(Clone, Debug)]
pub struct LookupDetail {
    pub id: String,
    pub text: String,
    pub context: Option<String>,
    /// The raw explanation JSON, parsed by the front end as when streamed.
    pub explanation: String,
    pub source: String,
    pub created_at: i64,
    pub turns: Vec<Turn>,
}

/// One follow-up message.
#[derive(Clone, Debug)]
pub struct Turn {
    pub role: String,
    pub content: String,
}

/// The history store: one SQLite connection.
pub struct History {
    conn: rusqlite::Connection,
}

impl History {
    /// Opens (creating if needed) the history database at `path`.
    pub fn open_at(path: &str) -> (r: Result<History, HistoryError>)
        ensures
            r matches Err(e) ==> e is Database,
    {
        let conn = match sql_open(path) {
            Ok(c) => c,
            Err(e) => {
                return Err(db_error(e));
            },
        };
        match migrate(&conn) {
            Ok(()) => Ok(History { conn }),
            Err(e) => Err(e),
        }
    }

    /// A history kept in memory only.
    pub fn open_in_memory() -> (r: Result<History, HistoryError>)
        ensures
            r matches Err(e) ==> e is Database,
    {
        let conn = match sql_open_in_memory() {
            Ok(c) => c,
            Err(e) => {
                return Err(db_error(e));
            },
        };
        match migrate(&conn) {
            Ok(()) => Ok(History { conn }),
            Err(e) => Err(e),
        }
    }
}

fn migrate(conn: &rusqlite::Connection) -> (r: Result<(), HistoryError>)
    ensures
        r matches Err(e) ==> e is Database,
{
    match sql_execute_batch(conn, migration_statement()) {
        Ok(()) => Ok(()),
        Err(e) => Err(db_error(e)),
    }
}

// ------------------------------------------------------------------ time

#[verifier::external_type_specification]
#[verifier::external_body]
pub struct ExSystemTime(std::time::SystemTime);

#[verifier::external_type_specification]
#[verifier::external_body]
pub struct ExSystemTimeError(std::time::SystemTimeError);

/// `std::time::SystemTime::now`. Nothing is claimed of the reading.
#[verifier::external_body]
fn system_now() -> std::time::SystemTime {
    std::time::SystemTime::now()
}

/// `SystemTime::duration_since` the Unix epoch: an error when the reading is
/// before it. Nothing is claimed of the outcome.
#[verifier::external_body]
fn since_epoch(t: &std::time::SystemTime) -> Result<core::time::Duration, std::time::SystemTimeError> {
    t.duration_since(std::time::UNIX_EPOCH)
}

/// `Duration::as_millis`: the whole milliseconds of `d`. `Duration` is
/// opaque here, so nothing is claimed of the number.
#[verifier::external_body]
fn whole_millis(d: &core::time::Duration) -> u128 {
    d.as_millis()
}

/// A clock reading as a timestamp: truncated to `i64`, zero when the clock
/// could not be read.
pub open spec fn timestamp_of(reading: Option<u128>) -> i64 {
    match reading {
        Some(ms) => ms as i64,
        None => 0,
    }
}

pub fn timestamp(reading: Option<u128>) -> (r: i64)
    ensures
        r == timestamp_of(reading),
{
    match reading {
        Some(ms) => ms as i64,
        None => 0,
    }
}

/// Milliseconds since the Unix epoch; zero when the clock is before it.
pub fn now_ms() -> (r: i64) {
    let now = system_now();
    let reading = match since_epoch(&now) {
        Ok(d) => Some(whole_millis(&d)),
        Err(_) => None,
    };
    timestamp(reading)
}

// ------------------------------------------------------------------ reading explanations

/// The sidebar subtitle of an explanation, once a code fence is removed: the
/// first of `senseHere` (word mode), `translation` (sentence mode) and
/// `english` (translate mode) that is a string; empty when the output is not
/// JSON or has none of them.
/// A subtitle that cannot be read never keeps a lookup from being stored.
pub open spec fn sense_of(explanation: Seq<char>) -> Seq<char> {
    match parsed_json(unfenced(explanation)) {
        Some(doc) => {
            let d = Some(doc);
            match str_of(at_key(d, "senseHere"@)) {
                Some(s) => s,
                None => match str_of(at_key(d, "translation"@)) {
                    Some(s) => s,
                    None => str_or_empty(at_key(d, "english"@)),
                },
            }
        },
        None => Seq::empty(),
    }
}

pub fn extract_sense(explanation: &str) -> (r: String)
    ensures
        r@ == sense_of(explanation@),
{
    let stripped = unfence(explanation);
    match parse_json(stripped.as_str()) {
        Some(doc) => match str_of_exec(at_key_exec(Some(&doc), "senseHere")) {
            Some(s) => s,
            None => match str_of_exec(at_key_exec(Some(&doc), "translation")) {
                Some(s) => s,
                None => str_or_empty_exec(at_key_exec(Some(&doc), "english")),
            },
        },
        None => String::new(),
    }
}

/// The `LIKE` pattern of a search: the trimmed query between `%` signs, or
/// none (no filter) when the query is missing or blank, so that clearing the
/// search box brings the whole list back.
pub open spec fn like_pattern_spec(query: Option<Seq<char>>) -> Option<Seq<char>> {
    match query {
        Some(q) => if trim(q).len() == 0 {
            None
        } else {
            Some(seq!['%'] + trim(q) + seq!['%'])
        },
        None => None,
    }
}

pub fn like_pattern(query: Option<&str>) -> (r: Option<String>)
    ensures
        match r {
            Some(p) => like_pattern_spec(crate::prompts::opt_str_view(query)) == Some(p@),
            None => like_pattern_spec(crate::prompts::opt_str_view(query)) is None,
        },
{
    match query {
        None => None,
        Some(q) => {
            let t = trimmed(q);
            if t.as_str().is_empty() {
                None
            } else {
                let mut p = String::new();
                push_char(&mut p, '%');
                push_str(&mut p, t.as_str());
                push_char(&mut p, '%');
                Some(p)
            }
        },
    }
}

// ------------------------------------------------------------------ rows

pub struct SummaryView {
    pub id: Seq<char>,
    pub text: Seq<char>,
    pub sense: Seq<char>,
    pub source: Seq<char>,
    pub created_at: i64,
}

impl View for LookupSummary {
    type V = SummaryView;

    open spec fn view(&self) -> SummaryView {
        SummaryView {
            id: self.id@,
            text: self.text@,
            sense: self.sense@,
            source: self.source@,
            created_at: self.created_at,
        }
    }
}

/// The text of a text value.
pub open spec fn text_of(v: SqlValue) -> Option<Seq<char>> {
    match v {
        SqlValue::Text(s) => Some(s@),
        _ => None,
    }
}

/// The summary of a row `(id, text, explanation, source, created_at)`.
pub open spec fn summary_of_row(row: Seq<SqlValue>) -> Option<SummaryView> {
    if row.len() != 5 {
        None
    } else {
        match (text_of(row[0]), text_of(row[1]), text_of(row[2]), text_of(row[3]), row[4]) {
            (Some(id), Some(text), Some(explanation), Some(source), SqlValue::Integer(at)) => Some(
                SummaryView { id, text, sense: sense_of(explanation), source, created_at: at },
            ),
            _ => None,
        }
    }
}

/// The summaries of `rows`, in order; `None` when some row is malformed.
pub open spec fn summaries_of_rows(rows: Seq<Seq<SqlValue>>) -> Option<Seq<SummaryView>>
    decreases rows.len(),
{
    if rows.len() == 0 {
        Some(Seq::empty())
    } else {
        match (summaries_of_rows(rows.drop_last()), summary_of_row(rows.last())) {
            (Some(prev), Some(s)) => Some(prev.push(s)),
            _ => None,
        }
    }
}

fn text_at(row: &Vec<SqlValue>, i: usize) -> (r: Option<String>)
    requires
        i < row.len(),
    ensures
        match r {
            Some(s) => text_of(row@[i as int]) == Some(s@),
            None => text_of(row@[i as int]) is None,
        },
{
    match &row[i] {
        SqlValue::Text(s) => Some(s.clone()),
        _ => None,
    }
}

pub open spec fn rows_view(rows: Seq<Vec<SqlValue>>) -> Seq<Seq<SqlValue>> {
    rows.map_values(|r: Vec<SqlValue>| r@)
}

pub open spec fn summaries_view(v: Seq<LookupSummary>) -> Seq<SummaryView> {
    v.map_values(|s: LookupSummary| s@)
}

/// The summaries of rows read by the list query.
pub fn summaries_from_rows(rows: &Vec<Vec<SqlValue>>) -> (r: Result<Vec<LookupSummary>, HistoryError>)
    ensures
        match r {
            Ok(v) => summaries_of_rows(rows_view(rows@)) == Some(summaries_view(v@)),
            Err(e) => summaries_of_rows(rows_view(rows@)) is None && e is UnexpectedRow,
        },
{
    let ghost rv = rows_view(rows@);
    let mut out: Vec<LookupSummary> = Vec::new();
    let mut i: usize = 0;
    assert(rv.take(0) =~= Seq::<Seq<SqlValue>>::empty());
    assert(summaries_view(out@) =~= Seq::<SummaryView>::empty());
    while i < rows.len()
        invariant
            i <= rows.len(),
            rv == rows_view(rows@),
            out@.len() == i,
            summaries_of_rows(rv.take(i as int)) == Some(summaries_view(out@)),
        decreases rows.len() - i,
    {
        assert(rv.take(i + 1).drop_last() =~= rv.take(i as int));
        assert(rv.take(i + 1).last() == rows@[i as int]@);
        let row = &rows[i];
        if row.len() != 5 {
            proof {
                lemma_summaries_malformed(rv, i as int);
            }
            return Err(HistoryError::UnexpectedRow);
        }
        let id = text_at(row, 0);
        let text = text_at(row, 1);
        let explanation = text_at(row, 2);
        let source = text_at(row, 3);
        let at = match &row[4] {
            SqlValue::Integer(v) => Some(*v),
            _ => None,
        };
        match (id, text, explanation, source, at) {
            (Some(id), Some(text), Some(explanation), Some(source), Some(at)) => {
                let sense = extract_sense(explanation.as_str());
                let ghost before = summaries_view(out@);
                out.push(LookupSummary { id, text, sense, source, created_at: at });
                assert(summaries_view(out@) =~= before.push(out@[i as int]@));
            },
            _ => {
                proof {
                    lemma_summaries_malformed(rv, i as int);
                }
                return Err(HistoryError::UnexpectedRow);
            },
        }
        i += 1;
    }
    assert(rv.take(rows.len() as int) =~= rv);
    Ok(out)
}

/// A malformed row makes every longer prefix malformed.
proof fn lemma_summaries_malformed(rows: Seq<Seq<SqlValue>>, i: int)
    requires
        0 <= i < rows.len(),
        summary_of_row(rows[i]) is None,
    ensures
        summaries_of_rows(rows) is None,
    decreases rows.len(),
{
    if i < rows.len() - 1 {
        lemma_summaries_malformed(rows.drop_last(), i);
    }
}

// ------------------------------------------------------------------ operations

pub enum SqlView {
    Null,
    Integer(i64),
    Text(Seq<char>),
}

impl View for SqlValue {
    type V = SqlView;

    open spec fn view(&self) -> SqlView {
        match self {
            SqlValue::Null => SqlView::Null,
            SqlValue::Integer(i) => SqlView::Integer(*i),
            SqlValue::Text(s) => SqlView::Text(s@),
        }
    }
}

pub open spec fn params_view(v: Seq<SqlValue>) -> Seq<SqlView> {
    v.map_values(|p: SqlValue| p@)
}

/// A text parameter, or NULL.
pub open spec fn opt_text(o: Option<Seq<char>>) -> SqlView {
    match o {
        Some(t) => SqlView::Text(t),
        None => SqlView::Null,
    }
}

/// Parameters of the statements keyed by one lookup id: [`NEXT_SEQ`],
/// [`GET_LOOKUP`], [`GET_TURNS`] and [`DELETE_LOOKUP`].
pub open spec fn id_params_spec(id: Seq<char>) -> Seq<SqlView> {
    seq![SqlView::Text(id)]
}

pub fn id_params(id: &str) -> (r: Vec<SqlValue>)
    ensures
        params_view(r@) == id_params_spec(id@),
{
    let r = vec![SqlValue::Text(owned(id))];
    assert(params_view(r@) =~= id_params_spec(id@));
    r
}

/// The statements that create the schema.
pub fn migration_statement() -> (s: &'static str)
    ensures
        s@ == MIGRATION@,
{
    MIGRATION
}

/// The statement that records a lookup, replacing one with its id.
pub fn insert_lookup_statement() -> (s: &'static str)
    ensures
        s@ == INSERT_LOOKUP@,
{
    INSERT_LOOKUP
}

/// The query of the sequence number a new turn takes.
pub fn next_seq_statement() -> (s: &'static str)
    ensures
        s@ == NEXT_SEQ@,
{
    NEXT_SEQ
}

/// The query of the turn stored under one sequence number of a lookup.
pub fn get_turn_statement() -> (s: &'static str)
    ensures
        s@ == GET_TURN@,
{
    GET_TURN
}

/// The statement that appends a turn.
pub fn insert_turn_statement() -> (s: &'static str)
    ensures
        s@ == INSERT_TURN@,
{
    INSERT_TURN
}

/// The query of the sidebar list: filtered, newest first, paged.
pub fn list_statement() -> (s: &'static str)
    ensures
        s@ == LIST_LOOKUPS@,
{
    LIST_LOOKUPS
}

/// The query of one lookup by id.
pub fn get_lookup_statement() -> (s: &'static str)
    ensures
        s@ == GET_LOOKUP@,
{
    GET_LOOKUP
}

/// The query of a lookup's turns, in order.
pub fn get_turns_statement() -> (s: &'static str)
    ensures
        s@ == GET_TURNS@,
{
    GET_TURNS
}

/// The statement that deletes one lookup, and with it its turns.
pub fn delete_statement() -> (s: &'static str)
    ensures
        s@ == DELETE_LOOKUP@,
{
    DELETE_LOOKUP
}

/// The statement that empties the history.
pub fn clear_statement() -> (s: &'static str)
    ensures
        s@ == CLEAR_LOOKUPS@,
{
    CLEAR_LOOKUPS
}

/// Parameters of [`INSERT_LOOKUP`].
pub open spec fn lookup_params_spec(
    id: Seq<char>,
    text: Seq<char>,
    context: Option<Seq<char>>,
    explanation: Seq<char>,
    source: Seq<char>,
    created_at: i64,
) -> Seq<SqlView> {
    seq![
        SqlView::Text(id),
        SqlView::Text(text),
        opt_text(context),
        SqlView::Text(explanation),
        SqlView::Text(source),
        SqlView::Integer(created_at),
    ]
}

pub fn lookup_params(
    id: &str,
    text: &str,
    context: Option<&str>,
    explanation: &str,
    source: &str,
    created_at: i64,
) -> (r: Vec<SqlValue>)
    ensures
        params_view(r@) == lookup_params_spec(
            id@,
            text@,
            crate::prompts::opt_str_view(context),
            explanation@,
            source@,
            created_at,
        ),
{
    let r = vec![
        SqlValue::Text(owned(id)),
        SqlValue::Text(owned(text)),
        match context {
            Some(c) => SqlValue::Text(owned(c)),
            None => SqlValue::Null,
        },
        SqlValue::Text(owned(explanation)),
        SqlValue::Text(owned(source)),
        SqlValue::Integer(created_at),
    ];
    assert(params_view(r@) =~= lookup_params_spec(
        id@,
        text@,
        crate::prompts::opt_str_view(context),
        explanation@,
        source@,
        created_at,
    ));
    r
}

/// Records an explanation under `id`, stamped with the current time,
/// replacing any record with that id.
pub fn save_lookup(
    history: &History,
    id: &str,
    text: &str,
    context: Option<&str>,
    explanation: &str,
    source: &str,
) -> (r: Result<(), HistoryError>)
    ensures
        r matches Err(e) ==> e is Database,
{
    let params = lookup_params(id, text, context, explanation, source, now_ms());
    match sql_execute(&history.conn, insert_lookup_statement(), &params) {
        Ok(_) => Ok(()),
        Err(e) => Err(db_error(e)),
    }
}

/// The sequence number a new turn takes, read from the one-column row of
/// [`NEXT_SEQ`].
pub open spec fn next_seq_spec(rows: Seq<Seq<SqlValue>>) -> Option<i64> {
    if rows.len() == 1 && rows[0].len() == 1 {
        match rows[0][0] {
            SqlValue::Integer(s) => Some(s),
            _ => None,
        }
    } else {
        None
    }
}

pub fn next_seq(rows: &Vec<Vec<SqlValue>>) -> (r: Result<i64, HistoryError>)
    ensures
        match r {
            Ok(s) => next_seq_spec(rows_view(rows@)) == Some(s),
            Err(e) => next_seq_spec(rows_view(rows@)) is None && e is UnexpectedRow,
        },
{
    if rows.len() != 1 || rows[0].len() != 1 {
        return Err(HistoryError::UnexpectedRow);
    }
    match &rows[0][0] {
        SqlValue::Integer(s) => Ok(*s),
        _ => Err(HistoryError::UnexpectedRow),
    }
}

/// Parameters of [`INSERT_TURN`].
pub open spec fn turn_params_spec(
    lookup_id: Seq<char>,
    seq: i64,
    role: Seq<char>,
    content: Seq<char>,
) -> Seq<SqlView> {
    seq![
        SqlView::Text(lookup_id),
        SqlView::Integer(seq),
        SqlView::Text(role),
        SqlView::Text(content),
    ]
}

pub fn turn_params(lookup_id: &str, seq: i64, role: &str, content: &str) -> (r: Vec<SqlValue>)
    ensures
        params_view(r@) == turn_params_spec(lookup_id@, seq, role@, content@),
{
    let r = vec![
        SqlValue::Text(owned(lookup_id)),
        SqlValue::Integer(seq),
        SqlValue::Text(owned(role)),
        SqlValue::Text(owned(content)),
    ];
    assert(params_view(r@) =~= turn_params_spec(lookup_id@, seq, role@, content@));
    r
}

/// Parameters of [`GET_TURN`]: the lookup id and the sequence number.
pub open spec fn turn_key_params_spec(lookup_id: Seq<char>, seq: i64) -> Seq<SqlView> {
    seq![SqlView::Text(lookup_id), SqlView::Integer(seq)]
}

pub fn turn_key_params(lookup_id: &str, seq: i64) -> (r: Vec<SqlValue>)
    ensures
        params_view(r@) == turn_key_params_spec(lookup_id@, seq),
{
    let r = vec![SqlValue::Text(owned(lookup_id)), SqlValue::Integer(seq)];
    assert(params_view(r@) =~= turn_key_params_spec(lookup_id@, seq));
    r
}

/// Whether the rows read back under a new turn's key hold exactly that turn:
/// its role and its content.
pub open spec fn turn_stored(rows: Seq<Seq<SqlValue>>, role: Seq<char>, content: Seq<char>) -> bool {
    turns_of_rows(rows) == Some(seq![TurnView { role, content }])
}

/// Checks the rows read back under a new turn's key against the turn.
pub fn confirm_turn(rows: &Vec<Vec<SqlValue>>, role: &str, content: &str) -> (r: Result<
    (),
    HistoryError,
>)
    ensures
        r is Ok <==> turn_stored(rows_view(rows@), role@, content@),
        r matches Err(e) ==> e is UnexpectedRow,
{
    match turns_from_rows(rows) {
        Ok(turns) => {
            if turns.len() == 1 && str_eq(turns[0].role.as_str(), role) && str_eq(
                turns[0].content.as_str(),
                content,
            ) {
                assert(turns_view(turns@) =~= seq![TurnView { role: role@, content: content@ }]);
                Ok(())
            } else {
                proof {
                    let want = seq![TurnView { role: role@, content: content@ }];
                    if turns_view(turns@) == want {
                        assert(turns_view(turns@).len() == turns@.len());
                        assert(turns@.len() == 1);
                        assert(turns_view(turns@)[0] == turns@[0]@);
                        assert(turns@[0]@ == want[0]);
                    }
                }
                Err(HistoryError::UnexpectedRow)
            }
        },
        Err(e) => Err(e),
    }
}

/// Appends a follow-up turn to lookup `lookup_id`, after its last turn, and
/// reads it back: success means that the turn stored under its key has the
/// role and the content given, so a session reopens with each turn as it
/// was recorded.
pub fn append_turn(history: &History, lookup_id: &str, role: &str, content: &str) -> (r: Result<
    (),
    HistoryError,
>)
    ensures
        r matches Err(e) ==> e is Database || e is UnexpectedRow,
        r is Ok ==> exists|rows: Seq<Seq<SqlValue>>| #[trigger]
            turn_stored(rows, role@, content@),
{
    let rows = match sql_query(
        &history.conn,
        next_seq_statement(),
        &id_params(lookup_id),
        &vec![Column::Integer],
    ) {
        Ok(rows) => rows,
        Err(e) => {
            return Err(db_error(e));
        },
    };
    let seq = match next_seq(&rows) {
        Ok(s) => s,
        Err(e) => {
            return Err(e);
        },
    };
    let params = turn_params(lookup_id, seq, role, content);
    match sql_execute(&history.conn, insert_turn_statement(), &params) {
        Ok(_) => {},
        Err(e) => {
            return Err(db_error(e));
        },
    }
    let stored = match sql_query(
        &history.conn,
        get_turn_statement(),
        &turn_key_params(lookup_id, seq),
        &vec![Column::Text, Column::Text],
    ) {
        Ok(rows) => rows,
        Err(e) => {
            return Err(db_error(e));
        },
    };
    let r = confirm_turn(&stored, role, content);
    proof {
        if r is Ok {
            assert(turn_stored(rows_view(stored@), role@, content@));
        }
    }
    r
}

/// Parameters of [`LIST_LOOKUPS`]: the search pattern (NULL for no filter),
/// the limit and the offset.
pub open spec fn list_params_spec(limit: u32, offset: u32, query: Option<Seq<char>>) -> Seq<SqlView> {
    seq![
        opt_text(like_pattern_spec(query)),
        SqlView::Integer(limit as i64),
        SqlView::Integer(offset as i64),
    ]
}

pub fn list_params(limit: u32, offset: u32, query: Option<&str>) -> (r: Vec<SqlValue>)
    ensures
        params_view(r@) == list_params_spec(limit, offset, crate::prompts::opt_str_view(query)),
{
    let pattern = match like_pattern(query) {
        Some(p) => SqlValue::Text(p),
        None => SqlValue::Null,
    };
    let r = vec![pattern, SqlValue::Integer(limit as i64), SqlValue::Integer(offset as i64)];
    assert(params_view(r@) =~= list_params_spec(limit, offset, crate::prompts::opt_str_view(query)));
    r
}

/// Whether summaries come newest first: no entry is older than a later one.
pub open spec fn newest_first(v: Seq<SummaryView>) -> bool {
    forall|i: int, j: int| 0 <= i < j < v.len() ==> v[i].created_at >= v[j].created_at
}

/// Whether `v` comes newest first.
pub fn is_newest_first(v: &Vec<LookupSummary>) -> (b: bool)
    ensures
        b == newest_first(summaries_view(v@)),
{
    let ghost sv = summaries_view(v@);
    if v.len() < 2 {
        return true;
    }
    let mut k: usize = 1;
    while k < v.len()
        invariant
            1 <= k <= v.len(),
            sv == summaries_view(v@),
            forall|i: int, j: int| 0 <= i < j < k ==> sv[i].created_at >= sv[j].created_at,
        decreases v.len() - k,
    {
        if v[k - 1].created_at < v[k].created_at {
            assert(sv[k - 1].created_at < sv[k as int].created_at);
            return false;
        }
        assert forall|i: int, j: int| 0 <= i < j < k + 1 implies sv[i].created_at
            >= sv[j].created_at by {
            if j == k as int && i < k - 1 {
                assert(sv[i].created_at >= sv[k - 1].created_at);
            }
        }
        k += 1;
    }
    true
}

/// Lookups newest first, `limit` from `offset`, whose text contains the
/// trimmed `query` (all of them when the query is missing or blank). The
/// list query orders by creation time, newest first; rows that do not come
/// in that order are an unexpected result, never a list.
pub fn list(history: &History, limit: u32, offset: u32, query: Option<&str>) -> (r: Result<
    Vec<LookupSummary>,
    HistoryError,
>)
    ensures
        r matches Ok(v) ==> exists|rows: Seq<Seq<SqlValue>>|
            summaries_of_rows(rows) == Some(summaries_view(v@)),
        r matches Ok(v) ==> newest_first(summaries_view(v@)),
{
    let params = list_params(limit, offset, query);
    let columns = vec![Column::Text, Column::Text, Column::Text, Column::Text, Column::Integer];
    let rows = match sql_query(&history.conn, list_statement(), &params, &columns) {
        Ok(rows) => rows,
        Err(e) => {
            return Err(db_error(e));
        },
    };
    let r = summaries_from_rows(&rows);
    match r {
        Ok(v) => if is_newest_first(&v) {
            Ok(v)
        } else {
            Err(HistoryError::UnexpectedRow)
        },
        Err(e) => Err(e),
    }
}

pub struct TurnView {
    pub role: Seq<char>,
    pub content: Seq<char>,
}

impl View for Turn {
    type V = TurnView;

    open spec fn view(&self) -> TurnView {
        TurnView { role: self.role@, content: self.content@ }
    }
}

/// The turns of rows `(role, content)`, in order; `None` when one is
/// malformed.
pub open spec fn turns_of_rows(rows: Seq<Seq<SqlValue>>) -> Option<Seq<TurnView>>
    decreases rows.len(),
{
    if rows.len() == 0 {
        Some(Seq::empty())
    } else {
        let row = rows.last();
        match (turns_of_rows(rows.drop_last()), row.len() == 2, text_of(row[0]), text_of(row[1])) {
            (Some(prev), true, Some(role), Some(content)) => Some(prev.push(TurnView { role, content })),
            _ => None,
        }
    }
}

pub open spec fn turns_view(v: Seq<Turn>) -> Seq<TurnView> {
    v.map_values(|t: Turn| t@)
}

/// The turns of rows read by the turn query.
pub fn turns_from_rows(rows: &Vec<Vec<SqlValue>>) -> (r: Result<Vec<Turn>, HistoryError>)
    ensures
        match r {
            Ok(v) => turns_of_rows(rows_view(rows@)) == Some(turns_view(v@)),
            Err(e) => turns_of_rows(rows_view(rows@)) is None && e is UnexpectedRow,
        },
{
    let ghost rv = rows_view(rows@);
    let mut out: Vec<Turn> = Vec::new();
    let mut i: usize = 0;
    assert(rv.take(0) =~= Seq::<Seq<SqlValue>>::empty());
    assert(turns_view(out@) =~= Seq::<TurnView>::empty());
    while i < rows.len()
        invariant
            i <= rows.len(),
            rv == rows_view(rows@),
            out@.len() == i,
            turns_of_rows(rv.take(i as int)) == Some(turns_view(out@)),
        decreases rows.len() - i,
    {
        assert(rv.take(i + 1).drop_last() =~= rv.take(i as int));
        assert(rv.take(i + 1).last() == rows@[i as int]@);
        let row = &rows[i];
        let ok = row.len() == 2;
        let role = if ok { text_at(row, 0) } else { None };
        let content = if ok { text_at(row, 1) } else { None };
        match (role, content) {
            (Some(role), Some(content)) => {
                let ghost before = turns_view(out@);
                out.push(Turn { role, content });
                assert(turns_view(out@) =~= before.push(out@[i as int]@));
            },
            _ => {
                proof {
                    lemma_turns_malformed(rv, i as int);
                }
                return Err(HistoryError::UnexpectedRow);
            },
        }
        i += 1;
    }
    assert(rv.take(rows.len() as int) =~= rv);
    Ok(out)
}

proof fn lemma_turns_malformed(rows: Seq<Seq<SqlValue>>, i: int)
    requires
        0 <= i < rows.len(),
        !(rows[i].len() == 2 && text_of(rows[i][0]) is Some && text_of(rows[i][1]) is Some),
    ensures
        turns_of_rows(rows) is None,
    decreases rows.len(),
{
    if i < rows.len() - 1 {
        lemma_turns_malformed(rows.drop_last(), i);
    }
}

pub struct DetailView {
    pub id: Seq<char>,
    pub text: Seq<char>,
    pub context: Option<Seq<char>>,
    pub explanation: Seq<char>,
    pub source: Seq<char>,
    pub created_at: i64,
    pub turns: Seq<TurnView>,
}

impl View for LookupDetail {
    type V = DetailView;

    open spec fn view(&self) -> DetailView {
        DetailView {
            id: self.id@,
            text: self.text@,
            context: match self.context {
                Some(c) => Some(c@),
                None => None,
            },
            explanation: self.explanation@,
            source: self.source@,
            created_at: self.created_at,
            turns: turns_view(self.turns@),
        }
    }
}

/// The session of a row `(id, text, context, explanation, source,
/// created_at)` with the turns of `turn_rows`; `None` when either is
/// malformed. The context may be NULL.
pub open spec fn detail_of_rows(row: Seq<SqlValue>, turn_rows: Seq<Seq<SqlValue>>) -> Option<
    DetailView,
> {
    if row.len() != 6 {
        None
    } else {
        let context = match row[2] {
            SqlValue::Text(c) => Some(Some(c@)),
            SqlValue::Null => Some(None),
            _ => None,
        };
        match (
            text_of(row[0]),
            text_of(row[1]),
            context,
            text_of(row[3]),
            text_of(row[4]),
            row[5],
            turns_of_rows(turn_rows),
        ) {
            (
                Some(id),
                Some(text),
                Some(context),
                Some(explanation),
                Some(source),
                SqlValue::Integer(at),
                Some(turns),
            ) => Some(DetailView { id, text, context, explanation, source, created_at: at, turns }),
            _ => None,
        }
    }
}

/// The session read from a lookup row and its turn rows.
pub fn detail_from_rows(row: &Vec<SqlValue>, turn_rows: &Vec<Vec<SqlValue>>) -> (r: Result<
    LookupDetail,
    HistoryError,
>)
    ensures
        match r {
            Ok(d) => detail_of_rows(row@, rows_view(turn_rows@)) == Some(d@),
            Err(e) => detail_of_rows(row@, rows_view(turn_rows@)) is None && e is UnexpectedRow,
        },
{
    if row.len() != 6 {
        return Err(HistoryError::UnexpectedRow);
    }
    let context = match &row[2] {
        SqlValue::Text(c) => Some(c.clone()),
        SqlValue::Null => None,
        _ => {
            return Err(HistoryError::UnexpectedRow);
        },
    };
    let (id, text, explanation, source) = match (
        text_at(row, 0),
        text_at(row, 1),
        text_at(row, 3),
        text_at(row, 4),
    ) {
        (Some(a), Some(b), Some(c), Some(d)) => (a, b, c, d),
        _ => {
            return Err(HistoryError::UnexpectedRow);
        },
    };
    let created_at = match &row[5] {
        SqlValue::Integer(v) => *v,
        _ => {
            return Err(HistoryError::UnexpectedRow);
        },
    };
    let turns = match turns_from_rows(turn_rows) {
        Ok(t) => t,
        Err(e) => {
            return Err(e);
        },
    };
    Ok(LookupDetail { id, text, context, explanation, source, created_at, turns })
}

/// What the rows read for lookup `id` give: no row is no lookup; otherwise
/// the session of the first row and the turn rows, which must be well formed
/// and carry that id (`None` when they do not).
pub open spec fn lookup_of_rows_spec(
    id: Seq<char>,
    rows: Seq<Seq<SqlValue>>,
    turn_rows: Seq<Seq<SqlValue>>,
) -> Option<Option<DetailView>> {
    if rows.len() == 0 {
        Some(None)
    } else {
        match detail_of_rows(rows[0], turn_rows) {
            Some(d) => if d.id == id {
                Some(Some(d))
            } else {
                None
            },
            None => None,
        }
    }
}

/// The lookup that the rows read for `id` describe.
pub fn lookup_of_rows(id: &str, rows: &Vec<Vec<SqlValue>>, turn_rows: &Vec<Vec<SqlValue>>) -> (r: Result<
    Option<LookupDetail>,
    HistoryError,
>)
    ensures
        match r {
            Ok(None) => lookup_of_rows_spec(id@, rows_view(rows@), rows_view(turn_rows@)) == Some(
                None::<DetailView>,
            ),
            Ok(Some(d)) => lookup_of_rows_spec(id@, rows_view(rows@), rows_view(turn_rows@))
                == Some(Some(d@)),
            Err(e) => lookup_of_rows_spec(id@, rows_view(rows@), rows_view(turn_rows@)) is None
                && e is UnexpectedRow,
        },
{
    if rows.len() == 0 {
        return Ok(None);
    }
    assert(rows_view(rows@)[0] == rows@[0]@);
    match detail_from_rows(&rows[0], turn_rows) {
        Ok(d) => if str_eq(d.id.as_str(), id) {
            Ok(Some(d))
        } else {
            Err(HistoryError::UnexpectedRow)
        },
        Err(e) => Err(e),
    }
}

/// The whole session of lookup `id`, or `None` when there is none.
pub fn get(history: &History, id: &str) -> (r: Result<Option<LookupDetail>, HistoryError>)
    ensures
        r matches Ok(Some(d)) ==> d@.id == id@ && exists|
            row: Seq<SqlValue>,
            turn_rows: Seq<Seq<SqlValue>>,
        | detail_of_rows(row, turn_rows) == Some(d@),
        r matches Err(e) ==> e is Database || e is UnexpectedRow,
{
    let columns = vec![
        Column::Text,
        Column::Text,
        Column::OptionalText,
        Column::Text,
        Column::Text,
        Column::Integer,
    ];
    let rows = match sql_query(&history.conn, get_lookup_statement(), &id_params(id), &columns) {
        Ok(rows) => rows,
        Err(e) => {
            return Err(db_error(e));
        },
    };
    if rows.len() == 0 {
        return lookup_of_rows(id, &rows, &Vec::new());
    }
    let turn_rows = match sql_query(
        &history.conn,
        get_turns_statement(),
        &id_params(id),
        &vec![Column::Text, Column::Text],
    ) {
        Ok(rows) => rows,
        Err(e) => {
            return Err(db_error(e));
        },
    };
    lookup_of_rows(id, &rows, &turn_rows)
}

/// Deletes lookup `id`; its turns go with it.
pub fn delete(history: &History, id: &str) -> (r: Result<(), HistoryError>)
    ensures
        r matches Err(e) ==> e is Database,
{
    match sql_execute(&history.conn, delete_statement(), &id_params(id)) {
        Ok(_) => Ok(()),
        Err(e) => Err(db_error(e)),
    }
}

/// Deletes every lookup, and so every turn.
pub fn clear(history: &History) -> (r: Result<(), HistoryError>)
    ensures
        r matches Err(e) ==> e is Database,
{
    match sql_execute_batch(&history.conn, clear_statement()) {
        Ok(()) => Ok(()),
        Err(e) => Err(db_error(e)),
    }
}

} // verus!
