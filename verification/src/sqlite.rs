//! A storage backend that keeps the three tables in an SQLite database.
//!
//! The rows live outside the program: another connection may change them
//! between two statements, so nothing is claimed of what a statement finds.
//! What is fixed here is everything around the database. Each statement is
//! a named text, and a function makes it with its values: its contract says
//! exactly what is handed to SQLite. Each outcome is read by a function
//! whose contract says exactly what it becomes. The store's operations only
//! put the two together.

use vstd::prelude::*;
use crate::store::{Store, StoreError, Tables};
use crate::text::owned;
use crate::types::{InsertPost, Post, Session};

verus! {

/// `rusqlite::Connection`: a handle that is carried, never looked into.
#[verifier::external_type_specification]
#[verifier::external_body]
pub struct ExConnection(rusqlite::Connection);

/// `rusqlite::Error`: looked into only by `fault_of`.
#[verifier::external_type_specification]
#[verifier::external_body]
pub struct ExSqlError(rusqlite::Error);

/// What the board distinguishes among the failures of a statement.
#[derive(Debug, Clone, Copy, PartialEq, Eq, Structural)]
pub enum SqlFault {
    /// A constraint of the schema refused the write.
    Constraint,
    /// Anything else.
    Other,
}

/// Sorts a `rusqlite::Error` into the two kinds above by its variant: an
/// `SqliteFailure` whose code is `ConstraintViolation`, and the rest.
/// Nothing is claimed of the result.
#[verifier::external_body]
fn fault_of(e: &rusqlite::Error) -> SqlFault {
    match e {
        rusqlite::Error::SqliteFailure(failure, _) => match failure.code {
            rusqlite::ErrorCode::ConstraintViolation => SqlFault::Constraint,
            _ => SqlFault::Other,
        },
        _ => SqlFault::Other,
    }
}

/// Runs `Connection::open` on a path. Nothing is claimed of the result.
#[verifier::external_body]
fn connect(path: &str) -> Result<rusqlite::Connection, rusqlite::Error> {
    rusqlite::Connection::open(path)
}

/// Runs `Connection::open_in_memory`. Nothing is claimed of the result.
#[verifier::external_body]
fn connect_in_memory() -> Result<rusqlite::Connection, rusqlite::Error> {
    rusqlite::Connection::open_in_memory()
}

/// Runs `Connection::execute_batch` on a script without parameters. Nothing
/// is claimed of the result.
#[verifier::external_body]
fn run_script(db: &rusqlite::Connection, sql: &str) -> Result<(), rusqlite::Error> {
    db.execute_batch(sql)
}

/// A value bound to a parameter of a statement.
#[derive(Debug, Clone, PartialEq)]
pub enum SqlValue {
    Text(String),
    Number(u64),
}

/// Runs `Connection::execute` on one statement with its parameters bound in
/// order, each as text or as an integer. Nothing is claimed of the number of
/// rows it reports.
#[verifier::external_body]
fn run(db: &rusqlite::Connection, sql: &str, values: &Vec<SqlValue>) -> Result<
    usize,
    rusqlite::Error,
> {
    db.execute(
        sql,
        rusqlite::params_from_iter(
            values.iter().map(
                |value|
                    match value {
                        SqlValue::Text(text) => text as &dyn rusqlite::ToSql,
                        SqlValue::Number(number) => number as &dyn rusqlite::ToSql,
                    },
            ),
        ),
    )
}

/// A value read from a column of a row.
#[derive(Debug, Clone, PartialEq)]
pub enum SqlCell {
    Null,
    Number(i64),
    Text(String),
    /// A value of a kind that the board never stores: a real number, a
    /// blob, or text that is not valid UTF-8.
    Other,
}

/// Prepares a query, binds its text parameters in order, runs
/// `Statement::query_map` and reads every column of every row through
/// `Row::get_ref`, by the kind of value it holds and in the order in which
/// the rows come. Text that is not valid UTF-8 is read as `Other`. Nothing
/// is claimed of the result.
#[verifier::external_body]
fn query(db: &rusqlite::Connection, sql: &str, keys: &Vec<String>) -> Result<
    Vec<Vec<SqlCell>>,
    rusqlite::Error,
> {
    let mut statement = db.prepare(sql)?;
    let width = statement.column_count();
    let rows = statement.query_map(rusqlite::params_from_iter(keys.iter()), |row| {
        (0..width).map(|i| row.get_ref(i).map(|cell| match cell {
            rusqlite::types::ValueRef::Null => SqlCell::Null,
            rusqlite::types::ValueRef::Integer(n) => SqlCell::Number(n),
            rusqlite::types::ValueRef::Text(bytes) => std::str::from_utf8(bytes)
                .map_or(SqlCell::Other, |text| SqlCell::Text(text.to_owned())),
            rusqlite::types::ValueRef::Real(_) => SqlCell::Other,
            rusqlite::types::ValueRef::Blob(_) => SqlCell::Other,
        })).collect()
    })?;
    rows.collect()
}

/// Runs `Connection::last_insert_rowid`. Nothing is claimed of the result.
#[verifier::external_body]
fn last_row_number(db: &rusqlite::Connection) -> i64 {
    db.last_insert_rowid()
}

/// Closes a connection through `Connection::close`, dropping the connection
/// that a failed close hands back. Nothing is claimed of the result.
#[verifier::external_body]
fn shut(db: rusqlite::Connection) -> Result<(), rusqlite::Error> {
    db.close().map_err(|(_, e)| e)
}

/// The storage error that a failed statement stands for: a refused
/// constraint is a conflict, everything else a failure of the storage layer.
pub open spec fn error_for(fault: SqlFault) -> StoreError {
    match fault {
        SqlFault::Constraint => StoreError::Conflict,
        _ => StoreError::Failure,
    }
}

/// Turns the kind of a failed statement into the storage error it stands for.
pub fn store_error(fault: SqlFault) -> (e: StoreError)
    ensures
        e == error_for(fault),
{
    match fault {
        SqlFault::Constraint => StoreError::Conflict,
        _ => StoreError::Failure,
    }
}

/// Tables kept in an SQLite database behind one connection.
pub struct SqliteStore {
    conn: rusqlite::Connection,
}

/// The kind of failure behind a statement that did not succeed.
fn classified<T>(outcome: Result<T, rusqlite::Error>) -> (r: Result<T, SqlFault>)
    ensures
        outcome is Ok <==> r is Ok,
        outcome is Ok ==> r.unwrap() == outcome.unwrap(),
{
    match outcome {
        Ok(v) => Ok(v),
        Err(e) => Err(fault_of(&e)),
    }
}

/// What a write amounts to: success, or the storage error that its failure
/// stands for.
pub fn written<T>(outcome: Result<T, SqlFault>) -> (r: Result<T, StoreError>)
    ensures
        r == (match outcome {
            Ok(v) => Ok::<T, StoreError>(v),
            Err(fault) => Err::<T, StoreError>(error_for(fault)),
        }),
{
    match outcome {
        Ok(v) => Ok(v),
        Err(fault) => Err(store_error(fault)),
    }
}

/// The text in column `i` of a row, if the column is there and holds text.
pub open spec fn text_at(row: Seq<SqlCell>, i: int) -> Option<String> {
    if 0 <= i < row.len() {
        match row[i] {
            SqlCell::Text(t) => Some(t),
            _ => None,
        }
    } else {
        None
    }
}

/// The number in column `i` of a row, if the column is there and holds an
/// integer that is not negative.
pub open spec fn number_at(row: Seq<SqlCell>, i: int) -> Option<u64> {
    if 0 <= i < row.len() {
        match row[i] {
            SqlCell::Number(n) => if n >= 0 {
                Some(n as u64)
            } else {
                None
            },
            _ => None,
        }
    } else {
        None
    }
}

/// The session that a row of token and expiry stands for.
pub open spec fn session_of_row(row: Seq<SqlCell>) -> Option<Session> {
    match (text_at(row, 0), number_at(row, 1)) {
        (Some(token), Some(expiry)) => Some(Session { token, expiry }),
        _ => None,
    }
}

/// The message that a row of number, author, body and timestamp stands for.
pub open spec fn post_of_row(row: Seq<SqlCell>) -> Option<Post> {
    match (number_at(row, 0), text_at(row, 1), text_at(row, 2), text_at(row, 3)) {
        (Some(post_num), Some(user), Some(message), Some(time)) => Some(
            Post { post_num, user, message, time },
        ),
        _ => None,
    }
}

/// Reads the text in column `i` of a row.
pub fn read_text(row: &Vec<SqlCell>, i: usize) -> (r: Option<String>)
    ensures
        r == text_at(row@, i as int),
{
    if i < row.len() {
        match &row[i] {
            SqlCell::Text(t) => Some(t.clone()),
            _ => None,
        }
    } else {
        None
    }
}

/// Reads the number in column `i` of a row.
pub fn read_number(row: &Vec<SqlCell>, i: usize) -> (r: Option<u64>)
    ensures
        r == number_at(row@, i as int),
{
    if i < row.len() {
        match &row[i] {
            SqlCell::Number(n) => if *n >= 0 {
                Some(*n as u64)
            } else {
                None
            },
            _ => None,
        }
    } else {
        None
    }
}

/// What a lookup of one text amounts to: no row means nothing is stored, a
/// first row that starts with text gives that text, and any other row is a
/// failure of the storage layer.
pub open spec fn text_found(rows: Seq<Vec<SqlCell>>) -> Result<Option<String>, StoreError> {
    if rows.len() == 0 {
        Ok(None)
    } else {
        match text_at(rows[0]@, 0) {
            Some(t) => Ok(Some(t)),
            None => Err(StoreError::Failure),
        }
    }
}

/// What a lookup of a session amounts to: no row means no session, a first
/// row of token and expiry gives the session, and any other row is a failure
/// of the storage layer.
pub open spec fn session_found(rows: Seq<Vec<SqlCell>>) -> Result<Option<Session>, StoreError> {
    if rows.len() == 0 {
        Ok(None)
    } else {
        match session_of_row(rows[0]@) {
            Some(s) => Ok(Some(s)),
            None => Err(StoreError::Failure),
        }
    }
}

/// Whether `r` is what reading the log amounts to: the messages of all rows
/// in the order of the rows, or a failure of the storage layer when some row
/// is no message.
pub open spec fn posts_found(rows: Seq<Vec<SqlCell>>, r: Result<Vec<Post>, StoreError>) -> bool {
    &&& r is Ok <==> forall|i: int| 0 <= i < rows.len() ==> post_of_row(#[trigger] rows[i]@) is Some
    &&& r is Ok ==> r.unwrap()@.len() == rows.len() && forall|i: int|
        0 <= i < rows.len() ==> post_of_row(#[trigger] rows[i]@) == Some(r.unwrap()@[i])
    &&& r is Err ==> r == Err::<Vec<Post>, StoreError>(StoreError::Failure)
}

/// The message number behind a row number that SQLite reports: row numbers
/// of a log start at 1, anything below is no number.
pub open spec fn number_for(row_number: i64) -> Result<u64, StoreError> {
    if row_number >= 1 {
        Ok(row_number as u64)
    } else {
        Err(StoreError::Failure)
    }
}

/// Reads the rows of a lookup of one text.
pub fn found_text(rows: &Vec<Vec<SqlCell>>) -> (r: Result<Option<String>, StoreError>)
    ensures
        r == text_found(rows@),
{
    if rows.len() == 0 {
        Ok(None)
    } else {
        match read_text(&rows[0], 0) {
            Some(t) => Ok(Some(t)),
            None => Err(StoreError::Failure),
        }
    }
}

/// Reads the rows of a lookup of a session.
pub fn found_session(rows: &Vec<Vec<SqlCell>>) -> (r: Result<Option<Session>, StoreError>)
    ensures
        r == session_found(rows@),
{
    if rows.len() == 0 {
        Ok(None)
    } else {
        let row = &rows[0];
        match (read_text(row, 0), read_number(row, 1)) {
            (Some(token), Some(expiry)) => Ok(Some(Session { token, expiry })),
            _ => Err(StoreError::Failure),
        }
    }
}

/// Reads one row as a message.
pub fn read_post(row: &Vec<SqlCell>) -> (r: Option<Post>)
    ensures
        r == post_of_row(row@),
{
    match (read_number(row, 0), read_text(row, 1), read_text(row, 2), read_text(row, 3)) {
        (Some(post_num), Some(user), Some(message), Some(time)) => Some(
            Post { post_num, user, message, time },
        ),
        _ => None,
    }
}

/// Reads the rows of the log.
pub fn found_posts(rows: &Vec<Vec<SqlCell>>) -> (r: Result<Vec<Post>, StoreError>)
    ensures
        posts_found(rows@, r),
{
    let mut posts: Vec<Post> = Vec::new();
    let mut i: usize = 0;
    while i < rows.len()
        invariant
            i <= rows@.len(),
            posts@.len() == i,
            forall|j: int| 0 <= j < i ==> post_of_row(#[trigger] rows@[j]@) == Some(posts@[j]),
        decreases rows@.len() - i,
    {
        match read_post(&rows[i]) {
            Some(post) => {
                posts.push(post);
            },
            None => {
                return Err(StoreError::Failure);
            },
        }
        i += 1;
    }
    Ok(posts)
}

/// Reads the row number that SQLite reports for a new message.
pub fn post_number(row_number: i64) -> (r: Result<u64, StoreError>)
    ensures
        r == number_for(row_number),
{
    if row_number >= 1 {
        Ok(row_number as u64)
    } else {
        Err(StoreError::Failure)
    }
}

/// Inserts a user row: username, password record.
pub const INSERT_USER: &'static str = "INSERT INTO users VALUES (?, ?);";

/// Reads the password record of a user.
pub const SELECT_RECORD: &'static str = "SELECT password FROM users WHERE username = ?;";

/// Deletes the session row of a user.
pub const DELETE_SESSION: &'static str = "DELETE FROM sessions WHERE username = ?;";

/// Inserts a session row: username, token, expiry.
pub const INSERT_SESSION: &'static str = "INSERT INTO sessions VALUES (?, ?, ?);";

/// Reads token and expiry of a user's session.
pub const SELECT_SESSION: &'static str =
    "SELECT sessionId, expiration FROM sessions WHERE username = ?;";

/// Reads the user who holds a token.
pub const SELECT_HOLDER: &'static str = "SELECT username FROM sessions WHERE sessionId = ?;";

/// Inserts a message row: author, body, timestamp. Storage assigns the
/// number.
pub const INSERT_POST: &'static str =
    "INSERT INTO posts (username, message, time) VALUES (?, ?, ?);";

/// Reads the whole log in the order of the message numbers.
pub const SELECT_POSTS: &'static str = "SELECT * FROM posts ORDER BY 1;";

/// Opens a transaction that holds the write lock from the start.
pub const BEGIN: &'static str = "BEGIN IMMEDIATE;";

/// Makes the open transaction permanent.
pub const COMMIT: &'static str = "COMMIT;";

/// Undoes the open transaction.
pub const ROLLBACK: &'static str = "ROLLBACK;";

/// Creates the three tables with their constraints where they do not exist
/// yet: usernames are unique among users and among sessions, tokens are
/// unique among sessions, and messages are numbered by an ever increasing
/// key.
pub const SCHEMA: &'static str =
    "PRAGMA journal_mode=WAL;
    PRAGMA busy_timeout = 5000;
    PRAGMA synchronous = NORMAL;
    PRAGMA cache_size = 1000000000;
    PRAGMA foreign_keys = true;
    PRAGMA temp_store = memory;
    CREATE TABLE IF NOT EXISTS users (
        username TEXT NOT NULL UNIQUE,
        password TEXT NOT NULL
    ) STRICT;
    CREATE INDEX IF NOT EXISTS username_index ON users (username);
    CREATE TABLE IF NOT EXISTS posts (
        postNum INTEGER PRIMARY KEY AUTOINCREMENT,
        username TEXT NOT NULL,
        message TEXT NOT NULL,
        time TEXT NOT NULL
    ) STRICT;
    CREATE TABLE IF NOT EXISTS sessions (
        username TEXT NOT NULL UNIQUE,
        sessionId TEXT NOT NULL UNIQUE,
        expiration INTEGER NOT NULL
    ) STRICT;
    CREATE INDEX IF NOT EXISTS sessions_index ON sessions (username, sessionId);";

/// A statement that writes, with the values bound to its parameters.
#[derive(Debug, Clone, PartialEq)]
pub struct Write {
    pub sql: &'static str,
    pub values: Vec<SqlValue>,
}

/// A query, with the texts bound to its parameters.
#[derive(Debug, Clone, PartialEq)]
pub struct Lookup {
    pub sql: &'static str,
    pub keys: Vec<String>,
}

/// Whether a bound value is the text `text`.
pub open spec fn is_text(v: SqlValue, text: Seq<char>) -> bool {
    match v {
        SqlValue::Text(t) => t@ == text,
        _ => false,
    }
}

/// Whether a write is the statement `sql` with exactly the texts `texts`
/// bound in order, followed by the number `number` if there is one.
pub open spec fn writes(w: Write, sql: Seq<char>, texts: Seq<Seq<char>>, number: Option<u64>) -> bool {
    &&& w.sql@ == sql
    &&& w.values@.len() == texts.len() + (if number is Some {
        1int
    } else {
        0int
    })
    &&& forall|i: int| 0 <= i < texts.len() ==> is_text(#[trigger] w.values@[i], texts[i])
    &&& number is Some ==> w.values@[texts.len() as int] == SqlValue::Number(number.unwrap())
}

/// Whether a lookup is the query `sql` with exactly the texts `texts` bound
/// in order.
pub open spec fn looks_up(l: Lookup, sql: Seq<char>, texts: Seq<Seq<char>>) -> bool {
    &&& l.sql@ == sql
    &&& l.keys@.len() == texts.len()
    &&& forall|i: int| 0 <= i < texts.len() ==> (#[trigger] l.keys@[i])@ == texts[i]
}

/// The statement that stores a new user.
pub fn user_insert(username: &str, record: &str) -> (w: Write)
    ensures
        writes(w, INSERT_USER@, seq![username@, record@], None),
{
    let mut values: Vec<SqlValue> = Vec::new();
    values.push(SqlValue::Text(owned(username)));
    values.push(SqlValue::Text(owned(record)));
    Write { sql: INSERT_USER, values }
}

/// The statement that deletes the session of a user.
pub fn session_delete(username: &str) -> (w: Write)
    ensures
        writes(w, DELETE_SESSION@, seq![username@], None),
{
    let mut values: Vec<SqlValue> = Vec::new();
    values.push(SqlValue::Text(owned(username)));
    Write { sql: DELETE_SESSION, values }
}

/// The statement that stores a session.
pub fn session_insert(username: &str, token: &str, expiry: u64) -> (w: Write)
    ensures
        writes(w, INSERT_SESSION@, seq![username@, token@], Some(expiry)),
{
    let mut values: Vec<SqlValue> = Vec::new();
    values.push(SqlValue::Text(owned(username)));
    values.push(SqlValue::Text(owned(token)));
    values.push(SqlValue::Number(expiry));
    Write { sql: INSERT_SESSION, values }
}

/// The statement that appends a message.
pub fn post_insert(post: &InsertPost) -> (w: Write)
    ensures
        writes(w, INSERT_POST@, seq![post.user@, post.message@, post.time@], None),
{
    let mut values: Vec<SqlValue> = Vec::new();
    values.push(SqlValue::Text(post.user.clone()));
    values.push(SqlValue::Text(post.message.clone()));
    values.push(SqlValue::Text(post.time.clone()));
    Write { sql: INSERT_POST, values }
}

/// The query for the password record of a user.
pub fn record_lookup(username: &str) -> (l: Lookup)
    ensures
        looks_up(l, SELECT_RECORD@, seq![username@]),
{
    let mut keys: Vec<String> = Vec::new();
    keys.push(owned(username));
    Lookup { sql: SELECT_RECORD, keys }
}

/// The query for the session of a user.
pub fn session_lookup(username: &str) -> (l: Lookup)
    ensures
        looks_up(l, SELECT_SESSION@, seq![username@]),
{
    let mut keys: Vec<String> = Vec::new();
    keys.push(owned(username));
    Lookup { sql: SELECT_SESSION, keys }
}

/// The query for the holder of a token.
pub fn holder_lookup(token: &str) -> (l: Lookup)
    ensures
        looks_up(l, SELECT_HOLDER@, seq![token@]),
{
    let mut keys: Vec<String> = Vec::new();
    keys.push(owned(token));
    Lookup { sql: SELECT_HOLDER, keys }
}

/// The query for the whole log.
pub fn posts_lookup() -> (l: Lookup)
    ensures
        looks_up(l, SELECT_POSTS@, Seq::empty()),
{
    Lookup { sql: SELECT_POSTS, keys: Vec::new() }
}

/// What a delete amounts to: whether any row went.
pub fn deleted_any(rows: usize) -> (deleted: bool)
    ensures
        deleted == (rows > 0),
{
    rows > 0
}

/// A step of replacing a session in one transaction.
#[derive(Debug, Clone, Copy, PartialEq, Eq)]
pub enum ReplaceStep {
    /// Open the transaction.
    Begin,
    /// Delete the old row of the user.
    Delete,
    /// Insert the new row.
    Insert,
    /// Make both permanent.
    Commit,
    /// Undo what was done, then fail with this error.
    Rollback(StoreError),
    /// Nothing is left to do: this is the result.
    Done(Result<(), StoreError>),
}

/// The step that follows `step` once its statement has had `outcome`. The
/// statements run in the order begin, delete, insert, commit. A failed begin
/// ends the replacement with nothing to undo; any later failure is followed
/// by a rollback and then reported, whatever the rollback itself gave.
pub open spec fn replace_next(step: ReplaceStep, outcome: Result<(), StoreError>) -> ReplaceStep {
    match step {
        ReplaceStep::Begin => match outcome {
            Ok(()) => ReplaceStep::Delete,
            Err(e) => ReplaceStep::Done(Err(e)),
        },
        ReplaceStep::Delete => match outcome {
            Ok(()) => ReplaceStep::Insert,
            Err(e) => ReplaceStep::Rollback(e),
        },
        ReplaceStep::Insert => match outcome {
            Ok(()) => ReplaceStep::Commit,
            Err(e) => ReplaceStep::Rollback(e),
        },
        ReplaceStep::Commit => match outcome {
            Ok(()) => ReplaceStep::Done(Ok(())),
            Err(e) => ReplaceStep::Rollback(e),
        },
        ReplaceStep::Rollback(e) => ReplaceStep::Done(Err(e)),
        ReplaceStep::Done(r) => ReplaceStep::Done(r),
    }
}

/// How many statements may still run from `step` on, at most.
pub open spec fn steps_left(step: ReplaceStep) -> nat {
    match step {
        ReplaceStep::Begin => 5,
        ReplaceStep::Delete => 4,
        ReplaceStep::Insert => 3,
        ReplaceStep::Commit => 2,
        ReplaceStep::Rollback(_) => 1,
        ReplaceStep::Done(_) => 0,
    }
}

/// Moves the replacement of a session on by one statement.
pub fn replace_step(step: ReplaceStep, outcome: Result<(), StoreError>) -> (next: ReplaceStep)
    ensures
        next == replace_next(step, outcome),
        !(step is Done) ==> steps_left(next) < steps_left(step),
{
    match step {
        ReplaceStep::Begin => match outcome {
            Ok(()) => ReplaceStep::Delete,
            Err(e) => ReplaceStep::Done(Err(e)),
        },
        ReplaceStep::Delete => match outcome {
            Ok(()) => ReplaceStep::Insert,
            Err(e) => ReplaceStep::Rollback(e),
        },
        ReplaceStep::Insert => match outcome {
            Ok(()) => ReplaceStep::Commit,
            Err(e) => ReplaceStep::Rollback(e),
        },
        ReplaceStep::Commit => match outcome {
            Ok(()) => ReplaceStep::Done(Ok(())),
            Err(e) => ReplaceStep::Rollback(e),
        },
        ReplaceStep::Rollback(e) => ReplaceStep::Done(Err(e)),
        ReplaceStep::Done(r) => ReplaceStep::Done(r),
    }
}

/// A write's outcome without the number of rows it reports.
pub fn settled<T>(outcome: Result<T, StoreError>) -> (r: Result<(), StoreError>)
    ensures
        r == (match outcome {
            Ok(_) => Ok::<(), StoreError>(()),
            Err(e) => Err::<(), StoreError>(e),
        }),
{
    match outcome {
        Ok(_) => Ok(()),
        Err(e) => Err(e),
    }
}

/// What a query amounts to once it has run: its rows, or a failure of the
/// storage layer, whatever the fault.
pub fn queried<T>(outcome: Result<T, SqlFault>) -> (r: Result<T, StoreError>)
    ensures
        r == (match outcome {
            Ok(v) => Ok::<T, StoreError>(v),
            Err(_) => Err::<T, StoreError>(StoreError::Failure),
        }),
{
    match outcome {
        Ok(v) => Ok(v),
        Err(_) => Err(StoreError::Failure),
    }
}

impl SqliteStore {
    /// The connection behind the store.
    pub closed spec fn handle(&self) -> rusqlite::Connection {
        self.conn
    }

    /// Wraps a connection whose database already holds the three tables.
    pub fn new(conn: rusqlite::Connection) -> (s: SqliteStore)
        ensures
            s.inv(),
            s.tables() is None,
            s.handle() == conn,
    {
        SqliteStore { conn }
    }

    /// Opens the database file at `path` and creates the tables that are
    /// missing.
    pub fn open(path: &str) -> (r: Result<SqliteStore, StoreError>)
        ensures
            r is Ok ==> r.unwrap().inv() && r.unwrap().tables() is None,
    {
        match classified(connect(path)) {
            Ok(conn) => {
                let store = SqliteStore { conn };
                match store.create_tables() {
                    Ok(()) => Ok(store),
                    Err(e) => Err(e),
                }
            },
            Err(_) => Err(StoreError::Failure),
        }
    }

    /// Opens a private database in memory and creates the tables in it.
    pub fn open_in_memory() -> (r: Result<SqliteStore, StoreError>)
        ensures
            r is Ok ==> r.unwrap().inv() && r.unwrap().tables() is None,
    {
        match classified(connect_in_memory()) {
            Ok(conn) => {
                let store = SqliteStore { conn };
                match store.create_tables() {
                    Ok(()) => Ok(store),
                    Err(e) => Err(e),
                }
            },
            Err(_) => Err(StoreError::Failure),
        }
    }

    /// Runs the schema script, `SCHEMA`.
    pub fn create_tables(&self) -> (r: Result<(), StoreError>) {
        self.script(SCHEMA)
    }

    /// Closes the database.
    pub fn close(self) -> (r: Result<(), StoreError>) {
        written(classified(shut(self.conn)))
    }

    /// Runs a script.
    fn script(&self, sql: &str) -> (r: Result<(), StoreError>) {
        written(classified(run_script(&self.conn, sql)))
    }

    /// Runs a write.
    fn write(&self, w: &Write) -> (r: Result<usize, StoreError>) {
        written(classified(run(&self.conn, w.sql, &w.values)))
    }

    /// Runs a query.
    fn read(&self, l: &Lookup) -> (r: Result<Vec<Vec<SqlCell>>, StoreError>)
        ensures
            r is Err ==> r == Err::<Vec<Vec<SqlCell>>, StoreError>(StoreError::Failure),
    {
        queried(classified(query(&self.conn, l.sql, &l.keys)))
    }
}

impl Store for SqliteStore {
    open spec fn inv(&self) -> bool {
        true
    }

    open spec fn tables(&self) -> Option<Tables> {
        None
    }

    proof fn lemma_tables_wf(&self) {
    }

    fn insert_user(&mut self, username: &str, record: &str) -> (r: Result<(), StoreError>)
        ensures
            final(self).handle() == old(self).handle(),
    {
        settled(self.write(&user_insert(username, record)))
    }

    fn find_record(&self, username: &str) -> (r: Result<Option<String>, StoreError>) {
        match self.read(&record_lookup(username)) {
            Ok(rows) => found_text(&rows),
            Err(e) => Err(e),
        }
    }

    fn put_session(&mut self, username: &str, token: &str, expiry: u64) -> (r: Result<
        (),
        StoreError,
    >)
        ensures
            final(self).handle() == old(self).handle(),
    {
        let delete = session_delete(username);
        let insert = session_insert(username, token, expiry);
        let mut step = ReplaceStep::Begin;
        loop
            invariant
                self.handle() == old(self).handle(),
            decreases steps_left(step),
        {
            let outcome = match step {
                ReplaceStep::Begin => self.script(BEGIN),
                ReplaceStep::Delete => settled(self.write(&delete)),
                ReplaceStep::Insert => settled(self.write(&insert)),
                ReplaceStep::Commit => self.script(COMMIT),
                ReplaceStep::Rollback(_) => self.script(ROLLBACK),
                ReplaceStep::Done(result) => {
                    return result;
                },
            };
            step = replace_step(step, outcome);
        }
    }

    fn find_session(&self, username: &str) -> (r: Result<Option<Session>, StoreError>) {
        match self.read(&session_lookup(username)) {
            Ok(rows) => found_session(&rows),
            Err(e) => Err(e),
        }
    }

    fn find_holder(&self, token: &str) -> (r: Result<Option<String>, StoreError>) {
        match self.read(&holder_lookup(token)) {
            Ok(rows) => found_text(&rows),
            Err(e) => Err(e),
        }
    }

    fn delete_session(&mut self, username: &str) -> (r: Result<bool, StoreError>)
        ensures
            final(self).handle() == old(self).handle(),
    {
        match self.write(&session_delete(username)) {
            Ok(rows) => Ok(deleted_any(rows)),
            Err(e) => Err(e),
        }
    }

    fn append_post(&mut self, post: &InsertPost) -> (r: Result<u64, StoreError>)
        ensures
            final(self).handle() == old(self).handle(),
    {
        match self.write(&post_insert(post)) {
            Ok(_) => post_number(last_row_number(&self.conn)),
            Err(e) => Err(e),
        }
    }

    fn all_posts(&self) -> (r: Result<Vec<Post>, StoreError>) {
        match self.read(&posts_lookup()) {
            Ok(rows) => found_posts(&rows),
            Err(e) => Err(e),
        }
    }
}

} // verus!
