//! The connection to the underlying SQLite store, together with the model of
//! its persisted state that the engine's contracts are stated over.
//!
//! The model tracks two things the engine cares about: the persisted version
//! marker (the `user_version` pragma) and the history of actions the engine
//! has performed against the store. Both are meaningful as long as the marker
//! is changed only through this crate's operations; application data read or
//! written beside the engine (through [`Connection::sqlite`], or inside
//! hooks) is outside the model on purpose.

use vstd::prelude::*;

use crate::errors::{Error, ForeignKeyCheckError, HookResult};
use rusqlite::Connection as SqliteConnection;
use rusqlite::Error as SqliteError;

verus! {

/// Declares the error type of the underlying SQL engine, so that it can be
/// carried inside this crate's own errors.
#[verifier::external_type_specification]
#[verifier::external_body]
pub struct ExSqliteError(SqliteError);

/// Declares the connection handle of the underlying SQL engine.
#[verifier::external_type_specification]
#[verifier::external_body]
pub struct ExSqliteConnection(SqliteConnection);

/// One engine action recorded against the store.
pub enum StoreEvent {
    /// A migration script handed to the store for execution.
    Batch(Seq<char>),
    /// An up-hook invoked inside a migration transaction.
    UpHook,
    /// A down-hook invoked inside a migration transaction.
    DownHook,
    /// The referential-integrity audit run inside a migration transaction.
    Audit,
}

/// The store as the engine sees it: the persisted version marker and the
/// history of engine actions that have been committed.
#[verifier::ext_equal]
pub struct StoreState {
    /// The value of the 4-byte `user_version` marker.
    pub version: int,
    /// Every script execution, hook invocation and audit the engine has
    /// committed, in order.
    pub log: Seq<StoreEvent>,
}

/// A handle to one SQLite database, owning the underlying connection.
///
/// All of the engine's operations run through this handle; its contracts are
/// stated over the committed [`StoreState`].
pub struct Connection {
    inner: SqliteConnection,
    committed: Ghost<StoreState>,
    open_txn: Ghost<Option<StoreState>>,
}

/// The in-flight migration transaction, as hooks see it.
///
/// A value of this type only exists while the engine holds a transaction
/// open; everything run through it takes effect or is rolled back with that
/// transaction.
pub struct Transaction<'c> {
    inner: &'c SqliteConnection,
}

impl<'c> Transaction<'c> {
    /// The raw connection, for hook bodies that need the full SQL interface.
    /// Hooks must leave transaction control and the version marker to the
    /// engine.
    pub fn sqlite(&self) -> &'c SqliteConnection {
        self.inner
    }
}

/// A callback run inside a migration transaction. Implement it on a type of
/// your own and wrap a value of that type in a [`Hook`].
pub trait MigrationHook: Send + Sync {
    /// Runs the hook inside the in-flight transaction. An error aborts the
    /// whole migration operation and rolls the transaction back.
    fn run(&self, tx: &Transaction<'_>) -> HookResult;
}

/// An opaque holder for a user-supplied migration hook. The trait object
/// inside is hidden completely, since verified code cannot look through it.
///
/// Migrations share hooks behind `Arc<Hook>`: cloning a migration shares the
/// identical callable, and two hook handles are considered equal exactly when
/// they point at the same `Hook` allocation.
#[verifier::external_body]
pub struct Hook(Box<dyn MigrationHook>);

impl Hook {
    /// Wraps a user-supplied hook, boxed by the caller.
    #[verifier::external_body]
    pub fn new(hook: Box<dyn MigrationHook>) -> Hook {
        Hook(hook)
    }
}

/// Whether the two handles point at the identical hook allocation. Relies on
/// `std::sync::Arc::ptr_eq`.
#[verifier::external_body]
pub(crate) fn same_hook(a: &std::sync::Arc<Hook>, b: &std::sync::Arc<Hook>) -> bool {
    std::sync::Arc::ptr_eq(a, b)
}

/// Relies on `str`'s equality comparing the text itself.
#[verifier::external_body]
pub(crate) fn str_eq(a: &str, b: &str) -> (r: bool)
    ensures
        r == (a@ == b@),
{
    a == b
}

impl Connection {
    /// The committed store state: what the version marker and the engine
    /// history hold once no transaction is in flight.
    pub closed spec fn store(&self) -> StoreState {
        self.committed@
    }

    /// The persisted version marker.
    pub open spec fn version(&self) -> int {
        self.store().version
    }

    /// The committed history of engine actions.
    pub open spec fn log(&self) -> Seq<StoreEvent> {
        self.store().log
    }

    /// Whether no migration transaction is in flight on this handle.
    pub closed spec fn idle(&self) -> bool {
        self.open_txn@ is None
    }

    /// The tentative store state of the transaction in flight.
    pub(crate) closed spec fn txn(&self) -> StoreState {
        self.open_txn@->Some_0
    }

    /// Opens a connection to a fresh in-memory database.
    ///
    /// A fresh store carries version marker 0, as the underlying engine
    /// documents, and this handle has committed nothing yet: that is the
    /// initial model.
    pub fn open_in_memory() -> (r: Result<Connection, Error>)
        ensures
            r matches Ok(c) ==> c.idle() && c.version() == 0 && c.log().len() == 0,
            r matches Err(e) ==> e matches Error::RusqliteError { .. },
    {
        match sqlite_open_in_memory() {
            Ok(inner) => Ok(
                Connection {
                    inner,
                    committed: Ghost(StoreState { version: 0, log: Seq::empty() }),
                    open_txn: Ghost(None),
                },
            ),
            Err(err) => Err(Error::RusqliteError { query: String::new(), err }),
        }
    }

    /// Opens a database file, creating it when absent. The version marker is
    /// whatever value the file holds.
    pub fn open(path: &str) -> (r: Result<Connection, Error>)
        ensures
            r matches Ok(c) ==> c.idle() && c.log().len() == 0,
            r matches Err(e) ==> e matches Error::RusqliteError { .. },
    {
        match sqlite_open(path) {
            Ok(inner) => Ok(
                Connection {
                    inner,
                    committed: Ghost(StoreState { version: arbitrary(), log: Seq::empty() }),
                    open_txn: Ghost(None),
                },
            ),
            Err(err) => Err(Error::RusqliteError { query: String::new(), err }),
        }
    }

    /// The raw connection, for reading or writing application data beside the
    /// engine. Changes made to the version marker or to transaction state
    /// through this handle are not reflected in the engine's view; use
    /// [`Connection::raw_set_user_version`] to move the marker.
    pub fn sqlite(&self) -> &SqliteConnection {
        &self.inner
    }

    /// Sets the version marker directly, outside any migration. Relies on
    /// `rusqlite::Connection::pragma_update` writing `user_version`.
    #[verifier::external_body]
    pub fn raw_set_user_version(&mut self, v: i32) -> (r: Result<(), Error>)
        requires
            old(self).idle(),
        ensures
            final(self).idle(),
            final(self).log() == old(self).log(),
            r is Ok ==> final(self).version() == v as int,
            r matches Err(e) ==> final(self).version() == old(self).version()
                && e matches Error::RusqliteError { .. },
    {
        self.inner.pragma_update(None, "user_version", v).map_err(
            |err| Error::RusqliteError { query: String::new(), err },
        )
    }
}

/// Opens a fresh in-memory database. Relies on
/// `rusqlite::Connection::open_in_memory`.
#[verifier::external_body]
fn sqlite_open_in_memory() -> Result<SqliteConnection, SqliteError> {
    SqliteConnection::open_in_memory()
}

/// Opens a database file, creating it when absent. Relies on
/// `rusqlite::Connection::open`.
#[verifier::external_body]
fn sqlite_open(path: &str) -> Result<SqliteConnection, SqliteError> {
    SqliteConnection::open(path)
}

/// Reads the version marker. Relies on the `user_version` pragma returning
/// the persisted 4-byte value.
#[verifier::external_body]
pub(crate) fn read_version(conn: &Connection) -> (r: Result<i32, SqliteError>)
    requires
        conn.idle(),
    ensures
        r matches Ok(v) ==> v as int == conn.version(),
{
    conn.inner.query_row("PRAGMA user_version", [], |row| row.get(0))
}

/// Starts a migration transaction. Relies on SQLite's `BEGIN`, which fails
/// when a transaction is already active and changes nothing that is
/// committed.
#[verifier::external_body]
pub(crate) fn txn_begin(conn: &mut Connection) -> (r: Result<(), SqliteError>)
    requires
        old(conn).idle(),
    ensures
        final(conn).store() == old(conn).store(),
        r is Ok ==> !final(conn).idle() && final(conn).txn() == old(conn).store(),
        r is Err ==> final(conn).idle(),
{
    conn.inner.execute_batch("BEGIN")
}

/// Hands one script to the store inside the open transaction. Relies on
/// `rusqlite::Connection::execute_batch`; nothing is committed either way,
/// and on failure the script may have taken partial effect inside the
/// transaction.
#[verifier::external_body]
pub(crate) fn txn_exec_batch(conn: &mut Connection, sql: &str) -> (r: Result<(), SqliteError>)
    requires
        !old(conn).idle(),
    ensures
        final(conn).store() == old(conn).store(),
        !final(conn).idle(),
        r is Ok ==> final(conn).txn().log == old(conn).txn().log.push(StoreEvent::Batch(sql@)),
{
    conn.inner.execute_batch(sql)
}

/// Writes the version marker inside the open transaction. Relies on
/// `rusqlite::Connection::pragma_update` writing `user_version`.
#[verifier::external_body]
pub(crate) fn txn_set_version(conn: &mut Connection, v: i32) -> (r: Result<(), SqliteError>)
    requires
        !old(conn).idle(),
    ensures
        final(conn).store() == old(conn).store(),
        !final(conn).idle(),
        r is Ok ==> final(conn).txn() == (StoreState {
            version: v as int,
            log: old(conn).txn().log,
        }),
{
    conn.inner.pragma_update(None, "user_version", v)
}

/// Commits the open transaction, making its tentative state the committed
/// one. Relies on SQLite's `COMMIT`; a failed commit commits nothing.
#[verifier::external_body]
pub(crate) fn txn_commit(conn: &mut Connection) -> (r: Result<(), SqliteError>)
    requires
        !old(conn).idle(),
    ensures
        r is Ok ==> final(conn).idle() && final(conn).store() == old(conn).txn(),
        r is Err ==> final(conn).store() == old(conn).store(),
{
    conn.inner.execute_batch("COMMIT")
}

/// Abandons the open transaction, discarding its tentative state. Relies on
/// SQLite's `ROLLBACK`; the error of rolling back an already-closed
/// transaction is ignored, as the underlying crate itself does when a
/// transaction is dropped.
#[verifier::external_body]
pub(crate) fn txn_rollback(conn: &mut Connection)
    ensures
        final(conn).idle(),
        final(conn).store() == old(conn).store(),
{
    let _ = conn.inner.execute_batch("ROLLBACK");
}

/// Runs the referential-integrity audit inside the open transaction and
/// records it in the engine history. Relies on the `foreign_key_check`
/// pragma returning one row per violation without changing any state; which
/// rows come back depends on the data, so nothing is assumed of them.
#[verifier::external_body]
pub(crate) fn query_fk_violations(conn: &mut Connection) -> (r: Result<
    Vec<ForeignKeyCheckError>,
    SqliteError,
>)
    requires
        !old(conn).idle(),
    ensures
        final(conn).store() == old(conn).store(),
        !final(conn).idle(),
        final(conn).txn() == (StoreState {
            version: old(conn).txn().version,
            log: old(conn).txn().log.push(StoreEvent::Audit),
        }),
{
    let mut stmt = conn.inner.prepare_cached("PRAGMA foreign_key_check")?;
    let rows = stmt.query_map(
        [],
        |row| {
            Ok(
                ForeignKeyCheckError {
                    table: row.get(0)?,
                    rowid: row.get(1)?,
                    parent: row.get(2)?,
                    fkid: row.get(3)?,
                },
            )
        },
    )?;
    rows.collect()
}

/// Invokes an up-hook inside the open transaction. The hook is arbitrary
/// caller code: nothing is assumed of its outcome, and the tentative store
/// state after it is unknown but nothing becomes committed.
#[verifier::external_body]
pub(crate) fn run_up_hook(conn: &mut Connection, hook: &std::sync::Arc<Hook>) -> (r: HookResult)
    requires
        !old(conn).idle(),
    ensures
        final(conn).store() == old(conn).store(),
        !final(conn).idle(),
        final(conn).txn().log == old(conn).txn().log.push(StoreEvent::UpHook),
{
    hook.0.run(&Transaction { inner: &conn.inner })
}

/// Invokes a down-hook inside the open transaction; see [`run_up_hook`].
#[verifier::external_body]
pub(crate) fn run_down_hook(conn: &mut Connection, hook: &std::sync::Arc<Hook>) -> (r: HookResult)
    requires
        !old(conn).idle(),
    ensures
        final(conn).store() == old(conn).store(),
        !final(conn).idle(),
        final(conn).txn().log == old(conn).txn().log.push(StoreEvent::DownHook),
{
    hook.0.run(&Transaction { inner: &conn.inner })
}

} // verus!
