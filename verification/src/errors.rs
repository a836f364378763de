//! The error taxonomy of the migration engine.

use vstd::prelude::*;

use crate::decimal::{dec_rep, dec_rep_int, i64_to_string, usize_to_string};
use crate::SchemaVersion;

verus! {

/// Relies on `<rusqlite::Error as PartialEq>::eq`; nothing is assumed of the
/// result, it is only handed through to callers comparing errors.
#[verifier::external_body]
fn rusqlite_error_eq(a: &rusqlite::Error, b: &rusqlite::Error) -> bool {
    a == b
}

/// Enum listing possible errors.
#[derive(Debug)]
#[non_exhaustive]
pub enum Error {
    /// An error of the underlying SQL engine; `query` may hold the SQL text
    /// that caused it.
    RusqliteError {
        /// SQL query that caused the error
        query: String,
        /// Error returned by the underlying engine
        err: rusqlite::Error,
    },
    /// Error with the specified schema version
    SpecifiedSchemaVersion(SchemaVersionError),
    /// Something wrong with migration definitions
    MigrationDefinition(MigrationDefinitionError),
    /// The foreign key check failed
    ForeignKeyCheck(Vec<ForeignKeyCheckError>),
    /// Error returned by the migration hook
    Hook(String),
    /// Error returned when loading migrations from a directory
    FileLoad(String),
    /// The persisted version marker is negative or otherwise unrepresentable
    InvalidUserVersion,
    /// An unknown error occurred. *Note*: such errors are not comparable
    /// between one another, much like NaN for floats.
    Unrecognized(String),
}

impl Error {
    /// Associate the SQL request that caused the error.
    #[must_use]
    pub fn with_sql(e: rusqlite::Error, sql: &str) -> (r: Error)
        ensures
            r matches Error::RusqliteError { query, err } && query@ == sql@ && err == e,
    {
        Error::RusqliteError { query: String::from_str(sql), err: e }
    }
}

impl PartialEq for Error {
    /// Two errors are equal when they carry the same data, except that
    /// `Unrecognized` errors never compare equal, not even to themselves.
    fn eq(&self, other: &Self) -> bool {
        match (self, other) {
            (
                Error::RusqliteError { query: q1, err: e1 },
                Error::RusqliteError { query: q2, err: e2 },
            ) => q1 == q2 && rusqlite_error_eq(e1, e2),
            (Error::SpecifiedSchemaVersion(a), Error::SpecifiedSchemaVersion(b)) => a == b,
            (Error::MigrationDefinition(a), Error::MigrationDefinition(b)) => a == b,
            (Error::ForeignKeyCheck(v1), Error::ForeignKeyCheck(v2)) => v1 == v2,
            (Error::Hook(a), Error::Hook(b)) => a == b,
            (Error::FileLoad(a), Error::FileLoad(b)) => a == b,
            (Error::InvalidUserVersion, Error::InvalidUserVersion) => true,
            // This makes Unrecognized errors behave like NaN (where NaN != NaN)
            (Error::Unrecognized(_), Error::Unrecognized(_)) => false,
            _ => false,
        }
    }
}

impl vstd::std_specs::cmp::PartialEqSpecImpl for Error {
    open spec fn obeys_eq_spec() -> bool {
        false
    }

    open spec fn eq_spec(&self, other: &Error) -> bool {
        true
    }
}

impl From<rusqlite::Error> for Error {
    fn from(e: rusqlite::Error) -> Error {
        Error::RusqliteError { query: String::new(), err: e }
    }
}

impl vstd::std_specs::convert::FromSpecImpl<rusqlite::Error> for Error {
    open spec fn obeys_from_spec() -> bool {
        false
    }

    open spec fn from_spec(e: rusqlite::Error) -> Error {
        Error::InvalidUserVersion
    }
}

/// Errors related to schema versions
#[derive(Debug, PartialEq, Eq, Clone, Copy, Structural)]
#[non_exhaustive]
pub enum SchemaVersionError {
    /// Attempt to migrate to a version out of range for the supplied migrations
    TargetVersionOutOfRange {
        /// The attempt to migrate to this version caused the error
        specified: SchemaVersion,
        /// Highest version defined in the migration set
        highest: SchemaVersion,
    },
    /// The version to write exceeds what the underlying storage field can hold
    TooHigh,
}

/// The message that describes a schema version error.
pub open spec fn spec_schema_version_error_describe(e: SchemaVersionError) -> Seq<char> {
    match e {
        SchemaVersionError::TargetVersionOutOfRange { specified, highest } => {
            "Attempt to migrate to version "@ + crate::spec_schema_version_describe(specified)
                + ", which is higher than the highest version currently supported, "@
                + crate::spec_schema_version_describe(highest) + "."@
        },
        SchemaVersionError::TooHigh => "Schema version is too high to be stored"@,
    }
}

impl SchemaVersionError {
    /// Renders the error for diagnostics.
    pub fn describe(&self) -> (r: String)
        ensures
            r@ == spec_schema_version_error_describe(*self),
    {
        match self {
            SchemaVersionError::TargetVersionOutOfRange { specified, highest } => {
                let mut s = String::from_str("Attempt to migrate to version ");
                s.append(specified.describe().as_str());
                s.append(", which is higher than the highest version currently supported, ");
                s.append(highest.describe().as_str());
                s.append(".");
                s
            },
            SchemaVersionError::TooHigh => String::from_str(
                "Schema version is too high to be stored",
            ),
        }
    }
}

/// Errors related to how migrations are defined
#[derive(Debug, PartialEq, Eq, Clone, Copy, Structural)]
#[non_exhaustive]
pub enum MigrationDefinitionError {
    /// Migration has no down version
    DownNotDefined {
        /// Index of the migration that caused the error
        migration_index: usize,
    },
    /// Attempt to migrate when no migrations are defined
    NoMigrationsDefined,
    /// Attempt to migrate when the database is currently at a higher migration level
    DatabaseTooFarAhead,
}

/// The message that describes a migration definition error.
pub open spec fn spec_migration_definition_error_describe(e: MigrationDefinitionError) -> Seq<
    char,
> {
    match e {
        MigrationDefinitionError::DownNotDefined { migration_index } => {
            "Migration "@ + dec_rep(migration_index as nat) + " (version "@ + dec_rep(
                migration_index as nat,
            ) + " -> "@ + dec_rep((migration_index + 1) as nat) + ") cannot be reverted"@
        },
        MigrationDefinitionError::NoMigrationsDefined => {
            "Attempt to migrate with no migrations defined"@
        },
        MigrationDefinitionError::DatabaseTooFarAhead => {
            "Attempt to migrate a database with a migration number that is too high"@
        },
    }
}

impl MigrationDefinitionError {
    /// Renders the error for diagnostics.
    pub fn describe(&self) -> (r: String)
        requires
            self matches MigrationDefinitionError::DownNotDefined { migration_index }
                ==> migration_index < usize::MAX,
        ensures
            r@ == spec_migration_definition_error_describe(*self),
    {
        match self {
            MigrationDefinitionError::DownNotDefined { migration_index } => {
                let i = *migration_index;
                let mut s = String::from_str("Migration ");
                s.append(usize_to_string(i).as_str());
                s.append(" (version ");
                s.append(usize_to_string(i).as_str());
                s.append(" -> ");
                s.append(usize_to_string(i + 1).as_str());
                s.append(") cannot be reverted");
                s
            },
            MigrationDefinitionError::NoMigrationsDefined => String::from_str(
                "Attempt to migrate with no migrations defined",
            ),
            MigrationDefinitionError::DatabaseTooFarAhead => String::from_str(
                "Attempt to migrate a database with a migration number that is too high",
            ),
        }
    }
}

/// Error caused by a foreign key check
#[derive(Debug, Eq)]
pub struct ForeignKeyCheckError {
    /// The table containing the violating row.
    pub table: String,
    /// The rowid of the violating row.
    pub rowid: i64,
    /// The parent table the row refers into.
    pub parent: String,
    /// The index of the violated foreign key constraint.
    pub fkid: i64,
}

impl Clone for ForeignKeyCheckError {
    fn clone(&self) -> (r: Self)
        ensures
            r == *self,
    {
        ForeignKeyCheckError {
            table: self.table.clone(),
            rowid: self.rowid,
            parent: self.parent.clone(),
            fkid: self.fkid,
        }
    }
}

impl PartialEq for ForeignKeyCheckError {
    fn eq(&self, other: &Self) -> bool {
        self.table == other.table && self.rowid == other.rowid && self.parent == other.parent
            && self.fkid == other.fkid
    }
}

impl vstd::std_specs::cmp::PartialEqSpecImpl for ForeignKeyCheckError {
    open spec fn obeys_eq_spec() -> bool {
        true
    }

    open spec fn eq_spec(&self, other: &ForeignKeyCheckError) -> bool {
        self.table@ == other.table@ && self.rowid == other.rowid && self.parent@ == other.parent@
            && self.fkid == other.fkid
    }
}

/// The message that describes one foreign key violation.
pub open spec fn spec_foreign_key_check_error_describe(e: ForeignKeyCheckError) -> Seq<char> {
    "Foreign key check found row with id "@ + dec_rep_int(e.rowid as int) + " in table '"@
        + e.table@ + "' missing from table '"@ + e.parent@
        + "' but required by foreign key with id "@ + dec_rep_int(e.fkid as int)
}

impl ForeignKeyCheckError {
    /// Renders the violation for diagnostics.
    pub fn describe(&self) -> (r: String)
        ensures
            r@ == spec_foreign_key_check_error_describe(*self),
    {
        let mut s = String::from_str("Foreign key check found row with id ");
        s.append(i64_to_string(self.rowid).as_str());
        s.append(" in table '");
        s.append(self.table.as_str());
        s.append("' missing from table '");
        s.append(self.parent.as_str());
        s.append("' but required by foreign key with id ");
        s.append(i64_to_string(self.fkid).as_str());
        s
    }
}

/// Error enum with underlying-engine or hook-specified errors.
#[derive(Debug, PartialEq)]
#[non_exhaustive]
pub enum HookError {
    /// Error of the underlying SQL engine
    RusqliteError(rusqlite::Error),
    /// Error returned by the hook
    Hook(String),
}

impl From<rusqlite::Error> for HookError {
    fn from(e: rusqlite::Error) -> HookError {
        HookError::RusqliteError(e)
    }
}

impl vstd::std_specs::convert::FromSpecImpl<rusqlite::Error> for HookError {
    open spec fn obeys_from_spec() -> bool {
        false
    }

    open spec fn from_spec(e: rusqlite::Error) -> HookError {
        HookError::RusqliteError(e)
    }
}

impl HookError {
    /// Folds a hook error into the engine's error type: an engine error keeps
    /// its cause with an empty query text, a message from the hook becomes a
    /// hook error.
    pub fn into_error(self) -> (r: Error)
        ensures
            self matches HookError::RusqliteError(e) ==> r matches Error::RusqliteError {
                query,
                err,
            } && query@ == Seq::<char>::empty() && err == e,
            self matches HookError::Hook(s) ==> r == Error::Hook(s),
    {
        match self {
            HookError::RusqliteError(err) => Error::RusqliteError { query: String::new(), err },
            HookError::Hook(s) => Error::Hook(s),
        }
    }
}

impl From<HookError> for Error {
    fn from(e: HookError) -> Error {
        e.into_error()
    }
}

impl vstd::std_specs::convert::FromSpecImpl<HookError> for Error {
    open spec fn obeys_from_spec() -> bool {
        false
    }

    open spec fn from_spec(e: HookError) -> Error {
        Error::InvalidUserVersion
    }
}

/// A typedef of the result returned by hooks.
pub type HookResult = core::result::Result<(), HookError>;

} // verus!
