//! Error types for the migration engine.

use crate::text::join;
use vstd::prelude::*;
use vstd::std_specs::convert::FromSpecImpl;
use vstd::string::*;
use zcash_client_sqlite::error::SqliteClientError;

verus! {

/// `rusqlite::Error`, carried through as it came.
#[verifier::external_type_specification]
#[verifier::external_body]
pub struct ExRusqliteError(rusqlite::Error);

/// `zcash_client_sqlite::error::SqliteClientError`, carried through as it came.
#[verifier::external_type_specification]
#[verifier::external_body]
pub struct ExSqliteClientError(zcash_client_sqlite::error::SqliteClientError);

/// Why an operation was rejected because the migration was in the wrong state.
#[derive(Debug, Clone, PartialEq, Eq)]
pub enum InvalidStateError {
    /// There is no active migration run for the account.
    NoActiveRun,
    /// A persisted run carried a phase string the engine does not recognise.
    UnknownPhase(String),
    /// The run is in a phase that does not permit this operation.
    WrongPhase { expected: &'static str, found: String },
    /// The migration has already completed.
    AlreadyComplete,
    /// The operation does not apply in the current state (short reason).
    NotApplicable(&'static str),
}

/// Errors returned by the migration engine.
///
/// Wraps the underlying error types (`rusqlite::Error`, `SqliteClientError`) rather than
/// stringly-typed messages. A caller across a language boundary reads
/// [`MigrationError::error_code`] and [`MigrationError::to_string`].
#[derive(Debug)]
pub enum MigrationError {
    /// The wallet must finish syncing before this operation can proceed.
    NotSynced,
    /// `initialize_post_upgrade` has not been called yet.
    NotInitialized,
    /// The migration is in a state that does not permit this operation.
    InvalidState(InvalidStateError),
    /// A database (SQLite) error from the engine's own tables.
    Db(rusqlite::Error),
    /// An error from the wallet backend (balance, anchor or data access).
    Backend(SqliteClientError),
    /// An error from the PCZT construction / proving / signing / extraction pipeline, whose sources
    /// are heterogeneous and share no single common type.
    Pipeline(String),
    /// A capability the engine relies on is not yet available in librustzcash.
    Unsupported(&'static str),
}

/// The message of a state error.
pub open spec fn state_message(e: InvalidStateError) -> Seq<char> {
    match e {
        InvalidStateError::NoActiveRun => "no active migration run"@,
        InvalidStateError::UnknownPhase(p) => "unknown migration phase: "@ + p@,
        InvalidStateError::WrongPhase { expected, found } => "wrong migration phase: expected "@
            + expected@ + ", found "@ + found@,
        InvalidStateError::AlreadyComplete => "migration already complete"@,
        InvalidStateError::NotApplicable(why) => "operation not applicable: "@ + why@,
    }
}

/// The message of an error; `detail` is the text of a wrapped error, where there is one.
pub open spec fn error_message(e: MigrationError, detail: Seq<char>) -> Seq<char> {
    match e {
        MigrationError::NotSynced => "wallet must finish syncing first"@,
        MigrationError::NotInitialized =>
            "migration not initialized; call initialize_post_upgrade first"@,
        MigrationError::InvalidState(s) => "invalid migration state: "@ + state_message(s),
        MigrationError::Db(_) => "database error: "@ + detail,
        MigrationError::Backend(_) => "wallet backend error: "@ + detail,
        MigrationError::Pipeline(p) => "pczt pipeline error: "@ + p@,
        MigrationError::Unsupported(why) => "unsupported by pinned librustzcash: "@ + why@,
    }
}

/// Whether an error wraps one of a database's own.
pub open spec fn wraps_another(e: MigrationError) -> bool {
    e is Db || e is Backend
}

/// The numeric code of an error.
pub open spec fn code_of(e: MigrationError) -> u32 {
    match e {
        MigrationError::NotSynced => 1,
        MigrationError::NotInitialized => 2,
        MigrationError::InvalidState(_) => 3,
        MigrationError::Db(_) => 4,
        MigrationError::Backend(_) => 5,
        MigrationError::Pipeline(_) => 6,
        MigrationError::Unsupported(_) => 7,
    }
}

impl InvalidStateError {
    /// The message of this error.
    pub fn to_string(&self) -> (s: String)
        ensures
            s@ == state_message(*self),
    {
        match self {
            InvalidStateError::NoActiveRun => "no active migration run".to_owned(),
            InvalidStateError::UnknownPhase(p) => join("unknown migration phase: ", p.as_str()),
            InvalidStateError::WrongPhase { expected, found } => {
                let a: String = join("wrong migration phase: expected ", expected);
                let b: String = join(a.as_str(), ", found ");
                join(b.as_str(), found.as_str())
            },
            InvalidStateError::AlreadyComplete => "migration already complete".to_owned(),
            InvalidStateError::NotApplicable(why) => join("operation not applicable: ", why),
        }
    }
}

/// The `Display` text of a `rusqlite::Error`. Nothing is claimed of it: the error may carry one of any
/// type, which decides on its own text.
#[verifier::external_body]
pub(crate) fn database_error_text(e: &rusqlite::Error) -> (s: String) {
    format!("{e}")
}

/// The `Display` text of a `SqliteClientError`. Nothing is claimed of it: the error may carry one of
/// the database, and with it one of any type, which decides on its own text.
#[verifier::external_body]
pub(crate) fn wallet_error_text(e: &SqliteClientError) -> (s: String) {
    format!("{e}")
}

impl MigrationError {
    /// A stable numeric code for the FFI/JNI boundary.
    pub fn error_code(&self) -> (code: u32)
        ensures
            code == code_of(*self),
    {
        match self {
            MigrationError::NotSynced => 1,
            MigrationError::NotInitialized => 2,
            MigrationError::InvalidState(_) => 3,
            MigrationError::Db(_) => 4,
            MigrationError::Backend(_) => 5,
            MigrationError::Pipeline(_) => 6,
            MigrationError::Unsupported(_) => 7,
        }
    }

    /// The message of this error, given the text of the error it wraps.
    pub fn message_with(&self, detail: &str) -> (s: String)
        ensures
            s@ == error_message(*self, detail@),
    {
        match self {
            MigrationError::NotSynced => "wallet must finish syncing first".to_owned(),
            MigrationError::NotInitialized => {
                "migration not initialized; call initialize_post_upgrade first".to_owned()
            },
            MigrationError::InvalidState(e) => {
                join("invalid migration state: ", e.to_string().as_str())
            },
            MigrationError::Db(_) => join("database error: ", detail),
            MigrationError::Backend(_) => join("wallet backend error: ", detail),
            MigrationError::Pipeline(e) => join("pczt pipeline error: ", e.as_str()),
            MigrationError::Unsupported(why) => join("unsupported by pinned librustzcash: ", why),
        }
    }

    /// The message of this error. What follows the prefix of a wrapped error is that error's own
    /// text.
    pub fn to_string(&self) -> (s: String)
        ensures
            !wraps_another(*self) ==> s@ == error_message(*self, Seq::empty()),
            exists|detail: Seq<char>| s@ == error_message(*self, detail),
    {
        let detail: String = match self {
            MigrationError::Db(e) => database_error_text(e),
            MigrationError::Backend(e) => wallet_error_text(e),
            _ => String::new(),
        };
        self.message_with(detail.as_str())
    }
}

impl From<rusqlite::Error> for MigrationError {
    fn from(e: rusqlite::Error) -> (r: Self) {
        MigrationError::Db(e)
    }
}

impl FromSpecImpl<rusqlite::Error> for MigrationError {
    open spec fn obeys_from_spec() -> bool {
        true
    }

    open spec fn from_spec(e: rusqlite::Error) -> Self {
        MigrationError::Db(e)
    }
}

impl From<SqliteClientError> for MigrationError {
    fn from(e: SqliteClientError) -> (r: Self) {
        MigrationError::Backend(e)
    }
}

impl FromSpecImpl<SqliteClientError> for MigrationError {
    open spec fn obeys_from_spec() -> bool {
        true
    }

    open spec fn from_spec(e: SqliteClientError) -> Self {
        MigrationError::Backend(e)
    }
}

/// Whether a result is a pipeline error with the given text.
pub open spec fn is_pipeline_error<T>(r: Result<T, MigrationError>, message: Seq<char>) -> bool {
    r matches Err(MigrationError::Pipeline(m)) && m@ == message
}

/// A pipeline error made of a stage and what the stage reported.
pub fn pipeline_error(stage: &str, detail: &str) -> (e: MigrationError)
    ensures
        e matches MigrationError::Pipeline(m) && m@ == stage@ + detail@,
{
    MigrationError::Pipeline(join(stage, detail))
}

/// Two errors share a code exactly when they are of the same kind.
pub proof fn codes_tell_errors_apart(a: MigrationError, b: MigrationError)
    ensures
        code_of(a) == code_of(b) <==> {
            ||| a is NotSynced && b is NotSynced
            ||| a is NotInitialized && b is NotInitialized
            ||| a is InvalidState && b is InvalidState
            ||| a is Db && b is Db
            ||| a is Backend && b is Backend
            ||| a is Pipeline && b is Pipeline
            ||| a is Unsupported && b is Unsupported
        },
{
}

} // verus!
