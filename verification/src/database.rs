//! The state of the cleanup database as the application reports it, the error for
//! using it while it is unavailable, and the plan of schema migrations.
use vstd::prelude::*;

use crate::text::{digits, push_decimal, push_str, string_of};

verus! {

#[verifier::external_type_specification]
#[verifier::external_body]
pub struct ExAnyhowError(anyhow::Error);

/// The name of the database file in the application's configuration directory.
pub const DATABASE_FILE: &'static str = "scourgify.db";

/// The error recorded when the configuration directory is unknown.
pub const DATABASE_PATH_UNAVAILABLE: &'static str = "Database path is unavailable.";

/// The error recorded when the database state could not be locked.
pub const DATABASE_STATE_UNAVAILABLE: &'static str = "Database state could not be accessed.";

/// The version of the database schema that the application writes.
pub const SCHEMA_VERSION: u32 = 3;

/// Whether the database can be used, where it is, its schema version and, when it
/// cannot be used, why.
#[derive(Debug, Clone, PartialEq, Eq)]
pub struct DatabaseStatus {
    pub available: bool,
    pub path: Option<String>,
    pub schema_version: Option<u32>,
    pub error: Option<String>,
}

pub open spec fn opt_view(s: Option<&str>) -> Option<Seq<char>> {
    match s {
        Some(t) => Some(t@),
        None => None,
    }
}

pub open spec fn opt_string_view(s: Option<String>) -> Option<Seq<char>> {
    match s {
        Some(t) => Some(t@),
        None => None,
    }
}

fn opt_string(s: Option<&str>) -> (r: Option<String>)
    ensures
        opt_string_view(r) == opt_view(s),
{
    match s {
        Some(t) => Some(string_of(t)),
        None => None,
    }
}

/// The status of a database at `path` that is connected or not, with the schema
/// version and the error recorded for it.
pub fn database_status(path: Option<&str>, connected: bool, schema_version: Option<u32>, error: Option<&str>) -> (r:
    DatabaseStatus)
    ensures
        r.available == connected,
        opt_string_view(r.path) == opt_view(path),
        r.schema_version == schema_version,
        opt_string_view(r.error) == opt_view(error),
{
    DatabaseStatus { available: connected, path: opt_string(path), schema_version, error: opt_string(error) }
}

/// The status of a database that cannot be used, for the reason `error`.
pub fn unavailable_status(path: Option<&str>, error: &str) -> (r: DatabaseStatus)
    ensures
        !r.available,
        opt_string_view(r.path) == opt_view(path),
        r.schema_version is None,
        opt_string_view(r.error) == Some(error@),
{
    DatabaseStatus { available: false, path: opt_string(path), schema_version: None, error: Some(string_of(error)) }
}

/// Why the database could not be used.
#[derive(Debug, Clone, PartialEq, Eq)]
pub enum DatabaseStateError {
    Unavailable(String),
    StateUnavailable(String),
}

pub open spec fn database_state_error_text(e: DatabaseStateError) -> Seq<char> {
    match e {
        DatabaseStateError::Unavailable(d) => "database unavailable: "@ + d@,
        DatabaseStateError::StateUnavailable(d) => "database state lock poisoned: "@ + d@,
    }
}

impl DatabaseStateError {
    /// The description of the failure.
    pub fn message(&self) -> (r: String)
        ensures
            r@ == database_state_error_text(*self),
    {
        let mut out = String::new();
        match self {
            DatabaseStateError::Unavailable(d) => {
                push_str(&mut out, "database unavailable: ");
                push_str(&mut out, d.as_str());
            },
            DatabaseStateError::StateUnavailable(d) => {
                push_str(&mut out, "database state lock poisoned: ");
                push_str(&mut out, d.as_str());
            },
        }
        out
    }
}

/// The error for using a database that is not connected, naming the recorded
/// initialization error, or an unknown one.
pub fn unavailable_error(recorded: Option<&str>) -> (r: DatabaseStateError)
    ensures
        r matches DatabaseStateError::Unavailable(d) && d@ == match recorded {
            Some(e) => e@,
            None => "unknown initialization error"@,
        },
{
    match recorded {
        Some(e) => DatabaseStateError::Unavailable(string_of(e)),
        None => DatabaseStateError::Unavailable(string_of("unknown initialization error")),
    }
}

/// Calls `anyhow::Error::root_cause` and formats the cause with `Display`. The root
/// cause is the last error of the chain, and its text is that error type's own
/// `Display`: for an operating-system error it is the system's message, in the
/// language of the machine. So nothing is stated of the text.
#[verifier::external_body]
fn root_cause_text(error: &anyhow::Error) -> String {
    error.root_cause().to_string()
}

/// The summary of a failure to open the database that is shown to the user: the
/// text of the root cause alone, without the context (such as paths) added on the way.
/// The text comes from the error itself and may depend on the machine's language, so
/// the contract states nothing of it.
pub fn error_summary(error: &anyhow::Error) -> String {
    root_cause_text(error)
}

/// What a request to retry opening the database does.
#[derive(Debug, Clone, Copy, PartialEq, Eq, Structural)]
pub enum RetryStep {
    /// The database is connected already: its status is reported.
    AlreadyConnected,
    /// The database path is unknown: that is recorded as the error.
    NoPath,
    /// The database is opened again.
    Open,
}

pub fn retry_step(connected: bool, has_path: bool) -> (r: RetryStep)
    ensures
        connected ==> r == RetryStep::AlreadyConnected,
        !connected && !has_path ==> r == RetryStep::NoPath,
        !connected && has_path ==> r == RetryStep::Open,
{
    if connected {
        RetryStep::AlreadyConnected
    } else if !has_path {
        RetryStep::NoPath
    } else {
        RetryStep::Open
    }
}

/// A database written by a newer version of the application.
#[derive(Debug, Clone, Copy, PartialEq, Eq, Structural)]
pub struct NewerSchema {
    pub version: u32,
}

impl NewerSchema {
    /// The description of the refusal.
    pub fn message(&self) -> (r: String)
        ensures
            r@ == "database schema version "@ + digits(self.version as nat, 10) + " is newer than supported version "@
                + digits(SCHEMA_VERSION as nat, 10),
    {
        let mut out = string_of("database schema version ");
        push_decimal(&mut out, self.version as u64);
        push_str(&mut out, " is newer than supported version ");
        push_decimal(&mut out, SCHEMA_VERSION as u64);
        out
    }
}

/// The schema versions that a database at `current` is migrated to, in order:
/// each version after `current` up to the supported one. A newer database is refused.
pub fn migration_plan(current: u32) -> (r: Result<Vec<u32>, NewerSchema>)
    ensures
        current > SCHEMA_VERSION ==> r == Err::<Vec<u32>, NewerSchema>(NewerSchema { version: current }),
        current <= SCHEMA_VERSION ==> (r matches Ok(v) && v@.len() == SCHEMA_VERSION - current && forall|i: int|
            0 <= i < v@.len() ==> #[trigger] v@[i] == current + 1 + i),
{
    if current > SCHEMA_VERSION {
        return Err(NewerSchema { version: current });
    }
    let mut steps: Vec<u32> = Vec::new();
    let mut version = current;
    while version < SCHEMA_VERSION
        invariant
            current <= version <= SCHEMA_VERSION,
            steps@.len() == version - current,
            forall|i: int| 0 <= i < steps@.len() ==> #[trigger] steps@[i] == current + 1 + i,
        decreases SCHEMA_VERSION - version,
    {
        version = version + 1;
        steps.push(version);
    }
    Ok(steps)
}

/// The built-in whitelist keywords that a new database is seeded with.
pub fn builtin_whitelist_rules() -> (r: Vec<&'static str>)
    ensures
        r@.len() == 2,
        r@[0]@ == "Desktop"@,
        r@[1]@ == "Documents"@,
{
    vec!["Desktop", "Documents"]
}

} // verus!
