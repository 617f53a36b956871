use vstd::prelude::*;
use vstd::string::StringExecFns;

verus! {

#[verifier::external_type_specification]
#[verifier::external_body]
pub struct ExSqlError(rusqlite::Error);

/// The errors the manager reports. Engine errors never escape as they are:
/// they are translated into this taxonomy.
#[derive(Debug, PartialEq)]
pub enum MultiTenantError {
    TenantAlreadyExists(String),
    TenantNotFound(String),
    DatabaseError(String),
    ConfigurationError(String),
    ResourceBusy(String),
}

/// What the manager needs to know of an engine error.
#[derive(Debug, PartialEq)]
pub enum EngineFailure {
    /// A query that should return a row returned none.
    NoRows,
    /// A uniqueness constraint of the engine rejected a write.
    UniqueViolation(Option<String>),
    /// Any other failure reported by the engine, with its message if it gave one.
    Sqlite(Option<String>),
    /// A failure raised by the binding layer rather than the engine.
    Other,
}

/// Relies on the variants of rusqlite::Error and the extended result code
/// SQLITE_CONSTRAINT_UNIQUE of libsqlite3-sys, to sort an engine error.
#[verifier::external_body]
pub(crate) fn failure_of(e: &rusqlite::Error) -> (r: EngineFailure) {
    match e {
        rusqlite::Error::QueryReturnedNoRows => EngineFailure::NoRows,
        rusqlite::Error::SqliteFailure(f, m) if f.extended_code == rusqlite::ffi::SQLITE_CONSTRAINT_UNIQUE => {
            EngineFailure::UniqueViolation(m.clone())
        },
        rusqlite::Error::SqliteFailure(_, m) => EngineFailure::Sqlite(m.clone()),
        _ => EngineFailure::Other,
    }
}

/// The kind of a manager error, without its text.
#[derive(Clone, Copy, Debug, PartialEq, Eq, Structural)]
pub enum ErrorKind {
    TenantAlreadyExists,
    TenantNotFound,
    DatabaseError,
    ConfigurationError,
    ResourceBusy,
}

impl View for MultiTenantError {
    type V = (ErrorKind, Seq<char>);

    open spec fn view(&self) -> (ErrorKind, Seq<char>) {
        match self {
            MultiTenantError::TenantAlreadyExists(s) => (ErrorKind::TenantAlreadyExists, s@),
            MultiTenantError::TenantNotFound(s) => (ErrorKind::TenantNotFound, s@),
            MultiTenantError::DatabaseError(s) => (ErrorKind::DatabaseError, s@),
            MultiTenantError::ConfigurationError(s) => (ErrorKind::ConfigurationError, s@),
            MultiTenantError::ResourceBusy(s) => (ErrorKind::ResourceBusy, s@),
        }
    }
}

/// The message kept from an engine failure.
pub open spec fn failure_text(m: Option<String>) -> Seq<char> {
    match m {
        Some(s) => s@,
        None => "Failed to get database error message."@,
    }
}

/// The error that an engine failure becomes at the manager's boundary.
pub open spec fn engine_error(f: EngineFailure) -> (ErrorKind, Seq<char>) {
    match f {
        EngineFailure::NoRows => (ErrorKind::TenantNotFound, "No row data found."@),
        EngineFailure::UniqueViolation(m) => (ErrorKind::DatabaseError, failure_text(m)),
        EngineFailure::Sqlite(m) => (ErrorKind::DatabaseError, failure_text(m)),
        EngineFailure::Other => (ErrorKind::DatabaseError, "Unknown database error"@),
    }
}

/// The human-readable text of an error.
pub open spec fn error_text(e: (ErrorKind, Seq<char>)) -> Seq<char> {
    match e.0 {
        ErrorKind::TenantAlreadyExists => "Tenant '"@ + e.1 + "' already exists"@,
        ErrorKind::TenantNotFound => "Tenant '"@ + e.1 + "' not found"@,
        ErrorKind::DatabaseError => "Database error: "@ + e.1,
        ErrorKind::ConfigurationError => "Configuration error: "@ + e.1,
        ErrorKind::ResourceBusy => "Tenant '"@ + e.1 + "' is still in use"@,
    }
}

fn failure_message(m: Option<String>) -> (r: String)
    ensures
        r@ == failure_text(m),
{
    match m {
        Some(s) => s,
        None => String::from_str("Failed to get database error message."),
    }
}

impl MultiTenantError {
    /// Translates an engine failure into the manager's taxonomy.
    pub fn from_failure(f: EngineFailure) -> (r: Self)
        ensures
            r@ == engine_error(f),
    {
        match f {
            EngineFailure::NoRows => MultiTenantError::TenantNotFound(String::from_str("No row data found.")),
            EngineFailure::UniqueViolation(m) => MultiTenantError::DatabaseError(failure_message(m)),
            EngineFailure::Sqlite(m) => MultiTenantError::DatabaseError(failure_message(m)),
            EngineFailure::Other => MultiTenantError::DatabaseError(String::from_str("Unknown database error")),
        }
    }

    /// Translates an engine error into the manager's taxonomy.
    pub fn from_engine(e: &rusqlite::Error) -> (r: Self)
        ensures
            r@.0 == ErrorKind::TenantNotFound || r@.0 == ErrorKind::DatabaseError,
    {
        Self::from_failure(failure_of(e))
    }

    /// The text this error carries: a tenant id or a message.
    pub fn detail(&self) -> (r: &String)
        ensures
            r@ == self@.1,
    {
        match self {
            MultiTenantError::TenantAlreadyExists(s) => s,
            MultiTenantError::TenantNotFound(s) => s,
            MultiTenantError::DatabaseError(s) => s,
            MultiTenantError::ConfigurationError(s) => s,
            MultiTenantError::ResourceBusy(s) => s,
        }
    }

    /// The kind of this error.
    pub fn kind(&self) -> (r: ErrorKind)
        ensures
            r == self@.0,
    {
        match self {
            MultiTenantError::TenantAlreadyExists(_) => ErrorKind::TenantAlreadyExists,
            MultiTenantError::TenantNotFound(_) => ErrorKind::TenantNotFound,
            MultiTenantError::DatabaseError(_) => ErrorKind::DatabaseError,
            MultiTenantError::ConfigurationError(_) => ErrorKind::ConfigurationError,
            MultiTenantError::ResourceBusy(_) => ErrorKind::ResourceBusy,
        }
    }

    /// The human-readable text of this error.
    pub fn message(&self) -> (r: String)
        ensures
            r@ == error_text(self@),
    {
        match self {
            MultiTenantError::TenantAlreadyExists(id) => {
                let mut s = String::from_str("Tenant '");
                s.append(id.as_str());
                s.append("' already exists");
                s
            },
            MultiTenantError::TenantNotFound(id) => {
                let mut s = String::from_str("Tenant '");
                s.append(id.as_str());
                s.append("' not found");
                s
            },
            MultiTenantError::DatabaseError(msg) => {
                let mut s = String::from_str("Database error: ");
                s.append(msg.as_str());
                s
            },
            MultiTenantError::ConfigurationError(msg) => {
                let mut s = String::from_str("Configuration error: ");
                s.append(msg.as_str());
                s
            },
            MultiTenantError::ResourceBusy(id) => {
                let mut s = String::from_str("Tenant '");
                s.append(id.as_str());
                s.append("' is still in use");
                s
            },
        }
    }
}

} // verus!
