use std::path::PathBuf;
use std::sync::Arc;

use rusqlite::Connection;
use vstd::prelude::*;

use crate::registry::open_memory;

verus! {

#[verifier::external_type_specification]
#[verifier::external_body]
pub struct ExConnection(rusqlite::Connection);

#[verifier::external_type_specification]
#[verifier::external_body]
pub struct ExPathBuf(std::path::PathBuf);

/// Relies on rusqlite's Connection::open: opens or creates the database file.
#[verifier::external_body]
pub(crate) fn open_file(path: &PathBuf) -> (r: Result<Connection, rusqlite::Error>) {
    Connection::open(path)
}

/// Relies on Arc::clone: the clone shares the same value.
#[verifier::external_body]
fn share_arc(a: &Arc<Connection>) -> (r: Arc<Connection>)
    ensures
        r == *a,
{
    Arc::clone(a)
}

/// Relies on Arc::strong_count: the count includes the handle asked about.
#[verifier::external_body]
fn strong_count(a: &Arc<Connection>) -> (r: usize)
    ensures
        r >= 1,
{
    Arc::strong_count(a)
}

/// Relies on Arc::try_unwrap: the value comes out only for the last holder,
/// and the handle is handed back otherwise.
#[verifier::external_body]
fn try_unwrap(a: Arc<Connection>) -> (r: Result<Connection, Arc<Connection>>)
    ensures
        match r {
            Ok(c) => c == *a,
            Err(b) => b == a,
        },
{
    Arc::try_unwrap(a)
}

/// Relies on rusqlite's Connection::close. On failure the connection is
/// dropped, and dropping it tries the close once more.
#[verifier::external_body]
fn close_connection(c: Connection) -> (r: Result<(), rusqlite::Error>) {
    c.close().map_err(|(_, e)| e)
}

/// A shared handle on one open tenant database. Clones share the same
/// connection, so a write through one clone is seen through every other.
#[derive(Clone)]
pub struct TenantConnection {
    pub connection: Arc<Connection>,
    /// Whether the database lives in memory only, and so is lost with its
    /// last handle.
    pub in_memory: Ghost<bool>,
}

/// Why a tenant connection could not be closed.
pub enum CloseError {
    /// Other holders still share the connection: it is handed back unchanged.
    Shared(TenantConnection),
    /// The engine failed to close the connection.
    Engine(rusqlite::Error),
}

impl TenantConnection {
    /// Opens the database file at `path`, creating it if needed, or a fresh
    /// in-memory database when no path is given.
    pub fn open(path: Option<PathBuf>) -> (r: Result<Self, rusqlite::Error>)
        ensures
            r matches Ok(c) ==> c.in_memory@ == path is None,
    {
        Self::open_at(&path)
    }

    pub(crate) fn open_at(path: &Option<PathBuf>) -> (r: Result<Self, rusqlite::Error>)
        ensures
            r matches Ok(c) ==> c.in_memory@ == path is None,
    {
        let opened = match path {
            Some(p) => open_file(p),
            None => open_memory(),
        };
        match opened {
            Ok(c) => Ok(TenantConnection { connection: Arc::new(c), in_memory: Ghost(path is None) }),
            Err(e) => Err(e),
        }
    }

    /// Another handle on the same connection.
    pub fn share(&self) -> (r: Self)
        ensures
            r == *self,
    {
        TenantConnection { connection: share_arc(&self.connection), in_memory: self.in_memory }
    }

    /// The number of handles, this one included, that share the connection.
    pub fn holders(&self) -> (r: usize)
        ensures
            r >= 1,
    {
        strong_count(&self.connection)
    }

    /// Closes the connection. Only the last holder can close it: any other
    /// gets its handle back in `CloseError::Shared`.
    pub fn close(self) -> (r: Result<(), CloseError>)
        ensures
            r matches Err(CloseError::Shared(t)) ==> t == self,
    {
        let in_memory = self.in_memory;
        match try_unwrap(self.connection) {
            Ok(c) => match close_connection(c) {
                Ok(()) => Ok(()),
                Err(e) => Err(CloseError::Engine(e)),
            },
            Err(a) => Err(CloseError::Shared(TenantConnection { connection: a, in_memory })),
        }
    }
}

} // verus!
