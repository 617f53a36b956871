//! Multi-tenant manager for SQLite connections: a durable registry of
//! tenants and a bounded least-recently-used cache of their open connections.

pub mod cache;
pub mod config;
pub mod error;
pub mod logger;
pub mod manager;
pub mod prelude;
pub mod registry;
pub mod statements;
pub mod tenant;

pub use config::Configuration;
pub use error::{EngineFailure, ErrorKind, MultiTenantError};
pub use logger::LogLevel;
pub use manager::MultiTenantManager;
pub use tenant::{CloseError, TenantConnection};
