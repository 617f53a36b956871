//! The items a user of the manager needs, with the engine's connection type.

pub use rusqlite::Connection;

pub use crate::config::Configuration;
pub use crate::error::{ErrorKind, MultiTenantError};
pub use crate::logger::LogLevel;
pub use crate::manager::MultiTenantManager;
pub use crate::tenant::TenantConnection;
