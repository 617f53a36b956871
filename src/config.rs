use std::path::PathBuf;

use vstd::prelude::*;

use crate::logger::LogLevel;

verus! {

/// The cache capacity used when the configuration names none.
pub const DEFAULT_CACHE_CAPACITY: usize = 150;

/// The configuration of a tenant manager.
#[derive(Clone)]
pub struct Configuration {
    /// The registry database file; `None` keeps the registry in memory.
    pub master_db_path: Option<PathBuf>,
    /// The log level; `None` disables logging.
    pub log_level: Option<LogLevel>,
    /// The directory logs are written to; `None` means `logs`.
    pub log_dir: Option<PathBuf>,
    /// The most connections the cache holds open; `None` means the default.
    pub lru_cache_cap: Option<usize>,
}

/// The cache capacity a configuration asks for.
pub open spec fn capacity_of(config: Configuration) -> int {
    match config.lru_cache_cap {
        Some(c) => c as int,
        None => DEFAULT_CACHE_CAPACITY as int,
    }
}

impl Configuration {
    /// The cache capacity this configuration asks for.
    pub fn cache_capacity(&self) -> (r: usize)
        ensures
            r == capacity_of(*self),
    {
        match self.lru_cache_cap {
            Some(c) => c,
            None => DEFAULT_CACHE_CAPACITY,
        }
    }
}

} // verus!
