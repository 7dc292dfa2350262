use vstd::prelude::*;

use crate::errors::Error;

verus! {

/// Where the tool keeps its durable state: implementations resolve the paths
/// of the history database and the log file from the environment they run
/// in.
pub trait ConfigManager: Sized {
    fn get_db_path(&self) -> Result<String, Error>;

    fn get_log_path(&self) -> Result<String, Error>;
}

/// The stock configuration, which resolves paths from the local user
/// directories. Resolving them reads the environment, so the resolution
/// itself lives with the caller that owns the process's surroundings.
#[derive(Debug, Clone, Copy, PartialEq, Eq, Structural, Default)]
pub struct LocalConfigManager {}

impl LocalConfigManager {
    pub fn new() -> (r: Self)
        ensures
            r == (LocalConfigManager {  }),
    {
        LocalConfigManager {  }
    }
}

} // verus!
