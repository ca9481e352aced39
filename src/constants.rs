//! The fixed names that resolution reads and writes.
use vstd::prelude::*;

verus! {

/// Variable naming the project root.
pub const PROJECT_ROOT: &'static str = "PRJ_ROOT";

/// Variable naming the configuration directory.
pub const PROJECT_CONFIG_HOME: &'static str = "PRJ_CONFIG_HOME";

/// Variable naming the data directory.
pub const PROJECT_DATA_HOME: &'static str = "PRJ_DATA_HOME";

/// Variable holding the project identifier.
pub const PROJECT_ID: &'static str = "PRJ_ID";

/// Variable naming the cache directory.
pub const PROJECT_CACHE: &'static str = "PRJ_CACHE";

/// File, inside a configuration directory, that holds the project identifier.
pub const PROJECT_ID_FILE: &'static str = "prj_id";

/// Leaf under the root used when no configuration directory is given.
pub const DEFAULT_CONFIG_HOME: &'static str = ".config";

/// Leaf under the root used when no data directory is given.
pub const DEFAULT_DATA_HOME: &'static str = ".data";

/// Leaf under the root used when no cache directory is given.
pub const DEFAULT_CACHE_HOME: &'static str = ".cache";

} // verus!
