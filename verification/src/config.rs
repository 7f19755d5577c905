//! The application's configuration file.
use vstd::prelude::*;
use crate::filesystem::{path_join, spec_path_join};

verus! {

/// The version of the configuration format this library reads and writes.
pub const LAST_CONFIGURATION_VERSION: u64 = 0;

/// The name of the configuration file, in the configuration folder.
pub open spec fn config_file_name() -> Seq<char> {
    "config.toml"@
}

/// The path of the configuration file in the configuration folder
/// `config_dir`.
pub fn get_config_file(config_dir: &str) -> (r: String)
    ensures
        r@ == spec_path_join(config_dir@, config_file_name()),
{
    path_join(config_dir, "config.toml")
}

/// A configuration file that can't be read.
#[derive(Debug, Clone, Copy, PartialEq, Eq)]
pub enum ConfigError {
    /// The file is written in another version of the format.
    IncompatibleVersion { version: u64 },
}

/// Accepts a configuration file written in the version this library
/// supports, and refuses any other version.
pub fn check_config_version(version: u64) -> (r: Result<(), ConfigError>)
    ensures
        version == LAST_CONFIGURATION_VERSION ==> r is Ok,
        version != LAST_CONFIGURATION_VERSION ==> r == Err::<(), ConfigError>(
            ConfigError::IncompatibleVersion { version },
        ),
{
    if version == LAST_CONFIGURATION_VERSION {
        Ok(())
    } else {
        Err(ConfigError::IncompatibleVersion { version })
    }
}

} // verus!
