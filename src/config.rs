//! Persistent configuration.

use vstd::prelude::*;

verus! {

/// Persistent configuration. It holds no settings yet.
#[derive(Clone, Copy, Debug, PartialEq, Eq, Structural)]
pub struct Config {}

/// Why the configuration could not be read or stored.
#[derive(Clone, Copy, Debug, PartialEq, Eq, Structural)]
pub enum ConfigError {
    /// No storage format exists yet.
    NotImplemented,
}

impl Config {
    pub fn new() -> (r: Config)
        ensures
            r == (Config {}),
    {
        Config {}
    }

    /// Reads the stored configuration. No storage format exists yet, so this
    /// always fails.
    pub fn load() -> (r: Result<Config, ConfigError>)
        ensures
            r == Err::<Config, ConfigError>(ConfigError::NotImplemented),
    {
        Err(ConfigError::NotImplemented)
    }

    /// Stores the configuration. No storage format exists yet, so this always
    /// fails.
    pub fn save() -> (r: Result<(), ConfigError>)
        ensures
            r == Err::<(), ConfigError>(ConfigError::NotImplemented),
    {
        Err(ConfigError::NotImplemented)
    }
}

} // verus!
