use vstd::prelude::*;

verus! {

/// Failure taxonomy of the configuration store.
///
/// `Io` is raised by the application shell when a directory or file
/// operation fails; the library itself never performs I/O.  `Seal` and
/// `Unseal` report the sealing primitive; `Decode` a malformed blob;
/// `MissingCredentials` a validation failure; `NotFound` the absence of
/// any configuration source.
#[derive(Clone, Copy, Debug, PartialEq, Eq, Structural)]
pub enum ConfigError {
    Io,
    Seal,
    Unseal,
    Decode,
    MissingCredentials,
    NotFound,
}

impl ConfigError {
    /// A short human-readable description of the failure.
    pub fn message(&self) -> (r: String)
        ensures
            r@ == match self {
                ConfigError::Io => "file operation failed"@,
                ConfigError::Seal => "failed to seal configuration payload"@,
                ConfigError::Unseal => "failed to unseal configuration payload"@,
                ConfigError::Decode => "malformed configuration blob"@,
                ConfigError::MissingCredentials => "missing required credentials"@,
                ConfigError::NotFound => "no configuration found"@,
            },
    {
        match self {
            ConfigError::Io => String::from_str("file operation failed"),
            ConfigError::Seal => String::from_str("failed to seal configuration payload"),
            ConfigError::Unseal => String::from_str("failed to unseal configuration payload"),
            ConfigError::Decode => String::from_str("malformed configuration blob"),
            ConfigError::MissingCredentials => String::from_str("missing required credentials"),
            ConfigError::NotFound => String::from_str("no configuration found"),
        }
    }
}

/// Fatal startup failures of the backend supervisor.
///
/// `Spawn` means the child process could not be created at all;
/// `HealthTimeout` that the backend never became ready within the wait
/// budget.
#[derive(Clone, Copy, Debug, PartialEq, Eq, Structural)]
pub enum StartupError {
    Spawn,
    HealthTimeout,
}

impl StartupError {
    /// A short human-readable description of the failure.
    pub fn message(&self) -> (r: String)
        ensures
            r@ == match self {
                StartupError::Spawn => "backend process could not be started"@,
                StartupError::HealthTimeout => "backend health check timed out"@,
            },
    {
        match self {
            StartupError::Spawn => String::from_str("backend process could not be started"),
            StartupError::HealthTimeout => String::from_str("backend health check timed out"),
        }
    }
}

} // verus!
