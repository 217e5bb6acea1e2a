use vstd::prelude::*;

verus! {

/// Why a configuration-dependent operation could not be carried out.
#[derive(Clone, Copy, Debug, PartialEq, Eq, Structural)]
pub enum ConfigProblem {
    /// No installation directory has been chosen yet.
    NoInstallDirectory,
    /// No mounted drive backs the installation directory.
    NoBackingDisk,
    /// No active tooling version has been chosen yet.
    NoActiveVersion,
    /// The game has no entry in the configuration.
    GameNotConfigured,
    /// The installed C++ runtime version could not be determined.
    RuntimeVersionUnknown,
}

/// Errors reported by the launcher's commands.
#[derive(Debug, PartialEq, Eq)]
pub enum CommandError {
    Configuration(ConfigProblem),
    UnknownGame(String),
}

} // verus!
