//! The failures of the commands.

use vstd::prelude::*;
use crate::utils::UtilsError;

verus! {

/// A failure of a command.
#[derive(Debug)]
pub enum Error {
    NoHomeDir,
    NoBinName,
    /// The path of the install record that names no repository.
    NoRepoFoundInArgumentOrInInstallToml(String),
    /// The link whose target lies in no package directory.
    CannotFindBinPackageDir(String),
    /// The package directory whose name is no version.
    NoVersionFromBinPath(String),
    CargoInvalidVersion(String),
    BinRepo(crate::repo::error::Error),
    /// The message of a failed file operation.
    IO(String),
    /// The parser's message.
    Toml(String),
    /// The text that is no semantic version.
    SemVer(String),
    Utils(UtilsError),
}

} // verus!
