//! The failures of repository operations and the classes they fall into.

use vstd::prelude::*;
use crate::utils::UtilsError;

verus! {

/// A failure of a repository operation.
#[derive(Debug)]
pub enum Error {
    /// The bucket, and where the credentials came from.
    RepoS3BucketNotAccessible(String, String),
    S3CredMissingInEnvOrProfile,
    S3CredMustHaveRegionOrEndpoint,
    S3CredMissingProfile(String),
    InvalidEndPoint(String),
    NoCredentialEnv(String),
    HttpProtocolNotSupportedForPublish,
    NoCredentialConfig(String),
    NoCredentialsForProfile(String),
    RepoInvalidS3(String),
    /// The provider's error code.
    AwsServiceError(String),
    InvalidInfoToml(String),
    InvalidVersionFromOrigin,
    OriginLatestNotFound(String),
    OriginTarGzNotFound(String),
    UnpackedBinFileNotFound(String),
    NoReleaseBinFile,
    /// The message of a failed file operation.
    IOError(String),
    /// The parser's message.
    TomlError(String),
    UtilsError(UtilsError),
    /// The message of a failed HTTP request.
    ReqwestError(String),
    /// The message of a failed object stream.
    ByteStream(String),
}

/// The classes of failure that callers tell apart.
#[derive(Debug, Clone, Copy, PartialEq, Eq, Structural)]
pub enum ErrorKind {
    /// A malformed repository location.
    Parse,
    /// A missing artifact or metadata document.
    NotFound,
    /// A metadata document that is present but holds no usable version.
    InvalidVersion,
    /// A network, credential or provider failure.
    Transport,
    /// An operation that the kind of repository does not offer.
    UnsupportedOperation,
    /// A deletion that the safety guard refused.
    UnsafeDeletion,
    /// A command that could not be run or ended badly.
    Command,
}

impl UtilsError {
    /// The class of this failure.
    pub open spec fn kind_spec(&self) -> ErrorKind {
        match self {
            UtilsError::ExecError(_, _) => ErrorKind::Command,
            UtilsError::TomlValueNotFound(_) => ErrorKind::InvalidVersion,
            UtilsError::DirNotSafeToDelete(_) => ErrorKind::UnsafeDeletion,
        }
    }

    /// The class of this failure.
    pub fn kind(&self) -> (k: ErrorKind)
        ensures
            k == self.kind_spec(),
    {
        match self {
            UtilsError::ExecError(_, _) => ErrorKind::Command,
            UtilsError::TomlValueNotFound(_) => ErrorKind::InvalidVersion,
            UtilsError::DirNotSafeToDelete(_) => ErrorKind::UnsafeDeletion,
        }
    }
}

impl Error {
    /// The class of this failure.
    pub open spec fn kind_spec(&self) -> ErrorKind {
        match self {
            Error::RepoInvalidS3(_) => ErrorKind::Parse,
            Error::OriginLatestNotFound(_) => ErrorKind::NotFound,
            Error::OriginTarGzNotFound(_) => ErrorKind::NotFound,
            Error::UnpackedBinFileNotFound(_) => ErrorKind::NotFound,
            Error::NoReleaseBinFile => ErrorKind::NotFound,
            Error::InvalidInfoToml(_) => ErrorKind::InvalidVersion,
            Error::InvalidVersionFromOrigin => ErrorKind::InvalidVersion,
            Error::TomlError(_) => ErrorKind::InvalidVersion,
            Error::HttpProtocolNotSupportedForPublish => ErrorKind::UnsupportedOperation,
            Error::UtilsError(e) => e.kind_spec(),
            Error::RepoS3BucketNotAccessible(_, _) => ErrorKind::Transport,
            Error::S3CredMissingInEnvOrProfile => ErrorKind::Transport,
            Error::S3CredMustHaveRegionOrEndpoint => ErrorKind::Transport,
            Error::S3CredMissingProfile(_) => ErrorKind::Transport,
            Error::InvalidEndPoint(_) => ErrorKind::Transport,
            Error::NoCredentialEnv(_) => ErrorKind::Transport,
            Error::NoCredentialConfig(_) => ErrorKind::Transport,
            Error::NoCredentialsForProfile(_) => ErrorKind::Transport,
            Error::AwsServiceError(_) => ErrorKind::Transport,
            Error::IOError(_) => ErrorKind::Transport,
            Error::ReqwestError(_) => ErrorKind::Transport,
            Error::ByteStream(_) => ErrorKind::Transport,
        }
    }

    /// The class of this failure.
    pub fn kind(&self) -> (k: ErrorKind)
        ensures
            k == self.kind_spec(),
    {
        match self {
            Error::RepoInvalidS3(_) => ErrorKind::Parse,
            Error::OriginLatestNotFound(_) => ErrorKind::NotFound,
            Error::OriginTarGzNotFound(_) => ErrorKind::NotFound,
            Error::UnpackedBinFileNotFound(_) => ErrorKind::NotFound,
            Error::NoReleaseBinFile => ErrorKind::NotFound,
            Error::InvalidInfoToml(_) => ErrorKind::InvalidVersion,
            Error::InvalidVersionFromOrigin => ErrorKind::InvalidVersion,
            Error::TomlError(_) => ErrorKind::InvalidVersion,
            Error::HttpProtocolNotSupportedForPublish => ErrorKind::UnsupportedOperation,
            Error::UtilsError(e) => e.kind(),
            Error::RepoS3BucketNotAccessible(_, _) => ErrorKind::Transport,
            Error::S3CredMissingInEnvOrProfile => ErrorKind::Transport,
            Error::S3CredMustHaveRegionOrEndpoint => ErrorKind::Transport,
            Error::S3CredMissingProfile(_) => ErrorKind::Transport,
            Error::InvalidEndPoint(_) => ErrorKind::Transport,
            Error::NoCredentialEnv(_) => ErrorKind::Transport,
            Error::NoCredentialConfig(_) => ErrorKind::Transport,
            Error::NoCredentialsForProfile(_) => ErrorKind::Transport,
            Error::AwsServiceError(_) => ErrorKind::Transport,
            Error::IOError(_) => ErrorKind::Transport,
            Error::ReqwestError(_) => ErrorKind::Transport,
            Error::ByteStream(_) => ErrorKind::Transport,
        }
    }
}

} // verus!
