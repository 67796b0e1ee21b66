//! Repositories: their locations, the keys and paths of what they hold, and
//! the install and publish procedures.

pub mod bin_repo;
pub mod cred;
pub mod error;
pub mod install;
pub mod publish;
pub mod repo_info;
pub mod s3w;
