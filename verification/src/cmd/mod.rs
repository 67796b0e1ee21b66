//! The commands' own decisions and failures.

pub mod error;
pub mod exec;
