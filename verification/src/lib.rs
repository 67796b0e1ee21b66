//! Repository resolution and versioned artifact layout for a decentralized
//! binary installer: repository locations, remote keys, local cache paths,
//! release streams, and the install, publish and update decisions.

pub mod cmd;
pub mod paths;
pub mod repo;
pub mod text;
pub mod toml_doc;
pub mod utils;
pub mod version;
