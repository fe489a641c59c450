//! A minimal package manager client, written without I/O of its own.
//!
//! The crate holds the rules of the client: how a download address is formed,
//! how the entries of a package archive map to paths below the modules
//! directory, how the project manifest is read and extended, and in which order
//! the steps of an installation follow each other. Network and file system
//! access belong to the caller, which carries out the actions that the
//! functions here hand back.

pub mod archive;
pub mod errors;
pub mod init;
pub mod install;
pub mod install_laws;
pub mod json;
pub mod layout;
pub mod link;
pub mod manifest;
pub mod paths;
