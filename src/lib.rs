//! Finds and installs helper binaries through a content-addressed local cache.
//!
//! A cache entry is named after the binary's name and a digest of its URL
//! (`key`). A download runs as a `session::DownloadSession`, a state machine
//! whose driver performs the filesystem and network work; the entry becomes
//! visible only through one rename of a fully extracted staging directory.

pub mod cache;
pub mod error;
pub mod key;
pub mod paths;
pub mod select;
pub mod session;

pub use cache::{Cache, Download, FileKind};
pub use error::CacheError;
pub use key::hashed_dirname;
pub use session::{Action, DownloadSession, Event, Phase};
