//! The server: settings and command-line handling, request decisions, and
//! the logic around storage.
pub mod cli;
pub mod daemon;
pub mod db;
pub mod error;
pub mod paging;
pub mod rfc3339;

pub use error::Error;
