//! Store files in the releases of a GitHub repository.
//!
//! A file is cut into chunks, and each chunk becomes an asset of a release. What is left of an
//! upload is a [`FileId`], from which the file can be downloaded again.
//!
//! The library decides and computes; it sends nothing itself. An upload, a download, a login and
//! the search for a release are each a value that says what is to be done next, and that goes on
//! with what came of it.

pub mod address;
pub mod cli;
pub mod download;
pub mod error;
pub mod file_id;
pub mod framing;
pub mod headers;
pub mod login;
pub mod release;
pub mod repo;
pub mod request;
pub mod roundtrip;
pub mod text;
pub mod upload;

pub use error::Error;
pub use file_id::FileId;
