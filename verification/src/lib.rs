//! Configuration files for applications: where they live, how they are read,
//! and how they are replaced without ever exposing a half-written file.
//!
//! The library decides; the caller touches the disk. Every step that needs
//! the file system is described by a value that says what to do next, and the
//! outcome of that step is handed back to obtain the following one.

pub mod error;
pub mod codec;
pub mod location;
pub mod stamp;
pub mod writer;
pub mod reader;
pub mod disk;
