//! A verified core for a minimal static-content HTTP server.
//!
//! The library turns one HTTP request line and the file system's answer for
//! the requested target into an exact byte sequence: the complete HTTP
//! response. Parsing, target resolution and response rendering are verified;
//! sockets, process management and file-system access live outside, in the
//! surrounding binary, which hands the library plain values.

pub mod handler;
pub mod listing;
pub mod mime;
pub mod parse;
pub mod response;
pub mod supervisor;
