//! Identity of the process at the other end of a local socket connection.
//!
//! The operating system answers a peer-credential query with a status and a
//! small record. This crate holds the identity value that callers work with
//! and, for each family of operating systems, the rule that turns such an
//! answer into an identity or into a failure carrying the native error code.

pub mod decimal;
pub mod failure;
pub mod impl_linux;
pub mod impl_macos;
pub mod impl_windows;
pub mod pid;
