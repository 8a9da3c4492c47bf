//! The command layer of a desktop application shell.
//!
//! A command never touches the operating system itself. It is a function from
//! what the host process has answered so far to the next thing to do: either a
//! [`host::Request`] that the host carries out, or the reply for the caller.

pub mod error;
pub mod files;
pub mod host;
pub mod laws;
pub mod model;
pub mod window;
