//! Batch upload of a two-level photo library: every second-level directory
//! becomes one upload job for the `immich` command-line client.
//!
//! The crate holds the rules of the tool: how a directory listing turns into
//! jobs, how a job turns into a command line, how the outcome of a finished
//! command is classified, and when a batch goes on or stops. Reading
//! directories and running processes is left to the caller, who hands in what
//! was read and what a process reported.

pub mod arguments;
pub mod execute;
pub mod scan;
mod signal;
pub mod text;
pub mod traverse;

pub use arguments::parse_arguments;
pub use arguments::ArgumentError;
pub use arguments::Arguments;
