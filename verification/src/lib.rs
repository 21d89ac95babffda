//! The deciding core of a supervisor that starts one backend service process
//! next to a desktop shell.
//!
//! The host around this library does the outside work: it asks the operating
//! system where the shell's executable is, creates the child process, sleeps
//! and prints. Everything that is decided on the way is decided here: where
//! the backend's working directory is, which command is launched with which
//! arguments, what is reported to the operator, and whether the shell may go
//! on.

pub mod launch;
pub mod paths;
pub mod supervisor;
