//! Synchronous launching of an external program from a fully assembled
//! command-line string, waiting for it to finish, and classifying how it
//! finished.
//!
//! The operating-system calls themselves (process creation, waiting,
//! status retrieval, handle release) are performed by a thin platform
//! driver outside this crate.  Everything the driver decides — which call
//! to make next, how to account for the two process handles so each is
//! released exactly once, how to turn a raw exit status into an outcome,
//! and how to package a failing call into a structured error — lives here
//! and is verified.

pub mod cmdline;
pub mod error;
pub mod handles;
pub mod outcome;
pub mod session;

pub use error::Operation;
pub use error::OperationError;
pub use outcome::Termination;
