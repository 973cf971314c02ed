//! Decision logic of a command-line client that keeps an API credential in the
//! platform's secure store and sends one question to a text-completion service.
//!
//! The crate performs no input or output. A driver parses the command line into
//! [`invocation::Flags`], hands them to [`session::begin`] and then runs the loop
//! of [`session`]: it writes the messages of each step, carries out its request
//! and reports what came back. [`trace`] states what holds of every such run.

pub mod completion;
pub mod invocation;
pub mod message;
pub mod session;
pub mod text;
pub mod trace;
