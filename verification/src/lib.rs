//! The verified core of a small interactive command shell.
//!
//! A line is split into a [`command::Command`]; a [`shell::Shell`] session
//! decides what is to be done for it and keeps the current directory and the
//! prompt. The work on the operating system is left to the caller, who is
//! told what to do by a [`protocol::Request`] and answers with a
//! [`protocol::Reply`].

pub mod command;
pub mod error;
pub mod expect;
pub mod launcher;
pub mod laws;
pub mod path;
pub mod protocol;
pub mod session;
pub mod shell;
pub mod text;

pub use command::Command;
pub use error::{LaunchError, ShellError, StartupError};
pub use expect::{Fatal, LogExpect};
pub use launcher::LaunchPlan;
pub use protocol::{Reply, Request};
pub use session::{Aftermath, LineResult, Step};
pub use shell::Shell;
