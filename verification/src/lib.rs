//! The state of a shell and the decisions that it takes: how variables are set, read and expanded,
//! how a pipeline is run, how commands, scripts and functions are executed for a program, and how
//! the shell is forked.
//!
//! What touches the world (reading files, forking, printing, taking the time) is done by the
//! caller. Where the shell needs it, a method is a dialogue: it answers an event with the action to
//! perform, and the outcome of the action is the next event.

pub mod collections;
pub mod dialogue_laws;
pub mod error;
pub mod execute;
pub mod expansion_laws;
pub mod fork_laws;
pub mod process;
pub mod run;
pub mod run_laws;
pub mod shell;
pub mod text;
pub mod variables;

pub use collections::Array;
pub use error::{FunctionError, IonError};
pub use process::IonResult;
pub use shell::Shell;
pub use variables::Variables;
