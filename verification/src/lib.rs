//! Planner and command-sequencing driver for a terminal-multiplexer session
//! whose panes each hold one remote-shell connection.
//!
//! The library plans the pane grid for a list of target hosts, derives the
//! session name, and sequences the external multiplexer commands that build
//! the grid and connect every host, translating each failure into a typed
//! error. The external program itself is reached only through the [`Runner`]
//! abstraction, so the whole command sequence is stated in contracts and
//! checked against a scripted runner in tests.

mod cmd;
mod digits;
mod driver;
mod layout;
mod naming;
mod runner;

pub use cmd::CallRecord;
pub use driver::Tmux;
pub use driver::TmuxExecutionErrors;
pub use layout::ScitsifreineErrors;
pub use layout::Splits;
pub use runner::Runner;
pub use runner::ScriptedRunner;
