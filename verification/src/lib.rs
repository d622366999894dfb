//! A manager of child processes: commands are registered, started, signalled, watched and
//! removed under a [`Pid`] that is never given out twice.

pub mod client;
pub mod command;
pub mod environment;
pub mod error;
pub mod factory;
pub mod laws;
pub mod manager;
pub mod output;
pub mod pid;
pub mod process;
pub mod signal;
pub mod status;
pub mod table;
pub mod text;

pub use signal_child::signal::Signal;

pub use self::client::{spawn_child, WaitStep, WaitTurn};
pub use self::command::Command;
pub use self::environment::Environment;
pub use self::error::{Error, ErrorKind};
pub use self::factory::{Factory, ProxyChild};
pub use self::manager::{Action, Manager, Request};
pub use self::output::{mark_line, NullWriter, Output, ProcessWriter, Reader};
pub use self::pid::Pid;
pub use self::process::{Stream, StreamTo};
pub use self::signal::{kill_signal, Delivery};
pub use self::status::{EntryState, ProcessStatus, Status};
pub use self::table::Entry;
