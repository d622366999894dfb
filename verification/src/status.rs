//! The states that a process goes through, and how they are reported.

use vstd::prelude::*;

use async_process::ExitStatus;

use crate::error::Error;
use crate::pid::Pid;

verus! {

/// How a process ended, carried as it is.
#[verifier::external_type_specification]
#[verifier::external_body]
pub struct ExExitStatus(ExitStatus);

/// The state of a registered command.
#[derive(Debug)]
pub enum EntryState {
    /// It has not been started yet.
    Stopped,
    /// It runs as the operating system's process of this number.
    Running(u32),
    /// It could not be started, or waiting for it failed.
    Error(Error),
    /// It ended.
    Status(ExitStatus),
}

impl EntryState {
    /// Whether no process runs in this state.
    pub open spec fn spec_is_stopped(self) -> bool {
        !(self is Running)
    }

    /// Whether no process runs in this state.
    pub fn is_stopped(&self) -> (res: bool)
        ensures
            res == self.spec_is_stopped(),
    {
        match self {
            EntryState::Stopped | EntryState::Status(_) | EntryState::Error(_) => true,
            _ => false,
        }
    }
}

/// The state of a process as it is reported.
#[derive(Debug, Clone, Copy, PartialEq, Eq)]
pub enum Status {
    /// It runs as the operating system's process of this number.
    Running(u32),
    /// It is registered and has not been started yet.
    Crated,
    /// It ended.
    Exited(ExitStatus),
    /// It could not be started, or waiting for it failed.
    Error,
}

impl Status {
    /// How a state is reported.
    pub open spec fn of(state: EntryState) -> Status {
        match state {
            EntryState::Error(_) => Status::Error,
            EntryState::Running(id) => Status::Running(id),
            EntryState::Status(status) => Status::Exited(status),
            EntryState::Stopped => Status::Crated,
        }
    }
}

impl From<EntryState> for Status {
    fn from(state: EntryState) -> (res: Status) {
        match state {
            EntryState::Error(_) => Status::Error,
            EntryState::Running(id) => Status::Running(id),
            EntryState::Status(status) => Status::Exited(status),
            EntryState::Stopped => Status::Crated,
        }
    }
}

impl vstd::std_specs::convert::FromSpecImpl<EntryState> for Status {
    open spec fn obeys_from_spec() -> bool {
        true
    }

    open spec fn from_spec(state: EntryState) -> Status {
        Status::of(state)
    }
}

impl<'a> From<&'a EntryState> for Status {
    fn from(state: &'a EntryState) -> (res: Status) {
        match state {
            EntryState::Error(_) => Status::Error,
            EntryState::Running(id) => Status::Running(*id),
            EntryState::Status(status) => Status::Exited(*status),
            EntryState::Stopped => Status::Crated,
        }
    }
}

impl<'a> vstd::std_specs::convert::FromSpecImpl<&'a EntryState> for Status {
    open spec fn obeys_from_spec() -> bool {
        true
    }

    open spec fn from_spec(state: &'a EntryState) -> Status {
        Status::of(*state)
    }
}

/// What is reported of one process.
#[derive(Debug, Clone, Copy, PartialEq, Eq)]
pub struct ProcessStatus {
    /// The process.
    pub pid: Pid,
    /// Its state.
    pub status: Status,
}

impl ProcessStatus {
    /// Whether the process does not run.
    pub open spec fn spec_is_stopped(self) -> bool {
        !(self.status is Running)
    }

    /// Whether the process does not run.
    pub fn is_stopped(&self) -> (res: bool)
        ensures
            res == self.spec_is_stopped(),
    {
        match &self.status {
            Status::Crated | Status::Exited(_) | Status::Error => true,
            _ => false,
        }
    }
}

} // verus!
