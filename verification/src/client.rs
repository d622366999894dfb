//! The manager's users: what they ask for, and what they make of the answers.

use std::io::Error as IoError;
use std::sync::Arc;

use vstd::prelude::*;

use async_process::ExitStatus;
use signal_child::signal::Signal;

use crate::command::Command;
use crate::error::{Error, ErrorKind};
use crate::manager::{Manager, Request};
use crate::pid::Pid;
use crate::signal::{kill_signal, signal_of, SIGKILL};
use crate::status::{EntryState, ProcessStatus};
use crate::table::Entry;

verus! {

/// Where a user stands who waits for all processes to end.
#[derive(Debug)]
pub enum WaitTurn {
    /// The wait begins.
    Begin,
    /// A report has come.
    Listed(Vec<ProcessStatus>),
    /// An announcement has come, or none will come any more.
    Announced(Option<ProcessStatus>),
}

/// What a user who waits does next.
#[derive(Debug, Clone, Copy, PartialEq, Eq, Structural)]
pub enum WaitStep {
    /// Ask for a report.
    List,
    /// Wait for the next announcement.
    NextEvent,
    /// Wait no longer.
    Return,
}

/// Whether none of the reported processes runs.
pub open spec fn none_runs(listed: Seq<ProcessStatus>) -> bool {
    forall|i: int| 0 <= i < listed.len() ==> (#[trigger] listed[i]).spec_is_stopped()
}

/// What a user who waits does next: as long as a process runs, every announcement has it ask
/// for a report again.
pub open spec fn wait_step(turn: WaitTurn) -> WaitStep {
    match turn {
        WaitTurn::Begin => WaitStep::List,
        WaitTurn::Listed(listed) => if none_runs(listed@) {
            WaitStep::Return
        } else {
            WaitStep::NextEvent
        },
        WaitTurn::Announced(Some(_)) => WaitStep::List,
        WaitTurn::Announced(None) => WaitStep::Return,
    }
}

/// The request to end the process at once.
pub open spec fn stop_request(pid: Pid) -> Request {
    Request::Signal(pid, signal_of(SIGKILL))
}

/// The requests to end all reported processes at once, in the order of the report.
pub open spec fn stop_requests(listed: Seq<ProcessStatus>) -> Seq<Request> {
    listed.map_values(|status: ProcessStatus| stop_request(status.pid))
}

/// What is made of the answer to a signal: no answer is as good as a signal that arrived.
pub open spec fn signal_outcome(pid: Pid, reply: Option<Result<(), IoError>>) -> Result<(), Error> {
    match reply {
        Some(Err(error)) => Err(
            Error::spec_new(Some(pid), ErrorKind::Io(Arc::new(error))),
        ),
        _ => Ok(()),
    }
}

/// The first report about `pid`.
pub open spec fn stat_of(listed: Seq<ProcessStatus>, pid: Pid) -> Option<ProcessStatus>
    decreases listed.len(),
{
    if listed.len() == 0 {
        None
    } else if listed[0].pid == pid {
        Some(listed[0])
    } else {
        stat_of(listed.drop_first(), pid)
    }
}

impl Manager {
    /// The request to register a command.
    pub fn create(command: Command) -> (res: Request)
        ensures
            res == Request::Create(Entry { command, state: EntryState::Stopped }),
    {
        Request::Create(Entry { command, state: EntryState::Stopped })
    }

    /// The request to start a command.
    pub fn start(pid: &Pid) -> (res: Request)
        ensures
            res == Request::Start(*pid),
    {
        Request::Start(*pid)
    }

    /// The request to end a process at once.
    pub fn stop(pid: &Pid) -> (res: Request)
        ensures
            res == stop_request(*pid),
    {
        Manager::signal(pid, kill_signal())
    }

    /// The requests to end all reported processes at once.
    pub fn stop_all(listed: &Vec<ProcessStatus>) -> (res: Vec<Request>)
        ensures
            res@ == stop_requests(listed@),
    {
        let mut res: Vec<Request> = Vec::new();
        let mut i: usize = 0;
        while i < listed.len()
            invariant
                i <= listed.len(),
                res@ == stop_requests(listed@).take(i as int),
            decreases listed.len() - i,
        {
            res.push(Manager::stop(&listed[i].pid));
            i = i + 1;
            assert(res@ =~= stop_requests(listed@).take(i as int));
        }
        assert(res@ =~= stop_requests(listed@));
        res
    }

    /// The request to forget a command.
    pub fn remove(pid: &Pid) -> (res: Request)
        ensures
            res == Request::Remove(*pid),
    {
        Request::Remove(*pid)
    }

    /// The request to send a signal to a process.
    pub fn signal(pid: &Pid, signal: Signal) -> (res: Request)
        ensures
            res == Request::Signal(*pid, signal),
    {
        Request::Signal(*pid, signal)
    }

    /// What came of a signal, given the answer where there was one.
    pub fn signal_reply(pid: &Pid, reply: Option<Result<(), IoError>>) -> (res: Result<(), Error>)
        ensures
            res == signal_outcome(*pid, reply),
    {
        match reply {
            Some(Ok(())) => Ok(()),
            Some(Err(error)) => Err(Error::new(Some(*pid), ErrorKind::from(error))),
            None => Ok(()),
        }
    }

    /// The report, given the answer where there was one.
    pub fn list_reply(reply: Option<Vec<ProcessStatus>>) -> (res: Vec<ProcessStatus>)
        ensures
            reply is Some ==> res == reply->0,
            reply is None ==> res@ == Seq::<ProcessStatus>::empty(),
    {
        match reply {
            Some(listed) => listed,
            None => Vec::new(),
        }
    }

    /// What a report says of one process.
    pub fn stat(listed: &Vec<ProcessStatus>, pid: &Pid) -> (res: Option<ProcessStatus>)
        ensures
            res == stat_of(listed@, *pid),
    {
        let mut i: usize = 0;
        assert(listed@.skip(0) =~= listed@);
        while i < listed.len()
            invariant
                i <= listed.len(),
                stat_of(listed@, *pid) == stat_of(listed@.skip(i as int), *pid),
            decreases listed.len() - i,
        {
            if listed[i].pid == *pid {
                return Some(listed[i]);
            }
            assert(listed@.skip(i as int).drop_first() =~= listed@.skip(i + 1));
            i = i + 1;
        }
        None
    }

    /// Picks out the announcements about one process.
    pub fn watch_pid(pid: Pid, event: ProcessStatus) -> (res: Option<ProcessStatus>)
        ensures
            res == (if event.pid == pid {
                Some(event)
            } else {
                None
            }),
    {
        if event.pid == pid {
            Some(event)
        } else {
            None
        }
    }

    /// What a user does next who waits for all processes to end.
    pub fn wait(turn: WaitTurn) -> (res: WaitStep)
        ensures
            res == wait_step(turn),
    {
        match turn {
            WaitTurn::Begin => WaitStep::List,
            WaitTurn::Listed(listed) => if all_stopped(&listed) {
                WaitStep::Return
            } else {
                WaitStep::NextEvent
            },
            WaitTurn::Announced(event) => if event.is_some() {
                WaitStep::List
            } else {
                WaitStep::Return
            },
        }
    }
}

/// Whether none of the reported processes runs.
fn all_stopped(listed: &Vec<ProcessStatus>) -> (res: bool)
    ensures
        res == none_runs(listed@),
{
    let mut i: usize = 0;
    while i < listed.len()
        invariant
            i <= listed.len(),
            forall|k: int| 0 <= k < i ==> (#[trigger] listed[k]).spec_is_stopped(),
        decreases listed.len() - i,
    {
        if !listed[i].is_stopped() {
            assert(!listed@[i as int].spec_is_stopped());
            return false;
        }
        i = i + 1;
    }
    true
}

/// What the manager is told of a process that was waited for.
pub fn spawn_child(status: Result<ExitStatus, IoError>, pid: Pid) -> (res: Request)
    ensures
        res == (match status {
            Ok(status) => Request::Exited(pid, status),
            Err(error) => Request::Error(pid, error),
        }),
{
    match status {
        Ok(status) => Request::Exited(pid, status),
        Err(error) => Request::Error(pid, error),
    }
}

} // verus!
