//! What users of a manager ask for, and what they make of the answers.

use std::io::Error as IoError;
use std::sync::Arc;

use vstd::prelude::*;

use async_process::ExitStatus;
use signal_child::signal::Signal;

use crate::client::{signal_outcome, spawn_child, stat_of, stop_request, stop_requests};
use crate::command::Command;
use crate::error::{error_parts, Error, ErrorKind};
use crate::manager::{Action, Manager, Request, State};
use crate::pid::Pid;
use crate::signal::{signal_of, SIGKILL};
use crate::status::{EntryState, ProcessStatus, Status};

verus! {

/// Whoever has a command created finds it registered under the handle that comes back, as it was
/// handed over and not started, and can have it started.
pub proof fn law_created(
    command: Command,
    request: Request,
    state: State,
    next: State,
    action: Action,
)
    requires
        call_ensures(Manager::create, (command,), request),
        state.open,
        state.spawning is None,
        state.step(request, next, action),
    ensures
        state.takes(request),
        action is Created,
        next.entries.contains_key(action->Created_0.pid),
        next.entries[action->Created_0.pid].command == command,
        next.entries[action->Created_0.pid].state is Stopped,
        action->Created_0.status == Status::Crated,
        next.takes(Request::Start(action->Created_0.pid)),
{
}

/// Whoever has a command started names that command, and it is spawned if and only if it does not
/// run.
pub proof fn law_started(
    pid: &Pid,
    request: Request,
    state: State,
    next: State,
    action: Action,
)
    requires
        call_ensures(Manager::start, (pid,), request),
        state.entries.contains_key(*pid),
        state.step(request, next, action),
    ensures
        action is Spawn <==> !(state.entries[*pid].state is Running),
        action is Spawn ==> action->Spawn_0 == *pid && action->Spawn_1@
            == state.entries[*pid].command@,
{
}

/// Whoever has a process stopped has it sent the signal that ends it at once, to the number that
/// it runs as; where it does not run, nothing is sent.
pub proof fn law_stopped(
    pid: &Pid,
    request: Request,
    state: State,
    next: State,
    action: Action,
)
    requires
        call_ensures(Manager::stop, (pid,), request),
        state.open,
        state.spawning is None,
        state.entries.contains_key(*pid),
        state.step(request, next, action),
    ensures
        state.takes(request),
        next == state,
        state.entries[*pid].state matches EntryState::Running(id) ==> {
            &&& action is Deliver
            &&& action->Deliver_0.signal == signal_of(SIGKILL)
            &&& action->Deliver_0.target as u32 == id
            &&& id <= i32::MAX ==> action->Deliver_0.target == id
        },
        !(state.entries[*pid].state is Running) ==> action is Nothing,
{
    if state.entries[*pid].state is Running {
        let id = state.entries[*pid].state->Running_0;
        assert(id as i32 as u32 == id) by (bit_vector);
    }
}

/// To stop all reported processes is to ask for each of them, in the order of the report, that it
/// is sent the signal that ends it at once.
pub proof fn law_all_stopped(
    listed: &Vec<ProcessStatus>,
    requests: Vec<Request>,
    i: int,
)
    requires
        call_ensures(Manager::stop_all, (listed,), requests),
    ensures
        requests@.len() == listed@.len(),
        0 <= i < listed@.len() ==> requests@[i] == Request::Signal(
            listed@[i].pid,
            signal_of(SIGKILL),
        ),
{
}

/// Whoever has a command removed names that command: it is the only one that is no longer
/// registered.
pub proof fn law_removed(
    pid: &Pid,
    request: Request,
    state: State,
    next: State,
    action: Action,
    other: Pid,
)
    requires
        call_ensures(Manager::remove, (pid,), request),
        state.step(request, next, action),
    ensures
        next.entries.contains_key(other) <==> state.entries.contains_key(other) && other != *pid,
{
}

/// Whoever sends a signal to a process that runs has this signal sent to the number that the
/// process runs as.
pub proof fn law_signalled(
    pid: &Pid,
    signal: Signal,
    request: Request,
    state: State,
    next: State,
    action: Action,
    id: u32,
)
    requires
        call_ensures(Manager::signal, (pid, signal), request),
        state.entries[*pid].state == EntryState::Running(id),
        state.step(request, next, action),
    ensures
        action is Deliver,
        action->Deliver_0.signal == signal,
        action->Deliver_0.target as u32 == id,
{
    assert(id as i32 as u32 == id) by (bit_vector);
}

/// A signal has failed exactly where the operating system answered with an error; the error then
/// is about the process and holds what the operating system reported. No answer is no failure.
pub proof fn law_signal_reply(
    pid: &Pid,
    reply: Option<Result<(), IoError>>,
    res: Result<(), Error>,
)
    requires
        call_ensures(Manager::signal_reply, (pid, reply), res),
    ensures
        res is Err <==> reply is Some && reply->0 is Err,
        res is Err ==> res->Err_0.spec_pid() == Some(*pid) && *res->Err_0.spec_kind()->Io_0
            == reply->0->Err_0,
{
    if reply is Some && reply->0 is Err {
        error_parts(Some(*pid), ErrorKind::Io(Arc::new(reply->0->Err_0)));
    }
}

/// A report that came is handed on as it is; where none came, no process is reported.
pub proof fn law_list_reply(reply: Option<Vec<ProcessStatus>>, res: Vec<ProcessStatus>)
    requires
        call_ensures(Manager::list_reply, (reply,), res),
    ensures
        reply is Some ==> res@ == reply->0@,
        reply is None ==> res@.len() == 0,
{
}

/// What is looked up in a list is the first that the list says of the process, and nothing where
/// the list does not name it.
proof fn stat_of_first(listed: Seq<ProcessStatus>, pid: Pid)
    ensures
        stat_of(listed, pid) matches Some(status) ==> status.pid == pid && exists|i: int|
            0 <= i < listed.len() && #[trigger] listed[i] == status && forall|k: int|
                0 <= k < i ==> (#[trigger] listed[k]).pid != pid,
        stat_of(listed, pid) is None ==> forall|k: int|
            0 <= k < listed.len() ==> (#[trigger] listed[k]).pid != pid,
    decreases listed.len(),
{
    if listed.len() > 0 && listed[0].pid != pid {
        let rest = listed.drop_first();
        stat_of_first(rest, pid);
        assert(forall|k: int| 0 < k < listed.len() ==> #[trigger] listed[k] == rest[k - 1]);
        if stat_of(rest, pid) is Some {
            let i = choose|i: int|
                0 <= i < rest.len() && #[trigger] rest[i] == stat_of(rest, pid)->0 && forall|k: int|
                    0 <= k < i ==> (#[trigger] rest[k]).pid != pid;
            assert(listed[i + 1] == stat_of(rest, pid)->0);
        }
    }
}

/// Whoever asks for the state of one process is told the first that the report says of it, and
/// nothing where the report does not name it.
pub proof fn law_stat_first(
    listed: &Vec<ProcessStatus>,
    pid: &Pid,
    res: Option<ProcessStatus>,
)
    requires
        call_ensures(Manager::stat, (listed, pid), res),
    ensures
        res matches Some(status) ==> status.pid == *pid && exists|i: int|
            0 <= i < listed@.len() && #[trigger] listed@[i] == status && forall|k: int|
                0 <= k < i ==> (#[trigger] listed@[k]).pid != *pid,
        res is None <==> forall|k: int|
            0 <= k < listed@.len() ==> (#[trigger] listed@[k]).pid != *pid,
{
    stat_of_first(listed@, *pid);
}

/// Whoever watches one process is told every announcement about it as it was made, and none about
/// another.
pub proof fn law_watched(pid: Pid, event: ProcessStatus, res: Option<ProcessStatus>)
    requires
        call_ensures(Manager::watch_pid, (pid, event), res),
    ensures
        res is Some <==> event.pid == pid,
        res is Some ==> res->0 == event,
{
}

/// Once a process was waited for, it is reported with how it ended, or, where waiting failed, as
/// an error.
pub proof fn law_waited_for(
    end: Result<ExitStatus, IoError>,
    pid: Pid,
    request: Request,
    state: State,
    next: State,
    action: Action,
)
    requires
        call_ensures(spawn_child, (end, pid), request),
        state.step(request, next, action),
    ensures
        action is Announce,
        action->Announce_0.pid == pid,
        end matches Ok(status) ==> next.entries[pid].state == EntryState::Status(status)
            && action->Announce_0.status == Status::Exited(status),
        end matches Err(error) ==> {
            &&& next.entries[pid].state is Error
            &&& next.entries[pid].state->Error_0.spec_pid() == Some(pid)
            &&& *next.entries[pid].state->Error_0.spec_kind()->Io_0 == error
            &&& action->Announce_0.status == Status::Error
        },
{
    if end is Err {
        error_parts(Some(pid), ErrorKind::Io(Arc::new(end->Err_0)));
    }
}

/// The requests to end processes at once name the process and the signal of that number; there is
/// one for each reported process.
pub proof fn law_stop_requests(listed: Seq<ProcessStatus>, pid: Pid, i: int)
    ensures
        stop_request(pid) == Request::Signal(pid, signal_of(SIGKILL)),
        stop_requests(listed).len() == listed.len(),
        0 <= i < listed.len() ==> stop_requests(listed)[i] is Signal
            && stop_requests(listed)[i]->Signal_0 == listed[i].pid
            && stop_requests(listed)[i]->Signal_1 == signal_of(SIGKILL),
        signal_outcome(pid, None) is Ok,
        signal_outcome(pid, Some(Ok(()))) is Ok,
{
}

} // verus!
