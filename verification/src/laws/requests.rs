//! Which requests a manager takes, and what each of them does.

use std::io::Error as IoError;
use std::sync::Arc;

use vstd::prelude::*;

use async_process::ExitStatus;
use signal_child::signal::Signal;

use crate::error::{error_parts, ErrorKind};
use crate::laws::law_report_unique;
use crate::manager::{pids_of, reported, reports, Action, Manager, Request, State};
use crate::pid::Pid;
use crate::signal::{signal_of, SIGKILL};
use crate::status::{EntryState, ProcessStatus, Status};
use crate::table::{Entries, Entry};

verus! {

/// A new manager has no commands, has removed none, and takes what it is asked.
pub proof fn law_begin(manager: Manager, pid: Pid, entry: Entry)
    requires
        call_ensures(Manager::new, (), manager),
    ensures
        manager@ == State::initial(),
        !State::initial().entries.contains_key(pid),
        State::initial().generation == 0,
        State::initial().spawning is None,
        State::initial().open,
        State::initial().takes(Request::Create(entry)),
{
}

/// While no command is being spawned, an open manager takes every request about a registered
/// command, whatever the state of the command, as long as one more removal can be counted. It
/// always takes new commands, and the requests to report and to end.
pub proof fn law_taken(
    state: State,
    pid: Pid,
    entry: Entry,
    signal: Signal,
    status: ExitStatus,
    error: IoError,
)
    requires
        state.open,
        state.spawning is None,
    ensures
        state.takes(Request::Create(entry)),
        state.takes(Request::Status),
        state.takes(Request::Destroy),
        state.entries.contains_key(pid) ==> {
            &&& state.takes(Request::Start(pid))
            &&& state.takes(Request::Signal(pid, signal))
            &&& state.takes(Request::Exited(pid, status))
            &&& state.takes(Request::Error(pid, error))
            &&& state.generation < u64::MAX ==> state.takes(Request::Remove(pid))
        },
{
}

/// While a command is being spawned, an open manager takes the outcome of it, whatever it is.
pub proof fn law_outcome_taken(state: State, pid: Pid, outcome: Result<u32, IoError>)
    requires
        state.open,
        state.spawning == Some(pid),
    ensures
        state.takes(Request::Spawned(pid, outcome)),
{
}

/// Nothing is taken by a manager that has ended, nothing but the outcome while a command is being
/// spawned, no outcome of what is not being spawned, and nothing about a command that is not
/// registered.
pub proof fn law_not_taken(state: State, request: Request)
    requires
        state.valid(),
        state.takes(request),
    ensures
        state.open,
        match request {
            Request::Spawned(pid, _) => state.spawning == Some(pid),
            _ => state.spawning is None,
        },
        match request {
            Request::Start(pid)
            | Request::Spawned(pid, _)
            | Request::Signal(pid, _)
            | Request::Exited(pid, _)
            | Request::Error(pid, _) => state.entries.contains_key(pid),
            Request::Remove(pid) => state.entries.contains_key(pid) && state.generation < u64::MAX,
            Request::Create(_) | Request::Status | Request::Destroy => true,
        },
{
}

/// A manager says of a request that it accepts it exactly where it can take it: in particular of
/// every request about a registered command while it is open and spawns none.
pub proof fn law_accepts(manager: &Manager, request: &Request, res: bool)
    requires
        manager.wf(),
        call_ensures(Manager::accepts, (manager, request), res),
    ensures
        res == manager@.takes(*request),
        manager@.open && manager@.spawning is None ==> match *request {
            Request::Start(pid)
            | Request::Signal(pid, _)
            | Request::Exited(pid, _)
            | Request::Error(pid, _) => res == manager@.entries.contains_key(pid),
            Request::Remove(pid) => res == (manager@.entries.contains_key(pid)
                && manager@.generation < u64::MAX),
            Request::Spawned(_, _) => !res,
            Request::Create(_) | Request::Status | Request::Destroy => res,
        },
        manager@.spawning matches Some(pid) ==> (res ==> request is Spawned
            && request->Spawned_0 == pid),
        manager@.open && manager@.spawning is Some && request is Spawned ==> res == (Some(
            request->Spawned_0,
        ) == manager@.spawning),
        !manager@.open ==> !res,
{
}

/// What a manager does with a request is a step from the state that it was in to the one that it
/// is in then.
pub proof fn law_manager_steps(manager: &mut Manager, request: Request, res: Action)
    requires
        call_ensures(Manager::step, (manager, request), res),
    ensures
        old(manager)@.step(request, final(manager)@, res),
        final(manager).wf(),
{
}

/// Each request has its own kind of answer: only a start has anything spawned, only a request to
/// signal or to remove has a signal sent, only a request to report is answered with a report, and
/// only the request to end is the end.
pub proof fn law_answers(state: State, request: Request, next: State, action: Action)
    requires
        state.step(request, next, action),
    ensures
        action is Created <==> request is Create,
        action is Spawn ==> request is Start,
        action is Deliver ==> request is Signal,
        action is Kill ==> request is Remove,
        action is Report <==> request is Status,
        action is Close <==> request is Destroy,
        action is Announce ==> request is Spawned || request is Remove || request is Exited
            || request is Error,
        action is Nothing ==> request is Start || request is Signal,
        state.open && !next.open <==> state.open && request is Destroy,
        next.generation != state.generation <==> request is Remove,
{
}

/// A new command is registered under a handle that no command has, in the first free slot or,
/// where none is free, behind all others; it is registered as it was handed over, nothing else
/// changes, and the handle comes back with the state of the command.
pub proof fn law_create(state: State, entry: Entry, next: State, action: Action, other: Pid)
    requires
        state.step(Request::Create(entry), next, action),
    ensures
        action is Created,
        !state.entries.contains_key(action->Created_0.pid),
        next.entries.contains_key(action->Created_0.pid),
        next.entries[action->Created_0.pid] == entry,
        entry.state is Stopped ==> action->Created_0.status == Status::Crated,
        entry.state is Error ==> action->Created_0.status == Status::Error,
        entry.state matches EntryState::Running(id) ==> action->Created_0.status
            == Status::Running(id),
        entry.state matches EntryState::Status(status) ==> action->Created_0.status
            == Status::Exited(status),
        action->Created_0.pid.generation() == state.generation,
        state.free.len() > 0 ==> action->Created_0.pid.slot() == state.free[0] && next.free
            == state.free.drop_first(),
        state.free.len() == 0 ==> action->Created_0.pid.slot() == state.entries.len(),
        other != action->Created_0.pid ==> (next.entries.contains_key(other)
            <==> state.entries.contains_key(other)),
        other != action->Created_0.pid && state.entries.contains_key(other) ==> next.entries[other]
            == state.entries[other] && other.slot() != action->Created_0.pid.slot(),
        next.generation == state.generation,
        next.spawning == state.spawning,
        next.open == state.open,
{
}

/// Whatever keeps a command from running, a start has it spawned as it was registered, and from
/// then on only the outcome is taken; a command that runs is left alone.
pub proof fn law_start(
    state: State,
    pid: Pid,
    next: State,
    action: Action,
    outcome: Result<u32, IoError>,
    request: Request,
)
    requires
        state.open,
        state.step(Request::Start(pid), next, action),
    ensures
        state.entries[pid].state is Running ==> action is Nothing && next == state,
        !(state.entries[pid].state is Running) ==> {
            &&& action is Spawn
            &&& action->Spawn_0 == pid
            &&& action->Spawn_1@ == state.entries[pid].command@
            &&& next.spawning == Some(pid)
            &&& next.takes(Request::Spawned(pid, outcome))
            &&& next.takes(request) ==> request is Spawned && request->Spawned_0 == pid
        },
        next.entries == state.entries,
        next.generation == state.generation,
        next.free == state.free,
        next.open,
{
}

/// The outcome of spawning a command is kept and announced: the number of its process, or the
/// error, which then is about this command and holds what the operating system reported. The
/// manager takes other requests again.
pub proof fn law_outcome(
    state: State,
    pid: Pid,
    outcome: Result<u32, IoError>,
    next: State,
    action: Action,
    other: Pid,
)
    requires
        state.valid(),
        state.takes(Request::Spawned(pid, outcome)),
        state.step(Request::Spawned(pid, outcome), next, action),
    ensures
        next.entries.contains_key(pid),
        next.entries[pid].command == state.entries[pid].command,
        action is Announce,
        action->Announce_0.pid == pid,
        outcome matches Ok(id) ==> next.entries[pid].state == EntryState::Running(id)
            && action->Announce_0.status == Status::Running(id),
        outcome matches Err(error) ==> {
            &&& next.entries[pid].state is Error
            &&& next.entries[pid].state->Error_0.spec_pid() == Some(pid)
            &&& *next.entries[pid].state->Error_0.spec_kind()->Io_0 == error
            &&& action->Announce_0.status == Status::Error
        },
        next.entries.contains_key(other) <==> state.entries.contains_key(other),
        other != pid && state.entries.contains_key(other) ==> next.entries[other]
            == state.entries[other],
        next.spawning is None,
        next.generation == state.generation,
        next.free == state.free,
        next.open,
{
    if outcome is Err {
        error_parts(Some(pid), ErrorKind::Io(Arc::new(outcome->Err_0)));
    }
}

/// How a process ended is kept and announced; where waiting for it failed, the error is, which
/// then is about this command and holds what the operating system reported.
pub proof fn law_end(
    state: State,
    pid: Pid,
    end: Result<ExitStatus, IoError>,
    request: Request,
    next: State,
    action: Action,
    other: Pid,
)
    requires
        end matches Ok(status) ==> request == Request::Exited(pid, status),
        end matches Err(error) ==> request == Request::Error(pid, error),
        state.takes(request),
        state.step(request, next, action),
    ensures
        next.entries.contains_key(pid),
        next.entries[pid].command == state.entries[pid].command,
        action is Announce,
        action->Announce_0.pid == pid,
        end matches Ok(status) ==> next.entries[pid].state == EntryState::Status(status)
            && action->Announce_0.status == Status::Exited(status),
        end matches Err(error) ==> {
            &&& next.entries[pid].state is Error
            &&& next.entries[pid].state->Error_0.spec_pid() == Some(pid)
            &&& *next.entries[pid].state->Error_0.spec_kind()->Io_0 == error
            &&& action->Announce_0.status == Status::Error
        },
        next.entries.contains_key(other) <==> state.entries.contains_key(other),
        other != pid && state.entries.contains_key(other) ==> next.entries[other]
            == state.entries[other],
        next.spawning is None,
        next.generation == state.generation,
        next.free == state.free,
        next.open,
{
    if end is Err {
        error_parts(Some(pid), ErrorKind::Io(Arc::new(end->Err_0)));
    }
}

/// A signal for a command that runs is sent as it was asked for, to the process that the command
/// runs as; for one that does not run, nothing is sent. Nothing changes.
pub proof fn law_signal(state: State, pid: Pid, signal: Signal, next: State, action: Action)
    requires
        state.step(Request::Signal(pid, signal), next, action),
    ensures
        next == state,
        state.entries[pid].state matches EntryState::Running(id) ==> {
            &&& action is Deliver
            &&& action->Deliver_0.signal == signal
            &&& action->Deliver_0.target as u32 == id
            &&& id <= i32::MAX ==> action->Deliver_0.target == id
        },
        !(state.entries[pid].state is Running) ==> action is Nothing,
{
    if state.entries[pid].state is Running {
        let id = state.entries[pid].state->Running_0;
        assert(id as i32 as u32 == id) by (bit_vector);
    }
}

/// A command that is removed is no longer registered, and no other is touched; where it runs, its
/// process is sent the signal that ends it at once. Its last state is announced, one more removal
/// is counted, and its slot is the next to be taken.
pub proof fn law_remove(state: State, pid: Pid, next: State, action: Action, other: Pid)
    requires
        state.takes(Request::Remove(pid)),
        state.step(Request::Remove(pid), next, action),
    ensures
        !next.entries.contains_key(pid),
        other != pid ==> (next.entries.contains_key(other) <==> state.entries.contains_key(other)),
        other != pid && state.entries.contains_key(other) ==> next.entries[other]
            == state.entries[other],
        state.entries[pid].state matches EntryState::Running(id) ==> {
            &&& action is Kill
            &&& action->Kill_0.signal == signal_of(SIGKILL)
            &&& action->Kill_0.target as u32 == id
            &&& id <= i32::MAX ==> action->Kill_0.target == id
            &&& action->Kill_1 == (ProcessStatus { pid, status: Status::Running(id) })
        },
        !(state.entries[pid].state is Running) ==> {
            &&& action is Announce
            &&& action->Announce_0.pid == pid
        },
        state.entries[pid].state matches EntryState::Status(status) ==> action->Announce_0.status
            == Status::Exited(status),
        state.entries[pid].state is Stopped ==> action->Announce_0.status == Status::Crated,
        state.entries[pid].state is Error ==> action->Announce_0.status == Status::Error,
        next.generation == state.generation + 1,
        next.free.len() == state.free.len() + 1,
        next.free[0] == pid.slot(),
        next.free.drop_first() == state.free,
        next.spawning is None,
        next.open,
{
    assert(next.free.drop_first() =~= state.free);
    if state.entries[pid].state is Running {
        let id = state.entries[pid].state->Running_0;
        assert(id as i32 as u32 == id) by (bit_vector);
    }
}

/// A report holds every registered command once, in ascending order of the slots, with its state,
/// and nothing else.
pub proof fn law_report(listed: Seq<ProcessStatus>, entries: Entries, pid: Pid, i: int, j: int)
    requires
        reports(listed, entries),
    ensures
        entries.contains_key(pid) <==> exists|k: int|
            0 <= k < listed.len() && (#[trigger] listed[k]).pid == pid,
        0 <= i < j < listed.len() ==> listed[i].pid.slot() < listed[j].pid.slot(),
        0 <= i < listed.len() ==> match entries[listed[i].pid].state {
            EntryState::Running(id) => listed[i].status == Status::Running(id),
            EntryState::Status(status) => listed[i].status == Status::Exited(status),
            EntryState::Error(_) => listed[i].status == Status::Error,
            EntryState::Stopped => listed[i].status == Status::Crated,
        },
{
    let pids = pids_of(listed);
    assert(forall|k: int| 0 <= k < listed.len() ==> #[trigger] pids[k] == listed[k].pid);
    if 0 <= i < j < listed.len() {
        assert(pids[i].slot() < pids[j].slot());
    }
    if 0 <= i < listed.len() {
        assert(reported(listed[i], entries));
    }
    if entries.contains_key(pid) {
        assert(pids.contains(pid));
        let k = choose|k: int| 0 <= k < pids.len() && pids[k] == pid;
        assert(listed[k].pid == pid);
    }
    if exists|k: int| 0 <= k < listed.len() && (#[trigger] listed[k]).pid == pid {
        let k = choose|k: int| 0 <= k < listed.len() && (#[trigger] listed[k]).pid == pid;
        assert(reported(listed[k], entries));
    }
}

/// The answer to the request to report is a report of the registered commands, and to ask for it
/// changes nothing. It is the same that the manager lists.
pub proof fn law_status_request(
    manager: &Manager,
    listed: Vec<ProcessStatus>,
    next: State,
    action: Action,
)
    requires
        call_ensures(Manager::list, (manager,), listed),
        manager@.step(Request::Status, next, action),
    ensures
        next == manager@,
        action is Report,
        reports(action->Report_0@, manager@.entries),
        action->Report_0@ == listed@,
{
    law_report_unique(action->Report_0@, listed@, manager@.entries);
}

/// The request to end closes the manager and changes nothing else.
pub proof fn law_destroy(state: State, next: State, action: Action)
    requires
        state.step(Request::Destroy, next, action),
    ensures
        action is Close,
        !next.open,
        next.entries == state.entries,
        next.generation == state.generation,
        next.free == state.free,
        next.spawning == state.spawning,
{
}

/// A command that is registered and then removed leaves the registered commands as they were.
pub proof fn law_created_and_removed(
    state: State,
    entry: Entry,
    created: State,
    first: Action,
    removed: State,
    second: Action,
)
    requires
        state.step(Request::Create(entry), created, first),
        created.step(Request::Remove(first->Created_0.pid), removed, second),
    ensures
        removed.entries == state.entries,
        state.free.len() > 0 ==> removed.free == state.free,
{
    assert(removed.entries =~= state.entries);
    if state.free.len() > 0 {
        assert(removed.free =~= state.free);
    }
}

/// A signal after a command was spawned goes to the very process that it was spawned as, and
/// after the process has ended it goes nowhere.
pub proof fn law_signal_follows_life(
    state: State,
    pid: Pid,
    id: u32,
    status: ExitStatus,
    signal: Signal,
    running: State,
    first: Action,
    ended: State,
    second: Action,
    next: State,
    action: Action,
)
    requires
        state.takes(Request::Spawned(pid, Ok(id))),
        state.step(Request::Spawned(pid, Ok(id)), running, first),
        running.step(Request::Exited(pid, status), ended, second),
    ensures
        running.step(Request::Signal(pid, signal), next, action) ==> action is Deliver
            && action->Deliver_0.signal == signal && action->Deliver_0.target as u32 == id,
        ended.step(Request::Signal(pid, signal), next, action) ==> action is Nothing,
        ended.step(Request::Start(pid), next, action) ==> action is Spawn,
{
    assert(id as i32 as u32 == id) by (bit_vector);
}

} // verus!
