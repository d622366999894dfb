//! What holds of managers and commands as a whole.

use std::io::Error as IoError;
use std::sync::Arc;

use vstd::prelude::*;

use crate::client::{none_runs, signal_outcome, stat_of, stop_request, stop_requests};
use crate::command::CommandView;
use crate::environment::{
    ascending, names_at, settings_map, settings_map_at, Settings, Variables,
};
use crate::error::{error_parts, ErrorKind};
use crate::manager::{failed, pids_of, reported, reports, spawned, Action, Request, State};
use crate::output::{line_marked, Output, Reading};
use crate::pid::{pid_determined, pid_of, Pid};
use crate::signal::{signal_of, Delivery, SIGKILL};
use crate::status::{EntryState, ProcessStatus, Status};
use crate::table::{slot_taken, slots_ascend, slots_left, Entries, Entry};
use crate::text::{text_before, text_before_irreflexive, text_before_transitive};

pub mod answers;
pub mod commands;
pub mod requests;
pub mod values;
pub mod waiting;

verus! {

/// A manager at work: it takes the requests one after the other, each from the state that the
/// one before has led to.
pub struct Run {
    /// The states: the first, and the one after each request.
    pub states: Seq<State>,
    /// The requests.
    pub requests: Seq<Request>,
    /// What each request has the manager do.
    pub actions: Seq<Action>,
}

impl Run {
    /// Whether the manager can have worked so.
    pub open spec fn possible(self) -> bool {
        &&& self.states.len() == self.requests.len() + 1
        &&& self.actions.len() == self.requests.len()
        &&& self.states[0].valid()
        &&& forall|i: int| 0 <= i < self.requests.len() ==> #[trigger] self.stepped(i)
    }

    /// Whether the request at `i` was taken as it should be.
    pub open spec fn stepped(self, i: int) -> bool {
        &&& self.states[i].takes(self.requests[i])
        &&& self.states[i].step(self.requests[i], self.states[i + 1], self.actions[i])
    }

    /// Whether a command is registered under `pid` after `i` requests.
    pub open spec fn registered(self, i: int, pid: Pid) -> bool {
        self.states[i].entries.contains_key(pid)
    }

    /// Whether the request at `i` registers a command under `pid`.
    pub open spec fn creates(self, i: int, pid: Pid) -> bool {
        &&& self.requests[i] is Create
        &&& self.actions[i] matches Action::Created(event) && event.pid == pid
    }

    /// Whether the request at `i` registers a command under `pid` that none of the requests
    /// behind it, up to `n`, removes.
    pub open spec fn created_and_kept(self, i: int, n: int, pid: Pid) -> bool {
        &&& 0 <= i < n
        &&& self.creates(i, pid)
        &&& forall|j: int| i < j < n ==> #[trigger] self.requests[j] != Request::Remove(pid)
    }

    /// Whether the command runs as the process `id` after `i` requests.
    pub open spec fn runs(self, i: int, pid: Pid, id: u32) -> bool {
        &&& self.registered(i, pid)
        &&& self.states[i].entries[pid].state == EntryState::Running(id)
    }

    /// What is reported of a command after `i` requests, where it is registered.
    pub open spec fn reported_at(self, i: int, pid: Pid) -> Option<Status> {
        if self.registered(i, pid) {
            Some(self.states[i].status(pid).status)
        } else {
            None
        }
    }

    /// How often the command was spawned with success in the first `n` requests.
    pub open spec fn spawns(self, n: int, pid: Pid) -> nat
        decreases n,
    {
        if n <= 0 {
            0
        } else {
            self.spawns(n - 1, pid) + (if begins(self.requests[n - 1], pid) {
                1nat
            } else {
                0nat
            })
        }
    }

    /// How often the manager was told in the first `n` requests that a process of the command
    /// has ended or could not be waited for.
    pub open spec fn endings(self, n: int, pid: Pid) -> nat
        decreases n,
    {
        if n <= 0 {
            0
        } else {
            self.endings(n - 1, pid) + (if ends(self.requests[n - 1], pid) {
                1nat
            } else {
                0nat
            })
        }
    }

    /// Whether the manager was used as it should be, from the first state on: commands are
    /// registered as ones that were not started, and the manager is told of the end of no more
    /// processes than were spawned.
    pub open spec fn orderly(self) -> bool {
        &&& self.possible()
        &&& self.states[0] == State::initial()
        &&& forall|i: int|
            0 <= i < self.requests.len() && (#[trigger] self.requests[i] is Create)
                ==> self.requests[i]->Create_0.state is Stopped
        &&& forall|n: int, pid: Pid|
            0 <= n <= self.requests.len() ==> #[trigger] self.endings(n, pid) <= self.spawns(n, pid)
    }
}

/// Whether the request tells that the command was spawned with success.
pub open spec fn begins(request: Request, pid: Pid) -> bool {
    match request {
        Request::Spawned(subject, Ok(_)) => subject == pid,
        _ => false,
    }
}

/// Whether the request tells that the process of a command has ended or could not be waited for.
pub open spec fn ends(request: Request, pid: Pid) -> bool {
    match request {
        Request::Exited(subject, _) | Request::Error(subject, _) => subject == pid,
        _ => false,
    }
}

/// The handle that a request names.
pub open spec fn subject(request: Request) -> Option<Pid> {
    match request {
        Request::Start(pid)
        | Request::Spawned(pid, _)
        | Request::Signal(pid, _)
        | Request::Remove(pid)
        | Request::Exited(pid, _)
        | Request::Error(pid, _) => Some(pid),
        Request::Create(_) | Request::Status | Request::Destroy => None,
    }
}

/// The announcement that an action makes.
pub open spec fn announcement(action: Action) -> Option<ProcessStatus> {
    match action {
        Action::Created(event) | Action::Announce(event) | Action::Kill(_, event) => Some(event),
        _ => None,
    }
}

/// Whether the handle belongs to a command that was removed.
pub open spec fn retired(state: State, pid: Pid) -> bool {
    !state.entries.contains_key(pid) && pid.generation() < state.generation
}

/// Every request leads from a valid state to a valid state.
pub proof fn law_valid(state: State, request: Request, next: State, action: Action)
    requires
        state.valid(),
        state.takes(request),
        state.step(request, next, action),
    ensures
        next.valid(),
{
}

/// The state before the first request is valid.
pub proof fn law_initial_valid()
    ensures
        State::initial().valid(),
{
}

/// A request leaves alone every command that it does not name.
pub proof fn law_others_untouched(
    state: State,
    request: Request,
    next: State,
    action: Action,
    pid: Pid,
)
    requires
        state.takes(request),
        state.step(request, next, action),
        state.entries.contains_key(pid),
        subject(request) != Some(pid),
    ensures
        next.entries.contains_key(pid),
        next.entries[pid] == state.entries[pid],
{
}

/// A request never changes what a registered command runs.
pub proof fn law_command_kept(
    state: State,
    request: Request,
    next: State,
    action: Action,
    pid: Pid,
)
    requires
        state.takes(request),
        state.step(request, next, action),
        state.entries.contains_key(pid),
        next.entries.contains_key(pid),
    ensures
        next.entries[pid].command == state.entries[pid].command,
{
}

/// What is announced of a command that stays registered is what is reported of it from then
/// on; what is announced of a command that is removed is what was reported of it before.
pub proof fn law_announcement_true(
    state: State,
    request: Request,
    next: State,
    action: Action,
)
    requires
        state.takes(request),
        state.step(request, next, action),
        announcement(action) is Some,
    ensures
        request is Remove ==> {
            &&& subject(request) == Some(announcement(action)->0.pid)
            &&& reported(announcement(action)->0, state.entries)
            &&& !next.entries.contains_key(announcement(action)->0.pid)
        },
        !(request is Remove) ==> reported(announcement(action)->0, next.entries),
{
}

/// Every change of what is reported of a process is announced, with its handle.
pub proof fn law_change_announced(
    state: State,
    request: Request,
    next: State,
    action: Action,
    pid: Pid,
)
    requires
        state.takes(request),
        state.step(request, next, action),
        state.entries.contains_key(pid) != next.entries.contains_key(pid) || (
        state.entries.contains_key(pid) && state.status(pid) != next.status(pid)),
    ensures
        announcement(action) is Some,
        announcement(action)->0.pid == pid,
{
}

/// A manager that was told to end takes no request any more.
pub proof fn law_closed(state: State, next: State, action: Action, request: Request)
    requires
        state.step(Request::Destroy, next, action),
    ensures
        action == Action::Close,
        next.entries == state.entries,
        !next.takes(request),
{
}

/// In a run, nothing comes after the request to end.
pub proof fn law_run_closed(run: Run, i: int)
    requires
        run.possible(),
        0 <= i < run.requests.len(),
        run.requests[i] is Destroy,
    ensures
        i == run.requests.len() - 1,
{
    assert(run.stepped(i));
    if i + 1 < run.requests.len() {
        assert(run.stepped(i + 1));
    }
}

/// Whether every error that is kept is about the command that it is kept for.
pub open spec fn errors_in_place(state: State) -> bool {
    forall|pid: Pid| #[trigger]
        state.entries.contains_key(pid) ==> (state.entries[pid].state matches EntryState::Error(
            error,
        ) ==> error.spec_pid() == Some(pid))
}

/// An error is kept for the command that it is about, as long as commands are registered
/// without one.
pub proof fn law_errors_in_place(state: State, request: Request, next: State, action: Action)
    requires
        state.takes(request),
        state.step(request, next, action),
        errors_in_place(state),
        request matches Request::Create(entry) ==> !(entry.state is Error),
    ensures
        errors_in_place(next),
{
    match request {
        Request::Spawned(pid, Err(error)) | Request::Error(pid, error) => {
            error_parts(Some(pid), ErrorKind::Io(Arc::new(error)));
        },
        _ => {},
    }
}

/// Asking for a start, a signal or a report changes no command by itself, and nothing is
/// announced.
pub proof fn law_asking_changes_nothing(
    state: State,
    request: Request,
    next: State,
    action: Action,
)
    requires
        state.step(request, next, action),
        request is Start || request is Signal || request is Status,
    ensures
        next.entries == state.entries,
        next.generation == state.generation,
        next.free == state.free,
        announcement(action) is None,
{
}

/// A command that runs is not started a second time.
pub proof fn law_running_not_started(
    state: State,
    pid: Pid,
    id: u32,
    next: State,
    action: Action,
)
    requires
        state.entries.contains_key(pid),
        state.entries[pid].state == EntryState::Running(id),
        state.step(Request::Start(pid), next, action),
    ensures
        next == state,
        action == Action::Nothing,
{
}

/// A command that was registered, or whose process has ended or failed, can be started, and
/// what is spawned is the command as it was registered.
pub proof fn law_stopped_started(state: State, pid: Pid, next: State, action: Action)
    requires
        state.entries.contains_key(pid),
        !(state.entries[pid].state is Running),
        state.step(Request::Start(pid), next, action),
    ensures
        action is Spawn,
        action->Spawn_0 == pid,
        action->Spawn_1@ == state.entries[pid].command@,
{
}

/// After a command was spawned it is reported to run under the process's number, and when the
/// process has ended, with how it ended; where one of the two failed, as an error about it.
pub proof fn law_life_reported(
    state: State,
    request: Request,
    next: State,
    action: Action,
    pid: Pid,
)
    requires
        state.takes(request),
        state.step(request, next, action),
        subject(request) == Some(pid),
        request is Spawned || request is Exited || request is Error,
    ensures
        next.entries[pid].state == (match request {
            Request::Spawned(_, outcome) => spawned(pid, outcome),
            Request::Exited(_, status) => EntryState::Status(status),
            Request::Error(_, error) => failed(pid, error),
            _ => state.entries[pid].state,
        }),
        announcement(action) == Some(next.status(pid)),
        match request {
            Request::Spawned(_, Ok(id)) => next.status(pid).status == Status::Running(id),
            Request::Exited(_, status) => next.status(pid).status == Status::Exited(status),
            _ => next.status(pid).status == Status::Error,
        },
{
}

/// A process that runs and is to be stopped is sent the signal that ends it at once; one that
/// does not run is sent nothing, and whoever asked is told that all is well.
pub proof fn law_stop(state: State, pid: Pid, next: State, action: Action)
    requires
        state.entries.contains_key(pid),
        state.step(stop_request(pid), next, action),
    ensures
        next == state,
        state.entries[pid].state matches EntryState::Running(id) ==> action == Action::Deliver(
            Delivery::to(id, signal_of(SIGKILL)),
        ),
        state.entries[pid].state matches EntryState::Running(id) ==> {
            &&& action->Deliver_0.signal == signal_of(SIGKILL)
            &&& action->Deliver_0.target as u32 == id
            &&& id <= i32::MAX ==> action->Deliver_0.target == id
        },
        !(state.entries[pid].state is Running) ==> action == Action::Nothing,
        signal_outcome(pid, None) is Ok,
{
    if state.entries[pid].state is Running {
        let id = state.entries[pid].state->Running_0;
        assert(id as i32 as u32 == id) by (bit_vector);
    }
}

/// Removing a command ends its process if and only if it runs.
pub proof fn law_remove_kills(state: State, pid: Pid, next: State, action: Action)
    requires
        state.takes(Request::Remove(pid)),
        state.step(Request::Remove(pid), next, action),
    ensures
        action is Kill <==> state.entries[pid].state is Running,
        state.entries[pid].state matches EntryState::Running(id) ==> action->Kill_0
            == Delivery::to(id, signal_of(SIGKILL)),
        state.entries[pid].state matches EntryState::Running(id) ==> {
            &&& action->Kill_0.signal == signal_of(SIGKILL)
            &&& action->Kill_0.target as u32 == id
            &&& id <= i32::MAX ==> action->Kill_0.target == id
        },
        next.entries == state.entries.remove(pid),
{
    if state.entries[pid].state is Running {
        let id = state.entries[pid].state->Running_0;
        assert(id as i32 as u32 == id) by (bit_vector);
    }
}

/// A retired handle stays retired, and is not given out again.
proof fn retired_kept(state: State, request: Request, next: State, action: Action, pid: Pid)
    requires
        state.valid(),
        state.takes(request),
        state.step(request, next, action),
        retired(state, pid),
    ensures
        retired(next, pid),
{
}

/// After each request of a run the state is valid.
pub proof fn law_run_valid(run: Run, i: int)
    requires
        run.possible(),
        0 <= i <= run.requests.len(),
    ensures
        run.states[i].valid(),
    decreases i,
{
    if i > 0 {
        law_run_valid(run, i - 1);
        assert(run.stepped(i - 1));
        law_valid(run.states[i - 1], run.requests[i - 1], run.states[i], run.actions[i - 1]);
    }
}

/// A handle that is retired at one point of a run is retired at all later points.
proof fn retired_for_good(run: Run, i: int, j: int, pid: Pid)
    requires
        run.possible(),
        0 <= i <= j <= run.requests.len(),
        retired(run.states[i], pid),
    ensures
        retired(run.states[j], pid),
    decreases j - i,
{
    if i < j {
        retired_for_good(run, i, j - 1, pid);
        law_run_valid(run, j - 1);
        assert(run.stepped(j - 1));
        retired_kept(
            run.states[j - 1],
            run.requests[j - 1],
            run.states[j],
            run.actions[j - 1],
            pid,
        );
    }
}

/// A handle under which a command is registered stays so, or is retired.
proof fn registered_or_retired(run: Run, i: int, j: int, pid: Pid)
    requires
        run.possible(),
        0 <= i <= j <= run.requests.len(),
        run.registered(i, pid),
    ensures
        run.registered(j, pid) || retired(run.states[j], pid),
    decreases j - i,
{
    if i < j {
        registered_or_retired(run, i, j - 1, pid);
        law_run_valid(run, j - 1);
        assert(run.stepped(j - 1));
        if retired(run.states[j - 1], pid) {
            retired_kept(
                run.states[j - 1],
                run.requests[j - 1],
                run.states[j],
                run.actions[j - 1],
                pid,
            );
        }
    }
}

/// Once a command was removed, nothing is ever registered under its handle again.
pub proof fn law_removed_for_good(run: Run, i: int, j: int, pid: Pid)
    requires
        run.possible(),
        0 <= i < j <= run.requests.len(),
        run.requests[i] == Request::Remove(pid),
    ensures
        !run.registered(j, pid),
{
    law_run_valid(run, i);
    assert(run.stepped(i));
    assert(retired(run.states[i + 1], pid));
    retired_for_good(run, i + 1, j, pid);
}

/// No request about a removed command is taken any more, not even that its process ended.
pub proof fn law_removed_not_taken(run: Run, i: int, j: int, request: Request, pid: Pid)
    requires
        run.possible(),
        0 <= i < j <= run.requests.len(),
        run.requests[i] == Request::Remove(pid),
        subject(request) == Some(pid),
    ensures
        !run.states[j].takes(request),
{
    law_removed_for_good(run, i, j, pid);
    law_run_valid(run, j);
}

/// No handle is given out twice.
pub proof fn law_handles_differ(run: Run, i: int, j: int, p: Pid, q: Pid)
    requires
        run.possible(),
        0 <= i < j < run.requests.len(),
        run.creates(i, p),
        run.creates(j, q),
    ensures
        p != q,
{
    assert(run.stepped(i));
    assert(run.stepped(j));
    registered_or_retired(run, i + 1, j, p);
}

/// As long as a command is registered, what it runs stays the same.
pub proof fn law_run_command_kept(run: Run, i: int, j: int, pid: Pid)
    requires
        run.possible(),
        0 <= i <= j <= run.requests.len(),
        run.registered(i, pid),
        run.registered(j, pid),
    ensures
        run.states[j].entries[pid].command == run.states[i].entries[pid].command,
    decreases j - i,
{
    if i < j {
        registered_or_retired(run, i, j - 1, pid);
        if retired(run.states[j - 1], pid) {
            retired_for_good(run, j - 1, j, pid);
        }
        law_run_command_kept(run, i, j - 1, pid);
        assert(run.stepped(j - 1));
        law_command_kept(
            run.states[j - 1],
            run.requests[j - 1],
            run.states[j],
            run.actions[j - 1],
            pid,
        );
    }
}

/// How many of the first `n` requests of a run are removals.
pub open spec fn removals(run: Run, n: int) -> nat
    decreases n,
{
    if n <= 0 {
        0
    } else {
        removals(run, n - 1) + (if run.requests[n - 1] is Remove {
            1nat
        } else {
            0nat
        })
    }
}

/// The generation counts the removals.
pub proof fn law_generation_counts(run: Run, n: int)
    requires
        run.possible(),
        0 <= n <= run.requests.len(),
    ensures
        run.states[n].generation == run.states[0].generation + removals(run, n),
    decreases n,
{
    if n > 0 {
        law_generation_counts(run, n - 1);
        assert(run.stepped(n - 1));
    }
}

/// A command that was just registered is reported as such, and can be started.
pub proof fn law_spawn(
    state: State,
    entry: Entry,
    created: State,
    first: Action,
    next: State,
    second: Action,
)
    requires
        state.takes(Request::Create(entry)),
        state.step(Request::Create(entry), created, first),
        entry.state == EntryState::Stopped,
        created.step(Request::Start(first->Created_0.pid), next, second),
    ensures
        first is Created,
        first->Created_0.status == Status::Crated,
        created.takes(Request::Start(first->Created_0.pid)),
        second is Spawn,
        second->Spawn_0 == first->Created_0.pid,
        second->Spawn_1@ == entry.command@,
{
}

/// Where the handles of a report stand.
proof fn report_at(listed: Seq<ProcessStatus>, entries: Entries, pid: Pid) -> (i: int)
    requires
        reports(listed, entries),
        entries.contains_key(pid),
    ensures
        0 <= i < listed.len(),
        listed[i].pid == pid,
        listed[i].status == Status::of(entries[pid].state),
{
    assert(pids_of(listed).contains(pid));
    let i = choose|i: int| 0 <= i < pids_of(listed).len() && pids_of(listed)[i] == pid;
    assert(reported(listed[i], entries));
    i
}

/// Of handles in ascending order of their slots, each stands once.
proof fn ascending_once(pids: Seq<Pid>, i: int, j: int)
    requires
        slots_ascend(pids),
        0 <= i < pids.len(),
        0 <= j < pids.len(),
        pids[i] == pids[j],
    ensures
        i == j,
{
    if i < j {
        assert(pids[i].slot() < pids[j].slot());
    } else if j < i {
        assert(pids[j].slot() < pids[i].slot());
    }
}

/// Two reports of the same commands name the same process at each place that both have.
proof fn reports_agree_at(
    a: Seq<ProcessStatus>,
    b: Seq<ProcessStatus>,
    entries: Entries,
    i: int,
)
    requires
        reports(a, entries),
        reports(b, entries),
        0 <= i < a.len(),
    ensures
        i < b.len(),
        a[i] == b[i],
    decreases i,
{
    assert(reported(a[i], entries));
    let k = report_at(b, entries, a[i].pid);
    let (p, q) = (pids_of(a), pids_of(b));
    assert(forall|n: int| 0 <= n < a.len() ==> #[trigger] p[n] == a[n].pid);
    assert(forall|n: int| 0 <= n < b.len() ==> #[trigger] q[n] == b[n].pid);
    if k < i {
        reports_agree_at(a, b, entries, k);
        ascending_once(p, i, k);
    } else if k > i {
        assert(reported(b[i], entries));
        let m = report_at(a, entries, b[i].pid);
        assert(q[i].slot() < q[k].slot());
        if m > i {
            assert(p[i].slot() < p[m].slot());
        } else if m < i {
            reports_agree_at(a, b, entries, m);
            ascending_once(q, i, m);
        }
    }
}

/// The report is determined by the registered commands: there is only one.
pub proof fn law_report_unique(
    a: Seq<ProcessStatus>,
    b: Seq<ProcessStatus>,
    entries: Entries,
)
    requires
        reports(a, entries),
        reports(b, entries),
    ensures
        a == b,
{
    assert forall|i: int| 0 <= i < a.len() implies i < b.len() && #[trigger] a[i] == b[i] by {
        reports_agree_at(a, b, entries, i);
    }
    assert forall|i: int| 0 <= i < b.len() implies i < a.len() && #[trigger] b[i] == a[i] by {
        reports_agree_at(b, a, entries, i);
    }
    if a.len() > b.len() {
        reports_agree_at(a, b, entries, a.len() - 1);
    }
    if b.len() > a.len() {
        reports_agree_at(b, a, entries, b.len() - 1);
    }
    assert(a =~= b);
}

/// Whoever waits stops waiting at a report if and only if no registered command runs.
pub proof fn law_wait(listed: Seq<ProcessStatus>, entries: Entries)
    requires
        reports(listed, entries),
    ensures
        none_runs(listed) <==> forall|pid: Pid| #[trigger]
            entries.contains_key(pid) ==> !(entries[pid].state is Running),
{
    if none_runs(listed) {
        assert forall|pid: Pid| #[trigger] entries.contains_key(pid) implies !(
        entries[pid].state is Running) by {
            let i = report_at(listed, entries, pid);
            assert(listed[i].spec_is_stopped());
        }
    }
    if forall|pid: Pid| #[trigger]
        entries.contains_key(pid) ==> !(entries[pid].state is Running) {
        assert forall|i: int| 0 <= i < listed.len() implies (
        #[trigger] listed[i]).spec_is_stopped() by {
            assert(reported(listed[i], entries));
        }
    }
}

/// What is looked up in a list is in it, or it is not there at all.
proof fn stat_of_found(listed: Seq<ProcessStatus>, pid: Pid)
    ensures
        stat_of(listed, pid) matches Some(status) ==> listed.contains(status) && status.pid == pid,
        stat_of(listed, pid) is None ==> !pids_of(listed).contains(pid),
    decreases listed.len(),
{
    if listed.len() > 0 {
        if listed[0].pid == pid {
            assert(listed.contains(listed[0]));
        } else {
            let rest = listed.drop_first();
            stat_of_found(rest, pid);
            if stat_of(rest, pid) is Some {
                let status = stat_of(rest, pid)->0;
                let i = choose|i: int| 0 <= i < rest.len() && rest[i] == status;
                assert(listed[i + 1] == status);
            } else if pids_of(listed).contains(pid) {
                let i = choose|i: int| 0 <= i < pids_of(listed).len() && pids_of(listed)[i] == pid;
                assert(pids_of(rest)[i - 1] == pid);
            }
        }
    }
}

/// Looking up a process in a report gives its state if and only if it is registered.
pub proof fn law_stat(listed: Seq<ProcessStatus>, state: State, pid: Pid)
    requires
        reports(listed, state.entries),
    ensures
        stat_of(listed, pid) == (if state.entries.contains_key(pid) {
            Some(state.status(pid))
        } else {
            None
        }),
{
    stat_of_found(listed, pid);
    if stat_of(listed, pid) is Some {
        let status = stat_of(listed, pid)->0;
        let i = choose|i: int| 0 <= i < listed.len() && listed[i] == status;
        assert(reported(listed[i], state.entries));
    }
}

/// Stopping all reported processes sends every process that runs the signal that ends it at
/// once, and sends nothing to any other.
pub proof fn law_stop_all(listed: Seq<ProcessStatus>, state: State, pid: Pid)
    requires
        state.open,
        state.spawning is None,
        reports(listed, state.entries),
    ensures
        state.entries.contains_key(pid) <==> stop_requests(listed).contains(stop_request(pid)),
        forall|i: int, next: State, action: Action|
            0 <= i < stop_requests(listed).len() && #[trigger] state.step(
                stop_requests(listed)[i],
                next,
                action,
            ) ==> next == state && state.takes(stop_requests(listed)[i]) && action == (
            match state.entries[listed[i].pid].state {
                EntryState::Running(id) => Action::Deliver(Delivery::to(id, signal_of(SIGKILL))),
                _ => Action::Nothing,
            }),
        forall|i: int, next: State, action: Action|
            0 <= i < stop_requests(listed).len() && #[trigger] state.step(
                stop_requests(listed)[i],
                next,
                action,
            ) ==> (action is Deliver <==> listed[i].status is Running) && (action is Deliver
                ==> action->Deliver_0.signal == signal_of(SIGKILL)
                && action->Deliver_0.target as u32 == listed[i].status->Running_0),
{
    if state.entries.contains_key(pid) {
        let i = report_at(listed, state.entries, pid);
        assert(stop_requests(listed)[i] == stop_request(pid));
    }
    if stop_requests(listed).contains(stop_request(pid)) {
        let i = choose|i: int|
            0 <= i < stop_requests(listed).len() && stop_requests(listed)[i] == stop_request(pid);
        assert(reported(listed[i], state.entries));
    }
    assert forall|i: int, next: State, action: Action|
        0 <= i < stop_requests(listed).len() && #[trigger] state.step(
            stop_requests(listed)[i],
            next,
            action,
        ) implies next == state && state.takes(stop_requests(listed)[i]) && action == (
    match state.entries[listed[i].pid].state {
        EntryState::Running(id) => Action::Deliver(Delivery::to(id, signal_of(SIGKILL))),
        _ => Action::Nothing,
    }) by {
        assert(reported(listed[i], state.entries));
        assert(stop_requests(listed)[i] == stop_request(listed[i].pid));
    }
    assert forall|i: int, next: State, action: Action|
        0 <= i < stop_requests(listed).len() && #[trigger] state.step(
            stop_requests(listed)[i],
            next,
            action,
        ) implies (action is Deliver <==> listed[i].status is Running) && (action is Deliver
        ==> action->Deliver_0.signal == signal_of(SIGKILL) && action->Deliver_0.target as u32
        == listed[i].status->Running_0) by {
        assert(reported(listed[i], state.entries));
        if listed[i].status is Running {
            let id = listed[i].status->Running_0;
            assert(id as i32 as u32 == id) by (bit_vector);
        }
    }
}

/// A state and what is reported of it agree on whether the process runs.
pub proof fn law_stopped_reported(state: EntryState, pid: Pid)
    ensures
        (ProcessStatus { pid, status: Status::of(state) }).spec_is_stopped()
            == state.spec_is_stopped(),
{
}

/// Of two values for one variable, the later one counts, as if the earlier had never been set.
pub proof fn law_env_last_counts(
    command: CommandView,
    field: Seq<char>,
    first: Seq<char>,
    last: Seq<char>,
)
    ensures
        command.with_env(field, first).with_env(field, last) == command.with_env(field, last),
        command.with_env(field, last).variables()[field] == last,
{
    assert(command.variables().insert(field, first).insert(field, last)
        =~= command.variables().insert(field, last));
}

/// In which order two variables are set makes no difference.
pub proof fn law_env_order_free(
    command: CommandView,
    field: Seq<char>,
    value: Seq<char>,
    other: Seq<char>,
    other_value: Seq<char>,
)
    requires
        field != other,
    ensures
        command.with_env(field, value).with_env(other, other_value) == command.with_env(
            other,
            other_value,
        ).with_env(field, value),
{
    assert(command.variables().insert(field, value).insert(other, other_value)
        =~= command.variables().insert(other, other_value).insert(field, value));
}

/// Arguments stand in the command line in the order in which they were added, behind the
/// program.
pub proof fn law_args_in_order(command: CommandView, arg: Seq<char>)
    ensures
        command.with_arg(arg).argv() == command.argv().push(arg),
        command.argv()[0] == command.program,
{
    assert(command.with_arg(arg).argv() =~= command.argv().push(arg));
}

/// Two lists of settings with the same variables agree at each place that both have.
proof fn settings_agree_at(s: Settings, t: Settings, i: int)
    requires
        ascending(s),
        ascending(t),
        settings_map(s) == settings_map(t),
        0 <= i < s.len(),
    ensures
        i < t.len(),
        s[i] == t[i],
    decreases i,
{
    settings_map_at(s, i);
    let k = choose|k: int| names_at(t, s[i].0, k);
    settings_map_at(t, k);
    if k < i {
        settings_agree_at(s, t, k);
        assert(text_before(s[k].0, s[i].0));
        text_before_irreflexive(s[i].0);
    } else if k > i {
        settings_map_at(t, i);
        let m = choose|m: int| names_at(s, t[i].0, m);
        settings_map_at(s, m);
        assert(text_before(t[i].0, t[k].0));
        if m > i {
            assert(text_before(s[i].0, s[m].0));
            text_before_transitive(s[i].0, t[i].0, s[i].0);
            text_before_irreflexive(s[i].0);
        } else if m < i {
            settings_agree_at(s, t, m);
            assert(text_before(t[m].0, t[i].0));
            text_before_irreflexive(t[i].0);
        } else {
            text_before_irreflexive(s[i].0);
        }
    }
}

/// What a command sets determines in what order it is handed over: there is only one ascending
/// list of the variables.
pub proof fn law_settings_unique(s: Settings, t: Settings)
    requires
        ascending(s),
        ascending(t),
        settings_map(s) == settings_map(t),
    ensures
        s == t,
{
    assert forall|i: int| 0 <= i < s.len() implies i < t.len() && #[trigger] s[i] == t[i] by {
        settings_agree_at(s, t, i);
    }
    if s.len() < t.len() {
        settings_agree_at(t, s, t.len() - 1);
    }
    if t.len() < s.len() {
        settings_agree_at(s, t, s.len() - 1);
    }
    assert(s =~= t);
}

/// A child finds every variable that its command sets, with that value, and every other variable
/// of the process that spawns it as it is there; it finds no more.
pub proof fn law_child_variables(command: CommandView, parent: Variables, name: Seq<char>)
    ensures
        command.child_variables(parent).contains_key(name) <==> command.variables().contains_key(
            name,
        ) || parent.contains_key(name),
        command.variables().contains_key(name) ==> command.child_variables(parent)[name]
            == command.variables()[name],
        !command.variables().contains_key(name) && parent.contains_key(name)
            ==> command.child_variables(parent)[name] == parent[name],
{
}

/// The reading after a sequence of reads from the pipes.
pub open spec fn reading_after(reading: Reading, reads: Seq<Result<String, IoError>>) -> Reading
    decreases reads.len(),
{
    if reads.len() == 0 {
        reading
    } else {
        reading_after(reading, reads.drop_last()).after(Some(line_marked(reads.last())))
    }
}

/// What is done with each of a sequence of reads from the pipes.
pub open spec fn outputs(reading: Reading, reads: Seq<Result<String, IoError>>) -> Seq<Output>
    decreases reads.len(),
{
    if reads.len() == 0 {
        Seq::empty()
    } else {
        outputs(reading, reads.drop_last()).push(
            reading_after(reading, reads.drop_last()).output(Some(line_marked(reads.last()))),
        )
    }
}

/// Whether the reads before `n` bring lines, and the read at `n`, where there is one, fails.
pub open spec fn lines_until(reads: Seq<Result<String, IoError>>, n: int) -> bool {
    &&& 0 <= n <= reads.len()
    &&& forall|i: int| 0 <= i < n ==> #[trigger] reads[i] is Ok
    &&& n < reads.len() ==> reads[n] is Err
}

/// Each line that is read of a process, whichever pipe it comes through, is handed once to the
/// writer's `stdout`, under the handle of the process and in the order of reading; after the
/// first failure to read nothing is handed on.
pub proof fn law_lines_handed_on(reading: Reading, reads: Seq<Result<String, IoError>>, n: int)
    requires
        reading.open,
        lines_until(reads, n),
    ensures
        outputs(reading, reads).len() == reads.len(),
        forall|i: int|
            0 <= i < n ==> #[trigger] outputs(reading, reads)[i] == Output::Stdout(
                reading.pid,
                reads[i]->Ok_0,
            ),
        forall|i: int|
            n <= i < reads.len() ==> #[trigger] outputs(reading, reads)[i] == Output::End,
        reading_after(reading, reads) == (Reading { open: n == reads.len(), ..reading }),
    decreases reads.len(),
{
    if reads.len() > 0 {
        let before = reads.drop_last();
        let m = if n < before.len() {
            n
        } else {
            before.len() as int
        };
        assert(forall|i: int| 0 <= i < before.len() ==> #[trigger] before[i] == reads[i]);
        assert(lines_until(before, m));
        law_lines_handed_on(reading, before, m);
        let last = reads.len() - 1;
        assert(reads[last] == reads.last());
        assert(outputs(reading, reads)[last] == reading_after(reading, before).output(
            Some(line_marked(reads.last())),
        ));
        assert forall|i: int| 0 <= i < n implies #[trigger] outputs(reading, reads)[i]
            == Output::Stdout(reading.pid, reads[i]->Ok_0) by {
            if i < last {
                assert(outputs(reading, reads)[i] == outputs(reading, before)[i]);
            }
        }
        assert forall|i: int| n <= i < reads.len() implies #[trigger] outputs(reading, reads)[i]
            == Output::End by {
            if i < last {
                assert(outputs(reading, reads)[i] == outputs(reading, before)[i]);
            }
        }
    }
}

/// Once the reading has ended, with the pipes or with a failure, nothing is handed on.
pub proof fn law_reading_ends(
    reading: Reading,
    last: Option<Result<(bool, String), IoError>>,
    next: Option<Result<(bool, String), IoError>>,
)
    requires
        reading.output(last) is End,
    ensures
        reading.after(last).output(next) is End,
        reading.after(last).after(next) == reading.after(last),
{
}

/// The handle of a new command is determined by the state.
pub proof fn law_handle_determined(
    state: State,
    entry: Entry,
    a: State,
    first: Action,
    b: State,
    second: Action,
)
    requires
        state.step(Request::Create(entry), a, first),
        state.step(Request::Create(entry), b, second),
    ensures
        a == b,
        first == second,
{
    pid_determined(first->Created_0.pid, second->Created_0.pid);
}

/// The slot of a command that was just removed is the next to be taken.
pub proof fn law_slot_taken_again(
    state: State,
    pid: Pid,
    entry: Entry,
    removed: State,
    first: Action,
    next: State,
    second: Action,
)
    requires
        state.step(Request::Remove(pid), removed, first),
        removed.step(Request::Create(entry), next, second),
    ensures
        second is Created,
        second->Created_0.pid.slot() == pid.slot(),
        second->Created_0.pid.generation() == state.generation + 1,
        next.free == state.free,
{
    assert((seq![pid.slot()] + state.free).drop_first() =~= state.free);
}

/// A request that is taken leads somewhere, other than to a report: where a command is to be
/// registered, as long as its slot can be counted in a `usize`.
pub proof fn law_taken_has_step(state: State, request: Request)
    requires
        state.valid(),
        state.takes(request),
        request !is Status,
        request is Create ==> slot_taken(state.free, state.entries.len()) <= usize::MAX,
    ensures
        exists|next: State, action: Action| #[trigger] state.step(request, next, action),
{
    match request {
        Request::Create(entry) => {
            let pid = pid_of(slot_taken(state.free, state.entries.len()), state.generation);
            let next = State {
                entries: state.entries.insert(pid, entry),
                free: slots_left(state.free, state.entries.len()),
                ..state
            };
            let event = ProcessStatus { pid, status: Status::of(entry.state) };
            assert(state.step(request, next, Action::Created(event)));
        },
        Request::Start(pid) => {
            if state.entries[pid].state.spec_is_stopped() {
                let next = State { spawning: Some(pid), ..state };
                let action = Action::Spawn(pid, state.entries[pid].command);
                assert(state.step(request, next, action));
            } else {
                assert(state.step(request, state, Action::Nothing));
            }
        },
        Request::Spawned(pid, outcome) => {
            let next = State { spawning: None, ..state.moved(pid, spawned(pid, outcome)) };
            assert(state.step(request, next, Action::Announce(next.status(pid))));
        },
        Request::Signal(pid, signal) => {
            let action = match state.entries[pid].state {
                EntryState::Running(id) => Action::Deliver(Delivery::to(id, signal)),
                _ => Action::Nothing,
            };
            assert(state.step(request, state, action));
        },
        Request::Remove(pid) => {
            let next = State {
                entries: state.entries.remove(pid),
                generation: state.generation + 1,
                free: seq![pid.slot()] + state.free,
                ..state
            };
            let action = match state.entries[pid].state {
                EntryState::Running(id) => Action::Kill(
                    Delivery::to(id, signal_of(SIGKILL)),
                    state.status(pid),
                ),
                _ => Action::Announce(state.status(pid)),
            };
            assert(state.step(request, next, action));
        },
        Request::Exited(pid, status) => {
            let next = state.moved(pid, EntryState::Status(status));
            assert(state.step(request, next, Action::Announce(next.status(pid))));
        },
        Request::Error(pid, error) => {
            let next = state.moved(pid, failed(pid, error));
            assert(state.step(request, next, Action::Announce(next.status(pid))));
        },
        Request::Status => {},
        Request::Destroy => {
            assert(state.step(request, State { open: false, ..state }, Action::Close));
        },
    }
}

/// After a run from the first state, a command is registered under a handle exactly when the
/// handle was given out and the command has not been removed since.
pub proof fn law_registered(run: Run, n: int, pid: Pid)
    requires
        run.possible(),
        run.states[0] == State::initial(),
        0 <= n <= run.requests.len(),
    ensures
        run.registered(n, pid) <==> exists|i: int| #[trigger] run.created_and_kept(i, n, pid),
    decreases n,
{
    if n == 0 {
        assert forall|i: int| !(#[trigger] run.created_and_kept(i, n, pid)) by {}
    } else {
        let m = n - 1;
        law_registered(run, m, pid);
        law_run_valid(run, m);
        assert(run.stepped(m));
        if run.registered(n, pid) {
            if run.registered(m, pid) {
                let i = choose|i: int| #[trigger] run.created_and_kept(i, m, pid);
                assert(run.created_and_kept(i, n, pid));
            } else {
                assert(run.creates(m, pid));
                assert(run.created_and_kept(m, n, pid));
            }
        }
        if exists|i: int| #[trigger] run.created_and_kept(i, n, pid) {
            let i = choose|i: int| #[trigger] run.created_and_kept(i, n, pid);
            if i < m {
                assert(run.created_and_kept(i, m, pid));
            }
        }
    }
}

/// A command that runs keeps running as the same process until the manager is told that the
/// process has ended or could not be waited for, or is asked to remove the command.
pub proof fn law_running_until_told(run: Run, i: int, j: int, pid: Pid, id: u32)
    requires
        run.possible(),
        0 <= i <= j <= run.requests.len(),
        run.runs(i, pid, id),
        forall|k: int|
            i <= k < j ==> !ends(#[trigger] run.requests[k], pid) && run.requests[k]
                != Request::Remove(pid),
    ensures
        run.runs(j, pid, id),
    decreases j - i,
{
    if i < j {
        law_running_until_told(run, i, j - 1, pid, id);
        law_run_valid(run, j - 1);
        assert(run.stepped(j - 1));
        assert(!ends(run.requests[j - 1], pid));
    }
}

/// No command has two processes: between two times that it was spawned, the manager was told
/// that the first process has ended or could not be waited for.
pub proof fn law_one_process(run: Run, i: int, j: int, pid: Pid, id: u32, other: u32)
    requires
        run.possible(),
        0 <= i < j < run.requests.len(),
        run.requests[i] == Request::Spawned(pid, Ok(id)),
        run.requests[j] == Request::Spawned(pid, Ok(other)),
    ensures
        exists|k: int| i < k < j && ends(#[trigger] run.requests[k], pid),
{
    assert(run.stepped(i));
    assert(run.stepped(j));
    law_run_valid(run, i);
    law_run_valid(run, j);
    assert(run.runs(i + 1, pid, id));
    if exists|k: int| i < k < j && #[trigger] run.requests[k] == Request::Remove(pid) {
        let k = choose|k: int| i < k < j && #[trigger] run.requests[k] == Request::Remove(pid);
        law_removed_for_good(run, k, j, pid);
    } else if !(exists|k: int| i < k < j && ends(#[trigger] run.requests[k], pid)) {
        law_running_until_told(run, i + 1, j, pid, id);
    }
}

/// The processes of a registered command whose end was not told are one if the command runs, and
/// none otherwise. A handle that was never given out has had none.
proof fn processes_counted(run: Run, n: int, pid: Pid)
    requires
        run.orderly(),
        0 <= n <= run.requests.len(),
    ensures
        run.registered(n, pid) ==> run.spawns(n, pid) - run.endings(n, pid) == (
        if run.states[n].entries[pid].state is Running {
            1int
        } else {
            0int
        }),
        !run.registered(n, pid) && !retired(run.states[n], pid) ==> run.spawns(n, pid) == 0
            && run.endings(n, pid) == 0,
    decreases n,
{
    if n > 0 {
        let m = n - 1;
        processes_counted(run, m, pid);
        law_run_valid(run, m);
        assert(run.stepped(m));
        assert(run.endings(n, pid) <= run.spawns(n, pid));
        assert(run.requests[m] is Create ==> run.requests[m]->Create_0.state is Stopped);
        if retired(run.states[m], pid) {
            retired_kept(run.states[m], run.requests[m], run.states[n], run.actions[m], pid);
        }
    }
}

/// As long as the manager is told of the end of no more processes than were spawned, it is told
/// only of commands that run.
pub proof fn law_told_of_running(run: Run, i: int, pid: Pid)
    requires
        run.orderly(),
        0 <= i < run.requests.len(),
        ends(run.requests[i], pid),
    ensures
        run.registered(i, pid),
        run.states[i].entries[pid].state is Running,
{
    processes_counted(run, i, pid);
    assert(run.stepped(i));
    assert(run.endings(i + 1, pid) <= run.spawns(i + 1, pid));
}

/// What is reported of a process changes only so: a command is registered as one that was not
/// started; one that does not run comes to run, or to an error, by being spawned; one that runs
/// comes to its end, or to an error, when the manager is told of it; and any is removed.
pub proof fn law_transitions(run: Run, i: int, pid: Pid)
    requires
        run.orderly(),
        0 <= i < run.requests.len(),
    ensures
        run.reported_at(i + 1, pid) == run.reported_at(i, pid) || match (
            run.reported_at(i, pid),
            run.reported_at(i + 1, pid),
        ) {
            (None, Some(status)) => status == Status::Crated && run.creates(i, pid),
            (Some(status), Some(Status::Running(id))) => !(status is Running) && run.requests[i]
                == Request::Spawned(pid, Ok(id)),
            (Some(Status::Running(_)), Some(Status::Exited(status))) => run.requests[i]
                == Request::Exited(pid, status),
            (Some(Status::Running(_)), Some(Status::Error)) => run.requests[i] is Error
                && run.requests[i]->Error_0 == pid,
            (Some(_), Some(Status::Error)) => run.requests[i] is Spawned
                && run.requests[i]->Spawned_0 == pid && run.requests[i]->Spawned_1 is Err,
            (Some(_), None) => run.requests[i] == Request::Remove(pid),
            _ => false,
        },
{
    law_run_valid(run, i);
    assert(run.stepped(i));
    assert(run.requests[i] is Create ==> run.requests[i]->Create_0.state is Stopped);
    if ends(run.requests[i], pid) {
        law_told_of_running(run, i, pid);
    }
}

/// A command that was started once is never again reported as one that was not.
pub proof fn law_not_new_again(run: Run, i: int, j: int, pid: Pid)
    requires
        run.orderly(),
        0 <= i <= j <= run.requests.len(),
        run.registered(i, pid),
        run.reported_at(i, pid) != Some(Status::Crated),
    ensures
        run.reported_at(j, pid) != Some(Status::Crated),
    decreases j - i,
{
    if i < j {
        law_not_new_again(run, i, j - 1, pid);
        registered_or_retired(run, i, j - 1, pid);
        if run.registered(j - 1, pid) {
            law_transitions(run, j - 1, pid);
        } else {
            retired_for_good(run, j - 1, j, pid);
        }
    }
}

} // verus!
