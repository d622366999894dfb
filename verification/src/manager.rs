//! The manager: the registered commands, the requests that it takes one after the other, and
//! what each request makes it do.

use std::io::Error as IoError;
use std::sync::Arc;

use vstd::prelude::*;

use async_process::ExitStatus;
use generational_arena::Arena;
use signal_child::signal::Signal;

use crate::command::Command;
use crate::error::{Error, ErrorKind};
use crate::pid::Pid;
use crate::signal::{kill_signal, signal_of, Delivery, SIGKILL};
use crate::status::{EntryState, ProcessStatus, Status};
use crate::table::{
    arena_entries, arena_free, arena_generation, arena_get, arena_get_mut, arena_insert,
    arena_new, arena_pids, arena_remove, slot_taken, slots_ascend, slots_left, Entries, Entry,
};

verus! {

/// What a manager is asked or told.
#[derive(Debug)]
pub enum Request {
    /// Register a command.
    Create(Entry),
    /// Start a registered command.
    Start(Pid),
    /// The command was spawned as the process of this number, or could not be.
    Spawned(Pid, Result<u32, IoError>),
    /// Send a signal to a process.
    Signal(Pid, Signal),
    /// Forget a command.
    Remove(Pid),
    /// The process ended.
    Exited(Pid, ExitStatus),
    /// Waiting for the process failed.
    Error(Pid, IoError),
    /// Report all commands.
    Status,
    /// Take no more requests.
    Destroy,
}

/// What the manager has done for it in answer to a request.
#[derive(Debug)]
pub enum Action {
    /// Announce the new command, then answer with its handle.
    Created(ProcessStatus),
    /// Spawn the command, and hand the outcome back as [`Request::Spawned`], before any other
    /// request.
    Spawn(Pid, Command),
    /// Announce the state of a process.
    Announce(ProcessStatus),
    /// Send the signal, whether or not it arrives, then announce the state of the process.
    Kill(Delivery, ProcessStatus),
    /// Send the signal and answer with what came of it.
    Deliver(Delivery),
    /// Answer with the report.
    Report(Vec<ProcessStatus>),
    /// Nothing, not even an answer.
    Nothing,
    /// Answer, and end.
    Close,
}

/// The state of a manager: the registered commands, the handles to come, and whether it still
/// takes requests.
pub struct State {
    /// The registered commands.
    pub entries: Entries,
    /// How many commands were removed.
    pub generation: nat,
    /// The free slots, the next one to be taken first.
    pub free: Seq<nat>,
    /// The command that is being spawned, where there is one.
    pub spawning: Option<Pid>,
    /// Whether requests are still taken.
    pub open: bool,
}

/// Whether `listed` reports the commands, each once, in ascending order of their slots.
pub open spec fn reports(listed: Seq<ProcessStatus>, entries: Entries) -> bool {
    &&& slots_ascend(pids_of(listed))
    &&& forall|i: int| 0 <= i < listed.len() ==> reported(#[trigger] listed[i], entries)
    &&& forall|pid: Pid|
        entries.contains_key(pid) ==> #[trigger] pids_of(listed).contains(pid)
}

/// Whether `status` is what is to be reported of a registered command.
pub open spec fn reported(status: ProcessStatus, entries: Entries) -> bool {
    &&& entries.contains_key(status.pid)
    &&& status.status == Status::of(entries[status.pid].state)
}

/// The handles in a report.
pub open spec fn pids_of(listed: Seq<ProcessStatus>) -> Seq<Pid> {
    listed.map_values(|status: ProcessStatus| status.pid)
}

/// The state of a command about which the operating system reported an error.
pub open spec fn failed(pid: Pid, error: IoError) -> EntryState {
    EntryState::Error(Error::spec_new(Some(pid), ErrorKind::Io(Arc::new(error))))
}

/// The state of a command after the attempt to spawn it.
pub open spec fn spawned(pid: Pid, outcome: Result<u32, IoError>) -> EntryState {
    match outcome {
        Ok(id) => EntryState::Running(id),
        Err(error) => failed(pid, error),
    }
}

impl State {
    /// The state before the first request.
    pub open spec fn initial() -> State {
        State {
            entries: Map::empty(),
            generation: 0,
            free: seq![0nat, 1nat, 2nat, 3nat],
            spawning: None,
            open: true,
        }
    }

    /// What holds of every state that a manager can be in: no handle is newer than the last
    /// removal, no two commands share a slot, every slot is either taken or free, once, and a
    /// command that is being spawned does not run.
    pub open spec fn valid(self) -> bool {
        &&& self.generation <= u64::MAX
        &&& forall|pid: Pid| #[trigger]
            self.entries.contains_key(pid) ==> pid.generation() <= self.generation
        &&& forall|p: Pid, q: Pid|
            #[trigger] self.entries.contains_key(p) && #[trigger] self.entries.contains_key(q)
                && p.slot() == q.slot() ==> p == q
        &&& self.entries.dom().finite()
        &&& self.free.no_duplicates()
        &&& forall|i: int|
            0 <= i < self.free.len() ==> #[trigger] self.free[i] < self.entries.len()
                + self.free.len()
        &&& forall|pid: Pid| #[trigger]
            self.entries.contains_key(pid) ==> pid.slot() < self.entries.len() + self.free.len()
                && !self.free.contains(pid.slot())
        &&& self.spawning matches Some(pid) ==> self.entries.contains_key(pid)
            && self.entries[pid].state.spec_is_stopped()
    }

    /// The state in which a command has come to the state `state`.
    pub open spec fn moved(self, pid: Pid, state: EntryState) -> State {
        State {
            entries: self.entries.insert(pid, Entry { state, ..self.entries[pid] }),
            ..self
        }
    }

    /// What is reported of a registered command.
    pub open spec fn status(self, pid: Pid) -> ProcessStatus {
        ProcessStatus { pid, status: Status::of(self.entries[pid].state) }
    }

    /// Whether `pid` is the handle of the next command: its slot is the next to be taken, which
    /// no command has.
    pub open spec fn fresh(self, pid: Pid) -> bool {
        &&& pid.generation() == self.generation
        &&& pid.slot() == slot_taken(self.free, self.entries.len())
        &&& forall|other: Pid| #[trigger]
            self.entries.contains_key(other) ==> other.slot() != pid.slot()
    }

    /// Whether the request can be taken: the manager is open, what the request names is
    /// registered, and one more removal can be counted. While a command is being spawned, only
    /// the outcome can be taken, and at no other time.
    pub open spec fn takes(self, request: Request) -> bool {
        self.open && match request {
            Request::Spawned(pid, _) => self.spawning == Some(pid),
            Request::Start(pid)
            | Request::Signal(pid, _)
            | Request::Exited(pid, _)
            | Request::Error(pid, _) => self.spawning is None && self.entries.contains_key(pid),
            Request::Remove(pid) => self.spawning is None && self.entries.contains_key(pid)
                && self.generation < u64::MAX,
            Request::Create(_) | Request::Status | Request::Destroy => self.spawning is None,
        }
    }

    /// Whether the request leads from this state to `next` with the given action.
    pub open spec fn step(self, request: Request, next: State, action: Action) -> bool {
        match request {
            Request::Create(entry) => action matches Action::Created(event) && {
                &&& self.fresh(event.pid)
                &&& next == State {
                    entries: self.entries.insert(event.pid, entry),
                    free: slots_left(self.free, self.entries.len()),
                    ..self
                }
                &&& event.status == Status::of(entry.state)
            },
            Request::Start(pid) => if self.entries[pid].state.spec_is_stopped() {
                &&& next == State { spawning: Some(pid), ..self }
                &&& action matches Action::Spawn(target, command) && target == pid && command@
                    == self.entries[pid].command@
            } else {
                next == self && action == Action::Nothing
            },
            Request::Spawned(pid, outcome) => {
                &&& next == State { spawning: None, ..self.moved(pid, spawned(pid, outcome)) }
                &&& action == Action::Announce(next.status(pid))
            },
            Request::Signal(pid, signal) => {
                &&& next == self
                &&& action == match self.entries[pid].state {
                    EntryState::Running(id) => Action::Deliver(Delivery::to(id, signal)),
                    _ => Action::Nothing,
                }
            },
            Request::Remove(pid) => {
                &&& next == State {
                    entries: self.entries.remove(pid),
                    generation: self.generation + 1,
                    free: seq![pid.slot()] + self.free,
                    ..self
                }
                &&& action == match self.entries[pid].state {
                    EntryState::Running(id) => Action::Kill(
                        Delivery::to(id, signal_of(SIGKILL)),
                        self.status(pid),
                    ),
                    _ => Action::Announce(self.status(pid)),
                }
            },
            Request::Exited(pid, status) => {
                &&& next == self.moved(pid, EntryState::Status(status))
                &&& action == Action::Announce(next.status(pid))
            },
            Request::Error(pid, error) => {
                &&& next == self.moved(pid, failed(pid, error))
                &&& action == Action::Announce(next.status(pid))
            },
            Request::Status => {
                &&& next == self
                &&& action matches Action::Report(listed) && reports(listed@, self.entries)
            },
            Request::Destroy => {
                &&& next == State { open: false, ..self }
                &&& action == Action::Close
            },
        }
    }
}

/// A manager of child processes.
pub struct Manager {
    table: Arena<Entry>,
    removed: u64,
    spawning: Option<Pid>,
    open: bool,
}

impl View for Manager {
    type V = State;

    closed spec fn view(&self) -> State {
        State {
            entries: arena_entries(self.table),
            generation: arena_generation(self.table),
            free: arena_free(self.table),
            spawning: self.spawning,
            open: self.open,
        }
    }
}

impl Manager {
    /// Whether the manager's own count of removals is right, and its state is valid.
    pub closed spec fn wf(&self) -> bool {
        &&& self@.valid()
        &&& self.removed == self@.generation
    }

    /// A manager without commands.
    pub fn new() -> (res: Manager)
        ensures
            res.wf(),
            res@ == State::initial(),
    {
        Manager { table: arena_new(), removed: 0, spawning: None, open: true }
    }

    /// Whether the manager can take the request.
    pub fn accepts(&self, request: &Request) -> (res: bool)
        requires
            self.wf(),
        ensures
            res == self@.takes(*request),
    {
        if !self.open {
            return false;
        }
        match (self.spawning, request) {
            (Some(spawning), Request::Spawned(pid, _)) => spawning == *pid,
            (Some(_), _) | (None, Request::Spawned(_, _)) => false,
            (None, Request::Start(pid)) => self.contains(pid),
            (None, Request::Signal(pid, _)) => self.contains(pid),
            (None, Request::Exited(pid, _)) => self.contains(pid),
            (None, Request::Error(pid, _)) => self.contains(pid),
            (None, Request::Remove(pid)) => self.contains(pid) && self.removed < u64::MAX,
            (None, Request::Create(_) | Request::Status | Request::Destroy) => true,
        }
    }

    /// Whether a command is registered under the handle.
    pub fn contains(&self, pid: &Pid) -> (res: bool)
        ensures
            res == self@.entries.contains_key(*pid),
    {
        arena_get(&self.table, *pid).is_some()
    }

    /// Takes a request and says what is to be done for it.
    pub fn step(&mut self, request: Request) -> (res: Action)
        requires
            old(self).wf(),
            old(self)@.takes(request),
        ensures
            final(self).wf(),
            old(self)@.step(request, final(self)@, res),
    {
        match request {
            Request::Create(entry) => self.on_create(entry),
            Request::Start(pid) => self.on_start(pid),
            Request::Spawned(pid, outcome) => {
                let state = match outcome {
                    Ok(id) => EntryState::Running(id),
                    Err(error) => EntryState::Error(Error::new(pid, ErrorKind::from(error))),
                };
                self.spawning = None;
                self.on_moved(pid, state)
            },
            Request::Signal(pid, signal) => self.on_signal(pid, signal),
            Request::Remove(pid) => self.on_remove(pid),
            Request::Exited(pid, status) => self.on_moved(pid, EntryState::Status(status)),
            Request::Error(pid, error) => self.on_moved(
                pid,
                EntryState::Error(Error::new(pid, ErrorKind::from(error))),
            ),
            Request::Status => Action::Report(self.list()),
            Request::Destroy => {
                self.open = false;
                assert(self@.entries == old(self)@.entries);
                assert(self@.generation == old(self)@.generation);
                Action::Close
            },
        }
    }

    /// Registers a command.
    fn on_create(&mut self, entry: Entry) -> (res: Action)
        requires
            old(self).wf(),
        ensures
            final(self).wf(),
            old(self)@.step(Request::Create(entry), final(self)@, res),
    {
        let status = Status::from(&entry.state);
        let pid = arena_insert(&mut self.table, entry);
        Action::Created(ProcessStatus { pid, status })
    }

    /// Says what to spawn for a command that does not run.
    fn on_start(&mut self, pid: Pid) -> (res: Action)
        requires
            old(self).wf(),
            old(self)@.entries.contains_key(pid),
        ensures
            final(self).wf(),
            old(self)@.step(Request::Start(pid), final(self)@, res),
    {
        let entry = arena_get(&self.table, pid).unwrap();
        if entry.state.is_stopped() {
            let command = entry.command.clone();
            self.spawning = Some(pid);
            Action::Spawn(pid, command)
        } else {
            Action::Nothing
        }
    }

    /// Addresses a signal to a command that runs.
    fn on_signal(&self, pid: Pid, signal: Signal) -> (res: Action)
        requires
            self@.entries.contains_key(pid),
        ensures
            self@.step(Request::Signal(pid, signal), self@, res),
    {
        match &arena_get(&self.table, pid).unwrap().state {
            EntryState::Running(id) => Action::Deliver(Delivery::new(*id, signal)),
            _ => Action::Nothing,
        }
    }

    /// Forgets a command, and ends its process where it runs.
    fn on_remove(&mut self, pid: Pid) -> (res: Action)
        requires
            old(self).wf(),
            old(self)@.takes(Request::Remove(pid)),
        ensures
            final(self).wf(),
            old(self)@.step(Request::Remove(pid), final(self)@, res),
    {
        let entry = arena_remove(&mut self.table, pid).unwrap();
        self.removed = self.removed + 1;
        let event = ProcessStatus { pid, status: Status::from(&entry.state) };
        match entry.state {
            EntryState::Running(id) => Action::Kill(Delivery::new(id, kill_signal()), event),
            _ => Action::Announce(event),
        }
    }

    /// Brings a command to another state and announces it.
    fn on_moved(&mut self, pid: Pid, state: EntryState) -> (res: Action)
        requires
            old(self).wf(),
            old(self)@.spawning is None,
            old(self)@.entries.contains_key(pid),
        ensures
            final(self).wf(),
            final(self)@ == old(self)@.moved(pid, state),
            res == Action::Announce(final(self)@.status(pid)),
    {
        let status = Status::from(&state);
        let entry = arena_get_mut(&mut self.table, pid).unwrap();
        entry.state = state;
        Action::Announce(ProcessStatus { pid, status })
    }

    /// Reports all commands.
    pub fn list(&self) -> (res: Vec<ProcessStatus>)
        ensures
            reports(res@, self@.entries),
    {
        let pids = arena_pids(&self.table);
        let mut listed: Vec<ProcessStatus> = Vec::new();
        let mut i: usize = 0;
        while i < pids.len()
            invariant
                i <= pids.len(),
                pids_of(listed@) =~= pids@.take(i as int),
                forall|pid: Pid|
                    arena_entries(self.table).contains_key(pid) <==> #[trigger] pids@.contains(pid),
                forall|k: int|
                    0 <= k < listed.len() ==> reported(#[trigger] listed[k], self@.entries),
            decreases pids.len() - i,
        {
            let pid = pids[i];
            assert(pids@.contains(pid));
            let entry = arena_get(&self.table, pid).unwrap();
            let ghost before = listed@;
            listed.push(ProcessStatus { pid, status: Status::from(&entry.state) });
            i = i + 1;
            assert(pids_of(listed@) =~= pids_of(before).push(pid));
            assert(pids@.take(i as int) =~= pids@.take(i - 1).push(pid));
        }
        assert(pids_of(listed@) =~= pids@);
        listed
    }
}

} // verus!
