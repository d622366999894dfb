//! What holds of a wait for all processes to end.

use vstd::prelude::*;

use crate::client::{none_runs, wait_step, WaitStep, WaitTurn};
use crate::laws::law_wait;
use crate::manager::{reports, Manager, State};
use crate::pid::Pid;
use crate::status::ProcessStatus;

verus! {

/// Whether one of the reported processes runs.
pub open spec fn some_runs(listed: Seq<ProcessStatus>) -> bool {
    exists|i: int| 0 <= i < listed.len() && (#[trigger] listed[i]).status is Running
}

/// Whoever waits stops only at a report in which no process runs, or when no announcement can come
/// any more; goes on waiting at a report in which one runs; and asks for a report at the beginning
/// and after every announcement, whatever it announces.
pub proof fn law_wait_turns(turn: WaitTurn, step: WaitStep)
    requires
        step == wait_step(turn),
    ensures
        step is Return <==> (turn is Listed && !some_runs(turn->Listed_0@)) || (turn is Announced
            && turn->Announced_0 is None),
        step is NextEvent <==> turn is Listed && some_runs(turn->Listed_0@),
        step is List <==> turn is Begin || (turn is Announced && turn->Announced_0 is Some),
{
    if turn is Listed {
        let listed = turn->Listed_0@;
        if !none_runs(listed) {
            let i = choose|i: int|
                0 <= i < listed.len() && !(#[trigger] listed[i]).spec_is_stopped();
            assert(listed[i].status is Running);
        }
        if some_runs(listed) {
            let i = choose|i: int|
                0 <= i < listed.len() && (#[trigger] listed[i]).status is Running;
            assert(!listed[i].spec_is_stopped());
        }
    }
}

/// The step that is taken in a wait is the one that its turn calls for.
pub proof fn law_wait_taken(turn: WaitTurn, step: WaitStep)
    requires
        call_ensures(Manager::wait, (turn,), step),
    ensures
        step is Return <==> (turn is Listed && !some_runs(turn->Listed_0@)) || (turn is Announced
            && turn->Announced_0 is None),
        step is NextEvent <==> turn is Listed && some_runs(turn->Listed_0@),
        step is List <==> turn is Begin || (turn is Announced && turn->Announced_0 is Some),
{
    law_wait_turns(turn, step);
}

/// A wait for all processes to end, turn by turn.
pub struct Wait {
    /// The turns.
    pub turns: Seq<WaitTurn>,
    /// What is done at each turn.
    pub steps: Seq<WaitStep>,
    /// The state of the manager at each turn.
    pub states: Seq<State>,
}

impl Wait {
    /// Whether the wait can have gone so: it begins, what is done at each turn is what the turn
    /// calls for, and leads to the next turn.
    pub open spec fn possible(self) -> bool {
        &&& self.turns.len() > 0
        &&& self.steps.len() == self.turns.len()
        &&& self.states.len() == self.turns.len()
        &&& self.turns[0] is Begin
        &&& forall|i: int|
            0 <= i < self.turns.len() ==> #[trigger] self.steps[i] == wait_step(self.turns[i])
        &&& forall|i: int| 0 < i < self.turns.len() ==> #[trigger] self.led_to(i)
    }

    /// Whether the turn at `i` is what the step before it leads to: a report of the commands that
    /// are registered then, or an announcement.
    pub open spec fn led_to(self, i: int) -> bool {
        match self.steps[i - 1] {
            WaitStep::List => self.turns[i] is Listed && reports(
                self.turns[i]->Listed_0@,
                self.states[i].entries,
            ),
            WaitStep::NextEvent => self.turns[i] is Announced,
            WaitStep::Return => false,
        }
    }

    /// Whether a registered command runs at the turn `i`.
    pub open spec fn runs_at(self, i: int) -> bool {
        exists|pid: Pid| #[trigger]
            self.states[i].entries.contains_key(pid)
                && self.states[i].entries[pid].state is Running
    }
}

/// As long as announcements come, a wait ends only when no registered command runs.
pub proof fn law_wait_outlasts_all(wait: Wait, i: int)
    requires
        wait.possible(),
        0 <= i < wait.turns.len(),
        wait.steps[i] is Return,
        !(wait.turns[i] is Announced && wait.turns[i]->Announced_0 is None),
    ensures
        !wait.runs_at(i),
        i == wait.turns.len() - 1,
{
    law_wait_turns(wait.turns[i], wait.steps[i]);
    assert(wait.led_to(i));
    reports_running(wait.turns[i]->Listed_0@, wait.states[i]);
    if i + 1 < wait.turns.len() {
        assert(wait.led_to(i + 1));
    }
}

/// A wait ends at the first report for which no registered command runs, and at no earlier one:
/// where one runs, the next turn is an announcement, and after an announcement comes a report.
pub proof fn law_wait_goes_on(wait: Wait, i: int)
    requires
        wait.possible(),
        0 < i < wait.turns.len(),
        wait.turns[i] is Listed,
    ensures
        wait.steps[i] is Return <==> !wait.runs_at(i),
        !wait.runs_at(i) ==> i == wait.turns.len() - 1,
        wait.runs_at(i) && i + 1 < wait.turns.len() ==> wait.turns[i + 1] is Announced,
        wait.runs_at(i) && i + 2 < wait.turns.len() ==> wait.turns[i + 2] is Listed,
{
    law_wait_turns(wait.turns[i], wait.steps[i]);
    assert(wait.led_to(i));
    law_wait_turns(wait.turns[i - 1], wait.steps[i - 1]);
    reports_running(wait.turns[i]->Listed_0@, wait.states[i]);
    if i + 1 < wait.turns.len() {
        assert(wait.led_to(i + 1));
        law_wait_turns(wait.turns[i + 1], wait.steps[i + 1]);
    }
    if i + 2 < wait.turns.len() {
        assert(wait.led_to(i + 2));
    }
}

/// A report names a process that runs if and only if a registered command runs.
proof fn reports_running(listed: Seq<ProcessStatus>, state: State)
    requires
        reports(listed, state.entries),
    ensures
        some_runs(listed) <==> exists|pid: Pid| #[trigger]
            state.entries.contains_key(pid) && state.entries[pid].state is Running,
{
    law_wait(listed, state.entries);
    if some_runs(listed) {
        let i = choose|i: int| 0 <= i < listed.len() && (#[trigger] listed[i]).status is Running;
        assert(!listed[i].spec_is_stopped());
    } else {
        assert forall|i: int| 0 <= i < listed.len() implies (
        #[trigger] listed[i]).spec_is_stopped() by {
            assert(!(listed[i].status is Running));
        }
    }
}

} // verus!
