use std::io;

use async_process::ExitStatus;
use pm::{
    kill_signal, Action, Command, Delivery, EntryState, Error, ErrorKind, Manager, Pid,
    ProcessStatus, Request, Signal, Status,
};

fn gone() -> io::Error {
    io::Error::new(io::ErrorKind::NotFound, "gone")
}

fn create(manager: &mut Manager, name: &str) -> Pid {
    match manager.step(Manager::create(Command::new(name))) {
        Action::Created(event) => {
            assert_eq!(event.status, Status::Crated);
            event.pid
        }
        other => panic!("{:?}", other),
    }
}

fn announced(action: Action) -> ProcessStatus {
    match action {
        Action::Announce(event) => event,
        other => panic!("{:?}", other),
    }
}

fn run(manager: &mut Manager, pid: Pid, id: u32) {
    assert!(matches!(manager.step(Manager::start(&pid)), Action::Spawn(p, _) if p == pid));
    let event = announced(manager.step(Request::Spawned(pid, Ok(id))));
    assert_eq!(event, ProcessStatus { pid, status: Status::Running(id) });
}

#[test]
fn new_manager_has_no_commands() {
    assert_eq!(Manager::new().list(), vec![]);
}

#[test]
fn created_command_is_reported() {
    let mut manager = Manager::new();
    let pid = create(&mut manager, "a");
    assert!(manager.contains(&pid));
    assert_eq!(manager.list(), vec![ProcessStatus { pid, status: Status::Crated }]);
}

#[test]
fn created_command_can_be_started() {
    let mut manager = Manager::new();
    let pid = create(&mut manager, "a");
    match manager.step(Manager::start(&pid)) {
        Action::Spawn(target, command) => {
            assert_eq!(target, pid);
            assert_eq!(command, Command::new("a"));
        }
        other => panic!("{:?}", other),
    }
    assert_eq!(manager.list(), vec![ProcessStatus { pid, status: Status::Crated }]);
}

#[test]
fn only_the_outcome_is_taken_while_a_command_is_spawned() {
    let mut manager = Manager::new();
    let a = create(&mut manager, "a");
    let b = create(&mut manager, "b");
    assert!(!manager.accepts(&Request::Spawned(a, Ok(1))));
    manager.step(Manager::start(&a));
    assert!(!manager.accepts(&Manager::start(&a)));
    assert!(!manager.accepts(&Manager::start(&b)));
    assert!(!manager.accepts(&Manager::stop(&b)));
    assert!(!manager.accepts(&Manager::remove(&a)));
    assert!(!manager.accepts(&Manager::create(Command::new("c"))));
    assert!(!manager.accepts(&Request::Exited(a, ExitStatus::default())));
    assert!(!manager.accepts(&Request::Error(a, gone())));
    assert!(!manager.accepts(&Request::Status));
    assert!(!manager.accepts(&Request::Destroy));
    assert!(!manager.accepts(&Request::Spawned(b, Ok(1))));
    assert!(manager.accepts(&Request::Spawned(a, Ok(1))));
    manager.step(Request::Spawned(a, Ok(1)));
    assert!(!manager.accepts(&Request::Spawned(a, Ok(2))));
    assert!(manager.accepts(&Request::Status));
    assert!(matches!(manager.step(Manager::start(&a)), Action::Nothing));
    assert!(!manager.accepts(&Request::Spawned(a, Ok(2))));
}

#[test]
fn command_goes_through_its_states() {
    let mut manager = Manager::new();
    let pid = create(&mut manager, "a");
    let exited = Status::Exited(ExitStatus::default());
    let mut seen: Vec<Status> = vec![manager.list()[0].status];
    run(&mut manager, pid, 1);
    seen.push(manager.list()[0].status);
    manager.step(Request::Exited(pid, ExitStatus::default()));
    seen.push(manager.list()[0].status);
    manager.step(Manager::start(&pid));
    seen.push(manager.list()[0].status);
    manager.step(Request::Spawned(pid, Err(gone())));
    seen.push(manager.list()[0].status);
    run(&mut manager, pid, 2);
    seen.push(manager.list()[0].status);
    manager.step(Request::Error(pid, gone()));
    seen.push(manager.list()[0].status);
    let expected = vec![
        Status::Crated,
        Status::Running(1),
        exited,
        exited,
        Status::Error,
        Status::Running(2),
        Status::Error,
    ];
    assert_eq!(seen, expected);
}

#[test]
fn slots_are_taken_from_the_free_ones_first() {
    let mut manager = Manager::new();
    let pids: Vec<Pid> = (0..5).map(|_| create(&mut manager, "a")).collect();
    assert_eq!(format!("{:?}", pids[4]), "Pid(4, 0)");
    manager.step(Manager::remove(&pids[1]));
    manager.step(Manager::remove(&pids[3]));
    let more: Vec<String> = (0..6).map(|_| format!("{:?}", create(&mut manager, "a"))).collect();
    let expected =
        vec!["Pid(3, 2)", "Pid(1, 2)", "Pid(5, 2)", "Pid(6, 2)", "Pid(7, 2)", "Pid(8, 2)"];
    assert_eq!(more, expected);
}

#[test]
fn running_command_is_not_started_again() {
    let mut manager = Manager::new();
    let pid = create(&mut manager, "a");
    run(&mut manager, pid, 7);
    assert!(matches!(manager.step(Manager::start(&pid)), Action::Nothing));
    assert_eq!(manager.list(), vec![ProcessStatus { pid, status: Status::Running(7) }]);
}

#[test]
fn ended_command_can_be_started_again() {
    let mut manager = Manager::new();
    let pid = create(&mut manager, "a");
    run(&mut manager, pid, 7);
    let status = ExitStatus::default();
    let event = announced(manager.step(Request::Exited(pid, status)));
    assert_eq!(event, ProcessStatus { pid, status: Status::Exited(status) });
    assert_eq!(manager.list(), vec![event]);
    match manager.step(Manager::start(&pid)) {
        Action::Spawn(_, command) => assert_eq!(command, Command::new("a")),
        other => panic!("{:?}", other),
    }
}

#[test]
fn failure_to_spawn_is_an_error() {
    let mut manager = Manager::new();
    let pid = create(&mut manager, "a");
    manager.step(Manager::start(&pid));
    let event = announced(manager.step(Request::Spawned(pid, Err(gone()))));
    assert_eq!(event, ProcessStatus { pid, status: Status::Error });
    assert_eq!(manager.list(), vec![event]);
    assert!(matches!(manager.step(Manager::start(&pid)), Action::Spawn(_, _)));
}

#[test]
fn failure_to_wait_is_an_error() {
    let mut manager = Manager::new();
    let pid = create(&mut manager, "a");
    run(&mut manager, pid, 7);
    let event = announced(manager.step(Request::Error(pid, gone())));
    assert_eq!(event, ProcessStatus { pid, status: Status::Error });
    assert_eq!(manager.list(), vec![event]);
}

#[test]
fn signal_goes_to_a_running_process() {
    let mut manager = Manager::new();
    let pid = create(&mut manager, "a");
    run(&mut manager, pid, 7);
    match manager.step(Manager::signal(&pid, Signal::SIGINT)) {
        Action::Deliver(delivery) => {
            assert_eq!(delivery, Delivery { target: 7, signal: Signal::SIGINT })
        }
        other => panic!("{:?}", other),
    }
    assert_eq!(manager.list(), vec![ProcessStatus { pid, status: Status::Running(7) }]);
}

#[test]
fn signal_to_a_stopped_process_goes_nowhere() {
    let mut manager = Manager::new();
    let pid = create(&mut manager, "a");
    assert!(matches!(manager.step(Manager::signal(&pid, Signal::SIGINT)), Action::Nothing));
    manager.step(Request::Exited(pid, ExitStatus::default()));
    assert!(matches!(manager.step(Manager::stop(&pid)), Action::Nothing));
    manager.step(Request::Error(pid, gone()));
    assert!(matches!(manager.step(Manager::stop(&pid)), Action::Nothing));
}

#[test]
fn stop_sends_the_kill_signal() {
    let mut manager = Manager::new();
    let pid = create(&mut manager, "a");
    run(&mut manager, pid, 7);
    match manager.step(Manager::stop(&pid)) {
        Action::Deliver(delivery) => {
            assert_eq!(delivery, Delivery { target: 7, signal: Signal::SIGKILL })
        }
        other => panic!("{:?}", other),
    }
}

#[test]
fn the_kill_signal_is_sigkill() {
    assert_eq!(kill_signal(), Signal::SIGKILL);
}

#[test]
fn large_process_numbers_wrap() {
    assert_eq!(Delivery::new(2147483647, Signal::SIGINT).target, 2147483647);
    assert_eq!(Delivery::new(2147483648, Signal::SIGINT).target, -2147483648);
    assert_eq!(Delivery::new(4294967295, Signal::SIGINT).target, -1);
}

#[test]
fn removing_a_running_command_kills_it() {
    let mut manager = Manager::new();
    let pid = create(&mut manager, "a");
    run(&mut manager, pid, 7);
    match manager.step(Manager::remove(&pid)) {
        Action::Kill(delivery, event) => {
            assert_eq!(delivery, Delivery { target: 7, signal: Signal::SIGKILL });
            assert_eq!(event, ProcessStatus { pid, status: Status::Running(7) });
        }
        other => panic!("{:?}", other),
    }
    assert_eq!(manager.list(), vec![]);
}

#[test]
fn removing_a_stopped_command_kills_nothing() {
    let mut manager = Manager::new();
    let pid = create(&mut manager, "a");
    let event = announced(manager.step(Manager::remove(&pid)));
    assert_eq!(event, ProcessStatus { pid, status: Status::Crated });
    assert!(!manager.contains(&pid));
}

#[test]
fn removed_handle_is_refused() {
    let mut manager = Manager::new();
    let pid = create(&mut manager, "a");
    manager.step(Manager::remove(&pid));
    create(&mut manager, "b");
    assert!(!manager.accepts(&Manager::start(&pid)));
    assert!(!manager.accepts(&Manager::stop(&pid)));
    assert!(!manager.accepts(&Manager::remove(&pid)));
    assert!(!manager.accepts(&Request::Exited(pid, ExitStatus::default())));
    assert!(!manager.accepts(&Request::Error(pid, gone())));
    assert!(manager.accepts(&Manager::create(Command::new("c"))));
    assert!(manager.accepts(&Request::Status));
    assert!(manager.accepts(&Request::Destroy));
}

#[test]
fn slots_are_used_again_under_new_handles() {
    let mut manager = Manager::new();
    let a = create(&mut manager, "a");
    let b = create(&mut manager, "b");
    manager.step(Manager::remove(&a));
    let c = create(&mut manager, "c");
    assert_ne!(a, c);
    assert_ne!(b, c);
    assert!(manager.accepts(&Manager::start(&c)));
    assert!(!manager.accepts(&Manager::start(&a)));
    assert_eq!(format!("{:?} {:?} {:?}", a, b, c), "Pid(0, 0) Pid(1, 0) Pid(0, 1)");
}

#[test]
fn no_handle_comes_twice() {
    let mut manager = Manager::new();
    let mut pids: Vec<Pid> = Vec::new();
    for i in 0..40 {
        let pid = create(&mut manager, "a");
        assert!(!pids.contains(&pid));
        pids.push(pid);
        if i % 3 == 0 {
            manager.step(Manager::remove(&pid));
        }
    }
}

#[test]
fn different_handles_are_written_differently() {
    let mut manager = Manager::new();
    let mut texts: Vec<String> = Vec::new();
    for i in 0..12 {
        let pid = create(&mut manager, "a");
        let text = Error::new(pid, ErrorKind::from(gone())).to_string();
        assert!(!texts.contains(&text));
        texts.push(text);
        if i % 3 == 0 {
            manager.step(Manager::remove(&pid));
        }
    }
    assert_eq!(texts[0], "Some(Pid(0, 0)):Io error: gone");
    assert_eq!(texts[1], "Some(Pid(0, 1)):Io error: gone");
}

#[test]
fn report_is_in_order_of_slots() {
    let mut manager = Manager::new();
    let pids: Vec<Pid> = (0..10).map(|_| create(&mut manager, "a")).collect();
    manager.step(Manager::remove(&pids[3]));
    manager.step(Manager::remove(&pids[8]));
    let late = create(&mut manager, "b");
    let mut expected: Vec<Pid> = pids.clone();
    expected[8] = late;
    expected.remove(3);
    let listed: Vec<Pid> = manager.list().iter().map(|s| s.pid).collect();
    assert_eq!(listed, expected);
}

#[test]
fn requests_leave_other_commands_alone() {
    let mut manager = Manager::new();
    let a = create(&mut manager, "a");
    let b = create(&mut manager, "b");
    run(&mut manager, a, 1);
    run(&mut manager, b, 2);
    manager.step(Request::Exited(a, ExitStatus::default()));
    assert_eq!(Manager::stat(&manager.list(), &b).unwrap().status, Status::Running(2));
    manager.step(Manager::remove(&a));
    assert_eq!(manager.list(), vec![ProcessStatus { pid: b, status: Status::Running(2) }]);
}

#[test]
fn status_request_reports_the_list() {
    let mut manager = Manager::new();
    let pid = create(&mut manager, "a");
    match manager.step(Request::Status) {
        Action::Report(listed) => {
            assert_eq!(listed, vec![ProcessStatus { pid, status: Status::Crated }])
        }
        other => panic!("{:?}", other),
    }
}

#[test]
fn destroy_closes() {
    let mut manager = Manager::new();
    let pid = create(&mut manager, "a");
    assert!(manager.accepts(&Manager::start(&pid)));
    assert!(matches!(manager.step(Request::Destroy), Action::Close));
    assert!(!manager.accepts(&Manager::start(&pid)));
    assert!(!manager.accepts(&Request::Status));
    assert!(!manager.accepts(&Request::Destroy));
    assert!(!manager.accepts(&Manager::create(Command::new("b"))));
}

#[test]
fn states_and_reports_agree_on_stopped() {
    let mut manager = Manager::new();
    let pid = create(&mut manager, "a");
    let error = pm::Error::new(pid, pm::ErrorKind::from(gone()));
    let states = vec![
        EntryState::Stopped,
        EntryState::Running(1),
        EntryState::Error(error),
        EntryState::Status(ExitStatus::default()),
    ];
    let expected = vec![
        (true, Status::Crated),
        (false, Status::Running(1)),
        (true, Status::Error),
        (true, Status::Exited(ExitStatus::default())),
    ];
    for (state, (stopped, status)) in states.into_iter().zip(expected) {
        assert_eq!(state.is_stopped(), stopped);
        assert_eq!(Status::from(&state), status);
        assert_eq!(ProcessStatus { pid, status }.is_stopped(), stopped);
        assert_eq!(Status::from(state), status);
    }
}
