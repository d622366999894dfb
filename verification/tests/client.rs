use std::io;

use async_process::ExitStatus;
use pm::{
    mark_line, spawn_child, Action, Command, Manager, NullWriter, Output, Pid, ProcessStatus,
    ProcessWriter, Reader, Request, Signal, Status, WaitStep, WaitTurn,
};

fn gone() -> io::Error {
    io::Error::new(io::ErrorKind::NotFound, "gone")
}

fn two() -> (Manager, Pid, Pid) {
    let mut manager = Manager::new();
    let mut pids: Vec<Pid> = Vec::new();
    for name in ["a", "b"] {
        match manager.step(Manager::create(Command::new(name))) {
            Action::Created(event) => pids.push(event.pid),
            other => panic!("{:?}", other),
        }
    }
    (manager, pids[0], pids[1])
}

#[test]
fn create_asks_for_a_stopped_command() {
    match Manager::create(Command::new("a").arg("1")) {
        Request::Create(entry) => {
            assert_eq!(entry.command, Command::new("a").arg("1"));
            assert!(entry.state.is_stopped());
        }
        other => panic!("{:?}", other),
    }
}

#[test]
fn stop_all_stops_each_reported_process_in_order() {
    let (mut manager, a, b) = two();
    manager.step(Manager::start(&b));
    manager.step(Request::Spawned(b, Ok(9)));
    let requests = Manager::stop_all(&manager.list());
    assert_eq!(requests.len(), 2);
    let mut delivered: Vec<i32> = Vec::new();
    for (request, pid) in requests.into_iter().zip([a, b]) {
        assert!(matches!(request, Request::Signal(p, Signal::SIGKILL) if p == pid));
        match manager.step(request) {
            Action::Deliver(delivery) => delivered.push(delivery.target),
            Action::Nothing => {}
            other => panic!("{:?}", other),
        }
    }
    assert_eq!(delivered, vec![9]);
}

#[test]
fn stop_all_of_nothing() {
    assert!(Manager::stop_all(&Vec::new()).is_empty());
}

#[test]
fn signal_that_arrives_is_fine() {
    let (_, a, _) = two();
    assert!(Manager::signal_reply(&a, Some(Ok(()))).is_ok());
}

#[test]
fn signal_without_answer_is_fine() {
    let (_, a, _) = two();
    assert!(Manager::signal_reply(&a, None).is_ok());
}

#[test]
fn signal_that_fails_is_an_error_about_the_process() {
    let (_, _, b) = two();
    let error = Manager::signal_reply(&b, Some(Err(gone()))).unwrap_err();
    assert_eq!(error.pid(), Some(b));
    assert_eq!(error.to_string(), "Some(Pid(1, 0)):Io error: gone");
}

#[test]
fn list_without_answer_is_empty() {
    assert_eq!(Manager::list_reply(None), vec![]);
}

#[test]
fn list_with_answer_is_the_answer() {
    let (manager, _, _) = two();
    assert_eq!(Manager::list_reply(Some(manager.list())), manager.list());
}

#[test]
fn stat_finds_the_process() {
    let (mut manager, a, b) = two();
    manager.step(Manager::start(&b));
    manager.step(Request::Spawned(b, Ok(9)));
    let listed = manager.list();
    let expected = ProcessStatus { pid: a, status: Status::Crated };
    assert_eq!(Manager::stat(&listed, &a), Some(expected));
    let expected = ProcessStatus { pid: b, status: Status::Running(9) };
    assert_eq!(Manager::stat(&listed, &b), Some(expected));
    manager.step(Manager::remove(&a));
    assert_eq!(Manager::stat(&manager.list(), &a), None);
}

#[test]
fn stat_takes_the_first() {
    let (_, a, _) = two();
    let first = ProcessStatus { pid: a, status: Status::Crated };
    let second = ProcessStatus { pid: a, status: Status::Error };
    assert_eq!(Manager::stat(&vec![first, second], &a), Some(first));
}

#[test]
fn watch_pid_picks_one_process() {
    let (_, a, b) = two();
    let event = ProcessStatus { pid: a, status: Status::Crated };
    assert_eq!(Manager::watch_pid(a, event), Some(event));
    assert_eq!(Manager::watch_pid(b, event), None);
}

#[test]
fn wait_goes_on_while_a_process_runs() {
    let (mut manager, a, _) = two();
    assert_eq!(Manager::wait(WaitTurn::Begin), WaitStep::List);
    assert_eq!(Manager::wait(WaitTurn::Listed(manager.list())), WaitStep::Return);
    manager.step(Manager::start(&a));
    manager.step(Request::Spawned(a, Ok(9)));
    assert_eq!(Manager::wait(WaitTurn::Listed(manager.list())), WaitStep::NextEvent);
    let event = ProcessStatus { pid: a, status: Status::Error };
    assert_eq!(Manager::wait(WaitTurn::Announced(Some(event))), WaitStep::List);
    assert_eq!(Manager::wait(WaitTurn::Announced(None)), WaitStep::Return);
    manager.step(Request::Exited(a, ExitStatus::default()));
    assert_eq!(Manager::wait(WaitTurn::Listed(manager.list())), WaitStep::Return);
}

#[test]
fn wait_for_nothing_returns() {
    assert_eq!(Manager::wait(WaitTurn::Listed(Vec::new())), WaitStep::Return);
}

#[test]
fn end_of_a_process_is_told() {
    let (_, a, _) = two();
    let status = ExitStatus::default();
    assert!(matches!(spawn_child(Ok(status), a), Request::Exited(p, s) if p == a && s == status));
    assert!(matches!(spawn_child(Err(gone()), a), Request::Error(p, _) if p == a));
}

#[test]
fn lines_go_to_stdout_in_order() {
    let (_, _, b) = two();
    let mut reader = Reader::new(b);
    for line in ["one", "two", "two"] {
        let marked = mark_line(Ok(line.to_string()));
        assert_eq!(reader.take(Some(marked)), Output::Stdout(b, line.to_string()));
    }
    assert_eq!(reader.take(None), Output::End);
}

#[test]
fn lines_marked_otherwise_go_to_stderr() {
    let (_, a, _) = two();
    let marked = Ok((false, "line".to_string()));
    assert_eq!(Reader::new(a).take(Some(marked)), Output::Stderr(a, "line".to_string()));
}

#[test]
fn nothing_is_handed_on_after_a_failure() {
    let (_, a, _) = two();
    let mut reader = Reader::new(a);
    assert_eq!(reader.take(Some(mark_line(Err(gone())))), Output::End);
    assert_eq!(reader.take(Some(mark_line(Ok("late".to_string())))), Output::End);
}

#[test]
fn nothing_is_handed_on_after_the_end() {
    let (_, a, _) = two();
    let mut reader = Reader::new(a);
    assert_eq!(reader.take(None), Output::End);
    assert_eq!(reader.take(Some(mark_line(Ok("late".to_string())))), Output::End);
}

#[test]
fn null_writer_takes_everything() {
    let (_, a, _) = two();
    NullWriter.stdout(&a, "line".to_string());
    NullWriter.stderr(&a, "line".to_string());
}
