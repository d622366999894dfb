use std::io;

use pm::{Action, Command, Error, ErrorKind, Manager, Pid};

fn some_pid() -> Pid {
    let mut manager = Manager::new();
    match manager.step(Manager::create(Command::new("x"))) {
        Action::Created(event) => event.pid,
        other => panic!("{:?}", other),
    }
}

fn gone() -> io::Error {
    io::Error::new(io::ErrorKind::NotFound, "gone")
}

#[test]
fn error_without_a_process() {
    let error = Error::new(None, ErrorKind::from(gone()));
    assert_eq!(error.pid(), None);
    assert_eq!(error.to_string(), "None:Io error: gone");
}

#[test]
fn error_about_a_process() {
    let pid = some_pid();
    let error = Error::new(pid, ErrorKind::from(gone()));
    assert_eq!(error.pid(), Some(pid));
    assert_eq!(error.to_string(), "Some(Pid(0, 0)):Io error: gone");
    let same = Error::new(Some(pid), ErrorKind::from(gone()));
    assert_eq!(same.pid(), Some(pid));
    assert_eq!(same.to_string(), error.to_string());
    assert_eq!(error.clone().to_string(), error.to_string());
}

#[test]
fn error_names_the_process_as_debug_does() {
    let mut manager = Manager::new();
    let mut pids: Vec<Pid> = Vec::new();
    for _ in 0..25 {
        match manager.step(Manager::create(Command::new("x"))) {
            Action::Created(event) => pids.push(event.pid),
            other => panic!("{:?}", other),
        }
    }
    for pid in pids.iter().skip(3) {
        manager.step(Manager::remove(pid));
    }
    match manager.step(Manager::create(Command::new("x"))) {
        Action::Created(event) => pids.push(event.pid),
        other => panic!("{:?}", other),
    }
    for pid in pids {
        let expected = format!("{:?}:Io error: text", Some(pid));
        assert_eq!(Error::describe(Some(pid), "text"), expected);
    }
}

#[test]
fn kind_carries_the_error() {
    let error = Error::new(None, ErrorKind::from(gone()));
    match error.kind() {
        ErrorKind::Io(io) => assert_eq!(io.kind(), io::ErrorKind::NotFound),
    }
}

#[test]
fn handles_print_slot_and_generation() {
    assert_eq!(format!("{:?}", some_pid()), "Pid(0, 0)");
}
