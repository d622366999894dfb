//! What the processes print.

use std::io::Error as IoError;

use vstd::prelude::*;

use crate::pid::Pid;

verus! {

/// Takes the lines that processes print.
pub trait ProcessWriter: Send + Sync {
    /// Takes a line of the process's output.
    fn stdout(&self, pid: &Pid, line: String);

    /// Takes a line of the process's error output.
    fn stderr(&self, pid: &Pid, line: String);
}

/// Throws all lines away.
pub struct NullWriter;

impl ProcessWriter for NullWriter {
    #[allow(unused)]
    fn stdout(&self, pid: &Pid, line: String) {
    }

    #[allow(unused)]
    fn stderr(&self, pid: &Pid, line: String) {
    }
}

/// What to do next with what a process prints.
#[derive(Debug, PartialEq, Eq)]
pub enum Output {
    /// Hand the line of the process to [`ProcessWriter::stdout`].
    Stdout(Pid, String),
    /// Hand the line of the process to [`ProcessWriter::stderr`].
    Stderr(Pid, String),
    /// Read no more.
    End,
}

/// A line read from a pipe of a process, marked with the method of the writer that takes it:
/// both pipes lead to `stdout`.
pub open spec fn line_marked(line: Result<String, IoError>) -> Result<(bool, String), IoError> {
    match line {
        Ok(line) => Ok((true, line)),
        Err(error) => Err(error),
    }
}

/// Marks a line read from a pipe of a process with the method of the writer that takes it.
pub fn mark_line(line: Result<String, IoError>) -> (res: Result<(bool, String), IoError>)
    ensures
        res == line_marked(line),
{
    match line {
        Ok(line) => Ok((true, line)),
        Err(error) => Err(error),
    }
}

/// The reading of what a process prints, in mathematical terms.
pub struct Reading {
    /// The process.
    pub pid: Pid,
    /// Whether there is more to read.
    pub open: bool,
}

impl Reading {
    /// What to do with the next marked line: it is handed on, and the first failure to read ends
    /// the reading, as the end of the pipes does.
    pub open spec fn output(self, next: Option<Result<(bool, String), IoError>>) -> Output {
        if !self.open {
            Output::End
        } else {
            match next {
                Some(Ok((true, line))) => Output::Stdout(self.pid, line),
                Some(Ok((false, line))) => Output::Stderr(self.pid, line),
                Some(Err(_)) => Output::End,
                None => Output::End,
            }
        }
    }

    /// The reading after the next marked line.
    pub open spec fn after(self, next: Option<Result<(bool, String), IoError>>) -> Reading {
        Reading { open: !(self.output(next) is End), ..self }
    }
}

/// Reads what one process prints.
pub struct Reader {
    pid: Pid,
    open: bool,
}

impl View for Reader {
    type V = Reading;

    closed spec fn view(&self) -> Reading {
        Reading { pid: self.pid, open: self.open }
    }
}

impl Reader {
    /// Begins to read what a process prints.
    pub fn new(pid: Pid) -> (res: Reader)
        ensures
            res@ == (Reading { pid, open: true }),
    {
        Reader { pid, open: true }
    }

    /// Says what to do with the next marked line.
    pub fn take(&mut self, next: Option<Result<(bool, String), IoError>>) -> (res: Output)
        ensures
            res == old(self)@.output(next),
            final(self)@ == old(self)@.after(next),
    {
        if !self.open {
            return Output::End;
        }
        match next {
            Some(Ok((stdout, line))) => if stdout {
                Output::Stdout(self.pid, line)
            } else {
                Output::Stderr(self.pid, line)
            },
            Some(Err(_)) | None => {
                self.open = false;
                Output::End
            },
        }
    }
}

} // verus!
