//! What can go wrong with a process.

use std::io::Error as IoError;
use std::sync::Arc;

use vstd::prelude::*;
use vstd::string::*;

use crate::pid::Pid;

verus! {

/// An error of the operating system, carried as it is.
#[verifier::external_type_specification]
#[verifier::external_body]
pub struct ExIoError(IoError);

/// What went wrong.
#[derive(Debug)]
pub enum ErrorKind {
    /// The operating system reported an error.
    Io(Arc<IoError>),
}

impl From<IoError> for ErrorKind {
    fn from(error: IoError) -> (res: ErrorKind) {
        ErrorKind::Io(Arc::new(error))
    }
}

impl vstd::std_specs::convert::FromSpecImpl<IoError> for ErrorKind {
    open spec fn obeys_from_spec() -> bool {
        true
    }

    open spec fn from_spec(error: IoError) -> ErrorKind {
        ErrorKind::Io(Arc::new(error))
    }
}

/// An error, with the process that it is about where there is one.
#[derive(Debug)]
pub struct Error {
    pid: Option<Pid>,
    kind: ErrorKind,
}

impl Clone for ErrorKind {
    fn clone(&self) -> (res: ErrorKind)
        ensures
            res == *self,
    {
        match self {
            ErrorKind::Io(error) => ErrorKind::Io(error.clone()),
        }
    }
}

impl Clone for Error {
    fn clone(&self) -> (res: Error)
        ensures
            res == *self,
    {
        Error { pid: self.pid, kind: self.kind.clone() }
    }
}

/// `Option::<T>::from` on a `T` wraps it in `Some`, as std documents.
pub assume_specification<T>[ <Option<T> as From<T>>::from ](t: T) -> (res: Option<T>)
    ensures
        res == Some(t),
;

/// How a process, or its absence, is written at the head of an error.
pub open spec fn subject_text(pid: Option<Pid>) -> Seq<char> {
    match pid {
        Some(pid) => "Some("@ + pid.text() + ")"@,
        None => "None"@,
    }
}

/// How an error is written, given what the operating system says.
pub open spec fn error_text(pid: Option<Pid>, io: Seq<char>) -> Seq<char> {
    subject_text(pid) + ":Io error: "@ + io
}

impl Error {
    /// The process that the error is about.
    pub closed spec fn spec_pid(self) -> Option<Pid> {
        self.pid
    }

    /// What went wrong.
    pub closed spec fn spec_kind(self) -> ErrorKind {
        self.kind
    }

    /// The error about `pid` of the kind `kind`.
    pub closed spec fn spec_new(pid: Option<Pid>, kind: ErrorKind) -> Error {
        Error { pid, kind }
    }

    /// An error about the process `pid`.
    pub fn new<P: Into<Option<Pid>>>(pid: P, kind: ErrorKind) -> (res: Error)
        ensures
            call_ensures(P::into, (pid,), res.spec_pid()),
            res == Error::spec_new(res.spec_pid(), kind),
            res.spec_kind() == kind,
    {
        Error { pid: pid.into(), kind }
    }

    /// The process that the error is about.
    pub fn pid(&self) -> (res: Option<Pid>)
        ensures
            res == self.spec_pid(),
    {
        self.pid
    }

    /// What went wrong.
    pub fn kind(&self) -> (res: &ErrorKind)
        ensures
            *res == self.spec_kind(),
    {
        &self.kind
    }

    /// Writes the error, given what the operating system says of it.
    pub fn describe(pid: Option<Pid>, io: &str) -> (res: String)
        ensures
            res@ == error_text(pid, io@),
    {
        let mut res = match pid {
            Some(pid) => {
                let mut head = "Some(".to_string();
                head.append(pid.write().as_str());
                head.append(")");
                head
            },
            None => "None".to_string(),
        };
        res.append(":Io error: ");
        res.append(io);
        res
    }

    /// Writes the error.
    pub fn to_string(&self) -> (res: String)
        ensures
            exists|io: String| #[trigger]
                to_string_from_display_ensures::<IoError>(&*self.spec_kind()->Io_0, io) && res@
                    == error_text(self.spec_pid(), io@),
    {
        match &self.kind {
            ErrorKind::Io(error) => {
                let io_error: &IoError = error;
                let io = io_error.to_string();
                let res = Error::describe(self.pid, io.as_str());
                assert(to_string_from_display_ensures::<IoError>(&*self.spec_kind()->Io_0, io));
                assert(res@ == error_text(self.spec_pid(), io@));
                res
            },
        }
    }
}

/// An error says which process it is about and what went wrong.
pub proof fn error_parts(pid: Option<Pid>, kind: ErrorKind)
    ensures
        Error::spec_new(pid, kind).spec_pid() == pid,
        Error::spec_new(pid, kind).spec_kind() == kind,
{
}

} // verus!
