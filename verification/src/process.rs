//! The operating system's side of a command: what is handed to `async_process::Command` before
//! it is spawned.

use std::path::PathBuf;

use async_process::Command as Process;

use vstd::prelude::*;

use crate::environment::Variables;

verus! {

/// A standard stream of a child process.
#[derive(Clone, Copy, Debug, PartialEq, Eq, Structural)]
pub enum Stream {
    /// What the child reads.
    Stdin,
    /// What the child prints.
    Stdout,
    /// What the child reports.
    Stderr,
}

/// Where a standard stream of a child process leads.
#[derive(Clone, Copy, Debug, PartialEq, Eq, Structural)]
pub enum StreamTo {
    /// Nowhere: reads give nothing, writes are thrown away.
    Null,
    /// To the process that spawns the child.
    Piped,
}

/// Standard streams that are connected, each with where it leads.
pub type Streams = Map<Stream, StreamTo>;

/// The builder of child processes of `async_process`.
#[verifier::external_type_specification]
#[verifier::external_body]
pub struct ExProcess(Process);

/// A path of the file system, carried as it is.
#[verifier::external_type_specification]
#[verifier::external_body]
pub struct ExPathBuf(PathBuf);

/// The command line that the builder holds: the program, then its arguments, as they were
/// handed to it. What the operating system makes of them when the process is spawned is not
/// stated; it refuses a string with a NUL byte.
pub uninterp spec fn process_argv(process: Process) -> Seq<Seq<char>>;

/// The variables that the builder sets for the child, each with its value.
pub uninterp spec fn process_env(process: Process) -> Variables;

/// Whether the builder lets the child inherit every variable of the process that spawns it: it
/// was told neither to clear them nor to take one away.
pub uninterp spec fn process_inherits(process: Process) -> bool;

/// The directory that the builder starts the child in, where one was handed to it.
pub uninterp spec fn process_dir(process: Process) -> Option<PathBuf>;

/// The streams that the builder connects, each with where it leads.
pub uninterp spec fn process_streams(process: Process) -> Streams;

/// Calls `async_process::Command::new`: the builder holds the program, with no arguments, no
/// variables of its own, no directory and no stream connected, and lets the child inherit its
/// variables.
#[verifier::external_body]
pub(crate) fn process_new(program: String) -> (res: Process)
    ensures
        process_argv(res) == seq![program@],
        process_env(res) == Variables::empty(),
        process_inherits(res),
        process_dir(res) is None,
        process_streams(res) == Streams::empty(),
{
    Process::new(program)
}

/// Calls `async_process::Command::arg`: the argument stands behind those handed over before.
#[verifier::external_body]
pub(crate) fn process_arg(process: &mut Process, arg: String)
    ensures
        process_argv(*final(process)) == process_argv(*old(process)).push(arg@),
        process_env(*final(process)) == process_env(*old(process)),
        process_inherits(*final(process)) == process_inherits(*old(process)),
        process_dir(*final(process)) == process_dir(*old(process)),
        process_streams(*final(process)) == process_streams(*old(process)),
{
    process.arg(arg);
}

/// Calls `async_process::Command::env`: the variable is set, in place of what the builder set it
/// to before. Names are told apart by case, as everywhere but on Windows, which
/// `signal_child` leaves out.
#[verifier::external_body]
pub(crate) fn process_set_env(process: &mut Process, name: String, value: String)
    ensures
        process_argv(*final(process)) == process_argv(*old(process)),
        process_env(*final(process)) == process_env(*old(process)).insert(name@, value@),
        process_inherits(*final(process)) == process_inherits(*old(process)),
        process_dir(*final(process)) == process_dir(*old(process)),
        process_streams(*final(process)) == process_streams(*old(process)),
{
    process.env(name, value);
}

/// Calls `async_process::Command::current_dir`: the child starts in the directory.
#[verifier::external_body]
pub(crate) fn process_current_dir(process: &mut Process, dir: PathBuf)
    ensures
        process_argv(*final(process)) == process_argv(*old(process)),
        process_env(*final(process)) == process_env(*old(process)),
        process_inherits(*final(process)) == process_inherits(*old(process)),
        process_dir(*final(process)) == Some(dir),
        process_streams(*final(process)) == process_streams(*old(process)),
{
    process.current_dir(dir);
}

/// Calls `async_process::Command::stdin` with `Stdio::null()` or `Stdio::piped()`: the stream
/// leads there.
#[verifier::external_body]
pub(crate) fn process_stdin(process: &mut Process, to: StreamTo)
    ensures
        process_argv(*final(process)) == process_argv(*old(process)),
        process_env(*final(process)) == process_env(*old(process)),
        process_inherits(*final(process)) == process_inherits(*old(process)),
        process_dir(*final(process)) == process_dir(*old(process)),
        process_streams(*final(process)) == process_streams(*old(process)).insert(
            Stream::Stdin,
            to,
        ),
{
    process.stdin(match to {
        StreamTo::Null => async_process::Stdio::null(),
        StreamTo::Piped => async_process::Stdio::piped(),
    });
}

/// Calls `async_process::Command::stdout` with `Stdio::null()` or `Stdio::piped()`: the stream
/// leads there.
#[verifier::external_body]
pub(crate) fn process_stdout(process: &mut Process, to: StreamTo)
    ensures
        process_argv(*final(process)) == process_argv(*old(process)),
        process_env(*final(process)) == process_env(*old(process)),
        process_inherits(*final(process)) == process_inherits(*old(process)),
        process_dir(*final(process)) == process_dir(*old(process)),
        process_streams(*final(process)) == process_streams(*old(process)).insert(
            Stream::Stdout,
            to,
        ),
{
    process.stdout(match to {
        StreamTo::Null => async_process::Stdio::null(),
        StreamTo::Piped => async_process::Stdio::piped(),
    });
}

/// Calls `async_process::Command::stderr` with `Stdio::null()` or `Stdio::piped()`: the stream
/// leads there.
#[verifier::external_body]
pub(crate) fn process_stderr(process: &mut Process, to: StreamTo)
    ensures
        process_argv(*final(process)) == process_argv(*old(process)),
        process_env(*final(process)) == process_env(*old(process)),
        process_inherits(*final(process)) == process_inherits(*old(process)),
        process_dir(*final(process)) == process_dir(*old(process)),
        process_streams(*final(process)) == process_streams(*old(process)).insert(
            Stream::Stderr,
            to,
        ),
{
    process.stderr(match to {
        StreamTo::Null => async_process::Stdio::null(),
        StreamTo::Piped => async_process::Stdio::piped(),
    });
}

} // verus!
