//! What to run: program, arguments, environment and working directory.

use std::fmt::Display;
use std::path::PathBuf;

use vstd::prelude::*;
use vstd::string::*;

use async_process::Command as Process;

use crate::environment::{
    ascending, pairs_view, settings_map, settings_map_inserted, Environment, Variables,
};
use crate::process::{
    process_arg, process_argv, process_current_dir, process_dir, process_env,
    process_inherits, process_new,
    process_set_env, process_stderr, process_stdin, process_stdout, process_streams, Stream,
    StreamTo, Streams,
};

verus! {

/// What a [`Command`] says, in mathematical terms.
pub struct CommandView {
    /// The program.
    pub program: Seq<char>,
    /// Its arguments, in order.
    pub args: Seq<Seq<char>>,
    /// The variables that it sets, where it sets any.
    pub env: Option<Variables>,
    /// The directory that it starts in, where it names one.
    pub workdir: Option<PathBuf>,
}

impl CommandView {
    /// The variables that the command sets.
    pub open spec fn variables(self) -> Variables {
        match self.env {
            Some(env) => env,
            None => Map::empty(),
        }
    }

    /// The command that runs `program` and says nothing else.
    pub open spec fn running(program: Seq<char>) -> CommandView {
        CommandView { program, args: Seq::empty(), env: None, workdir: None }
    }

    /// The command with one more argument behind the others.
    pub open spec fn with_arg(self, arg: Seq<char>) -> CommandView {
        CommandView { args: self.args.push(arg), ..self }
    }

    /// The command that sets the variable `field` to `value`, and all others as before.
    pub open spec fn with_env(self, field: Seq<char>, value: Seq<char>) -> CommandView {
        CommandView { env: Some(self.variables().insert(field, value)), ..self }
    }

    /// The command that starts in the directory `dir`.
    pub open spec fn with_workdir(self, dir: PathBuf) -> CommandView {
        CommandView { workdir: Some(dir), ..self }
    }

    /// The variables that a child finds when the process that spawns it has those of `parent`:
    /// the command's own, and all others as they are there.
    pub open spec fn child_variables(self, parent: Variables) -> Variables {
        parent.union_prefer_right(self.variables())
    }

    /// The command line: the program, then its arguments.
    pub open spec fn argv(self) -> Seq<Seq<char>> {
        seq![self.program] + self.args
    }
}

/// A command that can be run as a child process.
#[derive(Debug, PartialEq)]
pub struct Command {
    cmd: String,
    args: Vec<String>,
    env: Option<Environment>,
    workdir: Option<PathBuf>,
}

/// Whether `value` is written as `text`.
pub open spec fn prints<S: Display + ?Sized>(value: &S, text: Seq<char>) -> bool {
    exists|string: String| #[trigger]
        to_string_from_display_ensures::<S>(value, string) && string@ == text
}

/// The views of the strings.
pub open spec fn texts(strings: Seq<String>) -> Seq<Seq<char>> {
    strings.map_values(|s: String| s@)
}

impl View for Command {
    type V = CommandView;

    closed spec fn view(&self) -> CommandView {
        CommandView {
            program: self.cmd@,
            args: texts(self.args@),
            env: match self.env {
                Some(env) => Some(env@),
                None => None,
            },
            workdir: self.workdir,
        }
    }
}

/// `PathBuf::clone` gives the same path.
pub assume_specification[ <PathBuf as Clone>::clone ](path: &PathBuf) -> (res: PathBuf)
    ensures
        res == *path,
;

/// `T::from` on a `T` gives its argument back, as std documents of the conversion of a type
/// into itself.
pub assume_specification<T>[ <T as From<T>>::from ](t: T) -> (res: T)
    ensures
        res == t,
;

impl Command {
    /// A command that runs `cmd` without arguments, in the environment and the directory of
    /// the process that starts it.
    pub fn new<S: Display + ?Sized>(cmd: &S) -> (res: Command)
        ensures
            prints(cmd, res@.program),
            res@ == CommandView::running(res@.program),
    {
        let res = Command {
            cmd: cmd.to_string(),
            args: Vec::new(),
            env: None,
            workdir: None,
        };
        assert(res@.args =~= Seq::<Seq<char>>::empty());
        res
    }

    /// Adds an argument behind the others.
    pub fn arg<S: Display + ?Sized>(self, arg: &S) -> (res: Command)
        ensures
            exists|text: Seq<char>| #[trigger]
                prints(arg, text) && res@ == self@.with_arg(text),
    {
        let mut command = self;
        let text = arg.to_string();
        assert(prints(arg, text@));
        command.args.push(text);
        assert(command@.args =~= self@.args.push(text@));
        command
    }

    /// Sets the variable `field` to `value` for the child, in place of an earlier value.
    pub fn env<N: Display + ?Sized, S: Display + ?Sized>(self, field: &N, value: &S) -> (res:
        Command)
        ensures
            exists|name: Seq<char>, text: Seq<char>| #[trigger]
                prints(field, name) && #[trigger] prints(value, text) && res@ == self@.with_env(
                    name,
                    text,
                ),
    {
        let mut command = self;
        let env = match command.env {
            Some(env) => env,
            None => Environment::new(),
        };
        let name = field.to_string();
        let text = value.to_string();
        assert(prints(field, name@) && prints(value, text@));
        command.env = Some(env.insert(name, text));
        command
    }

    /// Starts the command in the directory `path`.
    pub fn workdir<P: Into<PathBuf>>(self, path: P) -> (res: Command)
        ensures
            res@.workdir is Some,
            call_ensures(P::into, (path,), res@.workdir->0),
            res@ == self@.with_workdir(res@.workdir->0),
    {
        let mut command = self;
        command.workdir = Some(path.into());
        command
    }

    /// Hands the command to the operating system's builder of processes: the program and its
    /// arguments, the variables in ascending order of their names, and the directory. All other
    /// variables are left for the child to inherit.
    pub fn into_process(self) -> (res: Process)
        ensures
            process_argv(res) == self@.argv(),
            process_env(res) == self@.variables(),
            process_inherits(res),
            process_dir(res) == self@.workdir,
            process_streams(res) == Streams::empty(),
    {
        let mut process = process_new(self.cmd);
        let args = self.args;
        assert(process_argv(process) =~= seq![self@.program] + texts(args@.take(0)));
        for arg in it: args
            invariant
                it.seq() == args@,
                process_argv(process) == seq![self@.program] + texts(args@.take(it.index())),
                process_env(process) == Variables::empty(),
                process_inherits(process),
                process_dir(process) is None,
                process_streams(process) == Streams::empty(),
        {
            assert(texts(args@.take(it.index() + 1)) =~= texts(args@.take(it.index())).push(arg@));
            process_arg(&mut process, arg);
        }
        assert(args@.take(args@.len() as int) =~= args@);
        if let Some(env) = self.env {
            let pairs = env.into_pairs();
            let ghost all = pairs_view(pairs@);
            assert(settings_map(all.take(0)) =~= Variables::empty());
            for pair in it: pairs
                invariant
                    it.seq() == pairs@,
                    all == pairs_view(pairs@),
                    process_argv(process) == seq![self@.program] + self@.args,
                    ascending(all),
                    process_env(process) == settings_map(all.take(it.index())),
                    process_inherits(process),
                    process_dir(process) is None,
                    process_streams(process) == Streams::empty(),
            {
                proof {
                    let n = it.index();
                    let done = all.take(n);
                    assert(all[n] == (pair.0@, pair.1@));
                    assert(all.take(n + 1) =~= done.insert(n, all[n]));
                    assert forall|k: int| 0 <= k < n implies crate::text::text_before(
                        #[trigger] done[k].0,
                        all[n].0,
                    ) by {
                        assert(crate::text::text_before(all[k].0, all[n].0));
                    }
                    assert(ascending(done)) by {
                        assert forall|i: int, j: int|
                            0 <= i < j < done.len() implies #[trigger] crate::text::text_before(
                            done[i].0,
                            done[j].0,
                        ) by {
                            assert(crate::text::text_before(all[i].0, all[j].0));
                        }
                    }
                    settings_map_inserted(done, n, all[n].0, all[n].1);
                }
                process_set_env(&mut process, pair.0, pair.1);
            }
            assert(all.take(all.len() as int) =~= all);
        }
        if let Some(dir) = self.workdir {
            process_current_dir(&mut process, dir);
        }
        process
    }

    /// The process that a manager spawns for the command: it reads nothing, and what it prints
    /// and reports comes back through pipes.
    pub fn into_piped_process(self) -> (res: Process)
        ensures
            process_argv(res) == self@.argv(),
            process_env(res) == self@.variables(),
            process_inherits(res),
            process_dir(res) == self@.workdir,
            process_streams(res) == Streams::empty().insert(Stream::Stdin, StreamTo::Null).insert(
                Stream::Stdout,
                StreamTo::Piped,
            ).insert(Stream::Stderr, StreamTo::Piped),
    {
        let mut process = self.into_process();
        process_stdin(&mut process, StreamTo::Null);
        process_stdout(&mut process, StreamTo::Piped);
        process_stderr(&mut process, StreamTo::Piped);
        process
    }
}

impl Clone for Command {
    fn clone(&self) -> (res: Command)
        ensures
            res@ == self@,
    {
        let res = Command {
            cmd: self.cmd.clone(),
            args: self.args.clone(),
            env: match &self.env {
                Some(env) => Some(env.clone()),
                None => None,
            },
            workdir: match &self.workdir {
                Some(dir) => Some(dir.clone()),
                None => None,
            },
        };
        assert(res@.args =~= self@.args);
        res
    }
}

} // verus!
