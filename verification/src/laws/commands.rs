//! What holds of commands, and of what is handed to the operating system for them.

use std::fmt::Display;
use std::path::PathBuf;

use vstd::prelude::*;
use vstd::string::*;

use async_process::Command as Process;

use crate::command::{prints, Command, CommandView};
use crate::environment::{
    ascending, names_at, pairs_view, settings_map, settings_map_at, Environment, Settings,
    Variables,
};
use crate::factory::Factory;
use crate::process::{
    process_argv, process_dir, process_env, process_inherits, process_streams, Stream, StreamTo,
};
use crate::text::text_before;

verus! {

/// A new command says which program to run, and nothing else: it has no arguments, sets no
/// variables and names no directory.
pub proof fn law_command_new<S: Display + ?Sized>(cmd: &S, res: Command, name: Seq<char>)
    requires
        call_ensures(Command::new::<S>, (cmd,), res),
    ensures
        exists|text: String| #[trigger]
            to_string_from_display_ensures::<S>(cmd, text) && text@ == res@.program,
        res@.args.len() == 0,
        res@.env is None,
        !res@.variables().contains_key(name),
        res@.workdir is None,
{
}

/// An argument stands behind those that were added before, and changes nothing else.
pub proof fn law_command_arg<S: Display + ?Sized>(command: Command, arg: &S, res: Command, i: int)
    requires
        call_ensures(Command::arg::<S>, (command, arg), res),
    ensures
        res@.args.len() == command@.args.len() + 1,
        0 <= i < command@.args.len() ==> res@.args[i] == command@.args[i],
        exists|text: String| #[trigger]
            to_string_from_display_ensures::<S>(arg, text) && text@ == res@.args.last(),
        res@.program == command@.program,
        res@.env == command@.env,
        res@.workdir == command@.workdir,
{
}

/// A variable is set to its value, and changes nothing else: every other variable keeps its value
/// or stays unset, and so do the program, the arguments and the directory.
pub proof fn law_command_env<N: Display + ?Sized, S: Display + ?Sized>(
    command: Command,
    field: &N,
    value: &S,
    res: Command,
)
    requires
        call_ensures(Command::env::<N, S>, (command, field, value), res),
    ensures
        res@.program == command@.program,
        res@.args == command@.args,
        res@.workdir == command@.workdir,
        res@.env is Some,
        exists|name: String, text: String|
            {
                &&& #[trigger] to_string_from_display_ensures::<N>(field, name)
                &&& #[trigger] to_string_from_display_ensures::<S>(value, text)
                &&& res@.variables().contains_key(name@)
                &&& res@.variables()[name@] == text@
                &&& forall|other: Seq<char>|
                    other != name@ ==> (#[trigger] res@.variables().contains_key(other)
                        <==> command@.variables().contains_key(other))
                &&& forall|other: Seq<char>|
                    other != name@ && #[trigger] command@.variables().contains_key(other)
                        ==> res@.variables()[other] == command@.variables()[other]
            },
{
    let (n, t) = choose|n: Seq<char>, t: Seq<char>| #[trigger]
        prints(field, n) && #[trigger] prints(value, t) && res@ == command@.with_env(n, t);
    let name = choose|name: String| #[trigger]
        to_string_from_display_ensures::<N>(field, name) && name@ == n;
    let text = choose|text: String| #[trigger]
        to_string_from_display_ensures::<S>(value, text) && text@ == t;
    assert(to_string_from_display_ensures::<N>(field, name));
    assert(to_string_from_display_ensures::<S>(value, text));
}

/// The directory is set, in place of an earlier one, and nothing else changes.
pub proof fn law_command_workdir<P: Into<PathBuf>>(command: Command, path: P, res: Command)
    requires
        call_ensures(Command::workdir::<P>, (command, path), res),
    ensures
        res@.workdir is Some,
        call_ensures(P::into, (path,), res@.workdir->0),
        res@.program == command@.program,
        res@.args == command@.args,
        res@.env == command@.env,
{
}

/// What is said in plain text is taken as it is said: the program, an argument, a variable and its
/// value.
pub proof fn law_command_text(
    text: &str,
    value: &str,
    command: Command,
    new: Command,
    with_arg: Command,
    with_env: Command,
)
    requires
        call_ensures(Command::new::<str>, (text,), new),
        call_ensures(Command::arg::<str>, (command, text), with_arg),
        call_ensures(Command::env::<str, str>, (command, text, value), with_env),
    ensures
        new@.program == text@,
        with_arg@.args.last() == text@,
        with_env@.variables().contains_key(text@),
        with_env@.variables()[text@] == value@,
{
}

/// Each way to say more of a command changes the one thing that it is about.
pub proof fn law_command_frames(
    command: CommandView,
    arg: Seq<char>,
    field: Seq<char>,
    value: Seq<char>,
    dir: PathBuf,
    other: Seq<char>,
)
    ensures
        command.with_arg(arg).program == command.program,
        command.with_arg(arg).args == command.args.push(arg),
        command.with_arg(arg).env == command.env,
        command.with_arg(arg).workdir == command.workdir,
        command.with_env(field, value).program == command.program,
        command.with_env(field, value).args == command.args,
        command.with_env(field, value).workdir == command.workdir,
        command.with_env(field, value).variables().contains_key(field),
        command.with_env(field, value).variables()[field] == value,
        other != field ==> (command.with_env(field, value).variables().contains_key(other)
            <==> command.variables().contains_key(other)),
        other != field && command.variables().contains_key(other) ==> command.with_env(
            field,
            value,
        ).variables()[other] == command.variables()[other],
        command.with_workdir(dir).program == command.program,
        command.with_workdir(dir).args == command.args,
        command.with_workdir(dir).env == command.env,
        command.with_workdir(dir).workdir == Some(dir),
{
}

/// A copy of a command says the same.
pub proof fn law_command_copied(command: &Command, res: Command)
    requires
        call_ensures(<Command as Clone>::clone, (command,), res),
    ensures
        res@.program == command@.program,
        res@.args == command@.args,
        res@.env == command@.env,
        res@.workdir == command@.workdir,
{
}

/// What is handed to the operating system is what the command says: the program before all
/// arguments in order, its variables and no others, with all variables of the parent left to
/// inherit, and its directory. The streams are left as they are.
pub proof fn law_handed_over(command: Command, process: Process, name: Seq<char>, i: int)
    requires
        call_ensures(Command::into_process, (command,), process),
    ensures
        process_argv(process).len() == command@.args.len() + 1,
        process_argv(process)[0] == command@.program,
        0 <= i < command@.args.len() ==> process_argv(process)[i + 1] == command@.args[i],
        process_env(process).contains_key(name) <==> command@.env is Some
            && command@.env->0.contains_key(name),
        process_env(process).contains_key(name) ==> process_env(process)[name]
            == command@.env->0[name],
        process_inherits(process),
        process_dir(process) == command@.workdir,
        !process_streams(process).contains_key(Stream::Stdin),
        !process_streams(process).contains_key(Stream::Stdout),
        !process_streams(process).contains_key(Stream::Stderr),
{
}

/// A process that a manager spawns is handed over as the command is, but for the streams: it reads
/// nothing, and what it prints and reports comes back through pipes.
pub proof fn law_handed_over_piped(command: Command, plain: Process, piped: Process)
    requires
        call_ensures(Command::into_process, (command,), plain),
        call_ensures(Command::into_piped_process, (command,), piped),
    ensures
        process_argv(piped) == process_argv(plain),
        process_env(piped) == process_env(plain),
        process_inherits(piped),
        process_dir(piped) == process_dir(plain),
        process_streams(piped).contains_key(Stream::Stdin),
        process_streams(piped)[Stream::Stdin] == StreamTo::Null,
        process_streams(piped).contains_key(Stream::Stdout),
        process_streams(piped)[Stream::Stdout] == StreamTo::Piped,
        process_streams(piped).contains_key(Stream::Stderr),
        process_streams(piped)[Stream::Stderr] == StreamTo::Piped,
{
}

/// One more variable makes the difference of that variable in what is handed to the operating
/// system, and no other.
pub proof fn law_env_handed_over(
    command: Command,
    field: &str,
    value: &str,
    more: Command,
    before: Process,
    after: Process,
)
    requires
        call_ensures(Command::env::<str, str>, (command, field, value), more),
        call_ensures(Command::into_process, (command,), before),
        call_ensures(Command::into_process, (more,), after),
    ensures
        process_argv(after) == process_argv(before),
        process_dir(after) == process_dir(before),
        process_env(after) == process_env(before).insert(field@, value@),
{
    assert(process_argv(after) =~= process_argv(before));
    assert(process_env(after) =~= process_env(before).insert(field@, value@));
}

/// One more argument makes the difference of that argument in what is handed to the operating
/// system, and no other.
pub proof fn law_arg_handed_over(
    command: Command,
    arg: &str,
    more: Command,
    before: Process,
    after: Process,
)
    requires
        call_ensures(Command::arg::<str>, (command, arg), more),
        call_ensures(Command::into_process, (command,), before),
        call_ensures(Command::into_process, (more,), after),
    ensures
        process_argv(after) == process_argv(before).push(arg@),
        process_dir(after) == process_dir(before),
        process_env(after) == process_env(before),
{
    assert(process_argv(after) =~= process_argv(before).push(arg@));
}

/// Another directory makes the difference of the directory in what is handed to the operating
/// system, and no other.
pub proof fn law_workdir_handed_over<P: Into<PathBuf>>(
    command: Command,
    path: P,
    more: Command,
    before: Process,
    after: Process,
)
    requires
        call_ensures(Command::workdir::<P>, (command, path), more),
        call_ensures(Command::into_process, (command,), before),
        call_ensures(Command::into_process, (more,), after),
    ensures
        process_argv(after) == process_argv(before),
        process_env(after) == process_env(before),
        process_dir(after) is Some,
        call_ensures(P::into, (path,), process_dir(after)->0),
{
    assert(process_argv(after) =~= process_argv(before));
}

/// The command line is the program and then the arguments, and the variables of a command are
/// those that it sets.
pub proof fn law_command_parts(command: CommandView, name: Seq<char>, i: int)
    ensures
        command.argv().len() == command.args.len() + 1,
        command.argv()[0] == command.program,
        0 <= i < command.args.len() ==> command.argv()[i + 1] == command.args[i],
        command.variables().contains_key(name) <==> command.env is Some
            && command.env->0.contains_key(name),
        command.variables().contains_key(name) ==> command.variables()[name]
            == command.env->0[name],
{
}

/// Settings set the variables that they name, each to the value beside the name, and no others.
pub proof fn law_settings_exact(s: Settings, name: Seq<char>, value: Seq<char>)
    requires
        ascending(s),
    ensures
        settings_map(s).contains_key(name) && settings_map(s)[name] == value
            <==> exists|i: int| 0 <= i < s.len() && #[trigger] s[i] == (name, value),
        settings_map(s).contains_key(name) <==> exists|i: int|
            0 <= i < s.len() && (#[trigger] s[i]).0 == name,
{
    if settings_map(s).contains_key(name) {
        let i = choose|i: int| names_at(s, name, i);
        settings_map_at(s, i);
        assert(s[i] == (name, settings_map(s)[name]));
    }
    if exists|i: int| 0 <= i < s.len() && (#[trigger] s[i]).0 == name {
        let i = choose|i: int| 0 <= i < s.len() && (#[trigger] s[i]).0 == name;
        settings_map_at(s, i);
    }
    if exists|i: int| 0 <= i < s.len() && #[trigger] s[i] == (name, value) {
        let i = choose|i: int| 0 <= i < s.len() && #[trigger] s[i] == (name, value);
        settings_map_at(s, i);
    }
}

/// An environment sets what was put in last under each name, and nothing else; its pairs hold
/// just that, in ascending order of the names.
pub proof fn law_environment(
    environment: Environment,
    empty: Environment,
    name: String,
    value: String,
    more: Environment,
    pairs: Vec<(String, String)>,
    other: Seq<char>,
    i: int,
    j: int,
)
    requires
        call_ensures(Environment::new, (), empty),
        call_ensures(Environment::insert, (environment, name, value), more),
        call_ensures(Environment::into_pairs, (environment,), pairs),
    ensures
        !empty@.contains_key(other),
        more@.contains_key(name@),
        more@[name@] == value@,
        other != name@ ==> (more@.contains_key(other) <==> environment@.contains_key(other)),
        other != name@ && environment@.contains_key(other) ==> more@[other] == environment@[other],
        environment@.contains_key(other) <==> exists|k: int|
            0 <= k < pairs@.len() && (#[trigger] pairs@[k]).0@ == other,
        0 <= i < pairs@.len() ==> environment@[pairs@[i].0@] == pairs@[i].1@,
        0 <= i < j < pairs@.len() ==> text_before(pairs@[i].0@, pairs@[j].0@),
{
    let s = pairs_view(pairs@);
    assert(forall|k: int|
        0 <= k < s.len() ==> #[trigger] s[k] == (pairs@[k].0@, pairs@[k].1@));
    law_settings_exact(s, other, other);
    if environment@.contains_key(other) {
        let k = choose|k: int| 0 <= k < s.len() && (#[trigger] s[k]).0 == other;
        assert(pairs@[k].0@ == other);
    }
    if exists|k: int| 0 <= k < pairs@.len() && (#[trigger] pairs@[k]).0@ == other {
        let k = choose|k: int| 0 <= k < pairs@.len() && (#[trigger] pairs@[k]).0@ == other;
        assert(s[k].0 == other);
    }
    if 0 <= i < pairs@.len() {
        settings_map_at(s, i);
        assert(s[i].0 == pairs@[i].0@);
    }
    if 0 <= i < j < pairs@.len() {
        assert(text_before(s[i].0, s[j].0));
    }
}

/// A copy of an environment sets the same.
pub proof fn law_environment_copied(environment: &Environment, res: Environment)
    requires
        call_ensures(<Environment as Clone>::clone, (environment,), res),
    ensures
        res@ == environment@,
{
}

/// A function that gives commands makes just those that it gives.
pub proof fn law_factory<F: Fn() -> Command + Send + Sync>(factory: F, command: Command)
    ensures
        factory.callable() <==> call_requires(factory, ()),
        factory.makes(command) <==> call_ensures(factory, (), command),
{
}

/// A child finds what its command sets, and of the rest what the parent has.
pub proof fn law_child_finds(
    command: CommandView,
    parent: Variables,
    field: Seq<char>,
    value: Seq<char>,
)
    ensures
        command.with_env(field, value).child_variables(parent)[field] == value,
        command.with_env(field, value).child_variables(parent) == command.child_variables(
            parent,
        ).insert(field, value),
{
    assert(command.with_env(field, value).child_variables(parent) =~= command.child_variables(
        parent,
    ).insert(field, value));
}

} // verus!
