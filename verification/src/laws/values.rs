//! What holds of states, signals, errors and lines by themselves.

use std::io::Error as IoError;

use vstd::prelude::*;
use vstd::string::*;
use vstd::utf8::*;

use signal_child::signal::Signal;

use crate::error::{error_text, Error, ErrorKind};
use crate::output::{mark_line, Output, Reader, Reading};
use crate::pid::{pid_text_determines, Pid};
use crate::signal::{kill_signal, signal_of, Delivery, SIGKILL};
use crate::status::{EntryState, ProcessStatus, Status};
use crate::text::{
    bytes_before, decimal_digits, decimal_text, digit_char, parts_below, text_before,
};

verus! {

/// What is reported of a state tells what the state is: the process that runs, how the process
/// ended, that the command was not started, or that something failed.
pub proof fn law_status(state: EntryState, id: u32)
    ensures
        Status::of(state) == Status::Running(id) <==> state == EntryState::Running(id),
        Status::of(state) is Running <==> state is Running,
        Status::of(state) is Exited <==> state is Status,
        state is Status ==> Status::of(state)->Exited_0 == state->Status_0,
        Status::of(state) is Crated <==> state is Stopped,
        Status::of(state) is Error <==> state is Error,
{
}

/// A state is reported alike, whether it is handed over or only shown.
pub proof fn law_status_from(state: EntryState, moved: Status, shown: Status, id: u32)
    requires
        call_ensures(<Status as From<EntryState>>::from, (state,), moved),
        call_ensures(<Status as From<&EntryState>>::from, (&state,), shown),
    ensures
        moved == shown,
        moved == Status::Running(id) <==> state == EntryState::Running(id),
        moved is Running <==> state is Running,
        moved is Exited <==> state is Status,
        state is Status ==> moved->Exited_0 == state->Status_0,
        moved is Crated <==> state is Stopped,
        moved is Error <==> state is Error,
{
}

/// A command, and what is reported of it, is stopped exactly where it does not run.
pub proof fn law_is_stopped(
    state: &EntryState,
    state_stopped: bool,
    report: &ProcessStatus,
    report_stopped: bool,
)
    requires
        call_ensures(EntryState::is_stopped, (state,), state_stopped),
        call_ensures(ProcessStatus::is_stopped, (report,), report_stopped),
    ensures
        state_stopped <==> !(*state is Running),
        report_stopped <==> !(report.status is Running),
        state.spec_is_stopped() <==> !(*state is Running),
        report.spec_is_stopped() <==> !(report.status is Running),
{
}

/// A delivery carries the signal that was given, to the process that was given: read as a process
/// number again, the target is that of the process, and it is the same number where that fits.
pub proof fn law_delivery(id: u32, signal: Signal, res: Delivery)
    requires
        call_ensures(Delivery::new, (id, signal), res),
    ensures
        res.signal == signal,
        res.target as u32 == id,
        id <= i32::MAX ==> res.target == id,
        id > i32::MAX ==> res.target == id - 0x1_0000_0000,
        Delivery::to(id, signal).signal == signal,
        Delivery::to(id, signal).target == res.target,
{
    assert(id as i32 as u32 == id) by (bit_vector);
    assert(id <= 0x7fff_ffff ==> id as i32 == id) by (bit_vector);
    assert(id > 0x7fff_ffff ==> id as i32 == id - 0x1_0000_0000) by (bit_vector);
}

/// Deliveries that are alike carry the same signal to the same process.
pub proof fn law_deliveries_differ(id: u32, signal: Signal, other: u32, other_signal: Signal)
    ensures
        Delivery::to(id, signal) == Delivery::to(other, other_signal) <==> id == other && signal
            == other_signal,
{
    assert(id as i32 as u32 == id) by (bit_vector);
    assert(other as i32 as u32 == other) by (bit_vector);
}

/// The signal that ends a process at once is the one of number nine.
pub proof fn law_kill_signal(res: Signal)
    requires
        call_ensures(kill_signal, (), res),
    ensures
        res == signal_of(SIGKILL),
        res == signal_of(9),
{
}

/// An error is about the process that it was made for, and holds what it was made of; a copy of it
/// does too.
pub proof fn law_error(
    pid: Option<Pid>,
    kind: ErrorKind,
    error: Error,
    copy: Error,
    found: Option<Pid>,
    cause: &ErrorKind,
)
    requires
        call_ensures(Error::new::<Option<Pid>>, (pid, kind), error),
        call_ensures(<Error as Clone>::clone, (&error,), copy),
        call_ensures(Error::pid, (&error,), found),
        call_ensures(Error::kind, (&error,), cause),
    ensures
        found == pid,
        *cause == kind,
        copy.spec_pid() == found,
        copy.spec_kind() == kind,
{
}

/// An error that is made for a process is about that process.
pub proof fn law_error_about(pid: Pid, kind: ErrorKind, error: Error)
    requires
        call_ensures(Error::new::<Pid>, (pid, kind), error),
    ensures
        error.spec_pid() == Some(pid),
        error.spec_kind() == kind,
{
}

/// What the operating system reported is kept in an error as it is.
pub proof fn law_error_kind(error: IoError, kind: ErrorKind, copy: ErrorKind)
    requires
        call_ensures(<ErrorKind as From<IoError>>::from, (error,), kind),
        call_ensures(<ErrorKind as Clone>::clone, (&kind,), copy),
    ensures
        *kind->Io_0 == error,
        copy == kind,
{
}

/// How an error is written, in one piece.
proof fn error_text_parts(pid: Option<Pid>, io: Seq<char>)
    ensures
        pid is None ==> error_text(pid, io) == "None:Io error: "@ + io,
        pid matches Some(p) ==> error_text(pid, io) == "Some(Pid("@ + decimal_text(p.slot())
            + ", "@ + decimal_text(p.generation()) + ")):Io error: "@ + io,
{
    reveal_strlit("None:Io error: ");
    reveal_strlit("None");
    reveal_strlit(":Io error: ");
    reveal_strlit("Some(Pid(");
    reveal_strlit("Some(");
    reveal_strlit("Pid(");
    reveal_strlit(", ");
    reveal_strlit(")");
    reveal_strlit(")):Io error: ");
    if pid is None {
        assert(error_text(pid, io) =~= "None:Io error: "@ + io);
    } else {
        let p = pid->0;
        assert(error_text(pid, io) =~= "Some(Pid("@ + decimal_text(p.slot()) + ", "@ + decimal_text(
            p.generation(),
        ) + ")):Io error: "@ + io);
    }
}

/// An error is written as the process that it is about, with slot and generation, or the absence
/// of one, and then what the operating system says.
pub proof fn law_error_text(pid: Option<Pid>, io: &str, res: String)
    requires
        call_ensures(Error::describe, (pid, io), res),
    ensures
        pid is None ==> res@ == "None:Io error: "@ + io@,
        pid matches Some(pid) ==> res@ == "Some(Pid("@ + decimal_text(pid.slot()) + ", "@
            + decimal_text(pid.generation()) + ")):Io error: "@ + io@,
{
    error_text_parts(pid, io@);
}

/// An error that is printed ends in the words that the operating system has for what it holds,
/// behind the process that it is about.
pub proof fn law_error_printed(error: &Error, res: String)
    requires
        call_ensures(Error::to_string, (error,), res),
    ensures
        exists|io: String|
            {
                &&& #[trigger] to_string_from_display_ensures::<IoError>(
                    &*error.spec_kind()->Io_0,
                    io,
                )
                &&& error.spec_pid() is None ==> res@ == "None:Io error: "@ + io@
                &&& error.spec_pid() matches Some(pid) ==> res@ == "Some(Pid("@ + decimal_text(
                    pid.slot(),
                ) + ", "@ + decimal_text(pid.generation()) + ")):Io error: "@ + io@
            },
{
    let io = choose|io: String| #[trigger]
        to_string_from_display_ensures::<IoError>(&*error.spec_kind()->Io_0, io) && res@
            == error_text(error.spec_pid(), io@);
    error_text_parts(error.spec_pid(), io@);
    assert(to_string_from_display_ensures::<IoError>(&*error.spec_kind()->Io_0, io));
}

/// Errors that are written alike, with the same words of the operating system, are about the same
/// process.
pub proof fn law_error_text_determines(p: Option<Pid>, q: Option<Pid>, io: Seq<char>)
    requires
        error_text(p, io) == error_text(q, io),
    ensures
        p == q,
{
    reveal_strlit("None");
    reveal_strlit(":Io error: ");
    reveal_strlit("Some(");
    reveal_strlit(")");
    let (x, y) = (error_text(p, io), error_text(q, io));
    assert(p is None ==> x[0] == 'N');
    assert(q is None ==> y[0] == 'N');
    assert(p is Some ==> x[0] == 'S');
    assert(q is Some ==> y[0] == 'S');
    if p is Some && q is Some {
        let (a, b) = (p->0.text(), q->0.text());
        assert(x.len() == 5 + a.len() + 1 + 11 + io.len());
        assert(y.len() == 5 + b.len() + 1 + 11 + io.len());
        assert(forall|i: int| 0 <= i < a.len() ==> #[trigger] a[i] == x[5 + i]);
        assert(forall|i: int| 0 <= i < b.len() ==> #[trigger] b[i] == y[5 + i]);
        assert(a =~= b);
        pid_text_determines(p->0, q->0);
    }
}

/// The number that is written in decimal as `text`.
pub open spec fn decimal_value(text: Seq<char>) -> int
    decreases text.len(),
{
    if text.len() == 0 {
        0
    } else {
        10 * decimal_value(text.drop_last()) + (text.last() as int - '0' as int)
    }
}

/// A number that is written in decimal reads back as the number, and has no leading zeros.
pub proof fn law_decimal(n: nat)
    ensures
        decimal_value(decimal_text(n)) == n,
        decimal_text(n).len() > 0,
        forall|i: int|
            0 <= i < decimal_text(n).len() ==> '0' <= #[trigger] decimal_text(n)[i] <= '9',
        decimal_text(n)[0] == '0' ==> decimal_text(n).len() == 1,
    decreases n,
{
    decimal_digits(n);
    assert forall|i: int| 0 <= i < decimal_text(n).len() implies '0'
        <= #[trigger] decimal_text(n)[i] <= '9' by {
        assert(crate::text::is_digit(decimal_text(n)[i]));
    }
    assert(digit_char(n % 10) as int - '0' as int == n % 10);
    if n >= 10 {
        law_decimal(n / 10);
        assert(decimal_text(n).drop_last() =~= decimal_text(n / 10));
        assert(decimal_text(n)[0] == decimal_text(n / 10)[0]);
        if decimal_text(n / 10)[0] == '0' {
            let rest = decimal_text(n / 10);
            assert(rest.drop_last().len() == 0);
            assert(decimal_value(rest.drop_last()) == 0);
            assert(decimal_value(rest) == 0);
        }
    } else {
        assert(decimal_text(n).drop_last().len() == 0);
        assert(decimal_value(decimal_text(n).drop_last()) == 0);
    }
}

/// The first place at which two byte strings differ, where there is one.
proof fn first_difference(x: Seq<u8>, y: Seq<u8>, n: int) -> (at: int)
    requires
        0 <= n <= x.len(),
        n <= y.len(),
    ensures
        0 <= at <= n,
        forall|i: int| 0 <= i < at ==> #[trigger] x[i] == y[i],
        at < n ==> x[at] != y[at],
    decreases n,
{
    if n == 0 {
        0
    } else {
        let at = first_difference(x, y, n - 1);
        if at < n - 1 || x[n - 1] != y[n - 1] {
            at
        } else {
            n
        }
    }
}

/// Of two strings, the first byte in which they differ decides which comes first, the smaller one
/// before the greater; where there is none, the shorter comes before the longer. Of two different
/// strings one comes first.
pub proof fn law_text_order(a: Seq<char>, b: Seq<char>, at: int)
    requires
        0 <= at <= encode_utf8(a).len(),
        at <= encode_utf8(b).len(),
        forall|i: int| 0 <= i < at ==> #[trigger] encode_utf8(a)[i] == encode_utf8(b)[i],
    ensures
        at < encode_utf8(a).len() && at < encode_utf8(b).len() && encode_utf8(a)[at] < encode_utf8(
            b,
        )[at] ==> text_before(a, b) && !text_before(b, a),
        at == encode_utf8(a).len() && at < encode_utf8(b).len() ==> text_before(a, b)
            && !text_before(b, a),
        a != b ==> text_before(a, b) || text_before(b, a),
{
    let (x, y) = (encode_utf8(a), encode_utf8(b));
    if (at < x.len() && at < y.len() && x[at] < y[at]) || (at == x.len() && at < y.len()) {
        assert(parts_below(x, y, at));
        if text_before(b, a) {
            let k = choose|k: int| parts_below(y, x, k);
            assert(k <= at);
        }
    }
    if a != b {
        let n = if x.len() < y.len() {
            x.len() as int
        } else {
            y.len() as int
        };
        let k = first_difference(x, y, n);
        if k < n {
            assert(parts_below(x, y, k) || parts_below(y, x, k));
        } else if x.len() < y.len() {
            assert(parts_below(x, y, k));
        } else if y.len() < x.len() {
            assert(parts_below(y, x, k));
        } else {
            assert(x =~= y);
            encode_utf8_decode_utf8(a);
            encode_utf8_decode_utf8(b);
        }
        assert(bytes_before(x, y) || bytes_before(y, x));
    }
}

/// A line goes to the method of the writer that it is marked for, as it is and under the handle of
/// the process; a failure to read, and the end of the pipes, end the reading, and nothing else
/// does.
pub proof fn law_marked_line(
    reading: Reading,
    next: Option<Result<(bool, String), IoError>>,
    line: String,
)
    requires
        reading.open,
    ensures
        next == Some(Ok::<(bool, String), IoError>((true, line))) ==> reading.output(next)
            == Output::Stdout(reading.pid, line),
        next == Some(Ok::<(bool, String), IoError>((false, line))) ==> reading.output(next)
            == Output::Stderr(reading.pid, line),
        reading.output(next) is End <==> next is None || next->0 is Err,
        reading.after(next).open <==> next is Some && next->0 is Ok,
        reading.after(next).pid == reading.pid,
{
}

/// A line is marked for `stdout` and otherwise left as it is; a failure to read stays the failure
/// that it is.
pub proof fn law_mark_line(
    line: Result<String, IoError>,
    res: Result<(bool, String), IoError>,
)
    requires
        call_ensures(mark_line, (line,), res),
    ensures
        line matches Ok(text) ==> res is Ok && res->Ok_0.0 && res->Ok_0.1 == text,
        line matches Err(error) ==> res is Err && res->Err_0 == error,
{
}

/// The first line that a new reader is given is handed on under the handle of its process.
pub proof fn law_reader(pid: Pid, reader: Reader, line: String)
    requires
        call_ensures(Reader::new, (pid,), reader),
    ensures
        reader@.pid == pid,
        reader@.open,
        reader@.output(Some(Ok((true, line)))) == Output::Stdout(pid, line),
{
}

/// What a reader does with what it is given is what its reading calls for.
pub proof fn law_reader_takes(
    reader: &mut Reader,
    next: Option<Result<(bool, String), IoError>>,
    res: Output,
)
    requires
        call_ensures(Reader::take, (reader, next), res),
    ensures
        res == old(reader)@.output(next),
        final(reader)@ == old(reader)@.after(next),
{
}

} // verus!
