//! The handle under which a command is registered.

use vstd::prelude::*;
use vstd::string::*;

use crate::text::{decimal, decimal_determines, decimal_digits, decimal_text, is_digit};

verus! {

/// The handle of a registered command: the slot that it was put in, and the generation that
/// tells it from what the slot held before.
#[derive(Clone, Copy, Debug, PartialEq, Eq, PartialOrd, Ord, Hash, Structural)]
pub struct Pid(pub(crate) usize, pub(crate) u64);

impl Pid {
    /// The slot that the command was put in.
    pub closed spec fn slot(self) -> nat {
        self.0 as nat
    }

    /// How many commands had been removed when this one was registered.
    pub closed spec fn generation(self) -> nat {
        self.1 as nat
    }

    /// The handle as text: `Pid(`, the slot, `, `, the generation, `)`.
    pub open spec fn text(self) -> Seq<char> {
        "Pid("@ + decimal_text(self.slot()) + ", "@ + decimal_text(self.generation()) + ")"@
    }

    /// Writes the handle as text.
    pub(crate) fn write(&self) -> (res: String)
        ensures
            res@ == self.text(),
    {
        let mut res = "Pid(".to_string();
        res.append(decimal(self.0 as u64).as_str());
        res.append(", ");
        res.append(decimal(self.1).as_str());
        res.append(")");
        res
    }
}

/// Slot and generation make up the handle.
pub proof fn pid_determined(p: Pid, q: Pid)
    requires
        p.slot() == q.slot(),
        p.generation() == q.generation(),
    ensures
        p == q,
{
}

/// Every slot and every generation that a machine can count have their handle.
pub proof fn pid_of(slot: nat, generation: nat) -> (pid: Pid)
    requires
        slot <= usize::MAX,
        generation <= u64::MAX,
    ensures
        pid.slot() == slot,
        pid.generation() == generation,
{
    Pid(slot as usize, generation as u64)
}

/// Handles that are written alike are the same handle.
pub proof fn pid_text_determines(p: Pid, q: Pid)
    requires
        p.text() == q.text(),
    ensures
        p == q,
{
    reveal_strlit("Pid(");
    reveal_strlit(", ");
    reveal_strlit(")");
    let (a, b) = (decimal_text(p.slot()), decimal_text(q.slot()));
    let (c, d) = (decimal_text(p.generation()), decimal_text(q.generation()));
    let (x, y) = (p.text(), q.text());
    decimal_digits(p.slot());
    decimal_digits(q.slot());
    assert(forall|i: int| 0 <= i < a.len() ==> #[trigger] a[i] == x[4 + i]);
    assert(forall|i: int| 0 <= i < b.len() ==> #[trigger] b[i] == y[4 + i]);
    assert(x[4 + a.len() as int] == ',');
    assert(y[4 + b.len() as int] == ',');
    if a.len() < b.len() {
        assert(is_digit(b[a.len() as int]));
    }
    if b.len() < a.len() {
        assert(is_digit(a[b.len() as int]));
    }
    assert(a =~= b);
    assert(x.len() == 7 + a.len() + c.len());
    assert(y.len() == 7 + b.len() + d.len());
    assert(forall|i: int| 0 <= i < c.len() ==> #[trigger] c[i] == x[6 + a.len() + i]);
    assert(forall|i: int| 0 <= i < d.len() ==> #[trigger] d[i] == y[6 + b.len() + i]);
    assert(c =~= d);
    decimal_determines(p.slot(), q.slot());
    decimal_determines(p.generation(), q.generation());
    pid_determined(p, q);
}

} // verus!
