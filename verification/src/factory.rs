//! Where commands come from.

use vstd::prelude::*;

use crate::command::Command;

verus! {

/// Makes commands.
pub trait Factory: Send + Sync {
    /// Whether the factory can be called.
    spec fn callable(&self) -> bool;

    /// Whether the factory can make `command`.
    spec fn makes(&self, command: Command) -> bool;

    /// Makes a command.
    fn call(&self) -> (res: Command)
        requires
            self.callable(),
        ensures
            self.makes(res),
    ;
}

impl<F> Factory for F where F: Fn() -> Command + Send + Sync {
    open spec fn callable(&self) -> bool {
        call_requires(*self, ())
    }

    open spec fn makes(&self, command: Command) -> bool {
        call_ensures(*self, (), command)
    }

    fn call(&self) -> (res: Command) {
        (self)()
    }
}

/// A process that stands in for another.
pub struct ProxyChild {}

} // verus!
