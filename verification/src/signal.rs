//! Signals to processes.

use vstd::prelude::*;

use signal_child::signal::Signal;

verus! {

/// A signal, carried as it is.
#[verifier::external_type_specification]
#[verifier::external_body]
pub struct ExSignal(Signal);

/// The number of the signal that ends a process at once.
pub const SIGKILL: i32 = 9;

/// The signal of a number.
pub uninterp spec fn signal_of(number: i32) -> Signal;

/// Calls `Signal::try_from` of `signal_child` on a number: every number from 1 to 31 has its
/// signal, and no other number has one.
#[verifier::external_body]
fn signal_from_number(number: i32) -> (res: Option<Signal>)
    ensures
        res is Some <==> 0 < number < 32,
        res is Some ==> res->0 == signal_of(number),
{
    Signal::try_from(number).ok()
}

/// The signal that ends a process at once.
pub fn kill_signal() -> (res: Signal)
    ensures
        res == signal_of(SIGKILL),
{
    signal_from_number(SIGKILL).unwrap()
}

/// A signal on its way to a process of the operating system.
#[derive(Debug, Clone, Copy, PartialEq, Eq)]
pub struct Delivery {
    /// The number of the process, as the operating system takes it.
    pub target: i32,
    /// The signal.
    pub signal: Signal,
}

impl Delivery {
    /// The delivery of a signal to the process `id`.
    pub open spec fn to(id: u32, signal: Signal) -> Delivery {
        Delivery { target: id as i32, signal }
    }

    /// Addresses a signal to the process `id`.
    pub fn new(id: u32, signal: Signal) -> (res: Delivery)
        ensures
            res == Delivery::to(id, signal),
            res.signal == signal,
            id <= i32::MAX ==> res.target == id,
    {
        Delivery { target: id as i32, signal }
    }
}

} // verus!
