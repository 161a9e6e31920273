//! The optimisation barrier `std::hint::black_box`, with every call
//! recorded in a `SinkLog`.

use vstd::prelude::*;
use crate::sink::SinkLog;

verus! {

/// A value whose hand-over to `black_box` is recorded in a `SinkLog`,
/// as the integer it stands for.
pub trait Sinkable {
    spec fn sunk_value(&self) -> int;
}

impl Sinkable for i32 {
    open spec fn sunk_value(&self) -> int {
        *self as int
    }
}

impl Sinkable for u32 {
    open spec fn sunk_value(&self) -> int {
        *self as int
    }
}

/// `std::hint::black_box`: an identity function that only asks the
/// compiler to treat its argument as unknown. The contract claims what
/// its documentation says, that the value comes back unchanged, and
/// records the call: the ghost `log` gains the argument handed over,
/// so a log can only hold what was actually passed to `black_box`.
#[verifier::external_body]
fn black_box<T: Sinkable>(log: &mut SinkLog, value: T) -> (same: T)
    ensures
        same == value,
        final(log)@ == old(log)@.push(value.sunk_value()),
{
    std::hint::black_box(value)
}

impl SinkLog {
    /// Hands `value` to `black_box`, records it, and returns what
    /// `black_box` gave back: `value` itself.
    pub fn sink_i32(&mut self, value: i32) -> (same: i32)
        ensures
            same == value,
            final(self)@ == old(self)@.push(value as int),
    {
        black_box(self, value)
    }

    /// Hands `value` to `black_box`, records it, and returns what
    /// `black_box` gave back: `value` itself.
    pub fn sink_u32(&mut self, value: u32) -> (same: u32)
        ensures
            same == value,
            final(self)@ == old(self)@.push(value as int),
    {
        black_box(self, value)
    }
}

} // verus!
