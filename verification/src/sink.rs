//! A record of the values handed to `std::hint::black_box`, so that
//! contracts can say what a probe keeps observable and in what order.
//! The record is a private field of this module, and nothing here writes
//! it but the constructor: it grows only through the `black_box` wrapper
//! in `barrier`.

use vstd::prelude::*;

verus! {

/// Every value handed to `black_box` through this log, in call order.
/// The record is ghost, written only by the `black_box` wrapper: at run
/// time the log is empty.
pub struct SinkLog {
    trace: Ghost<Seq<int>>,
}

impl View for SinkLog {
    type V = Seq<int>;

    closed spec fn view(&self) -> Seq<int> {
        self.trace@
    }
}

impl SinkLog {
    /// A log with nothing recorded yet.
    pub fn new() -> (log: SinkLog)
        ensures
            log@ == Seq::<int>::empty(),
    {
        SinkLog { trace: Ghost(Seq::empty()) }
    }
}

} // verus!
