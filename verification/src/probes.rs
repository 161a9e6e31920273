//! The two probes: a channel round trip and a constant addition, each
//! keeping its values observable through `black_box`.

use vstd::prelude::*;
use crate::channel::channel_round_trip;
use crate::sink::SinkLog;

verus! {

/// The IEEE 754 single-precision encoding of `5.0`, the value that
/// `mpsc` takes through the channel.
pub const FIVE_F32_BITS: u32 = 0x40A0_0000;

/// Sinks `5.0` (as its bit pattern), sends what `black_box` gave back
/// through a fresh channel, receives it and sinks what was received.
/// Exactly two values are appended to the log of `black_box` arguments,
/// both the bits of `5.0`, the second (received) equal to the first
/// (sent); earlier entries are untouched, and the received bits, the
/// last value sunk, are returned.
pub fn mpsc(sinks: &mut SinkLog) -> (received: u32)
    ensures
        received == FIVE_F32_BITS,
        final(sinks)@ == old(sinks)@ + seq![FIVE_F32_BITS as int, FIVE_F32_BITS as int],
        final(sinks)@.len() == old(sinks)@.len() + 2,
        final(sinks)@.subrange(0, old(sinks)@.len() as int) == old(sinks)@,
        final(sinks)@[old(sinks)@.len() + 1int] == final(sinks)@[old(sinks)@.len() as int],
        final(sinks)@.last() == received as int,
{
    let value = sinks.sink_u32(FIVE_F32_BITS);
    let received = channel_round_trip(value);
    sinks.sink_u32(received)
}

/// Sinks 5, then 6, then the sum `5 + 6` of the constants (not of what
/// `black_box` gave back), and returns the value sunk last: 11. Exactly
/// three values are appended to the log of `black_box` arguments, the
/// third the sum of the first two; earlier entries are untouched.
pub fn five_plus_six(sinks: &mut SinkLog) -> (sum: i32)
    ensures
        sum == 11,
        final(sinks)@ == old(sinks)@ + seq![5int, 6int, 11int],
        final(sinks)@.len() == old(sinks)@.len() + 3,
        final(sinks)@.subrange(0, old(sinks)@.len() as int) == old(sinks)@,
        final(sinks)@[old(sinks)@.len() + 2int]
            == final(sinks)@[old(sinks)@.len() as int] + final(sinks)@[old(sinks)@.len() + 1int],
        final(sinks)@.last() == sum as int,
{
    let _five: i32 = sinks.sink_i32(5);
    let _six: i32 = sinks.sink_i32(6);
    sinks.sink_i32(5 + 6)
}

} // verus!
