//! Small code-generation probes: a value taken through a standard
//! channel and back, and an addition of two constants, each kept
//! observable through `std::hint::black_box`.

mod barrier;
mod channel;
pub mod probes;
pub mod sink;

pub use channel::channel_round_trip;
pub use probes::{five_plus_six, mpsc, FIVE_F32_BITS};
pub use sink::SinkLog;
