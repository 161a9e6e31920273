# lib

Two small code-generation probes, verified with Verus.

- `mpsc(&mut SinkLog)` hands the bit pattern of `5.0f32` to
  `std::hint::black_box`, sends it through a fresh `std::sync::mpsc`
  channel, receives it and hands it to `black_box` again. Its contract
  states both values handed to `black_box` and the value returned.
- `five_plus_six(&mut SinkLog)` hands 5, 6 and then the constant sum 11 to
  `black_box`; its contract states those three values, in order.
- `channel_round_trip(value)` states, for every `u32`, that a receive on
  a fresh channel gives back what was sent.

`src/sink.rs` keeps a ghost record of every value handed to `black_box`.
`src/channel.rs` holds both ends of a channel in private fields and
states, over the queue between them, what the standard library documents
of `send` and `recv`. `app/main.rs` runs both probes.
