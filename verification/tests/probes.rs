use lib::{channel_round_trip, five_plus_six, mpsc, SinkLog, FIVE_F32_BITS};

#[test]
fn five_plus_six_gives_eleven() {
    let mut sinks = SinkLog::new();
    assert_eq!(five_plus_six(&mut sinks), 11);
}

#[test]
fn five_plus_six_is_the_same_on_every_call() {
    let mut sinks = SinkLog::new();
    let first = five_plus_six(&mut sinks);
    let second = five_plus_six(&mut sinks);
    assert_eq!(first, second);
}

#[test]
fn five_bits_encode_five() {
    assert_eq!(5.0f32.to_bits(), FIVE_F32_BITS);
    assert_eq!(f32::from_bits(FIVE_F32_BITS), 5.0f32);
}

#[test]
fn mpsc_receives_what_was_sent() {
    let mut sinks = SinkLog::new();
    let received = mpsc(&mut sinks);
    assert_eq!(received, FIVE_F32_BITS);
    assert_eq!(f32::from_bits(received), 5.0f32);
}

#[test]
fn mpsc_opens_a_fresh_channel_on_every_call() {
    let mut sinks = SinkLog::new();
    assert_eq!(mpsc(&mut sinks), FIVE_F32_BITS);
    assert_eq!(mpsc(&mut sinks), FIVE_F32_BITS);
}

#[test]
fn round_trip_gives_back_every_value() {
    for value in [0u32, 1, 7, u32::MAX, FIVE_F32_BITS] {
        assert_eq!(channel_round_trip(value), value);
    }
}

#[test]
fn round_trip_keeps_special_float_bits() {
    for value in [f32::NAN, -0.0f32, f32::INFINITY, f32::NEG_INFINITY, 5.0f32] {
        let bits = value.to_bits();
        assert_eq!(channel_round_trip(bits), bits);
    }
    let odd_nan = 0x7fc0_1234u32;
    assert_eq!(channel_round_trip(odd_nan), odd_nan);
}
