use gcpad::codec::get_input;
use gcpad::protocol::{identify_response_bits, origin_response_bits, ProtocolState};
use gcpad::recognizer::{identify_request_bits, origin_request_bits, poll_request_bits};
use gcpad::symbol::Bit;

fn bits_of(pattern: &str) -> Vec<Bit> {
    pattern
        .chars()
        .filter(|c| !c.is_whitespace())
        .map(|c| match c {
            '0' => Bit::Low,
            '1' => Bit::High,
            _ => Bit::Stop,
        })
        .collect()
}

#[test]
fn identify_response_bit_pattern() {
    let expected = bits_of("00001001 00000000 01000000 S");
    assert_eq!(identify_response_bits(), expected);
}

#[test]
fn origin_response_bit_pattern() {
    let expected = bits_of(
        "00000000 11000000 01111111 01111111 01111111 01111111 \
         00000000 00000000 00000000 00000000 S",
    );
    assert_eq!(origin_response_bits(), expected);
}

/// Feeds a whole request into the engine and returns the reply produced by
/// its final symbol, checking that no earlier symbol produced one.
fn feed(engine: &mut ProtocolState, request: &[Bit]) -> Option<Vec<Bit>> {
    let (last, prefix) = request.split_last().unwrap();
    for &bit in prefix {
        assert_eq!(engine.on_symbol(bit), None);
    }
    engine.on_symbol(*last)
}

#[test]
fn identify_request_gets_the_fixed_identify_response() {
    let mut engine = ProtocolState::new();
    let reply = feed(&mut engine, &identify_request_bits());
    assert_eq!(reply, Some(identify_response_bits()));
    assert_eq!(reply.unwrap().len(), 3 * 8 + 1);
    // Dispatch resets the buffer and leaves the poll counter alone.
    assert_eq!(engine.captured_len(), 0);
    assert_eq!(engine.poll_count(), 0);
}

#[test]
fn origin_request_gets_the_fixed_origin_response() {
    let mut engine = ProtocolState::new();
    let reply = feed(&mut engine, &origin_request_bits());
    assert_eq!(reply, Some(origin_response_bits()));
    assert_eq!(reply.unwrap().len(), 10 * 8 + 1);
    assert_eq!(engine.captured_len(), 0);
    assert_eq!(engine.poll_count(), 0);
}

#[test]
fn poll_request_gets_the_snapshot_for_the_poll_count() {
    let mut engine = ProtocolState::new();

    let mut first = poll_request_bits();
    first[22] = Bit::Low;
    first[23] = Bit::High;
    let reply = feed(&mut engine, &first);
    assert_eq!(engine.poll_count(), 1);
    assert_eq!(reply, Some(get_input(1).into_gc_bits()));

    // The motor bits are "don't care": any combination still polls, and the
    // counter keeps advancing.
    let mut second = poll_request_bits();
    second[22] = Bit::High;
    second[23] = Bit::High;
    let reply = feed(&mut engine, &second);
    assert_eq!(engine.poll_count(), 2);
    assert_eq!(reply, Some(get_input(2).into_gc_bits()));
    assert_eq!(reply.unwrap().len(), 8 * 8 + 1);
}

#[test]
fn unrecognized_command_transmits_nothing() {
    let mut engine = ProtocolState::new();
    let request = [
        Bit::High,
        Bit::High,
        Bit::High,
        Bit::High,
        Bit::Low,
        Bit::Low,
        Bit::Low,
        Bit::Low,
        Bit::Stop,
    ];
    let reply = feed(&mut engine, &request);
    assert_eq!(reply, None);
    assert_eq!(engine.captured_len(), 0);
    assert_eq!(engine.poll_count(), 0);
}

#[test]
fn overflow_without_stop_resets_and_stays_silent() {
    let mut engine = ProtocolState::new();
    for _ in 0..33 {
        assert_eq!(engine.on_symbol(Bit::Low), None);
    }
    assert_eq!(engine.captured_len(), 33);
    // The next symbol lands in a fresh buffer.
    assert_eq!(engine.on_symbol(Bit::High), None);
    assert_eq!(engine.captured_len(), 1);
    assert_eq!(engine.poll_count(), 0);
}

#[test]
fn overflow_then_stop_is_not_a_truncated_match() {
    let mut engine = ProtocolState::new();
    for _ in 0..33 {
        assert_eq!(engine.on_symbol(Bit::Low), None);
    }
    // The overflow discarded the 33 symbols, so this Stop arrives in an
    // otherwise empty buffer and matches nothing.
    assert_eq!(engine.on_symbol(Bit::Stop), None);
    assert_eq!(engine.captured_len(), 0);
}

#[test]
fn decode_error_resets_the_capture_buffer() {
    let mut engine = ProtocolState::new();
    assert_eq!(engine.on_symbol(Bit::Low), None);
    assert_eq!(engine.on_symbol(Bit::Low), None);
    assert_eq!(engine.captured_len(), 2);
    engine.on_decode_error();
    assert_eq!(engine.captured_len(), 0);
    assert_eq!(engine.poll_count(), 0);
    // A request arriving after the reset is recognized cleanly.
    let reply = feed(&mut engine, &identify_request_bits());
    assert_eq!(reply, Some(identify_response_bits()));
}

#[test]
fn a_stale_prefix_spoils_recognition_until_reset() {
    let mut engine = ProtocolState::new();
    assert_eq!(engine.on_symbol(Bit::High), None);
    // Identify request bits arriving behind a stray symbol match nothing.
    let reply = feed(&mut engine, &identify_request_bits());
    assert_eq!(reply, None);
    // The Stop still reset the buffer, so the engine recovers.
    let reply = feed(&mut engine, &identify_request_bits());
    assert_eq!(reply, Some(identify_response_bits()));
}
