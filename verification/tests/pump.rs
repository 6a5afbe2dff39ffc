use terminal_sessions::pump::{
    OutputPump, PumpAction, PumpEvent, EMIT_INTERVAL_MILLIS, EMIT_MAX_BUFFER_BYTES,
    READ_CHUNK_BYTES,
};
use terminal_sessions::utf8_stream::decode_pending;

fn run(chunks: &[&[u8]]) -> String {
    let mut pump = OutputPump::new();
    let mut out = String::new();
    for chunk in chunks {
        let action = pump.step(PumpEvent::Chunk(chunk.to_vec()));
        if let Some(text) = action.emit {
            out.push_str(&text);
        }
        assert!(!action.stop);
    }
    let last = pump.step(PumpEvent::Disconnected);
    assert!(last.stop);
    if let Some(text) = last.emit {
        out.push_str(&text);
    }
    out
}

#[test]
fn constants_have_their_values() {
    assert_eq!(EMIT_INTERVAL_MILLIS, 16);
    assert_eq!(EMIT_MAX_BUFFER_BYTES, 64 * 1024);
    assert_eq!(READ_CHUNK_BYTES, 16 * 1024);
}

#[test]
fn decode_pending_moves_valid_text() {
    let mut bytes = b"hello".to_vec();
    let mut text = String::from(">");
    decode_pending(&mut bytes, &mut text);
    assert_eq!(text, ">hello");
    assert!(bytes.is_empty());
}

#[test]
fn decode_pending_holds_back_an_unfinished_scalar() {
    let mut bytes = vec![b'a', 0xE2, 0x82];
    let mut text = String::new();
    decode_pending(&mut bytes, &mut text);
    assert_eq!(text, "a");
    assert_eq!(bytes, vec![0xE2, 0x82]);
}

#[test]
fn decode_pending_replaces_each_offending_byte() {
    let mut bytes = vec![b'a', 0xFF, 0xFE, b'b', 0xC0, b'c'];
    let mut text = String::new();
    decode_pending(&mut bytes, &mut text);
    assert_eq!(text, "a\u{FFFD}\u{FFFD}b\u{FFFD}c");
    assert!(bytes.is_empty());
}

#[test]
fn decode_pending_replaces_a_broken_sequence_byte_by_byte() {
    // E2 82 begins a three-byte scalar that 'A' cannot continue: the two
    // bytes are replaced one by one.
    let mut bytes = vec![0xE2, 0x82, b'A'];
    let mut text = String::new();
    decode_pending(&mut bytes, &mut text);
    assert_eq!(text, "\u{FFFD}\u{FFFD}A");
    assert!(bytes.is_empty());
}

#[test]
fn decode_pending_rejects_surrogates_and_overlong_forms() {
    let mut bytes = vec![0xED, 0xA0, 0x80, 0xE0, 0x80, 0x80];
    let mut text = String::new();
    decode_pending(&mut bytes, &mut text);
    assert_eq!(text, "\u{FFFD}".repeat(6));
    assert!(bytes.is_empty());
}

#[test]
fn chunking_does_not_change_the_text() {
    let text = "héllo wörld €uro 😀 done";
    let stream: Vec<u8> = text.bytes().chain([0xFF, 0xE2, 0x82]).collect();
    let whole = run(&[&stream]);
    assert_eq!(whole, "héllo wörld €uro 😀 done\u{FFFD}\u{FFFD}");
    for cut in 0..=stream.len() {
        let (a, b) = stream.split_at(cut);
        assert_eq!(run(&[a, b]), whole);
    }
    let singles: Vec<&[u8]> = stream.chunks(1).collect();
    assert_eq!(run(&singles), whole);
    let triples: Vec<&[u8]> = stream.chunks(3).collect();
    assert_eq!(run(&triples), whole);
}

#[test]
fn split_character_is_sent_whole_by_the_next_flush() {
    let euro = "€".as_bytes();
    let mut pump = OutputPump::new();
    let first = pump.step(PumpEvent::Chunk(vec![b'a', euro[0], euro[1]]));
    assert_eq!(first, PumpAction { emit: None, stop: false });
    let idle = pump.step(PumpEvent::Timeout);
    assert_eq!(idle, PumpAction { emit: Some("a".to_string()), stop: false });
    let again = pump.step(PumpEvent::Timeout);
    assert_eq!(again, PumpAction { emit: None, stop: false });
    let second = pump.step(PumpEvent::Chunk(vec![euro[2], b'b']));
    assert_eq!(second, PumpAction { emit: None, stop: false });
    let flush = pump.step(PumpEvent::Timeout);
    assert_eq!(flush, PumpAction { emit: Some("€b".to_string()), stop: false });
}

#[test]
fn four_byte_character_split_at_every_point() {
    let face = "😀".as_bytes();
    for cut in 1..face.len() {
        let mut pump = OutputPump::new();
        let a = pump.step(PumpEvent::Chunk(face[..cut].to_vec()));
        assert_eq!(a.emit, None);
        assert_eq!(pump.step(PumpEvent::Timeout).emit, None);
        let b = pump.step(PumpEvent::Chunk(face[cut..].to_vec()));
        assert_eq!(b.emit, None);
        assert_eq!(pump.step(PumpEvent::Timeout).emit, Some("😀".to_string()));
    }
}

#[test]
fn timeout_with_nothing_buffered_sends_nothing() {
    let mut pump = OutputPump::new();
    assert_eq!(pump.step(PumpEvent::Timeout), PumpAction { emit: None, stop: false });
    assert_eq!(pump.step(PumpEvent::Chunk(Vec::new())), PumpAction { emit: None, stop: false });
    assert_eq!(pump.step(PumpEvent::Timeout), PumpAction { emit: None, stop: false });
}

#[test]
fn buffer_at_the_threshold_is_sent_at_once() {
    let mut pump = OutputPump::new();
    let below = pump.step(PumpEvent::Chunk(vec![b'x'; EMIT_MAX_BUFFER_BYTES - 1]));
    assert_eq!(below.emit, None);
    let at = pump.step(PumpEvent::Chunk(vec![b'y']));
    let text = at.emit.expect("the buffer has reached the threshold");
    assert_eq!(text.len(), EMIT_MAX_BUFFER_BYTES);
    assert!(text.ends_with("xy"));
    assert!(!at.stop);
    assert_eq!(pump.step(PumpEvent::Timeout).emit, None);
}

#[test]
fn threshold_counts_bytes_not_characters() {
    let mut pump = OutputPump::new();
    let euros = "€".repeat(EMIT_MAX_BUFFER_BYTES / 3);
    let below = pump.step(PumpEvent::Chunk(euros.clone().into_bytes()));
    assert_eq!(below.emit, None);
    let over = pump.step(PumpEvent::Chunk("€".as_bytes().to_vec()));
    assert_eq!(over.emit.map(|t| t.len()), Some(EMIT_MAX_BUFFER_BYTES + 2));
}

#[test]
fn disconnect_replaces_what_is_held_back() {
    let mut pump = OutputPump::new();
    assert_eq!(pump.step(PumpEvent::Chunk(vec![b'o', b'k', 0xF0, 0x9F, 0x98])).emit, None);
    let last = pump.step(PumpEvent::Disconnected);
    assert_eq!(last, PumpAction { emit: Some("ok\u{FFFD}".to_string()), stop: true });
    assert!(pump.is_finished());
}

#[test]
fn disconnect_with_nothing_buffered_sends_nothing() {
    let mut pump = OutputPump::new();
    assert_eq!(pump.step(PumpEvent::Disconnected), PumpAction { emit: None, stop: true });
}

#[test]
fn nothing_is_sent_after_the_end() {
    let mut pump = OutputPump::new();
    assert!(!pump.is_finished());
    pump.step(PumpEvent::Chunk(b"abc".to_vec()));
    pump.step(PumpEvent::Disconnected);
    let late = pump.step(PumpEvent::Chunk(b"late".to_vec()));
    assert_eq!(late, PumpAction { emit: None, stop: true });
    assert_eq!(pump.step(PumpEvent::Timeout), PumpAction { emit: None, stop: true });
    assert_eq!(pump.step(PumpEvent::Disconnected), PumpAction { emit: None, stop: true });
}

#[test]
fn failed_emit_stops_the_pump() {
    let mut pump = OutputPump::new();
    pump.step(PumpEvent::Chunk(b"abc".to_vec()));
    assert_eq!(pump.step(PumpEvent::EmitFailed), PumpAction { emit: None, stop: true });
    assert!(pump.is_finished());
    assert_eq!(pump.step(PumpEvent::Timeout), PumpAction { emit: None, stop: true });
}
