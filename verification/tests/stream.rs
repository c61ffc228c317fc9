use scout_sdk::{parse_block, SseStep, Stream};

fn event(step: SseStep) -> String {
    match step {
        SseStep::Event(s) => s,
        other => panic!("expected an event, got {other:?}"),
    }
}

/// Every event a body yields when it arrives in the given pieces.
fn events_of(pieces: &[&[u8]]) -> Vec<Option<String>> {
    let mut s = Stream::new();
    let mut out = Vec::new();
    for p in pieces {
        s.push_chunk(p);
        loop {
            match s.next_buffered() {
                SseStep::Event(d) => out.push(Some(d)),
                SseStep::Done => {
                    out.push(None);
                    return out;
                }
                SseStep::NeedMore => break,
            }
        }
    }
    if let Some(d) = s.finish() {
        out.push(Some(d));
    }
    out
}

#[test]
fn parse_block_single_data_line() {
    assert_eq!(parse_block("data: {\"a\":1}\n\n").as_deref(), Some("{\"a\":1}"));
    assert_eq!(parse_block("data:{\"a\":1}").as_deref(), Some("{\"a\":1}"));
    assert_eq!(parse_block("data:  two spaces").as_deref(), Some(" two spaces"));
}

#[test]
fn parse_block_joins_data_lines_and_skips_others() {
    let raw = ": keep-alive\nevent: message\ndata: one\nid: 7\ndata: two\n\n";
    assert_eq!(parse_block(raw).as_deref(), Some("one\ntwo"));
    assert_eq!(parse_block(": only a comment\n\n"), None);
    assert_eq!(parse_block(""), None);
    assert_eq!(parse_block("data"), None);
    assert_eq!(parse_block("data:").as_deref(), Some(""));
}

#[test]
fn decoder_waits_for_a_blank_line() {
    let mut s = Stream::new();
    s.push_chunk(b"data: hel");
    assert!(matches!(s.next_buffered(), SseStep::NeedMore));
    s.push_chunk(b"lo\n");
    assert!(matches!(s.next_buffered(), SseStep::NeedMore));
    s.push_chunk(b"\ndata: next\n\n");
    assert_eq!(event(s.next_buffered()), "hello");
    assert_eq!(event(s.next_buffered()), "next");
    assert!(matches!(s.next_buffered(), SseStep::NeedMore));
}

#[test]
fn decoder_normalizes_crlf_and_skips_empty_blocks() {
    let mut s = Stream::new();
    s.push_chunk(b": ping\r\n\r\ndata: x\r\n\r\n");
    assert_eq!(event(s.next_buffered()), "x");
}

#[test]
fn a_crlf_cut_between_chunks_is_still_one_line_end() {
    let whole = events_of(&[b"data: [DONE]\r\n\r\n"]);
    assert_eq!(whole, vec![None]);
    assert_eq!(events_of(&[b"data: [DONE]\r", b"\n\r\n"]), whole);
    assert_eq!(events_of(&[b"data: [DONE]\r\n\r", b"\n"]), whole);
    assert_eq!(events_of(&[b"data: a\r", b"\n", b"\r", b"\ndata: b\r\n\r\n"]), vec![Some("a".to_string()), Some("b".to_string())]);
}

#[test]
fn a_character_cut_between_chunks_is_decoded_whole() {
    let body = "data: h\u{e9}llo \u{2713}\n\n".as_bytes();
    let whole = events_of(&[body]);
    assert_eq!(whole, vec![Some("h\u{e9}llo \u{2713}".to_string())]);
    for cut in 0..=body.len() {
        assert_eq!(events_of(&[&body[..cut], &body[cut..]]), whole, "cut at {cut}");
    }
    let bytewise: Vec<&[u8]> = body.chunks(1).collect();
    assert_eq!(events_of(&bytewise), whole);
}

#[test]
fn invalid_utf8_becomes_replacement_characters() {
    let mut s = Stream::new();
    s.push_chunk(b"data: a\xffb\n\n");
    assert_eq!(event(s.next_buffered()), "a\u{fffd}b");
}

#[test]
fn a_held_carriage_return_ends_the_stream_as_itself() {
    let mut s = Stream::new();
    s.push_chunk(b"data: x\r");
    assert!(matches!(s.next_buffered(), SseStep::NeedMore));
    assert_eq!(s.finish().as_deref(), Some("x\r"));
}

#[test]
fn decoder_stops_at_done() {
    let mut s = Stream::new();
    s.push_chunk(b"data: a\n\ndata: [DONE]\n\ndata: b\n\n");
    assert_eq!(event(s.next_buffered()), "a");
    assert!(matches!(s.next_buffered(), SseStep::Done));
}

#[test]
fn finish_yields_an_unterminated_last_event() {
    let mut s = Stream::new();
    s.push_chunk(b"data: tail");
    assert!(matches!(s.next_buffered(), SseStep::NeedMore));
    assert_eq!(s.finish().as_deref(), Some("tail"));
    assert_eq!(s.finish(), None);

    let mut d = Stream::new();
    d.push_chunk(b"data: [DONE]");
    assert_eq!(d.finish(), None);

    let mut e = Stream::new();
    assert_eq!(e.finish(), None);
    e.push_chunk(b": comment only");
    assert_eq!(e.finish(), None);
}

#[test]
fn non_ascii_payloads_survive() {
    let mut s = Stream::new();
    s.push_chunk("data: h\u{e9}llo \u{2713}\n\n".as_bytes());
    assert_eq!(event(s.next_buffered()), "h\u{e9}llo \u{2713}");
}
