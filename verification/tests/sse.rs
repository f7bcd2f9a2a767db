use daedalusd::error::ProviderError;
use daedalusd::llm::sse::SseDecoder;


#[test]
fn single_line_event() {
    let mut d = SseDecoder::new();
    d.push(b"data: hello\n\n").unwrap();
    let ev = d.next_event().unwrap();
    assert_eq!(ev.data.as_deref(), Some("hello"));
    assert!(d.next_event().is_none());
}

#[test]
fn multi_line_data() {
    let mut d = SseDecoder::new();
    d.push(b"data: line1\ndata: line2\n\n").unwrap();
    let ev = d.next_event().unwrap();
    assert_eq!(ev.data.as_deref(), Some("line1\nline2"));
}

#[test]
fn event_type_field() {
    let mut d = SseDecoder::new();
    d.push(b"event: ping\ndata: {}\n\n").unwrap();
    let ev = d.next_event().unwrap();
    assert_eq!(ev.event_type.as_deref(), Some("ping"));
    assert_eq!(ev.data.as_deref(), Some("{}"));
}

#[test]
fn comment_ignored() {
    let mut d = SseDecoder::new();
    d.push(b": this is a comment\ndata: real\n\n").unwrap();
    let ev = d.next_event().unwrap();
    assert_eq!(ev.data.as_deref(), Some("real"));
}

#[test]
fn utf8_split_across_chunks() {
    let mut d = SseDecoder::new();
    // "é" in UTF-8 is 0xC3 0xA9
    d.push(b"data: \xC3").unwrap();
    assert!(d.next_event().is_none());
    d.push(b"\xA9\n\n").unwrap();
    let ev = d.next_event().unwrap();
    assert_eq!(ev.data.as_deref(), Some("é"));
}

#[test]
fn eof_flushes_partial_line() {
    let mut d = SseDecoder::new();
    d.push(b"data: final").unwrap();
    assert!(d.next_event().is_none());
    d.finish().unwrap();
    let ev = d.next_event().unwrap();
    assert_eq!(ev.data.as_deref(), Some("final"));
    assert!(d.next_event().is_none());
}

#[test]
fn crlf_line_ending() {
    let mut d = SseDecoder::new();
    d.push(b"data: hello\r\n\r\n").unwrap();
    let ev = d.next_event().unwrap();
    assert_eq!(ev.data.as_deref(), Some("hello"));
}

#[test]
fn cr_only_line_ending() {
    let mut d = SseDecoder::new();
    d.push(b"data: hello\r\r").unwrap();
    // Two CRs = two empty lines triggers event flush.
    let ev = d.next_event().unwrap();
    assert_eq!(ev.data.as_deref(), Some("hello"));
}

#[test]
fn multiple_events_in_one_chunk() {
    let mut d = SseDecoder::new();
    d.push(b"data: first\n\ndata: second\n\n").unwrap();
    let ev1 = d.next_event().unwrap();
    assert_eq!(ev1.data.as_deref(), Some("first"));
    let ev2 = d.next_event().unwrap();
    assert_eq!(ev2.data.as_deref(), Some("second"));
    assert!(d.next_event().is_none());
}

#[test]
fn push_rejects_invalid_utf8() {
    let mut d = SseDecoder::new();
    // 0xFF is never valid in UTF-8.
    let err = d.push(b"data: \xFF\xFF\n\n").unwrap_err();
    assert!(matches!(err, ProviderError::Parse(_)));
    assert!(err.to_display_string().contains("UTF-8"));
}

#[test]
fn finish_rejects_invalid_utf8() {
    let mut d = SseDecoder::new();
    d.push(b"data: ").unwrap();
    // Append an incomplete + invalid byte.
    d.byte_buf.push(0xFF);
    let err = d.finish().unwrap_err();
    assert!(matches!(err, ProviderError::Parse(_)));
    assert!(err.to_display_string().contains("UTF-8"));
}


fn drain(d: &mut SseDecoder) -> Vec<(Option<String>, Option<String>)> {
    let mut out = Vec::new();
    while let Some(ev) = d.next_event() {
        out.push((ev.data, ev.event_type));
    }
    out
}

#[test]
fn chunk_boundaries_do_not_change_the_events() {
    let stream: &[u8] = "event: a\ndata: 你好\r\n\r\ndata: x\rdata: y\n\n: note\ndata: z\n\n".as_bytes();
    let mut whole = SseDecoder::new();
    whole.push(stream).unwrap();
    whole.finish().unwrap();
    let expected = drain(&mut whole);
    assert_eq!(expected.len(), 3);
    for cut in 0..=stream.len() {
        let mut d = SseDecoder::new();
        d.push(&stream[..cut]).unwrap();
        d.push(&stream[cut..]).unwrap();
        d.finish().unwrap();
        assert_eq!(drain(&mut d), expected, "cut at {cut}");
    }
}

#[test]
fn a_split_crlf_ends_one_line() {
    let mut d = SseDecoder::new();
    d.push(b"data: a\r").unwrap();
    d.push(b"\ndata: b\n\n").unwrap();
    d.finish().unwrap();
    // the "\n" completes the "\r\n" begun in the first chunk
    let evs = drain(&mut d);
    assert_eq!(evs.len(), 1);
    assert_eq!(evs[0].0.as_deref(), Some("a\nb"));
}

#[test]
fn every_split_of_a_stream_gives_the_same_events() {
    let stream: &[u8] = b"data: a\r\n\r\ndata: b\r\rdata: c\r\n\r\n";
    let mut whole = SseDecoder::new();
    whole.push(stream).unwrap();
    whole.finish().unwrap();
    let expected = drain(&mut whole);
    assert_eq!(expected.len(), 3);
    for a in 0..=stream.len() {
        for b in a..=stream.len() {
            let mut d = SseDecoder::new();
            d.push(&stream[..a]).unwrap();
            d.push(&stream[a..b]).unwrap();
            d.push(&stream[b..]).unwrap();
            d.finish().unwrap();
            assert_eq!(drain(&mut d), expected, "cuts at {a}, {b}");
        }
    }
}

#[test]
fn invalid_utf8_message_names_the_decoder_error() {
    let mut d = SseDecoder::new();
    match d.push(b"data: \xFF\n") {
        Err(ProviderError::Parse(m)) => {
            assert_eq!(m, "SSE: invalid UTF-8 in line: invalid utf-8 sequence of 1 bytes from index 6")
        }
        other => panic!("expected a parse error, got {:?}", other),
    }
}
