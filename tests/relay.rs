use script_runner::relay::{open_tail, OutputEvent, Relay, StreamTag};

fn feed(relay: &mut Relay, chunks: &[&[u8]]) -> Vec<OutputEvent> {
    let mut events = Vec::new();
    for c in chunks {
        if let Some(e) = relay.push(c) {
            events.push(e);
        }
    }
    if let Some(e) = relay.finish() {
        events.push(e);
    }
    events
}

fn joined(events: &[OutputEvent]) -> Vec<u8> {
    events.iter().flat_map(|e| e.payload.clone()).collect()
}

#[test]
fn whole_output_in_one_chunk() {
    let mut r = Relay::new(StreamTag::Stdout);
    let events = feed(&mut r, &[b"a\nb\n"]);
    assert_eq!(events.len(), 1);
    assert_eq!(events[0].payload, b"a\nb\n".to_vec());
    assert_eq!(events[0].seq, 0);
    assert_eq!(events[0].stream, StreamTag::Stdout);
}

#[test]
fn byte_by_byte_chunks_reassemble() {
    let mut r = Relay::new(StreamTag::Stdout);
    let events = feed(&mut r, &[b"a", b"\n", b"b", b"\n"]);
    assert_eq!(joined(&events), b"a\nb\n".to_vec());
    let seqs: Vec<u64> = events.iter().map(|e| e.seq).collect();
    assert_eq!(seqs, vec![0, 1, 2, 3]);
}

#[test]
fn uneven_chunks_reassemble() {
    let mut r = Relay::new(StreamTag::Stderr);
    let events = feed(&mut r, &[b"a\nb", b"", b"\n"]);
    assert_eq!(joined(&events), b"a\nb\n".to_vec());
    assert!(events.iter().all(|e| e.stream == StreamTag::Stderr));
}

#[test]
fn split_character_is_held_back() {
    // "é" is 0xC3 0xA9
    let mut r = Relay::new(StreamTag::Stdout);
    let first = r.push(&[b'x', 0xC3]).unwrap();
    assert_eq!(first.payload, vec![b'x']);
    assert_eq!(r.pending(), &vec![0xC3]);
    let second = r.push(&[0xA9, b'\n']).unwrap();
    assert_eq!(second.payload, vec![0xC3, 0xA9, b'\n']);
    assert_eq!(second.seq, 1);
    assert!(r.finish().is_none());
}

#[test]
fn only_partial_character_gives_no_event() {
    let mut r = Relay::new(StreamTag::Stdout);
    assert!(r.push(&[0xE2, 0x82]).is_none());
    assert_eq!(r.next_seq(), 0);
    let e = r.push(&[0xAC]).unwrap();
    assert_eq!(String::from_utf8(e.payload).unwrap(), "\u{20ac}");
}

#[test]
fn trailing_partial_is_flushed_at_end() {
    let mut r = Relay::new(StreamTag::Stdout);
    let events = feed(&mut r, &[b"ok", &[0xF0, 0x9F]]);
    assert_eq!(events.len(), 2);
    assert_eq!(events[1].payload, vec![0xF0, 0x9F]);
    assert_eq!(joined(&events), vec![b'o', b'k', 0xF0, 0x9F]);
}

#[test]
fn empty_stream_gives_no_events() {
    let mut r = Relay::new(StreamTag::Stderr);
    assert!(feed(&mut r, &[]).is_empty());
}

#[test]
fn open_tail_lengths() {
    assert_eq!(open_tail(&vec![]), 0);
    assert_eq!(open_tail(&b"abc".to_vec()), 0);
    assert_eq!(open_tail(&vec![b'a', 0xC3]), 1);
    assert_eq!(open_tail(&vec![0xC3, 0xA9]), 0);
    assert_eq!(open_tail(&vec![0xE2, 0x82]), 2);
    assert_eq!(open_tail(&vec![0xF0, 0x9F, 0x98]), 3);
    assert_eq!(open_tail(&vec![0xF0, 0x9F, 0x98, 0x80]), 0);
    assert_eq!(open_tail(&vec![0x80, 0x80, 0x80]), 0);
}
