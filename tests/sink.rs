use aspeak_cli::sink::{Destination, OutputSink, SinkAction};

fn written_bytes(chunks: &[&[u8]]) -> (Vec<u8>, bool) {
    let mut sink = OutputSink::new(Destination::File);
    let mut file = Vec::new();
    let mut flushed = false;
    for chunk in chunks {
        match sink.accept(Some(chunk)) {
            SinkAction::Write(b) => file.extend_from_slice(&b),
            other => panic!("unexpected {:?}", other),
        }
    }
    match sink.accept(None) {
        SinkAction::Flush => flushed = true,
        other => panic!("unexpected {:?}", other),
    }
    assert!(sink.is_ended());
    (file, flushed)
}

#[test]
fn file_sink_writes_chunks_in_order() {
    let (file, flushed) = written_bytes(&[b"ab", b"cd"]);
    assert_eq!(file, b"abcd".to_vec());
    assert!(flushed);
}

#[test]
fn file_sink_without_chunks_leaves_empty_file() {
    let (file, flushed) = written_bytes(&[]);
    assert!(file.is_empty());
    assert!(flushed);
}

#[test]
fn file_sink_split_does_not_matter() {
    let whole: &[u8] = b"RIFF\x00\x01\x02\x03data";
    let (one, _) = written_bytes(&[whole]);
    let (bytes, _) = written_bytes(&[b"R", b"IFF\x00", b"\x01\x02\x03d", b"a", b"ta"]);
    let (halves, _) = written_bytes(&[&whole[..7], &whole[7..]]);
    assert_eq!(one, whole.to_vec());
    assert_eq!(bytes, one);
    assert_eq!(halves, one);
}

#[test]
fn file_sink_passes_each_chunk_through() {
    let mut sink = OutputSink::new(Destination::File);
    assert_eq!(sink.destination(), Destination::File);
    match sink.accept(Some(b"xyz")) {
        SinkAction::Write(b) => assert_eq!(b, b"xyz".to_vec()),
        other => panic!("unexpected {:?}", other),
    }
    assert!(!sink.is_ended());
}

#[test]
fn playback_sink_without_bytes_plays_nothing() {
    let mut sink = OutputSink::new(Destination::Playback);
    assert!(matches!(sink.accept(None), SinkAction::Idle));
    assert!(sink.is_ended());
}

#[test]
fn playback_sink_plays_whole_clip_once() {
    let mut sink = OutputSink::new(Destination::Playback);
    assert_eq!(sink.destination(), Destination::Playback);
    let chunks: [&[u8]; 3] = [b"OggS", b"\x00\x02", b"rest"];
    for chunk in chunks {
        assert!(matches!(sink.accept(Some(chunk)), SinkAction::Idle));
    }
    match sink.accept(None) {
        SinkAction::Play(b) => assert_eq!(b, b"OggS\x00\x02rest".to_vec()),
        other => panic!("unexpected {:?}", other),
    }
    assert!(sink.is_ended());
}
