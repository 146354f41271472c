use dogstatsd::{BatchAction, Batcher, Message};

fn data(s: &str) -> Message {
    Message::Data(s.as_bytes().to_vec())
}

#[test]
fn frames_below_thresholds_are_held() {
    let mut batcher = Batcher::new(64, 1_000, 0);
    for (i, frame) in ["a:1|c", "b:2|g", "c:3|h"].iter().enumerate() {
        match batcher.handle(data(frame), 100 * i as u128) {
            BatchAction::Hold => {}
            _ => panic!("flushed before a threshold was crossed"),
        }
    }
    assert_eq!(batcher.pending_len(), 18);
    match batcher.handle(Message::Shutdown, 500) {
        BatchAction::FlushAndStop(bytes) => assert_eq!(bytes, b"a:1|c\nb:2|g\nc:3|h\n".to_vec()),
        _ => panic!("shutdown must flush"),
    }
    assert_eq!(batcher.pending_len(), 0);
}

#[test]
fn reaching_the_size_flushes_the_whole_buffer() {
    let mut batcher = Batcher::new(12, 1_000, 0);
    assert!(matches!(batcher.handle(data("abcde"), 1), BatchAction::Hold));
    match batcher.handle(data("fghij"), 2) {
        BatchAction::Flush(bytes) => assert_eq!(bytes, b"abcde\nfghij\n".to_vec()),
        _ => panic!("a buffer of max_buffer_size bytes must be flushed"),
    }
    assert_eq!(batcher.pending_len(), 0);
    assert!(matches!(batcher.handle(data("k"), 3), BatchAction::Hold));
}

#[test]
fn a_stale_buffer_is_flushed_by_the_next_frame() {
    let mut batcher = Batcher::new(1024, 2_000, 10);
    assert!(matches!(batcher.handle(data("my_stat:7|g|#tag1:value1"), 20), BatchAction::Hold));
    assert!(matches!(batcher.handle(data("my_count:29|c|#tag1:value1"), 2_010), BatchAction::Hold));
    match batcher.handle(data("my_timing:311|ms|#tag1:value1"), 2_011) {
        BatchAction::Flush(bytes) => assert_eq!(
            String::from_utf8(bytes).unwrap(),
            "my_stat:7|g|#tag1:value1\nmy_count:29|c|#tag1:value1\nmy_timing:311|ms|#tag1:value1\n"
        ),
        _ => panic!("a buffer older than max_time must be flushed"),
    }
    assert!(matches!(batcher.handle(data("x"), 4_011), BatchAction::Hold));
    assert!(matches!(batcher.handle(data("y"), 4_012), BatchAction::Flush(_)));
}

#[test]
fn every_frame_is_flushed_once_in_order() {
    let frames = ["one", "two", "three", "four", "five", "six", "seven"];
    let mut batcher = Batcher::new(10, 1_000_000, 0);
    let mut sent: Vec<u8> = Vec::new();
    let mut batches = 0;
    for (i, frame) in frames.iter().enumerate() {
        if let BatchAction::Flush(bytes) = batcher.handle(data(frame), i as u128) {
            sent.extend_from_slice(&bytes);
            batches += 1;
        }
    }
    if let BatchAction::FlushAndStop(bytes) = batcher.handle(Message::Shutdown, 99) {
        sent.extend_from_slice(&bytes);
    } else {
        panic!("shutdown must flush");
    }
    assert!(batches >= 2);
    let expected: String = frames.iter().map(|f| format!("{}\n", f)).collect();
    assert_eq!(String::from_utf8(sent).unwrap(), expected);
}

#[test]
fn shutdown_of_an_empty_buffer_flushes_nothing_but_stops() {
    let mut batcher = Batcher::new(10, 10, 0);
    match batcher.handle(Message::Shutdown, 1) {
        BatchAction::FlushAndStop(bytes) => assert!(bytes.is_empty()),
        _ => panic!("shutdown must stop"),
    }
}
