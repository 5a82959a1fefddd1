use pty_session::accumulator::Accumulator;

#[test]
fn feed_reports_whether_output_arrived() {
    let mut acc = Accumulator::new();
    assert!(!acc.feed(&Vec::new()));
    assert!(acc.feed(&b"data".to_vec()));
    assert_eq!(acc.len(), 4);
}

#[test]
fn contains_marker_sees_across_chunk_boundaries() {
    let mut acc = Accumulator::new();
    acc.feed(&b"PRO".to_vec());
    assert!(!acc.contains_marker(&b"PROMPT".to_vec()));
    acc.feed(&b"MPT".to_vec());
    assert!(acc.contains_marker(&b"PROMPT".to_vec()));
}

#[test]
fn consume_through_trims_through_first_occurrence() {
    let mut acc = Accumulator::new();
    acc.feed(&b"abc$def$x".to_vec());
    let consumed = acc.consume_through(&b"$".to_vec());
    assert_eq!(consumed, b"abc$".to_vec());
    // the remainder still holds the later occurrence
    assert!(acc.contains_marker(&b"$".to_vec()));
    let consumed2 = acc.consume_through(&b"$".to_vec());
    assert_eq!(consumed2, b"def$".to_vec());
    assert!(!acc.contains_marker(&b"$".to_vec()));
    assert_eq!(acc.len(), 1);
}

#[test]
fn consume_through_does_not_rematch_stale_output() {
    let mut acc = Accumulator::new();
    acc.feed(&b"one marker two".to_vec());
    let _ = acc.consume_through(&b"marker".to_vec());
    // the consumed occurrence is gone; only fresh output can match
    assert!(!acc.contains_marker(&b"marker".to_vec()));
    acc.feed(&b"... marker!".to_vec());
    assert!(acc.contains_marker(&b"marker".to_vec()));
}
