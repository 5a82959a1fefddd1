use pty_session::bytes::contains;
use pty_session::bytes::count_occurrences;
use pty_session::child::ExitStatus;
use pty_session::errors::SessionError;
use pty_session::session::drain_until_marker;
use pty_session::session::encode_line;
use pty_session::session::ShellSession;
use pty_session::state::SessionState;

#[test]
fn spawn_refuses_an_empty_readiness_marker() {
    let r = ShellSession::new(Vec::new());
    assert!(matches!(r, Err(SessionError::Spawn)));
}

#[test]
fn readiness_requires_the_marker_in_recorded_output() {
    let mut s = ShellSession::new(b"$".to_vec()).unwrap();
    assert_eq!(s.lifecycle(), SessionState::Spawning);
    s.reader_attached();
    assert_eq!(s.lifecycle(), SessionState::AwaitingReady);

    // output without the marker leaves the session waiting
    assert!(!s.on_chunk(&b"welcome\r\n".to_vec()));
    assert_eq!(s.lifecycle(), SessionState::AwaitingReady);

    // the marker's first appearance makes it ready, and the transcript
    // really holds the marker
    assert!(s.on_chunk(&b"$ ".to_vec()));
    assert_eq!(s.lifecycle(), SessionState::Ready);
    assert!(contains(s.transcript_bytes(), &b"$".to_vec()));
}

#[test]
fn marker_split_across_chunks_still_fires() {
    let mut s = ShellSession::new(b"PROMPT".to_vec()).unwrap();
    s.reader_attached();
    assert!(!s.on_chunk(&b"PRO".to_vec()));
    assert!(s.on_chunk(&b"MPT ".to_vec()));
    assert_eq!(s.lifecycle(), SessionState::Ready);
}

#[test]
fn await_ready_stops_at_the_chunk_with_the_marker() {
    let mut s = ShellSession::new(b"$".to_vec()).unwrap();
    s.reader_attached();
    let chunks = vec![b"welcome\r\n".to_vec(), b"$ ".to_vec(), b"late".to_vec()];
    let r = s.await_ready(&chunks);
    assert_eq!(r, Ok(2));
    assert_eq!(s.lifecycle(), SessionState::Ready);
    assert!(contains(s.transcript_bytes(), &b"$".to_vec()));
    // the chunk after readiness was not consumed
    assert!(!contains(s.transcript_bytes(), &b"late".to_vec()));
}

#[test]
fn await_ready_times_out_when_the_marker_never_comes() {
    let mut s = ShellSession::new(b"$".to_vec()).unwrap();
    s.reader_attached();
    let chunks = vec![b"welcome\r\n".to_vec(), b"still starting".to_vec()];
    let r = s.await_ready(&chunks);
    assert_eq!(r, Err(SessionError::ReadyTimeout));
    assert_eq!(s.lifecycle(), SessionState::AwaitingReady);
    assert!(!contains(s.transcript_bytes(), &b"$".to_vec()));
}

#[test]
fn command_round_trip_returns_to_ready() {
    let mut s = ShellSession::new(b"$".to_vec()).unwrap();
    s.reader_attached();
    s.on_chunk(&b"$ ".to_vec());
    s.begin_command();
    assert_eq!(s.lifecycle(), SessionState::Executing);
    assert!(!s.on_chunk(&b"echo hello\r\n".to_vec()));
    assert!(s.on_chunk(&b"hello\r\n$ ".to_vec()));
    assert_eq!(s.lifecycle(), SessionState::Ready);
    // the echo once, plus the result: the word appears twice in all
    assert_eq!(count_occurrences(s.transcript_bytes(), &b"hello".to_vec()), 2);
}

#[test]
fn wait_after_exit_is_stable_under_kill() {
    let mut s = ShellSession::new(b"$".to_vec()).unwrap();
    s.reader_attached();
    s.on_chunk(&b"$ ".to_vec());
    let recorded = s.note_exit(ExitStatus::with_exit_code(0));
    assert!(recorded);
    assert_eq!(s.lifecycle(), SessionState::Exited);
    let first = s.wait_status();
    // a late termination request must not corrupt the cached status
    let already = s.request_kill();
    assert!(already);
    let second = s.wait_status();
    assert_eq!(first, second);
    assert!(second.success());
}

#[test]
fn kill_before_exit_reports_forced_termination() {
    let mut s = ShellSession::new(b"$".to_vec()).unwrap();
    s.reader_attached();
    s.on_chunk(&b"$ ".to_vec());
    let already = s.request_kill();
    assert!(!already);
    s.note_exit(ExitStatus::with_signal());
    assert!(!s.wait_status().success());
}

#[test]
fn shutdown_keeps_the_tail_of_output() {
    let mut s = ShellSession::new(b"$".to_vec()).unwrap();
    s.reader_attached();
    s.on_chunk(&b"$ ".to_vec());
    s.begin_command();
    s.on_chunk(&b"exit\r\n".to_vec());
    s.note_exit(ExitStatus::with_exit_code(0));

    // chunks that were still queued when the child exited
    let remaining = vec![b"goodbye".to_vec(), b" and farewell".to_vec()];
    let out = s.shutdown(&remaining);
    assert_eq!(s.lifecycle(), SessionState::Drained);

    // nothing was lost: the drained transcript ends with every queued
    // chunk and still holds the terminal marker sent before the exit
    assert_eq!(out, b"$ exit\r\ngoodbye and farewell".to_vec());
    assert!(contains(&out, &b"exit".to_vec()));
    assert!(contains(&out, &b"farewell".to_vec()));

    s.reader_joined();
    assert_eq!(s.lifecycle(), SessionState::Closed);
}

#[test]
fn drain_until_marker_stops_at_the_marker() {
    let chunks = vec![b"abc".to_vec(), b"de$".to_vec(), b"fg".to_vec()];
    let (found, taken, out) = drain_until_marker(&chunks, &b"$".to_vec());
    assert!(found);
    assert_eq!(taken, 2);
    assert_eq!(out, b"abcde$".to_vec());
}

#[test]
fn drain_until_marker_finds_marker_split_across_chunks() {
    let chunks = vec![b"x$".to_vec(), b"yz".to_vec()];
    let (found, taken, out) = drain_until_marker(&chunks, &b"$y".to_vec());
    assert!(found);
    assert_eq!(taken, 2);
    assert_eq!(out, b"x$yz".to_vec());
}

#[test]
fn drain_until_marker_takes_everything_when_absent() {
    let chunks = vec![b"ab".to_vec(), b"cd".to_vec()];
    let (found, taken, out) = drain_until_marker(&chunks, &b"$".to_vec());
    assert!(!found);
    assert_eq!(taken, 2);
    assert_eq!(out, b"abcd".to_vec());
}

#[test]
fn encode_line_appends_the_terminator() {
    assert_eq!(encode_line(&b"echo hi".to_vec(), &b"\n".to_vec()), b"echo hi\n".to_vec());
    assert_eq!(encode_line(&b"exit".to_vec(), &b"\r\n".to_vec()), b"exit\r\n".to_vec());
}

#[test]
fn interactive_shell_scenario() {
    // spawn an interactive shell whose readiness marker is "$"
    let mut s = ShellSession::new(b"$".to_vec()).unwrap();
    s.reader_attached();
    assert!(s.on_chunk(&b"$ ".to_vec()));
    assert_eq!(s.lifecycle(), SessionState::Ready);

    // send "echo hi": the echo comes back, then the result, then the
    // prompt again
    let line = encode_line(&b"echo hi".to_vec(), &b"\n".to_vec());
    assert_eq!(line, b"echo hi\n".to_vec());
    s.begin_command();
    assert!(s.on_chunk(&b"echo hi\r\nhi\r\n$ ".to_vec()));
    assert_eq!(s.lifecycle(), SessionState::Ready);

    // "hi" appears exactly once after the echo and before the next
    // prompt: twice in the whole transcript, once of them in the echo
    assert_eq!(count_occurrences(s.transcript_bytes(), &b"hi".to_vec()), 2);
    assert_eq!(count_occurrences(s.transcript_bytes(), &b"echo hi".to_vec()), 1);

    // send "exit": the child exits successfully and shutdown drains to
    // completion
    s.begin_command();
    s.on_chunk(&b"exit\r\n".to_vec());
    s.note_exit(ExitStatus::with_exit_code(0));
    assert!(s.wait_status().success());
    let out = s.shutdown(&vec![b"logout\r\n".to_vec()]);
    assert!(contains(&out, &b"logout".to_vec()));
    s.reader_joined();
    assert_eq!(s.lifecycle(), SessionState::Closed);
}
