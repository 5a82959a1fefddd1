use pty_session::accumulator::Accumulator;
use pty_session::bytes::count_occurrences;
use pty_session::script::EchoScript;
use pty_session::script::ScriptAction;
use pty_session::script::ScriptEngine;
use pty_session::script::ScriptPhase;

fn hello_script() -> EchoScript {
    EchoScript::new(b"$".to_vec(), b"echo hello".to_vec(), b"hello".to_vec())
}

#[test]
fn round_trip_follows_the_table() {
    let mut engine = ScriptEngine::new(hello_script());
    let mut acc = Accumulator::new();
    assert_eq!(engine.phase(), ScriptPhase::AwaitingPrompt);

    // nothing yet: idle
    acc.feed(&b"greeting".to_vec());
    assert_eq!(engine.observe(&mut acc), ScriptAction::Idle);
    assert_eq!(engine.phase(), ScriptPhase::AwaitingPrompt);

    // the prompt appears: send the command
    acc.feed(&b" $ ".to_vec());
    assert_eq!(engine.observe(&mut acc), ScriptAction::SendCommand);
    assert_eq!(engine.phase(), ScriptPhase::SentEcho);

    // until the write is confirmed the engine stays put
    assert_eq!(engine.observe(&mut acc), ScriptAction::Idle);
    assert_eq!(engine.phase(), ScriptPhase::SentEcho);
    engine.command_sent();
    assert_eq!(engine.phase(), ScriptPhase::AwaitingEcho);

    // the terminal echoes the command
    acc.feed(&b"echo hello\r\n".to_vec());
    assert_eq!(engine.observe(&mut acc), ScriptAction::Idle);
    assert_eq!(engine.phase(), ScriptPhase::AwaitingResult);

    // the command's result
    acc.feed(&b"hello\r\n".to_vec());
    assert_eq!(engine.observe(&mut acc), ScriptAction::Idle);
    assert_eq!(engine.phase(), ScriptPhase::AwaitingPrompt2);

    // the prompt reappears: send the exit line
    acc.feed(&b"$ ".to_vec());
    assert_eq!(engine.observe(&mut acc), ScriptAction::SendExit);
    assert_eq!(engine.phase(), ScriptPhase::Done);
    assert!(engine.is_done());

    // done is terminal
    acc.feed(&b"$ $ $".to_vec());
    assert_eq!(engine.observe(&mut acc), ScriptAction::Idle);
    assert_eq!(engine.phase(), ScriptPhase::Done);
}

#[test]
fn echo_and_result_each_consumed_once() {
    let mut engine = ScriptEngine::new(hello_script());
    let mut acc = Accumulator::new();

    // the whole round trip arrives in one burst
    acc.feed(&b"$ echo hello\r\nhello\r\n$ ".to_vec());
    assert_eq!(engine.observe(&mut acc), ScriptAction::SendCommand);
    engine.command_sent();
    assert_eq!(engine.observe(&mut acc), ScriptAction::Idle); // echo fires
    assert_eq!(engine.phase(), ScriptPhase::AwaitingResult);
    assert_eq!(engine.observe(&mut acc), ScriptAction::Idle); // result fires
    assert_eq!(engine.phase(), ScriptPhase::AwaitingPrompt2);
    assert_eq!(engine.observe(&mut acc), ScriptAction::SendExit);
    assert!(engine.is_done());
}

#[test]
fn transcript_of_one_round_trip_counts() {
    // the echo of the command appears once; its result makes the
    // command's word appear a second time
    let transcript = b"$ echo hello\r\nhello\r\n$ ".to_vec();
    assert_eq!(count_occurrences(&transcript, &b"echo hello".to_vec()), 1);
    assert_eq!(count_occurrences(&transcript, &b"hello".to_vec()), 2);
}

#[test]
fn marker_matching_is_substring_based() {
    // the known fragility: a result string occurring inside the echo
    // fires the result phase early if the echo was not consumed first
    let mut engine = ScriptEngine::new(hello_script());
    let mut acc = Accumulator::new();
    acc.feed(&b"$ ".to_vec());
    engine.observe(&mut acc);
    engine.command_sent();
    acc.feed(&b"echo hello\r\n".to_vec());
    // the echo marker consumes through "echo hello", so the result
    // marker cannot re-match inside it
    engine.observe(&mut acc);
    assert_eq!(engine.phase(), ScriptPhase::AwaitingResult);
    assert!(!acc.contains_marker(&b"hello".to_vec()));
}
