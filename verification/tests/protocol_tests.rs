use priority_isolation::connection::{advance, ConnEvent, ConnPhase};
use priority_isolation::protocol::{completion_marker, echo_reply, greeting, session_transcript};

#[test]
fn greeting_is_the_fixed_ascii_sequence() {
    assert_eq!(greeting(), b"some heavy computing...".to_vec());
}

#[test]
fn completion_marker_ends_in_a_newline() {
    let m = completion_marker();
    assert_eq!(m, b"done. echoing\n".to_vec());
    assert_eq!(*m.last().unwrap(), b'\n');
}

#[test]
fn echo_reply_returns_the_chunk_unchanged() {
    assert_eq!(echo_reply(&[]), Vec::<u8>::new());
    assert_eq!(echo_reply(&[0, 255, 7]), vec![0, 255, 7]);
    let chunk = b"foo bar baz".to_vec();
    assert_eq!(echo_reply(&chunk), chunk);
}

#[test]
fn round_trip_marker_then_exact_echo() {
    // A client that reads the greeting and sends B receives the completion
    // marker followed by exactly B.
    let sent = b"foo\n".to_vec();
    let transcript = session_transcript(&sent);

    let after_greeting = &transcript[greeting().len()..];
    let marker = completion_marker();
    assert_eq!(&after_greeting[..marker.len()], &marker[..]);
    assert_eq!(&after_greeting[marker.len()..], &sent[..]);
}

#[test]
fn round_trip_with_no_client_bytes() {
    let transcript = session_transcript(&[]);
    let mut expected = greeting();
    expected.extend(completion_marker());
    assert_eq!(transcript, expected);
}

#[test]
fn transcript_depends_only_on_the_connection_own_input() {
    // Servicing one connection leaves nothing behind that changes a later
    // connection's bytes.
    let before = session_transcript(b"second");
    let _first = session_transcript(b"first connection with other bytes");
    let after = session_transcript(b"second");
    assert_eq!(before, after);
}

#[test]
fn connection_walks_every_phase_in_order() {
    let p0 = ConnPhase::Accepted;
    let p1 = advance(p0, ConnEvent::GreetingWritten);
    assert_eq!(p1, ConnPhase::GreetingSent);
    let p2 = advance(p1, ConnEvent::ComputationFinished);
    assert_eq!(p2, ConnPhase::ComputationDone);
    let p3 = advance(p2, ConnEvent::CompletionWritten);
    assert_eq!(p3, ConnPhase::CompletionSent);
    let p4 = advance(p3, ConnEvent::RelayEntered);
    assert_eq!(p4, ConnPhase::Relaying);
    let p5 = advance(p4, ConnEvent::PeerClosed);
    assert_eq!(p5, ConnPhase::Closed);
}

#[test]
fn io_failure_errors_every_non_terminal_phase() {
    for p in [
        ConnPhase::Accepted,
        ConnPhase::GreetingSent,
        ConnPhase::ComputationDone,
        ConnPhase::CompletionSent,
        ConnPhase::Relaying,
    ] {
        assert_eq!(advance(p, ConnEvent::IoFailed), ConnPhase::Errored);
    }
}

#[test]
fn out_of_order_event_is_a_protocol_violation() {
    assert_eq!(
        advance(ConnPhase::Accepted, ConnEvent::CompletionWritten),
        ConnPhase::Errored
    );
    assert_eq!(
        advance(ConnPhase::GreetingSent, ConnEvent::PeerClosed),
        ConnPhase::Errored
    );
}

#[test]
fn terminal_phases_absorb_every_event() {
    for e in [
        ConnEvent::GreetingWritten,
        ConnEvent::ComputationFinished,
        ConnEvent::CompletionWritten,
        ConnEvent::RelayEntered,
        ConnEvent::PeerClosed,
        ConnEvent::IoFailed,
    ] {
        assert_eq!(advance(ConnPhase::Closed, e), ConnPhase::Closed);
        assert_eq!(advance(ConnPhase::Errored, e), ConnPhase::Errored);
    }
}
