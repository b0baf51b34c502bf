use playlist_listener::decode::DecodeError;
use playlist_listener::listener::{
    listen, ListenerEvent, ListenerOperation, ListenerState, ListenerStep, BIND_FAILURE_STATUS,
};
use playlist_listener::log::{server_address, LogLine, SERVER_ADDRESS, SERVER_PORT};
use playlist_listener::record::Field;

#[test]
fn listener_binds_the_fixed_address() {
    assert_eq!(SERVER_ADDRESS, "localhost");
    assert_eq!(SERVER_PORT, "27745");
    assert_eq!(server_address(), "localhost:27745");
    assert_eq!(ListenerState::new(), ListenerState::Binding);
    assert_eq!(ListenerState::new().awaits(), ListenerOperation::Bind);
}

#[test]
fn bound_listener_starts_to_accept() {
    let taken = listen(ListenerState::Binding, ListenerEvent::Bound);
    assert_eq!(
        taken,
        ListenerStep {
            next: ListenerState::Listening,
            log: vec![LogLine::ServerStarted],
            dispatch: false,
        }
    );
    assert_eq!(taken.next.awaits(), ListenerOperation::Accept);
    assert_eq!(taken.log[0].render(), "Server started at: localhost:27745");
}

#[test]
fn failed_bind_stops_with_status_one() {
    let cause = "Address already in use (os error 98)".to_string();
    let taken = listen(ListenerState::Binding, ListenerEvent::BindFailed(cause));
    assert_eq!(BIND_FAILURE_STATUS, 1);
    assert_eq!(taken.next, ListenerState::Stopped(1));
    assert_eq!(taken.next.awaits(), ListenerOperation::Exit(1));
    assert!(!taken.dispatch);
    assert_eq!(taken.log.len(), 1);
    assert!(taken.log[0].is_failure());
    assert_eq!(
        taken.log[0].render(),
        "Unable to bind to the 'localhost' address and port '27745': \
         Address already in use (os error 98)"
    );
}

#[test]
fn accepted_stream_goes_to_a_handler() {
    let taken = listen(ListenerState::Listening, ListenerEvent::StreamAccepted);
    assert_eq!(
        taken,
        ListenerStep { next: ListenerState::Listening, log: vec![], dispatch: true }
    );
}

#[test]
fn failed_accept_is_logged_and_passed_over() {
    let taken = listen(
        ListenerState::Listening,
        ListenerEvent::AcceptFailed("Too many open files (os error 24)".to_string()),
    );
    assert_eq!(taken.next, ListenerState::Listening);
    assert!(!taken.dispatch);
    assert_eq!(taken.log.len(), 1);
    assert_eq!(
        taken.log[0].render(),
        "Unable to handle the incoming TCP stream: Too many open files (os error 24)"
    );
    let next = listen(taken.next, ListenerEvent::StreamAccepted);
    assert!(next.dispatch);
    assert_eq!(next.next, ListenerState::Listening);
}

#[test]
fn listener_ignores_what_it_does_not_wait_for() {
    let early = listen(ListenerState::Binding, ListenerEvent::StreamAccepted);
    assert_eq!(early, ListenerStep { next: ListenerState::Binding, log: vec![], dispatch: false });
    let again = listen(ListenerState::Listening, ListenerEvent::BindFailed("late".to_string()));
    assert_eq!(
        again,
        ListenerStep { next: ListenerState::Listening, log: vec![], dispatch: false }
    );
    let stopped = listen(ListenerState::Stopped(1), ListenerEvent::StreamAccepted);
    assert_eq!(
        stopped,
        ListenerStep { next: ListenerState::Stopped(1), log: vec![], dispatch: false }
    );
}

#[test]
fn every_line_renders_with_its_cause_or_value() {
    let cases = vec![
        (LogLine::ServerStarted, "Server started at: localhost:27745"),
        (
            LogLine::BindFailed("denied".to_string()),
            "Unable to bind to the 'localhost' address and port '27745': denied",
        ),
        (
            LogLine::AcceptFailed("aborted".to_string()),
            "Unable to handle the incoming TCP stream: aborted",
        ),
        (
            LogLine::PeerUnresolved("gone".to_string()),
            "Unable to retrieve the peer address: gone",
        ),
        (LogLine::UpgradeFailed("no key".to_string()), "Unable to accept connection: no key"),
        (LogLine::PeerConnected("[::1]:4000".to_string()), "Connected peer: [::1]:4000"),
        (LogLine::ReadFailed("Utf8".to_string()), "Error when receiving the message: Utf8"),
        (
            LogLine::DecodeFailed(DecodeError::Malformed("expected value".to_string())),
            "Unable to parse incoming message: expected value",
        ),
        (
            LogLine::DecodeFailed(DecodeError::NotAnObject),
            "Unable to parse incoming message: expected a JSON object",
        ),
        (
            LogLine::DecodeFailed(DecodeError::InvalidField(Field::CurrentTime)),
            "Unable to parse incoming message: invalid field `current_time`: expected a string",
        ),
        (
            LogLine::DecodeFailed(DecodeError::MissingField(Field::PlaylistContents)),
            "Unable to parse incoming message: missing field `playlist_contents`",
        ),
        (LogLine::CurrentTime("12:00:00".to_string()), "Current time: 12:00:00"),
        (LogLine::PlaylistContents("a,b".to_string()), "Playlist contents: a,b"),
        (LogLine::CurrentTime(String::new()), "Current time: "),
    ];
    for (line, text) in cases {
        assert_eq!(line.render(), text);
    }
}

#[test]
fn failures_are_told_from_the_rest() {
    assert!(!LogLine::ServerStarted.is_failure());
    assert!(!LogLine::PeerConnected("p".to_string()).is_failure());
    assert!(!LogLine::CurrentTime("t".to_string()).is_failure());
    assert!(!LogLine::PlaylistContents("p".to_string()).is_failure());
    assert!(LogLine::BindFailed("c".to_string()).is_failure());
    assert!(LogLine::AcceptFailed("c".to_string()).is_failure());
    assert!(LogLine::PeerUnresolved("c".to_string()).is_failure());
    assert!(LogLine::UpgradeFailed("c".to_string()).is_failure());
    assert!(LogLine::ReadFailed("c".to_string()).is_failure());
    assert!(LogLine::DecodeFailed(DecodeError::NotAnObject).is_failure());
}

#[test]
fn decode_errors_describe_themselves() {
    assert_eq!(DecodeError::Malformed("EOF".to_string()).describe(), "EOF");
    assert_eq!(DecodeError::NotAnObject.describe(), "expected a JSON object");
    assert_eq!(
        DecodeError::InvalidField(Field::PlaylistContents).describe(),
        "invalid field `playlist_contents`: expected a string"
    );
    assert_eq!(
        DecodeError::MissingField(Field::CurrentTime).describe(),
        "missing field `current_time`"
    );
    assert_eq!(
        DecodeError::MissingField(Field::PlaylistContents).describe(),
        "missing field `playlist_contents`"
    );
}
