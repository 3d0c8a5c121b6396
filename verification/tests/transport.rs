use regmsg_client::errors::CliError;
use regmsg_client::reply::decode_reply;
use regmsg_client::session::{Session, SessionState, TransportEvent};

#[test]
fn empty_envelope_decodes_to_the_empty_string() {
    let frames: Vec<Vec<u8>> = Vec::new();
    match decode_reply(&frames) {
        Ok(text) => assert_eq!(text, ""),
        Err(_) => panic!("an empty envelope must never be a decoding error"),
    }
}

#[test]
fn first_frame_is_decoded_as_utf8_text() {
    let frames = vec![b"mode set to 1920x1080".to_vec()];
    assert_eq!(decode_reply(&frames).unwrap(), "mode set to 1920x1080");
}

#[test]
fn multibyte_utf8_in_the_first_frame_is_decoded() {
    let frames = vec![vec![0xC3, 0xA9, 0x21]];
    assert_eq!(decode_reply(&frames).unwrap(), "\u{e9}!");
}

#[test]
fn frames_past_the_first_are_ignored() {
    let frames = vec![b"first".to_vec(), vec![0xFF, 0xFE]];
    assert_eq!(decode_reply(&frames).unwrap(), "first");
}

#[test]
fn non_utf8_first_frame_is_a_decoding_error() {
    let frames = vec![vec![0xFF, 0xFE, 0x00]];
    match decode_reply(&frames) {
        Ok(_) => panic!("invalid UTF-8 must not decode"),
        Err(e) => {
            assert!(matches!(e, CliError::Decoding(_)));
            assert_eq!(e.message(), "UTF-8 error: reply frame is not valid UTF-8");
        }
    }
}

#[test]
fn error_messages_carry_their_class_prefix() {
    assert_eq!(
        CliError::Transport(String::from("connection reset")).message(),
        "Socket error: connection reset"
    );
    assert_eq!(CliError::Decoding(String::from("bad byte")).message(), "UTF-8 error: bad byte");
    assert_eq!(CliError::Timeout(String::from("expired")).message(), "Timeout error: expired");
    assert_eq!(
        CliError::LoggingInit(String::from("permission denied")).message(),
        "Log error: permission denied"
    );
}

#[test]
fn session_walks_the_happy_path_to_replied() {
    let mut s = Session::new(String::from("currentMode"), String::from("ipc:///run/displayd.sock"));
    assert!(matches!(s.state, SessionState::Disconnected));
    assert_eq!(s.request, "currentMode");
    assert_eq!(s.address, "ipc:///run/displayd.sock");
    s.begin();
    assert!(matches!(s.state, SessionState::Connecting));
    s.step(TransportEvent::ConnectSucceeded);
    assert!(matches!(s.state, SessionState::Connected));
    s.step(TransportEvent::SendSucceeded);
    assert!(matches!(s.state, SessionState::AwaitingReply));
    s.step(TransportEvent::ReplyArrived(vec![b"1920x1080".to_vec()]));
    match s.state {
        SessionState::Replied(text) => assert_eq!(text, "1920x1080"),
        _ => panic!("the session should have replied"),
    }
    assert_eq!(s.request, "currentMode");
}

#[test]
fn connect_failure_fails_the_session_immediately() {
    let mut s = Session::new(String::from("listModes"), String::from("ipc:///run/displayd.sock"));
    s.begin();
    s.step(TransportEvent::ConnectFailed(String::from("no such file")));
    match s.state {
        SessionState::Failed(e) => {
            assert_eq!(e.message(), "Socket error: no such file");
        }
        _ => panic!("a connect failure must fail the session"),
    }
}

#[test]
fn send_failure_fails_the_session_immediately() {
    let mut s = Session::new(String::from("listModes"), String::from("ipc:///run/displayd.sock"));
    s.begin();
    s.step(TransportEvent::ConnectSucceeded);
    s.step(TransportEvent::SendFailed(String::from("broken pipe")));
    match s.state {
        SessionState::Failed(e) => assert_eq!(e.message(), "Socket error: broken pipe"),
        _ => panic!("a send failure must fail the session"),
    }
}

#[test]
fn receive_failure_is_a_transport_error() {
    let mut s = Session::new(String::from("listModes"), String::from("ipc:///run/displayd.sock"));
    s.begin();
    s.step(TransportEvent::ConnectSucceeded);
    s.step(TransportEvent::SendSucceeded);
    s.step(TransportEvent::ReceiveFailed(String::from("connection reset")));
    match s.state {
        SessionState::Failed(e) => assert_eq!(e.message(), "Socket error: connection reset"),
        _ => panic!("a receive failure must fail the session"),
    }
}

#[test]
fn receive_expiry_is_a_distinct_timeout_error() {
    let mut s = Session::new(String::from("listModes"), String::from("ipc:///run/displayd.sock"));
    s.begin();
    s.step(TransportEvent::ConnectSucceeded);
    s.step(TransportEvent::SendSucceeded);
    s.step(TransportEvent::ReceiveTimedOut(String::from("no reply within 10s")));
    match s.state {
        SessionState::Failed(e) => {
            assert!(matches!(e, CliError::Timeout(_)));
            assert_eq!(e.message(), "Timeout error: no reply within 10s");
        }
        _ => panic!("expiry must fail the session"),
    }
}

#[test]
fn empty_reply_envelope_ends_the_session_with_empty_text() {
    let mut s = Session::new(String::from("getScreenshot"), String::from("ipc:///run/displayd.sock"));
    s.begin();
    s.step(TransportEvent::ConnectSucceeded);
    s.step(TransportEvent::SendSucceeded);
    s.step(TransportEvent::ReplyArrived(Vec::new()));
    match s.state {
        SessionState::Replied(text) => assert_eq!(text, ""),
        _ => panic!("an empty envelope is a reply, not an error"),
    }
}

#[test]
fn non_utf8_reply_fails_the_session_with_a_decoding_error() {
    let mut s = Session::new(String::from("currentOutput"), String::from("ipc:///run/displayd.sock"));
    s.begin();
    s.step(TransportEvent::ConnectSucceeded);
    s.step(TransportEvent::SendSucceeded);
    s.step(TransportEvent::ReplyArrived(vec![vec![0x80, 0x80]]));
    match s.state {
        SessionState::Failed(e) => {
            assert!(matches!(e, CliError::Decoding(_)));
        }
        _ => panic!("a non-UTF-8 reply must fail the session"),
    }
}
