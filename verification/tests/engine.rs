// Session-engine behavior: slash commands, frame responses, echoes and
// terminations, driven through public library functions.
use wscrab::command::{parse_slash_command, parse_u16, ControlAction};
use wscrab::frames::{frame_response, InboundFrame, Notice, OutboundFrame};
use wscrab::session::{session_step, SessionEvent};

#[test]
fn slash_ping_sends_control_frame() {
    let out = session_step(true, false, SessionEvent::ConsoleLine(String::from("/ping hello")));
    match out.send {
        Some(OutboundFrame::Ping(p)) => assert_eq!(p, b"hello".to_vec()),
        _ => panic!("expected a ping frame"),
    }
    assert!(!out.done);
    assert!(out.prints.is_empty());
    assert!(out.failure.is_none());
}

#[test]
fn slash_pong_sends_control_frame() {
    let out = session_step(true, false, SessionEvent::ConsoleLine(String::from("/pong data")));
    match out.send {
        Some(OutboundFrame::Pong(p)) => assert_eq!(p, b"data".to_vec()),
        _ => panic!("expected a pong frame"),
    }
    assert!(!out.done);
}

#[test]
fn slash_close_sends_code_and_reason_then_terminates() {
    let out = session_step(
        true,
        false,
        SessionEvent::ConsoleLine(String::from("/close 1001 bye")),
    );
    match out.send {
        Some(OutboundFrame::Close(Some((code, reason)))) => {
            assert_eq!(code, 1001);
            assert_eq!(reason, "bye");
        }
        _ => panic!("expected a close frame"),
    }
    assert!(out.done);
}

#[test]
fn slash_close_defaults_code_and_reason() {
    let out = session_step(true, false, SessionEvent::ConsoleLine(String::from("/close")));
    match out.send {
        Some(OutboundFrame::Close(Some((code, reason)))) => {
            assert_eq!(code, 1000);
            assert_eq!(reason, "");
        }
        _ => panic!("expected a close frame"),
    }
    assert!(out.done);
}

#[test]
fn slash_close_joins_reason_tokens() {
    match parse_slash_command("/close 1002 going  away now") {
        ControlAction::SendCloseAndTerminate(code, reason) => {
            assert_eq!(code, 1002);
            assert_eq!(reason, "going away now");
        }
        _ => panic!("expected a close action"),
    }
}

#[test]
fn slash_close_unparseable_code_falls_back() {
    match parse_slash_command("/close abc def") {
        ControlAction::SendCloseAndTerminate(code, reason) => {
            assert_eq!(code, 1000);
            assert_eq!(reason, "def");
        }
        _ => panic!("expected a close action"),
    }
}

#[test]
fn unrecognized_slash_command_reports_and_continues() {
    let out = session_step(true, false, SessionEvent::ConsoleLine(String::from("/frob x")));
    assert!(out.send.is_none());
    assert!(!out.done);
    assert_eq!(out.prints.len(), 1);
    match &out.prints[0] {
        Notice::Warn(s) => assert_eq!(s, "error: Unrecognized slash command."),
        _ => panic!("expected a warning"),
    }
}

#[test]
fn slash_disabled_sends_verbatim_text() {
    let out = session_step(false, false, SessionEvent::ConsoleLine(String::from("/ping hi")));
    match out.send {
        Some(OutboundFrame::Text(t)) => assert_eq!(t, "/ping hi"),
        _ => panic!("expected a text frame"),
    }
    assert!(!out.done);
    assert_eq!(out.prints.len(), 1);
    match &out.prints[0] {
        Notice::Line(s) => assert_eq!(s, "> /ping hi"),
        _ => panic!("expected an echo"),
    }
}

#[test]
fn plain_line_is_echoed_and_sent() {
    let out = session_step(true, true, SessionEvent::ConsoleLine(String::from("hello there")));
    match out.send {
        Some(OutboundFrame::Text(t)) => assert_eq!(t, "hello there"),
        _ => panic!("expected a text frame"),
    }
    match &out.prints[0] {
        Notice::Line(s) => assert_eq!(s, "> hello there"),
        _ => panic!("expected an echo"),
    }
}

#[test]
fn show_ping_pong_prints_messages() {
    let ping = session_step(
        false,
        true,
        SessionEvent::Frame(InboundFrame::Ping(b"ping".to_vec())),
    );
    assert_eq!(ping.prints.len(), 1);
    match &ping.prints[0] {
        Notice::Line(s) => assert_eq!(s, "< Received ping (data: \"ping\")"),
        _ => panic!("expected a notification"),
    }
    let pong = session_step(
        false,
        true,
        SessionEvent::Frame(InboundFrame::Pong(b"pong".to_vec())),
    );
    assert_eq!(pong.prints.len(), 1);
    match &pong.prints[0] {
        Notice::Line(s) => assert_eq!(s, "< Received pong (data: \"pong\")"),
        _ => panic!("expected a notification"),
    }
}

#[test]
fn ping_is_answered_with_same_payload() {
    let out = frame_response(InboundFrame::Ping(vec![1, 2, 3]), false);
    match out.reply {
        Some(OutboundFrame::Pong(p)) => assert_eq!(p, vec![1, 2, 3]),
        _ => panic!("expected a pong reply"),
    }
    assert!(out.prints.is_empty());
    assert!(!out.done);
}

#[test]
fn pong_without_display_is_silent() {
    let out = frame_response(InboundFrame::Pong(b"x".to_vec()), false);
    assert!(out.reply.is_none());
    assert!(out.prints.is_empty());
    assert!(!out.done);
}

#[test]
fn inbound_text_is_printed_with_prefix() {
    let out = frame_response(InboundFrame::Text(String::from("greetings")), false);
    match &out.prints[0] {
        Notice::Line(s) => assert_eq!(s, "< greetings"),
        _ => panic!("expected a line"),
    }
    assert!(out.reply.is_none());
}

#[test]
fn inbound_binary_is_decoded_lossily() {
    let out = frame_response(InboundFrame::Binary(vec![b'o', b'k', 0xff]), false);
    match &out.prints[0] {
        Notice::Line(s) => assert_eq!(s, "< ok\u{fffd}"),
        _ => panic!("expected a line"),
    }
}

#[test]
fn inbound_close_terminates_without_reply() {
    let out = session_step(
        true,
        true,
        SessionEvent::Frame(InboundFrame::Close(Some((1000, String::from("done"))))),
    );
    assert!(out.done);
    assert!(out.send.is_none());
    assert!(out.prints.is_empty());
    let bare = session_step(false, false, SessionEvent::Frame(InboundFrame::Close(None)));
    assert!(bare.done);
    assert!(bare.send.is_none());
}

#[test]
fn interrupt_sends_best_effort_close() {
    let out = session_step(true, true, SessionEvent::Interrupted);
    assert!(out.done);
    assert!(out.best_effort);
    match out.send {
        Some(OutboundFrame::Close(None)) => {}
        _ => panic!("expected a bare close frame"),
    }
}

#[test]
fn console_end_and_stream_end_terminate_quietly() {
    let eof = session_step(true, true, SessionEvent::ConsoleClosed);
    assert!(eof.done && eof.send.is_none() && eof.failure.is_none());
    let ended = session_step(true, true, SessionEvent::StreamEnded);
    assert!(ended.done && ended.send.is_none() && ended.failure.is_none());
}

#[test]
fn transport_failure_is_fatal() {
    let out = session_step(true, true, SessionEvent::TransportFailed);
    assert!(out.done);
    assert_eq!(out.failure, Some(wscrab::errors::WsError::TransportFailure));
}

#[test]
fn parse_u16_accepts_digits_and_rejects_the_rest() {
    assert_eq!(parse_u16("1001"), Some(1001));
    assert_eq!(parse_u16("+7"), Some(7));
    assert_eq!(parse_u16("0"), Some(0));
    assert_eq!(parse_u16("65535"), Some(65535));
    assert_eq!(parse_u16("65536"), None);
    assert_eq!(parse_u16("99999999999999999999"), None);
    assert_eq!(parse_u16(""), None);
    assert_eq!(parse_u16("+"), None);
    assert_eq!(parse_u16("-1"), None);
    assert_eq!(parse_u16("12a"), None);
}

#[test]
fn ping_payload_is_second_token_only() {
    match parse_slash_command("/ping one two") {
        ControlAction::SendPing(p) => assert_eq!(p, b"one".to_vec()),
        _ => panic!("expected a ping action"),
    }
    match parse_slash_command("/ping") {
        ControlAction::SendPing(p) => assert_eq!(p, Vec::<u8>::new()),
        _ => panic!("expected a ping action"),
    }
}
