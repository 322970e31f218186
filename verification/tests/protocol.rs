use helmdall::api_comms::ConnectionRequest;
use helmdall::config::{Config, LoggerConfig};
use helmdall::local::{local_step, LocalAction, LocalEvent, LOCAL_READ_BUFFER_LEN};
use helmdall::remote::{auth_frame, frame_action_for, handle_frame, opcode_reply, FrameAction};

fn test_config() -> Config {
    Config::from_parts(
        "K".to_string(),
        "C".to_string(),
        "http://h".to_string(),
        Vec::new(),
        LoggerConfig::new(),
        "./plugins".to_string(),
    )
    .expect("non-empty fields")
}

#[test]
fn auth_frame_is_token_colon_client_name() {
    let conn = ConnectionRequest {
        connection_token: "T".to_string(),
        provisioned_socket: "ws://w".to_string(),
    };
    let cfg = test_config();
    assert_eq!(auth_frame(&conn, &cfg), "T:C");
}

#[test]
fn invalid_token_frame_closes_with_auth_error() {
    match handle_frame("invalid token") {
        FrameAction::Close { reason } => assert_eq!(reason, "authentication error"),
        other => panic!("expected a close, got {:?}", other),
    }
}

#[test]
fn non_json_frame_draws_invalid_json() {
    match handle_frame("definitely not json") {
        FrameAction::Reply { message } => assert_eq!(message, "invalid json"),
        other => panic!("expected a reply, got {:?}", other),
    }
}

#[test]
fn unknown_opcode_draws_invalid_opcode() {
    match handle_frame("{\"opcode\":\"FOO\"}") {
        FrameAction::Reply { message } => assert_eq!(message, "invalid opcode"),
        other => panic!("expected a reply, got {:?}", other),
    }
}

#[test]
fn abort_opcode_draws_no_reply() {
    assert!(matches!(handle_frame("{\"opcode\":\"ABORT\"}"), FrameAction::NoReply));
}

#[test]
fn missing_opcode_draws_invalid_opcode() {
    match handle_frame("{\"note\":\"no opcode here\"}") {
        FrameAction::Reply { message } => assert_eq!(message, "invalid opcode"),
        other => panic!("expected a reply, got {:?}", other),
    }
}

#[test]
fn non_string_opcode_draws_invalid_opcode() {
    match handle_frame("{\"opcode\":5}") {
        FrameAction::Reply { message } => assert_eq!(message, "invalid opcode"),
        other => panic!("expected a reply, got {:?}", other),
    }
}

#[test]
fn non_object_json_frame_draws_invalid_opcode() {
    match handle_frame("\"ABORT\"") {
        FrameAction::Reply { message } => assert_eq!(message, "invalid opcode"),
        other => panic!("expected a reply, got {:?}", other),
    }
}

#[test]
fn extra_fields_are_ignored() {
    let frame = "{\"opcode\":\"ABORT\",\"issued\":\"2024-01-01\",\"seq\":7}";
    assert!(matches!(handle_frame(frame), FrameAction::NoReply));
}

#[test]
fn opcode_reply_table() {
    assert!(opcode_reply("ABORT").is_none());
    assert_eq!(opcode_reply("FOO"), Some("invalid opcode".to_string()));
    assert_eq!(opcode_reply("INVALID"), Some("invalid opcode".to_string()));
}

#[test]
fn frame_action_uses_handed_parse_result() {
    match frame_action_for("{\"opcode\":\"FOO\"}", Some(Some("FOO".to_string()))) {
        FrameAction::Reply { message } => assert_eq!(message, "invalid opcode"),
        other => panic!("expected a reply, got {:?}", other),
    }
    assert!(matches!(
        frame_action_for("{\"opcode\":\"ABORT\"}", Some(Some("ABORT".to_string()))),
        FrameAction::NoReply
    ));
}

#[test]
fn local_read_is_logged_and_connection_stays() {
    let data = b"hello".to_vec();
    match local_step(LocalEvent::ReadOk { data }) {
        LocalAction::Log { payload } => assert_eq!(payload, b"hello".to_vec()),
        other => panic!("expected a log, got {:?}", other),
    }
}

#[test]
fn local_zero_byte_read_stops_handler() {
    assert!(matches!(local_step(LocalEvent::ReadOk { data: Vec::new() }), LocalAction::Stop));
}

#[test]
fn local_read_error_stops_only_this_handler() {
    assert!(matches!(local_step(LocalEvent::ReadErr), LocalAction::Stop));
}

#[test]
fn local_read_buffer_size() {
    assert_eq!(LOCAL_READ_BUFFER_LEN, 1024);
}
