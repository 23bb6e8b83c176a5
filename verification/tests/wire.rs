//! Framing and envelopes.

use cdk_iroh::wire::{
    encode_message, frame_message, frame_step, length_prefix, prefix_length, read_message,
    read_message_at_end, stream_failure, write_message, FrameStep, ReadStep, MAX_MESSAGE_BYTES,
};
use cdk_iroh::{Error, RpcError, RpcRequest, RpcResponse};
use serde_json::Value;

fn wire_value(text: &str) -> Value {
    serde_json::from_str(text).unwrap()
}

fn wire_read(received: &[u8]) -> Value {
    match read_message(received) {
        ReadStep::Message(value) => value,
        other => panic!("no message: {:?}", other),
    }
}

#[test]
fn frame_has_big_endian_length_prefix() {
    let frame = frame_message(b"{}").unwrap();
    assert_eq!(&frame[..], &[0u8, 0, 0, 2, b'{', b'}'][..]);
    let body = vec![0x20u8; 0x0001_0203];
    let frame = frame_message(&body).unwrap();
    assert_eq!(&frame[..4], &[0u8, 1, 2, 3][..]);
    assert_eq!(frame.len(), 4 + body.len());
}

#[test]
fn length_prefix_is_big_endian() {
    assert_eq!(length_prefix(0), [0, 0, 0, 0]);
    assert_eq!(length_prefix(0x0102_0304), [1, 2, 3, 4]);
    assert_eq!(length_prefix(u32::MAX), [255, 255, 255, 255]);
}

#[test]
fn message_is_printed_without_spaces() {
    let value = wire_value(r#"{ "b" : [1, 2],  "a" : null }"#);
    assert_eq!(encode_message(&value).unwrap(), br#"{"a":null,"b":[1,2]}"#.to_vec());
    let frame = write_message(&value).unwrap();
    assert_eq!(&frame[..4], &[0u8, 0, 0, 20][..]);
    assert_eq!(&frame[4..], &br#"{"a":null,"b":[1,2]}"#[..]);
}

#[test]
fn written_message_is_read_back() {
    let texts = [
        "null",
        "true",
        "-9223372036854775808",
        "18446744073709551615",
        r#""line\nbreak and é""#,
        r#"[[],{},[{"deep":[null]}]]"#,
        r#"{"jsonrpc":"2.0","method":"cashu_getKeys","params":{},"id":1}"#,
    ];
    for text in texts {
        let value = wire_value(text);
        let frame = write_message(&value).unwrap();
        assert_eq!(wire_read(&frame), value);
    }
}

#[test]
fn bytes_behind_a_frame_are_ignored() {
    let value = wire_value(r#"{"status":"OK"}"#);
    let mut received = write_message(&value).unwrap().to_vec();
    received.extend_from_slice(b"\x00\x00\x00\x01");
    assert_eq!(wire_read(&received), value);
}

#[test]
fn partial_frame_asks_for_the_rest() {
    let frame = frame_message(b"[1,2]").unwrap();
    assert_eq!(frame_step(&[]), FrameStep::Want(4));
    assert_eq!(frame_step(&frame[..1]), FrameStep::Want(3));
    assert_eq!(frame_step(&frame[..4]), FrameStep::Want(5));
    assert_eq!(frame_step(&frame[..8]), FrameStep::Want(1));
    assert_eq!(frame_step(&frame[..]), FrameStep::Complete(5));
    assert!(matches!(read_message(&frame[..6]), ReadStep::Want(3)));
}

#[test]
fn largest_message_is_accepted_and_larger_ones_refused() {
    assert_eq!(MAX_MESSAGE_BYTES, 16_777_216);
    assert_eq!(frame_step(&[1, 0, 0, 0]), FrameStep::Want(16_777_216));
    assert_eq!(frame_step(&[1, 0, 0, 1]), FrameStep::TooLarge(16_777_217));
    assert_eq!(frame_step(&[255, 255, 255, 255, 0]), FrameStep::TooLarge(u32::MAX));
    match read_message(&[1, 0, 0, 1]) {
        ReadStep::Failed(Error::MessageTooLarge(16_777_217)) => {}
        other => panic!("not refused: {:?}", other),
    }
}

#[test]
fn body_that_is_no_json_is_an_error() {
    match read_message(&frame_message(b"{nope").unwrap()) {
        ReadStep::Failed(Error::Json(text)) => {
            assert_eq!(text, "key must be a string at line 1 column 2");
        }
        other => panic!("read: {:?}", other),
    }
    assert!(matches!(read_message(&[0, 0, 0, 0]), ReadStep::Failed(Error::Json(_))));
    assert!(matches!(
        read_message(&frame_message(b"1 2").unwrap()),
        ReadStep::Failed(Error::Json(_))
    ));
}

#[test]
fn deep_nesting_is_printed_and_not_read_back() {
    let mut value = Value::Null;
    for _ in 0..127 {
        value = Value::Array(vec![value]);
    }
    assert_eq!(wire_read(&write_message(&value).unwrap()), value);
    let deeper = Value::Array(vec![value]);
    let frame = write_message(&deeper).unwrap();
    assert!(matches!(read_message(&frame), ReadStep::Failed(Error::Json(_))));
}

#[test]
fn broken_frame_is_an_io_error() {
    let frame = frame_message(b"[1,2]").unwrap();
    for count in 0..frame.len() {
        match read_message_at_end(&frame[..count], "connection lost".to_string()) {
            ReadStep::Failed(Error::Io(text)) => assert_eq!(text, "connection lost"),
            other => panic!("read: {:?}", other),
        }
    }
    assert!(matches!(
        read_message_at_end(&frame, "connection lost".to_string()),
        ReadStep::Message(_)
    ));
    assert!(matches!(
        read_message_at_end(&[1, 0, 0, 1], "connection lost".to_string()),
        ReadStep::Failed(Error::MessageTooLarge(16_777_217))
    ));
    assert_eq!(stream_failure("reset".to_string()).message(), "I/O error: reset");
}

#[test]
fn length_that_the_prefix_cannot_hold_is_refused() {
    assert_eq!(prefix_length(0).unwrap(), 0);
    assert_eq!(prefix_length(0x0102_0304).unwrap(), 0x0102_0304);
    assert_eq!(prefix_length(u32::MAX as usize).unwrap(), u32::MAX);
    for length in [u32::MAX as usize + 1, u32::MAX as usize + 3, usize::MAX] {
        match prefix_length(length) {
            Err(Error::Io(text)) => assert_eq!(text, "message too large to be framed"),
            other => panic!("accepted: {:?}", other),
        }
    }
}

#[test]
fn only_version_2_is_valid() {
    for (version, valid) in [("2.0", true), ("1.0", false), ("2", false), ("", false)] {
        let request = RpcRequest {
            jsonrpc: version.to_string(),
            method: "cashu_getKeys".to_string(),
            params: Value::Null,
            id: wire_value("1"),
        };
        assert_eq!(request.is_valid(), valid);
    }
}

#[test]
fn request_envelope() {
    let request = RpcRequest {
        jsonrpc: "2.0".to_string(),
        method: "cashu_getKeyById".to_string(),
        params: wire_value(r#"{"id":"00ff"}"#),
        id: wire_value("7"),
    };
    assert_eq!(
        request.to_value(),
        wire_value(
            r#"{"jsonrpc":"2.0","method":"cashu_getKeyById","params":{"id":"00ff"},"id":7}"#
        )
    );
}

#[test]
fn ok_response_has_no_error_member() {
    let response = RpcResponse::ok(wire_value("1"), wire_value("[]"));
    assert_eq!(response.jsonrpc, "2.0");
    assert!(response.error.is_none());
    assert_eq!(
        response.to_value(),
        wire_value(r#"{"jsonrpc":"2.0","result":[],"id":1}"#)
    );
}

#[test]
fn error_response_has_no_result_member() {
    let response = RpcResponse::err(Value::Null, -32700, "parse error".to_string());
    assert!(response.result.is_none());
    assert_eq!(
        response.to_value(),
        wire_value(
            r#"{"jsonrpc":"2.0","error":{"code":-32700,"message":"parse error"},"id":null}"#
        )
    );
    let error = RpcError { code: -1, message: "m".to_string() };
    assert_eq!(error.to_value(), wire_value(r#"{"code":-1,"message":"m"}"#));
}

#[test]
fn null_result_is_kept() {
    let response = RpcResponse::ok(Value::Null, Value::Null);
    assert_eq!(
        response.to_value(),
        wire_value(r#"{"jsonrpc":"2.0","result":null,"id":null}"#)
    );
}
