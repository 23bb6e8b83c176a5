//! Request streams of the mint server.

use cdk_iroh::stream::{stream_step, StreamAction, StreamEvent, StreamState};
use cdk_iroh::{Error, RpcRequest, RpcResponse};
use serde_json::Value;

fn stream_value(text: &str) -> Value {
    serde_json::from_str(text).unwrap()
}

fn stream_request(method: &str) -> RpcRequest {
    RpcRequest {
        jsonrpc: "2.0".to_string(),
        method: method.to_string(),
        params: stream_value("{}"),
        id: stream_value("0"),
    }
}

#[test]
fn request_is_read_served_answered_and_finished() {
    let raw = stream_value(r#"{"method":"cashu_getKeys"}"#);
    let (state, action) = stream_step(StreamState::Reading, StreamEvent::Received(raw.clone()));
    assert!(matches!(action, StreamAction::Decode(value) if value == raw));
    let (state, action) = stream_step(state, StreamEvent::Decoded(stream_request("cashu_getKeys")));
    assert!(matches!(action, StreamAction::Serve(request) if request.method == "cashu_getKeys"));
    let response = RpcResponse::ok(stream_value("0"), stream_value("[1]"));
    let (state, action) = stream_step(state, StreamEvent::Served(response));
    match action {
        StreamAction::Write(message) => {
            assert_eq!(message, stream_value(r#"{"jsonrpc":"2.0","result":[1],"id":0}"#));
        }
        other => panic!("unexpected action: {:?}", other),
    }
    let (state, action) = stream_step(state, StreamEvent::Written);
    assert!(matches!(action, StreamAction::Finish));
    let (state, action) = stream_step(state, StreamEvent::Finished);
    assert!(matches!(state, StreamState::Over));
    assert!(matches!(action, StreamAction::Close(Ok(()))));
}

#[test]
fn unreadable_request_is_refused() {
    for delivered in [StreamEvent::Written, StreamEvent::NotWritten(Error::Io("gone".to_string()))] {
        let (state, action) = stream_step(
            StreamState::Reading,
            StreamEvent::NotReceived(Error::MessageTooLarge(16_777_217)),
        );
        match action {
            StreamAction::Write(message) => assert_eq!(
                message,
                stream_value(
                    r#"{"jsonrpc":"2.0","error":{"code":-32700,"message":"parse error: Message too large: 16777217 bytes"},"id":null}"#
                )
            ),
            other => panic!("unexpected action: {:?}", other),
        }
        let (state, action) = stream_step(state, delivered);
        assert!(matches!(state, StreamState::Over));
        assert!(matches!(
            action,
            StreamAction::Close(Err(Error::MessageTooLarge(16_777_217)))
        ));
    }
}

#[test]
fn invalid_request_is_refused() {
    let (state, _) = stream_step(StreamState::Reading, StreamEvent::Received(stream_value("[]")));
    let (state, action) =
        stream_step(state, StreamEvent::NotDecoded("missing field `method`".to_string()));
    match action {
        StreamAction::Write(message) => assert_eq!(
            message,
            stream_value(
                r#"{"jsonrpc":"2.0","error":{"code":-32600,"message":"invalid request: missing field `method`"},"id":null}"#
            )
        ),
        other => panic!("unexpected action: {:?}", other),
    }
    let (_, action) = stream_step(state, StreamEvent::Written);
    match action {
        StreamAction::Close(Err(Error::Json(text))) => assert_eq!(text, "missing field `method`"),
        other => panic!("unexpected action: {:?}", other),
    }
}

#[test]
fn other_versions_are_refused() {
    for (version, method) in [
        ("1.0", "cashu_getKeys"),
        ("1.0", "cashu_subscribe"),
        ("", "cashu_getInfo"),
        ("2.0 ", "cashu_getInfo"),
    ] {
        let mut request = stream_request(method);
        request.jsonrpc = version.to_string();
        request.id = stream_value("1");
        let (state, action) = stream_step(StreamState::Decoding, StreamEvent::Decoded(request));
        match action {
            StreamAction::Write(message) => assert_eq!(
                message,
                stream_value(
                    r#"{"jsonrpc":"2.0","error":{"code":-32600,"message":"invalid request: jsonrpc must be 2.0"},"id":1}"#
                )
            ),
            other => panic!("unexpected action: {:?}", other),
        }
        let (state, action) = stream_step(state, StreamEvent::Written);
        assert!(matches!(state, StreamState::Over));
        assert!(matches!(
            action,
            StreamAction::Close(Err(Error::Json(text))) if text == "jsonrpc must be 2.0"
        ));
    }
}

#[test]
fn subscription_is_handed_over() {
    let (state, action) = stream_step(
        StreamState::Decoding,
        StreamEvent::Decoded(stream_request("cashu_subscribe")),
    );
    assert!(matches!(state, StreamState::Over));
    assert!(matches!(action, StreamAction::Subscribe(id) if id == stream_value("0")));
}

#[test]
fn lost_answer_fails_the_stream() {
    let (_, action) = stream_step(
        StreamState::Replying,
        StreamEvent::NotWritten(Error::Io("reset".to_string())),
    );
    assert!(matches!(action, StreamAction::Close(Err(Error::Io(text))) if text == "reset"));
    let (_, action) = stream_step(
        StreamState::Finishing,
        StreamEvent::NotFinished("closed stream".to_string()),
    );
    assert!(matches!(action, StreamAction::Close(Err(Error::Io(text))) if text == "closed stream"));
}
