//! Subscription sessions.

use cdk_iroh::subscription::{
    handle_subscription_stream, Session, SessionAction, SessionEvent, Subscriptions, WsMethod,
    WsReply, WsRequest, WsResult,
};
use cdk_iroh::Error;
use serde_json::Value;

fn session_value(text: &str) -> Value {
    serde_json::from_str(text).unwrap()
}

/// Goes on with a session whose notifications say a number.
fn session_step(
    session: Session<u32>,
    event: SessionEvent<u32, u8>,
) -> (Session<u32>, SessionAction<u32, u8>) {
    session.step(event)
}

/// A session at rest.
fn session_open() -> Session<u32> {
    let (session, _) = handle_subscription_stream::<u32, u8>(session_value("0"));
    let (session, action) = session_step(session, SessionEvent::Written);
    assert!(matches!(action, SessionAction::Wait));
    session
}

/// Hands a request to a session at rest.
fn session_request(
    session: Session<u32>,
    id: usize,
    method: WsMethod,
) -> (Session<u32>, SessionAction<u32, u8>) {
    let (session, action) = session_step(session, SessionEvent::Received(session_value("{}")));
    assert!(matches!(action, SessionAction::Decode(_)));
    session_step(session, SessionEvent::Decoded(WsRequest { id, method }))
}

/// Takes the answer of a session and has it written.
fn session_answer(
    session: Session<u32>,
    action: SessionAction<u32, u8>,
) -> (Session<u32>, Option<u32>, WsReply) {
    match action {
        SessionAction::Answer(aborted, reply) => {
            let (session, action) = session_step(session, SessionEvent::Written);
            assert!(matches!(action, SessionAction::Wait));
            (session, aborted, reply)
        }
        other => panic!("no answer: {:?}", other),
    }
}

fn session_subscribe(session: Session<u32>, name: &str, handle: u32) -> Session<u32> {
    let (session, action) = session_request(session, 1, WsMethod::Subscribe(name.to_string()));
    assert!(matches!(action, SessionAction::Subscribe(sub_id) if sub_id == name));
    let (session, action) = session_step(session, SessionEvent::Subscribed(handle));
    let (session, aborted, reply) = session_answer(session, action);
    assert_eq!(aborted, None);
    assert_eq!(reply.id, 1);
    assert!(matches!(reply.result, WsResult::Subscribed(status, sub_id) if status == "OK" && sub_id == name));
    session
}

fn session_error(result: WsResult) -> (i32, String) {
    match result {
        WsResult::Error(code, message) => (code, message),
        other => panic!("no error: {:?}", other),
    }
}

#[test]
fn handshake_is_acknowledged() {
    let (_, action) = handle_subscription_stream::<u32, u8>(session_value("0"));
    match action {
        SessionAction::Write(message) => assert_eq!(
            message,
            session_value(r#"{"jsonrpc":"2.0","result":{"status":"OK"},"id":0}"#)
        ),
        other => panic!("no acknowledgement: {:?}", other),
    }
}

#[test]
fn lost_acknowledgement_ends_the_session() {
    let (session, _) = handle_subscription_stream::<u32, u8>(session_value("0"));
    let (_, action) = session_step(session, SessionEvent::NotWritten(Error::Io("reset".to_string())));
    assert!(matches!(
        action,
        SessionAction::Close(all, Err(Error::Io(text))) if all.is_empty() && text == "reset"
    ));
}

#[test]
fn subscribed_notifications_are_forwarded() {
    let session = session_subscribe(session_open(), "quotes", 11);
    let (session, action) = session_step(session, SessionEvent::Notified("quotes".to_string(), 5));
    assert!(matches!(action, SessionAction::EncodePayload(5)));
    let (session, action) = session_step(session, SessionEvent::Encoded(session_value("[5]")));
    match action {
        SessionAction::Write(message) => assert_eq!(
            message,
            session_value(
                r#"{"jsonrpc":"2.0","method":"subscribe","params":{"subId":"quotes","payload":[5]}}"#
            )
        ),
        other => panic!("nothing written: {:?}", other),
    }
    let (_, action) = session_step(session, SessionEvent::Written);
    assert!(matches!(action, SessionAction::Wait));
}

#[test]
fn stale_notifications_are_dropped() {
    let session = session_subscribe(session_open(), "quotes", 11);
    let (session, action) = session_step(session, SessionEvent::Notified("proofs".to_string(), 5));
    assert!(matches!(action, SessionAction::Wait));
    let (session, action) = session_request(session, 2, WsMethod::Unsubscribe("quotes".to_string()));
    let (session, aborted, reply) = session_answer(session, action);
    assert_eq!(aborted, Some(11));
    assert_eq!(reply.id, 2);
    assert!(matches!(reply.result, WsResult::Unsubscribed(status, sub_id) if status == "OK" && sub_id == "quotes"));
    let (_, action) = session_step(session, SessionEvent::Notified("quotes".to_string(), 5));
    assert!(matches!(action, SessionAction::Wait));
}

#[test]
fn notification_without_json_form_is_dropped() {
    let session = session_subscribe(session_open(), "quotes", 11);
    let (session, _) = session_step(session, SessionEvent::Notified("quotes".to_string(), 5));
    let (session, action) = session_step(session, SessionEvent::NotEncoded);
    assert!(matches!(action, SessionAction::Wait));
    let (_, action) = session_step(session, SessionEvent::Notified("quotes".to_string(), 5));
    assert!(matches!(action, SessionAction::EncodePayload(5)));
}

#[test]
fn identifier_in_use_is_refused_until_it_is_free() {
    let session = session_subscribe(session_open(), "quotes", 11);
    let (session, action) = session_request(session, 5, WsMethod::Subscribe("quotes".to_string()));
    let (session, aborted, reply) = session_answer(session, action);
    assert_eq!(aborted, None);
    assert_eq!(reply.id, 5);
    assert_eq!(
        session_error(reply.result),
        (-32602, "subscription ID already exists".to_string())
    );
    let (session, action) = session_request(session, 6, WsMethod::Unsubscribe("quotes".to_string()));
    let (session, aborted, _) = session_answer(session, action);
    assert_eq!(aborted, Some(11));
    session_subscribe(session, "quotes", 12);
}

#[test]
fn unknown_identifier_is_refused() {
    let (session, action) =
        session_request(session_open(), 9, WsMethod::Unsubscribe("quotes".to_string()));
    let (_, aborted, reply) = session_answer(session, action);
    assert_eq!(aborted, None);
    assert_eq!(reply.id, 9);
    assert_eq!(
        session_error(reply.result),
        (-32602, "unknown subscription ID".to_string())
    );
}

#[test]
fn subscription_that_the_mint_does_not_take_is_refused() {
    let (session, _) = session_request(session_open(), 3, WsMethod::Subscribe("quotes".to_string()));
    let (session, action) = session_step(session, SessionEvent::NotSubscribed);
    let (session, _, reply) = session_answer(session, action);
    assert_eq!(reply.id, 3);
    assert_eq!(session_error(reply.result), (-32700, "parse error".to_string()));
    let (_, action) = session_step(session, SessionEvent::Notified("quotes".to_string(), 5));
    assert!(matches!(action, SessionAction::Wait));
}

#[test]
fn malformed_message_keeps_the_session_open() {
    let session = session_subscribe(session_open(), "quotes", 11);
    let (session, _) = session_step(session, SessionEvent::Received(session_value("[]")));
    let (session, action) = session_step(session, SessionEvent::NotDecoded("missing field `id`".to_string()));
    match action {
        SessionAction::Answer(None, reply) => {
            assert_eq!(reply.id, 0);
            assert_eq!(
                session_error(reply.result),
                (-32700, "parse error: missing field `id`".to_string())
            );
        }
        other => panic!("no refusal: {:?}", other),
    }
    let (session, action) = session_step(session, SessionEvent::NotWritten(Error::Io("busy".to_string())));
    assert!(matches!(action, SessionAction::Wait));
    let (_, action) = session_step(session, SessionEvent::Notified("quotes".to_string(), 5));
    assert!(matches!(action, SessionAction::EncodePayload(5)));
}

#[test]
fn end_of_the_session_aborts_all_tasks() {
    let session = session_subscribe(session_open(), "a", 1);
    let session = session_subscribe(session, "b", 2);
    let session = session_subscribe(session, "c", 3);
    let (session, action) = session_request(session, 4, WsMethod::Unsubscribe("b".to_string()));
    let (session, aborted, _) = session_answer(session, action);
    assert_eq!(aborted, Some(2));
    let (_, action) = session_step(session, SessionEvent::Ended);
    assert!(matches!(action, SessionAction::Close(all, Ok(())) if all == vec![1, 3]));
}

#[test]
fn lost_message_ends_the_session() {
    let session = session_subscribe(session_open(), "a", 1);
    let (session, _) = session_step(session, SessionEvent::Notified("a".to_string(), 5));
    let (session, _) = session_step(session, SessionEvent::Encoded(session_value("1")));
    let (_, action) = session_step(session, SessionEvent::NotWritten(Error::Io("reset".to_string())));
    assert!(matches!(action, SessionAction::Close(all, Ok(())) if all == vec![1]));

    let session = session_subscribe(session_open(), "a", 1);
    let (session, _) = session_request(session, 2, WsMethod::Subscribe("a".to_string()));
    let (_, action) =
        session_step(session, SessionEvent::NotWritten(Error::Io("reset".to_string())));
    assert!(matches!(action, SessionAction::Close(all, Ok(())) if all == vec![1]));
}

#[test]
fn table_of_subscriptions() {
    let mut table: Subscriptions<u32> = Subscriptions::new();
    assert!(!table.contains("a"));
    table.insert("a".to_string(), 1);
    table.insert("b".to_string(), 2);
    assert!(table.contains("a") && table.contains("b"));
    assert_eq!(table.remove("a"), Some(1));
    assert_eq!(table.remove("a"), None);
    assert!(!table.contains("a"));
    table.insert("a".to_string(), 3);
    assert_eq!(table.drain(), vec![2, 3]);
}

#[test]
fn replies_in_json() {
    let subscribed = WsReply {
        id: 7,
        result: WsResult::Subscribed("OK".to_string(), "quotes".to_string()),
    };
    assert_eq!(
        subscribed.to_value(),
        session_value(r#"{"jsonrpc":"2.0","result":{"status":"OK","subId":"quotes"},"id":7}"#)
    );
    let unsubscribed = WsReply {
        id: usize::MAX,
        result: WsResult::Unsubscribed("OK".to_string(), "quotes".to_string()),
    };
    assert_eq!(
        unsubscribed.to_value().get("id"),
        Some(&Value::from(usize::MAX))
    );
    let refused = WsReply {
        id: 0,
        result: WsResult::Error(-32602, "unknown subscription ID".to_string()),
    };
    assert_eq!(
        refused.to_value(),
        session_value(
            r#"{"jsonrpc":"2.0","error":{"code":-32602,"message":"unknown subscription ID"},"id":0}"#
        )
    );
}

#[test]
fn messages_are_answered_once_and_in_order() {
    let mut session = session_subscribe(session_open(), "quotes", 11);
    let mut answered: Vec<usize> = Vec::new();
    for (id, name) in [(4usize, "quotes"), (9, "none"), (2, "quotes")] {
        let (later, action) = session_request(session, id, WsMethod::Unsubscribe(name.to_string()));
        let (later, _, reply) = session_answer(later, action);
        answered.push(reply.id);
        let (later, _) = session_step(later, SessionEvent::Received(session_value("3")));
        let (later, action) = session_step(later, SessionEvent::NotDecoded("no".to_string()));
        let (later, _, reply) = session_answer(later, action);
        answered.push(reply.id);
        session = later;
    }
    assert_eq!(answered, vec![4, 0, 9, 0, 2, 0]);
}

#[test]
fn every_notification_is_forwarded_in_order() {
    let session = session_subscribe(session_open(), "a", 1);
    let mut session = session_subscribe(session, "b", 2);
    for (name, number) in [("a", 3u8), ("b", 1), ("a", 4), ("a", 1)] {
        let (later, action) =
            session_step(session, SessionEvent::Notified(name.to_string(), number));
        assert!(matches!(action, SessionAction::EncodePayload(payload) if payload == number));
        let (later, action) = session_step(later, SessionEvent::Encoded(Value::from(number)));
        match action {
            SessionAction::Write(message) => {
                let params = message.get("params").unwrap();
                assert_eq!(params.get("subId"), Some(&Value::from(name)));
                assert_eq!(params.get("payload"), Some(&Value::from(number)));
            }
            other => panic!("nothing written: {:?}", other),
        }
        let (later, action) = session_step(later, SessionEvent::Written);
        assert!(matches!(action, SessionAction::Wait));
        session = later;
    }
}
