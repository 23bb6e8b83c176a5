//! The wallet's transport: its peer, its connection and its exchanges.

use cdk_iroh::error::{MintError, TransportError};
use cdk_iroh::exchange::{Exchange, ExchangeAction, ExchangeEvent};
use cdk_iroh::transport::{
    accept_ack, envelope_result, rpc_result, subscribe_ack, unexpected_result, ConnectionCache,
    MAX_FRAME_SIZE,
};
use cdk_iroh::wire::{read_message, write_message, ReadStep};
use cdk_iroh::IrohAsync;
use iroh::{NodeId, SecretKey};
use serde_json::Value;
use url::Url;

fn transport_value(text: &str) -> Value {
    serde_json::from_str(text).unwrap()
}

fn transport_node() -> NodeId {
    SecretKey::from_bytes(&[5; 32]).public()
}

fn transport_custom(error: TransportError) -> String {
    match error {
        TransportError::Custom(text) => text,
        other => panic!("unexpected error: {:?}", other),
    }
}

fn transport_failure(action: ExchangeAction) -> String {
    match action {
        ExchangeAction::Fail(error) => transport_custom(error),
        other => panic!("no failure: {:?}", other),
    }
}

/// Goes through an exchange up to the written body; gives the bytes written.
fn transport_send(exchange: Exchange) -> (Exchange, Vec<u8>) {
    let (exchange, action) = exchange.step(ExchangeEvent::Connected);
    assert!(matches!(action, ExchangeAction::Open));
    let (exchange, action) = exchange.step(ExchangeEvent::Opened);
    let mut sent = match action {
        ExchangeAction::WritePrefix(prefix) => prefix.to_vec(),
        other => panic!("no prefix: {:?}", other),
    };
    let (exchange, action) = exchange.step(ExchangeEvent::Written);
    match action {
        ExchangeAction::WriteBody(body) => sent.extend_from_slice(&body),
        other => panic!("no body: {:?}", other),
    }
    (exchange, sent)
}

/// A call that waits for its answer.
fn transport_waiting() -> Exchange {
    let call = IrohAsync::new((), transport_node()).rpc("cashu_getInfo", transport_value("{}"));
    let (exchange, _) = transport_send(call);
    let (exchange, action) = exchange.step(ExchangeEvent::Written);
    assert!(matches!(action, ExchangeAction::Finish));
    let (exchange, action) = exchange.step(ExchangeEvent::Finished);
    assert!(matches!(action, ExchangeAction::Receive(4)));
    exchange
}

/// Delivers a frame to an exchange, as many bytes at a time as are asked for.
fn transport_deliver(exchange: Exchange, frame: &[u8]) -> ExchangeAction {
    let (exchange, action) = exchange.step(ExchangeEvent::Received(frame[..4].to_vec()));
    match action {
        ExchangeAction::Receive(count) => {
            assert_eq!(count, frame.len() - 4);
            exchange.step(ExchangeEvent::Received(frame[4..].to_vec())).1
        }
        other => other,
    }
}

#[test]
fn transport_dials_its_peer() {
    let transport = IrohAsync::new("endpoint", transport_node());
    assert_eq!(transport.node_id(), Some(transport_node()));
    let (endpoint, node) = transport.peer().unwrap();
    assert_eq!((*endpoint, node), ("endpoint", transport_node()));
}

#[test]
fn default_transport_is_a_placeholder() {
    let transport: IrohAsync<()> = IrohAsync::default();
    assert_eq!(transport.node_id(), None);
    let mut cache: ConnectionCache<u8> = ConnectionCache::new();
    let error = transport.get_connection(&mut cache, false).unwrap_err();
    assert_eq!(
        transport_custom(error),
        "IrohAsync used without a configured endpoint. Use IrohAsync::new instead of IrohAsync::default."
    );
    let exchange = transport.rpc("cashu_getKeys", Value::Null);
    let error = transport.peer().unwrap_err();
    let (_, action) = exchange.step(ExchangeEvent::NotConnected(error));
    assert!(transport_failure(action).starts_with("IrohAsync used without"));
}

#[test]
fn proxies_and_dns_are_not_supported() {
    let mut transport = IrohAsync::new((), transport_node());
    let proxy = Url::parse("http://proxy.local").unwrap();
    assert_eq!(
        transport_custom(transport.with_proxy(proxy, None, false).unwrap_err()),
        "IrohAsync does not support HTTP proxies; Iroh uses its own relay infrastructure."
    );
    assert_eq!(transport.node_id(), Some(transport_node()));
    assert_eq!(
        transport_custom(transport.resolve_dns_txt("example.org").unwrap_err()),
        "IrohAsync does not support DNS TXT resolution; use the default HTTP transport for BIP-353 lookups."
    );
}

#[test]
fn healthy_connection_is_used_again() {
    let transport = IrohAsync::new("endpoint", transport_node());
    let mut cache: ConnectionCache<u32> = ConnectionCache::new();
    assert!(cache.current().is_none());
    let dial = transport.get_connection(&mut cache, false).unwrap();
    assert_eq!(dial, Some((&"endpoint", transport_node(), *b"cashu/mint/0")));
    assert!(cache.connected(Ok(17)).is_ok());
    assert_eq!(cache.current(), Some(&17));
    assert_eq!(transport.get_connection(&mut cache, false).unwrap(), None);
    assert_eq!(cache.current(), Some(&17));
}

#[test]
fn closed_connection_is_dropped() {
    let transport = IrohAsync::new("endpoint", transport_node());
    let mut cache: ConnectionCache<u32> = ConnectionCache::new();
    assert!(cache.connected(Ok(17)).is_ok());
    assert!(transport.get_connection(&mut cache, true).unwrap().is_some());
    assert!(cache.current().is_none());
    let error = cache.connected(Err("timed out".to_string())).unwrap_err();
    assert_eq!(transport_custom(error), "Iroh connect failed: timed out");
    assert!(cache.current().is_none());
    assert!(!cache.reuse(false));
}

#[test]
fn call_writes_its_request_as_one_frame() {
    let call = IrohAsync::new((), transport_node())
        .rpc("cashu_getKeyById", transport_value(r#"{"id":"00"}"#));
    let (exchange, sent) = transport_send(call);
    match read_message(&sent) {
        ReadStep::Message(value) => assert_eq!(
            value,
            transport_value(
                r#"{"jsonrpc":"2.0","method":"cashu_getKeyById","params":{"id":"00"},"id":1}"#
            )
        ),
        other => panic!("unreadable: {:?}", other),
    }
    let (_, action) = exchange.step(ExchangeEvent::Written);
    assert!(matches!(action, ExchangeAction::Finish));
}

#[test]
fn call_comes_to_its_result() {
    let frame =
        write_message(&transport_value(r#"{"jsonrpc":"2.0","result":{"name":"m"},"id":1}"#)).unwrap();
    match transport_deliver(transport_waiting(), &frame) {
        ExchangeAction::Result(text) => assert_eq!(text, r#"{"name":"m"}"#),
        other => panic!("no result: {:?}", other),
    }
}

#[test]
fn error_of_the_mint_is_propagated() {
    let frame = write_message(&transport_value(
        r#"{"jsonrpc":"2.0","error":{"code":-32603,"message":"boom"},"result":1,"id":1}"#,
    ))
    .unwrap();
    assert_eq!(
        transport_failure(transport_deliver(transport_waiting(), &frame)),
        r#"JSON-RPC error: {"code":-32603,"message":"boom"}"#
    );
}

#[test]
fn oversized_answer_is_refused_at_its_prefix() {
    assert_eq!(MAX_FRAME_SIZE, 16_777_216);
    let action = transport_deliver(transport_waiting(), &[1, 0, 0, 1]);
    assert_eq!(
        transport_failure(action),
        "frame too large: 16777217 bytes (limit 16777216)"
    );
}

#[test]
fn failures_of_an_exchange_are_told_apart() {
    let start = || IrohAsync::new((), transport_node()).rpc("cashu_getKeys", Value::Null);
    let (_, action) = start().step(ExchangeEvent::NotConnected(TransportError::Custom(
        "Iroh connect failed: no route".to_string(),
    )));
    assert_eq!(transport_failure(action), "Iroh connect failed: no route");

    let (exchange, _) = start().step(ExchangeEvent::Connected);
    let (_, action) = exchange.step(ExchangeEvent::NotOpened("lost".to_string()));
    assert_eq!(transport_failure(action), "open_bi failed: lost");

    let (exchange, _) = start().step(ExchangeEvent::Connected);
    let (exchange, _) = exchange.step(ExchangeEvent::Opened);
    let (_, action) = exchange.step(ExchangeEvent::NotWritten("lost".to_string()));
    assert_eq!(transport_failure(action), "write length prefix failed: lost");

    let (exchange, _) = transport_send(start());
    let (_, action) = exchange.step(ExchangeEvent::NotWritten("lost".to_string()));
    assert_eq!(transport_failure(action), "write frame body failed: lost");

    let (exchange, _) = transport_send(start());
    let (exchange, _) = exchange.step(ExchangeEvent::Written);
    let (_, action) = exchange.step(ExchangeEvent::NotFinished("lost".to_string()));
    assert_eq!(transport_failure(action), "stream finish failed: lost");

    let (_, action) = transport_waiting().step(ExchangeEvent::NotReceived("lost".to_string()));
    assert_eq!(transport_failure(action), "read length prefix failed: lost");

    let (exchange, _) = transport_waiting().step(ExchangeEvent::Received(vec![0, 0, 0, 9]));
    let (_, action) = exchange.step(ExchangeEvent::NotReceived("lost".to_string()));
    assert_eq!(transport_failure(action), "read frame body failed: lost");
}

#[test]
fn result_of_a_response_body() {
    assert_eq!(rpc_result(br#"{"result":[1, 2]}"#).unwrap(), "[1,2]");
    assert_eq!(rpc_result(br#"{"result":null}"#).unwrap(), "null");
    assert_eq!(
        transport_custom(rpc_result(b"{}").unwrap_err()),
        "JSON-RPC response missing 'result' field"
    );
    assert_eq!(
        transport_custom(rpc_result(b"[]").unwrap_err()),
        "JSON-RPC response missing 'result' field"
    );
    assert_eq!(
        transport_custom(rpc_result(b"").unwrap_err()),
        "JSON parse error: EOF while parsing a value at line 1 column 0"
    );
    assert_eq!(
        transport_custom(envelope_result(&transport_value(r#"{"error":null}"#)).unwrap_err()),
        "JSON-RPC error: null"
    );
}

#[test]
fn unexpected_result_is_the_mints_error_or_a_failure() {
    let own = TransportError::Mint(MintError { message: "quote expired".to_string() });
    match unexpected_result("missing field", Some(own)) {
        TransportError::Mint(error) => assert_eq!(error.message, "quote expired"),
        other => panic!("unexpected error: {:?}", other),
    }
    assert_eq!(
        transport_custom(unexpected_result("missing field `keysets`", None)),
        "deserialisation error: missing field `keysets`"
    );
}

#[test]
fn subscription_handshake_stays_open() {
    let handshake = IrohAsync::new((), transport_node()).open_subscription_stream();
    let (exchange, sent) = transport_send(handshake);
    match read_message(&sent) {
        ReadStep::Message(value) => assert_eq!(
            value,
            transport_value(r#"{"jsonrpc":"2.0","method":"cashu_subscribe","params":{},"id":0}"#)
        ),
        other => panic!("unreadable: {:?}", other),
    }
    let (exchange, action) = exchange.step(ExchangeEvent::Written);
    assert!(matches!(action, ExchangeAction::Receive(4)));
    let frame =
        write_message(&transport_value(r#"{"jsonrpc":"2.0","result":{"status":"OK"},"id":0}"#)).unwrap();
    assert!(matches!(transport_deliver(exchange, &frame), ExchangeAction::Ready));
}

#[test]
fn other_acknowledgements_are_refused() {
    assert!(subscribe_ack(br#"{"result":{"status":"OK"}}"#).is_ok());
    assert_eq!(
        transport_custom(subscribe_ack(br#"{"error":"busy","result":{"status":"OK"}}"#).unwrap_err()),
        r#"cashu_subscribe rejected by server: "busy""#
    );
    for (ack, shown) in [
        ("{}", "{}"),
        (r#"{"result":null}"#, r#"{"result":null}"#),
        (r#"{ "result": { "status": "NO" } }"#, r#"{"result":{"status":"NO"}}"#),
        (r#"{"result":{"status":1}}"#, r#"{"result":{"status":1}}"#),
    ] {
        assert_eq!(
            transport_custom(accept_ack(&transport_value(ack)).unwrap_err()),
            format!("cashu_subscribe unexpected ack: {}", shown)
        );
    }
    assert_eq!(
        transport_custom(subscribe_ack(b"?").unwrap_err()),
        "subscribe ack parse error: expected value at line 1 column 1"
    );
}
