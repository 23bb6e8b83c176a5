//! A wallet and a mint server, end to end over in-memory bytes: keys, info,
//! mint quote, mint, swap, check state, melt and restore.

use cdk_iroh::exchange::{Exchange, ExchangeAction, ExchangeEvent};
use cdk_iroh::handler::{dispatch, Next, Operation, Outcome, Task};
use cdk_iroh::routes::{http_get, http_post};
use cdk_iroh::stream::{stream_step, StreamAction, StreamEvent, StreamState};
use cdk_iroh::subscription::{handle_subscription_stream, SessionAction};
use cdk_iroh::wire::{read_message, write_message, ReadStep};
use cdk_iroh::{IrohAsync, RpcRequest, RpcResponse};
use iroh::SecretKey;
use serde_json::Value;
use url::Url;

fn trip_value(text: &str) -> Value {
    serde_json::from_str(text).unwrap()
}

fn trip_request(value: &Value) -> Result<RpcRequest, String> {
    match (value.get("jsonrpc"), value.get("method"), value.get("params"), value.get("id")) {
        (Some(jsonrpc), Some(method), Some(params), Some(id)) => Ok(RpcRequest {
            jsonrpc: jsonrpc.as_str().unwrap_or("").to_string(),
            method: method.as_str().unwrap_or("").to_string(),
            params: params.clone(),
            id: id.clone(),
        }),
        _ => Err("missing field".to_string()),
    }
}

/// A mint that answers with its operation and the parameters that it was given.
fn trip_serve(request: RpcRequest) -> RpcResponse {
    let mut seen = Value::Null;
    let mut operation = Operation::GetKeys;
    let mut next = dispatch(request);
    loop {
        match next {
            Next::Reply(response) => return response,
            Next::Do(call, task) => {
                operation = call.operation;
                let outcome = match task {
                    Task::ReadParams(params) => {
                        seen = params;
                        Outcome::ParamsRead
                    }
                    Task::ReadId(id) => {
                        seen = id;
                        Outcome::ParamsRead
                    }
                    Task::ReadQuote(_, request) => {
                        seen = request;
                        Outcome::QuoteRead
                    }
                    Task::AskMint => {
                        if seen.get("fail").is_some() {
                            Outcome::Failed("out of funds".to_string())
                        } else {
                            Outcome::Answered
                        }
                    }
                    Task::EncodeAnswer => Outcome::Encoded(Value::Array(vec![
                        Value::from(operation.method()),
                        seen.clone(),
                    ])),
                };
                next = call.step(outcome);
            }
        }
    }
}

/// The server's side of one stream: the bytes that it writes for those it received.
fn trip_server(received: &[u8]) -> Vec<u8> {
    let mut written: Vec<u8> = Vec::new();
    let first = match read_message(received) {
        ReadStep::Message(value) => StreamEvent::Received(value),
        ReadStep::Failed(error) => StreamEvent::NotReceived(error),
        ReadStep::Want(count) => panic!("{} bytes missing", count),
    };
    let (mut state, mut action) = stream_step(StreamState::Reading, first);
    loop {
        let event = match action {
            StreamAction::Decode(value) => match trip_request(&value) {
                Ok(request) => StreamEvent::Decoded(request),
                Err(error) => StreamEvent::NotDecoded(error),
            },
            StreamAction::Serve(request) => StreamEvent::Served(trip_serve(request)),
            StreamAction::Write(message) => {
                written.extend_from_slice(&write_message(&message).unwrap());
                StreamEvent::Written
            }
            StreamAction::Finish => StreamEvent::Finished,
            StreamAction::Subscribe(id) => {
                let (_, action) = handle_subscription_stream::<(), ()>(id);
                match action {
                    SessionAction::Write(message) => {
                        written.extend_from_slice(&write_message(&message).unwrap());
                        return written;
                    }
                    other => panic!("no acknowledgement: {:?}", other),
                }
            }
            StreamAction::Close(_) => return written,
        };
        let following = stream_step(state, event);
        state = following.0;
        action = following.1;
    }
}

/// The wallet's side of one stream, against the server above.
fn trip_exchange(exchange: Exchange) -> ExchangeAction {
    let mut sent: Vec<u8> = Vec::new();
    let mut answer: Vec<u8> = Vec::new();
    let (mut exchange, mut action) = exchange.step(ExchangeEvent::Connected);
    loop {
        let event = match action {
            ExchangeAction::Open => ExchangeEvent::Opened,
            ExchangeAction::WritePrefix(prefix) => {
                sent.extend_from_slice(&prefix);
                ExchangeEvent::Written
            }
            ExchangeAction::WriteBody(body) => {
                sent.extend_from_slice(&body);
                answer = trip_server(&sent);
                ExchangeEvent::Written
            }
            ExchangeAction::Finish => ExchangeEvent::Finished,
            ExchangeAction::Receive(count) => {
                let rest = answer.split_off(count);
                let arrived = answer;
                answer = rest;
                ExchangeEvent::Received(arrived)
            }
            other => return other,
        };
        let following = exchange.step(event);
        exchange = following.0;
        action = following.1;
    }
}

fn trip_url(path: &str) -> Url {
    Url::parse(&format!("https://iroh.local{}", path)).unwrap()
}

fn trip_call(method: &str, params: Value) -> Result<Value, String> {
    let wallet = IrohAsync::new((), SecretKey::from_bytes(&[8; 32]).public());
    match trip_exchange(wallet.rpc(method, params)) {
        ExchangeAction::Result(text) => Ok(trip_value(&text)),
        ExchangeAction::Fail(error) => Err(format!("{:?}", error)),
        other => panic!("unexpected end: {:?}", other),
    }
}

#[test]
fn every_get_reaches_its_operation() {
    for (path, expected) in [
        ("/v1/keys", r#"["cashu_getKeys",null]"#),
        ("/v1/keysets", r#"["cashu_getKeysets",null]"#),
        ("/v1/info", r#"["cashu_getInfo",null]"#),
        ("/v1/keys/00ad", r#"["cashu_getKeyById","00ad"]"#),
        (
            "/v1/mint/quote/bolt11/q",
            r#"["cashu_getMintQuote","q"]"#,
        ),
        (
            "/v1/melt/quote/bolt11/q",
            r#"["cashu_getMeltQuote","q"]"#,
        ),
    ] {
        let (method, params) = http_get(&trip_url(path)).unwrap();
        assert_eq!(trip_call(method, params).unwrap(), trip_value(expected));
    }
}

#[test]
fn every_post_reaches_its_operation_with_its_body() {
    let body = trip_value(r#"{"amount":64,"unit":"sat","nested":[{"a":[]}]}"#);
    for (path, name) in [
        ("/v1/mint/quote/bolt11", "cashu_postMintQuote"),
        ("/v1/mint/bolt11", "cashu_postMint"),
        ("/v1/swap", "cashu_postSwap"),
        ("/v1/checkstate", "cashu_checkState"),
        ("/v1/melt/quote/bolt11", "cashu_postMeltQuote"),
        ("/v1/melt/bolt11", "cashu_postMelt"),
        ("/v1/restore", "cashu_restore"),
    ] {
        let (method, params) = http_post(&trip_url(path), Ok(body.clone())).unwrap();
        assert_eq!(
            trip_call(method, params).unwrap(),
            Value::Array(vec![Value::from(name), body.clone()])
        );
    }
}

#[test]
fn failure_of_the_mint_reaches_the_wallet() {
    let failure = trip_call("cashu_postMelt", trip_value(r#"{"fail":true}"#)).unwrap_err();
    assert_eq!(
        failure,
        r#"Custom("JSON-RPC error: {\"code\":-32603,\"message\":\"out of funds\"}")"#
    );
}

#[test]
fn unknown_method_reaches_the_wallet() {
    let failure = trip_call("cashu_burn", Value::Null).unwrap_err();
    assert_eq!(
        failure,
        r#"Custom("JSON-RPC error: {\"code\":-32601,\"message\":\"unknown method: cashu_burn\"}")"#
    );
}

#[test]
fn request_of_another_version_is_not_served() {
    let request = trip_value(r#"{"jsonrpc":"1.0","method":"cashu_getKeys","params":null,"id":1}"#);
    let answer = trip_server(&write_message(&request).unwrap());
    match read_message(&answer) {
        ReadStep::Message(message) => {
            assert!(message.get("result").is_none());
            assert_eq!(message.get("error").unwrap().get("code"), Some(&Value::from(-32600)));
        }
        other => panic!("unreadable: {:?}", other),
    }
}

#[test]
fn handshake_opens_a_subscription_stream() {
    let wallet = IrohAsync::new((), SecretKey::from_bytes(&[8; 32]).public());
    assert!(matches!(
        trip_exchange(wallet.open_subscription_stream()),
        ExchangeAction::Ready
    ));
}

#[test]
fn alpn_is_the_protocol_name() {
    assert_eq!(&cdk_iroh::CASHU_ALPN, b"cashu/mint/0");
    assert_eq!(cdk_iroh::methods::SUBSCRIBE, "cashu_subscribe");
}
