//! Dispatch of requests and the course of calls.

use cdk_iroh::handler::{
    default_payment_method, dispatch, keyset_param, operation_named, quote_id_param, quote_kind,
    split_quote_params, Call, Next, Operation, Outcome, QuoteKind, Task, RPC_INTERNAL_ERROR, RPC_INVALID_PARAMS, RPC_METHOD_NOT_FOUND,
};
use cdk_iroh::{methods, RpcRequest, RpcResponse};
use serde_json::Value;

fn handler_value(text: &str) -> Value {
    serde_json::from_str(text).unwrap()
}

fn handler_request(method: &str, params: &str) -> RpcRequest {
    RpcRequest {
        jsonrpc: "2.0".to_string(),
        method: method.to_string(),
        params: handler_value(params),
        id: handler_value(r#""req-1""#),
    }
}

fn handler_call(next: Next) -> (Call, Task) {
    match next {
        Next::Do(call, task) => (call, task),
        Next::Reply(response) => panic!("answered: {:?}", response),
    }
}

fn handler_reply(next: Next) -> RpcResponse {
    match next {
        Next::Reply(response) => response,
        Next::Do(_, task) => panic!("goes on: {:?}", task),
    }
}

const ALL: [(&str, Operation); 13] = [
    ("cashu_getKeys", Operation::GetKeys),
    ("cashu_getKeysets", Operation::GetKeysets),
    ("cashu_getKeyById", Operation::GetKeyById),
    ("cashu_postSwap", Operation::PostSwap),
    ("cashu_getMintQuote", Operation::GetMintQuote),
    ("cashu_postMintQuote", Operation::PostMintQuote),
    ("cashu_postMint", Operation::PostMint),
    ("cashu_getMeltQuote", Operation::GetMeltQuote),
    ("cashu_postMeltQuote", Operation::PostMeltQuote),
    ("cashu_postMelt", Operation::PostMelt),
    ("cashu_checkState", Operation::CheckState),
    ("cashu_getInfo", Operation::GetInfo),
    ("cashu_restore", Operation::Restore),
];

#[test]
fn every_method_has_its_operation() {
    for (name, operation) in ALL {
        assert_eq!(operation_named(name), Some(operation));
        assert_eq!(operation.method(), name);
    }
    assert_eq!(operation_named(methods::SUBSCRIBE), None);
    assert_eq!(operation_named("cashu_getkeys"), None);
    assert_eq!(operation_named(""), None);
}

#[test]
fn operations_without_params_go_straight_to_the_mint() {
    for (name, operation) in ALL {
        let (call, task) = handler_call(dispatch(handler_request(name, r#"{"id":"x"}"#)));
        assert_eq!(call.operation, operation);
        let without = matches!(
            operation,
            Operation::GetKeys | Operation::GetKeysets | Operation::GetInfo
        );
        match task {
            Task::AskMint => assert!(without),
            Task::ReadId(id) => {
                assert!(matches!(
                    operation,
                    Operation::GetKeyById | Operation::GetMintQuote | Operation::GetMeltQuote
                ));
                assert_eq!(id, handler_value(r#""x""#));
            }
            Task::ReadQuote(QuoteKind::Bolt11, params) => {
                assert!(matches!(
                    operation,
                    Operation::PostMintQuote | Operation::PostMeltQuote
                ));
                assert_eq!(params, handler_value(r#"{"id":"x"}"#));
            }
            Task::ReadParams(params) => {
                assert!(!without);
                assert_eq!(params, handler_value(r#"{"id":"x"}"#));
            }
            other => panic!("unexpected task: {:?}", other),
        }
    }
}

#[test]
fn unknown_method_is_answered() {
    let response = handler_reply(dispatch(handler_request("cashu_burn", "null")));
    assert_eq!(RPC_METHOD_NOT_FOUND, -32601);
    assert_eq!(
        response.to_value(),
        handler_value(
            r#"{"jsonrpc":"2.0","error":{"code":-32601,"message":"unknown method: cashu_burn"},"id":"req-1"}"#
        )
    );
}

#[test]
fn call_is_followed_to_its_result() {
    let (call, _) = handler_call(dispatch(handler_request("cashu_postSwap", r#"{"inputs":[]}"#)));
    let (call, task) = handler_call(call.step(Outcome::ParamsRead));
    assert!(matches!(task, Task::AskMint));
    let (call, task) = handler_call(call.step(Outcome::Answered));
    assert!(matches!(task, Task::EncodeAnswer));
    assert_eq!(call.operation, Operation::PostSwap);
    let response = handler_reply(call.step(Outcome::Encoded(handler_value(r#"{"signatures":[]}"#))));
    assert_eq!(
        response.to_value(),
        handler_value(r#"{"jsonrpc":"2.0","result":{"signatures":[]},"id":"req-1"}"#)
    );
}

#[test]
fn undecodable_params_are_invalid() {
    let (call, _) = handler_call(dispatch(handler_request("cashu_postMint", "3")));
    let response = handler_reply(call.step(Outcome::ParamsRefused("missing field `quote`".to_string())));
    let error = response.error.unwrap();
    assert_eq!(error.code, RPC_INVALID_PARAMS);
    assert_eq!(error.code, -32602);
    assert_eq!(error.message, "invalid params: missing field `quote`");
    assert_eq!(response.id, handler_value(r#""req-1""#));
}

#[test]
fn failing_mint_is_an_internal_error() {
    let (call, _) = handler_call(dispatch(handler_request("cashu_getInfo", "{}")));
    let response = handler_reply(call.step(Outcome::Failed("database gone".to_string())));
    let error = response.error.unwrap();
    assert_eq!(error.code, RPC_INTERNAL_ERROR);
    assert_eq!(error.code, -32603);
    assert_eq!(error.message, "database gone");
}

#[test]
fn answer_without_json_form_is_an_internal_error() {
    let (call, _) = handler_call(dispatch(handler_request("cashu_getKeys", "{}")));
    let (call, _) = handler_call(call.step(Outcome::Answered));
    let response = handler_reply(call.step(Outcome::NotEncoded("key must be a string".to_string())));
    let error = response.error.unwrap();
    assert_eq!((error.code, error.message.as_str()), (-32603, "key must be a string"));
}

#[test]
fn keyset_is_named_by_id_or_keyset_id() {
    for (params, found) in [
        (r#"{"id":"00ff"}"#, Some(r#""00ff""#)),
        (r#"{"keyset_id":"00ff","more":1}"#, Some(r#""00ff""#)),
        (r#"["00ff"]"#, Some(r#""00ff""#)),
        (r#"{"id":null}"#, Some("null")),
        (r#"{"id":"00ff","keyset_id":"00ff"}"#, None),
        ("{}", None),
        ("[]", None),
        ("[1,2]", None),
        (r#""00ff""#, None),
    ] {
        assert_eq!(keyset_param(&handler_value(params)), found.map(handler_value));
        let (call, task) = handler_call(dispatch(handler_request("cashu_getKeyById", params)));
        match (task, found) {
            (Task::ReadId(id), Some(text)) => assert_eq!(id, handler_value(text)),
            (Task::ReadParams(value), None) => assert_eq!(value, handler_value(params)),
            other => panic!("unexpected task: {:?}", other),
        }
        let response = handler_reply(call.step(Outcome::ParamsRefused("bad id".to_string())));
        assert_eq!(response.error.unwrap().message, "invalid params: bad id");
    }
}

#[test]
fn quote_is_named_by_id() {
    for (params, found) in [
        (r#"{"id":"q","payment_method":"bolt11"}"#, Some(r#""q""#)),
        (r#"["q"]"#, Some(r#""q""#)),
        (r#"{"keyset_id":"q"}"#, None),
        ("null", None),
    ] {
        assert_eq!(quote_id_param(&handler_value(params)), found.map(handler_value));
        for method in ["cashu_getMintQuote", "cashu_getMeltQuote"] {
            let (call, task) = handler_call(dispatch(handler_request(method, params)));
            match (task, found) {
                (Task::ReadId(id), Some(text)) => {
                    assert_eq!(id, handler_value(text));
                    let (_, task) = handler_call(call.step(Outcome::ParamsRead));
                    assert!(matches!(task, Task::AskMint));
                }
                (Task::ReadParams(_), None) => {}
                other => panic!("unexpected task: {:?}", other),
            }
        }
    }
}

#[test]
fn quote_is_decoded_by_its_payment_method() {
    for method in ["cashu_postMintQuote", "cashu_postMeltQuote"] {
        for params in [
            r#"{"amount":64}"#,
            r#"{"amount":64,"payment_method":"bolt11"}"#,
        ] {
            let (call, task) = handler_call(dispatch(handler_request(method, params)));
            match task {
                Task::ReadQuote(QuoteKind::Bolt11, rest) => {
                    assert_eq!(rest, handler_value(r#"{"amount":64}"#));
                }
                other => panic!("unexpected task: {:?}", other),
            }
            let (_, task) = handler_call(call.step(Outcome::QuoteRead));
            assert!(matches!(task, Task::AskMint));
        }
    }
}

#[test]
fn custom_mint_quote_is_named() {
    let (_, task) = handler_call(dispatch(handler_request(
        "cashu_postMintQuote",
        r#"{"payment_method":"paypal","unit":"eur"}"#,
    )));
    match task {
        Task::ReadQuote(QuoteKind::Custom(name), rest) => {
            assert_eq!(name, "paypal");
            assert_eq!(rest, handler_value(r#"{"unit":"eur"}"#));
        }
        other => panic!("unexpected task: {:?}", other),
    }
}

#[test]
fn custom_melt_quote_is_not_named() {
    for params in [
        r#"{"payment_method":"paypal","unit":"eur"}"#,
        r#"{"payment_method":"bolt12","unit":"eur"}"#,
    ] {
        let (call, task) = handler_call(dispatch(handler_request("cashu_postMeltQuote", params)));
        match task {
            Task::ReadQuote(QuoteKind::Unnamed, rest) => {
                assert_eq!(rest, handler_value(r#"{"unit":"eur"}"#));
            }
            other => panic!("unexpected task: {:?}", other),
        }
        let response =
            handler_reply(call.step(Outcome::QuoteRefused("missing field `unit`".to_string())));
        let error = response.error.unwrap();
        assert_eq!((error.code, error.message.as_str()), (-32602, "missing field `unit`"));
    }
}

#[test]
fn params_without_a_quote_are_refused() {
    for params in ["null", "[]", r#"{"payment_method":1}"#, r#"{"payment_method":null}"#] {
        assert!(split_quote_params(&handler_value(params)).is_none());
        let (call, task) = handler_call(dispatch(handler_request("cashu_postMintQuote", params)));
        assert!(matches!(task, Task::ReadParams(value) if value == handler_value(params)));
        let response = handler_reply(call.step(Outcome::ParamsRefused("invalid type".to_string())));
        let error = response.error.unwrap();
        assert_eq!((error.code, error.message.as_str()), (-32602, "invalid params: invalid type"));
    }
}

#[test]
fn payment_methods() {
    assert_eq!(default_payment_method(), "bolt11");
    for operation in [Operation::PostMintQuote, Operation::PostMeltQuote] {
        assert!(matches!(quote_kind(operation, "bolt11".to_string()), QuoteKind::Bolt11));
    }
    assert!(matches!(
        quote_kind(Operation::PostMintQuote, "bolt12".to_string()),
        QuoteKind::Custom(name) if name == "bolt12"
    ));
    assert!(matches!(
        quote_kind(Operation::PostMeltQuote, String::new()),
        QuoteKind::Unnamed
    ));
}
