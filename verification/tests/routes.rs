//! The mapping from URLs to JSON-RPC methods.

use cdk_iroh::error::TransportError;
use cdk_iroh::routes::{
    http_get, http_post, merge_params, path_to_method, split_segments, url_to_method,
};
use serde_json::Value;
use url::Url;

fn routes_value(text: &str) -> Value {
    serde_json::from_str(text).unwrap()
}

fn routes_url(path: &str) -> Url {
    Url::parse(&format!("https://iroh.local{}", path)).unwrap()
}

fn routes_custom(error: TransportError) -> String {
    match error {
        TransportError::Custom(text) => text,
        other => panic!("unexpected error: {:?}", other),
    }
}

const GETS: [(&str, &str, &str); 6] = [
    ("/v1/keys", "cashu_getKeys", "{}"),
    ("/v1/keys/009a1f293253e41e", "cashu_getKeyById", r#"{"id":"009a1f293253e41e"}"#),
    ("/v1/keysets", "cashu_getKeysets", "{}"),
    (
        "/v1/mint/quote/bolt11/q-1",
        "cashu_getMintQuote",
        r#"{"id":"q-1","payment_method":"bolt11"}"#,
    ),
    (
        "/v1/melt/quote/bolt11/q-2",
        "cashu_getMeltQuote",
        r#"{"id":"q-2","payment_method":"bolt11"}"#,
    ),
    ("/v1/info", "cashu_getInfo", "{}"),
];

const POSTS: [(&str, &str); 7] = [
    ("/v1/mint/quote/bolt11", "cashu_postMintQuote"),
    ("/v1/mint/bolt11", "cashu_postMint"),
    ("/v1/melt/quote/bolt11", "cashu_postMeltQuote"),
    ("/v1/melt/bolt11", "cashu_postMelt"),
    ("/v1/swap", "cashu_postSwap"),
    ("/v1/checkstate", "cashu_checkState"),
    ("/v1/restore", "cashu_restore"),
];

#[test]
fn get_routes() {
    for (path, method, params) in GETS {
        let (name, value) = http_get(&routes_url(path)).unwrap();
        assert_eq!(name, method);
        assert_eq!(value, routes_value(params));
        assert!(url_to_method(&routes_url(path), true).is_err());
    }
}

#[test]
fn post_routes() {
    for (path, method) in POSTS {
        let (name, value) = url_to_method(&routes_url(path), true).unwrap();
        assert_eq!(name, method);
        assert_eq!(value, routes_value("{}"));
        assert!(http_get(&routes_url(path)).is_err());
    }
}

#[test]
fn slashes_do_not_matter() {
    for (path, method, params) in GETS {
        for changed in [format!("{}/", path), format!("{}///", path), path.replace("/", "//")] {
            let (name, value) = path_to_method(&changed, false).unwrap();
            assert_eq!(name, method);
            assert_eq!(value, routes_value(params));
        }
    }
}

#[test]
fn query_is_not_part_of_the_path() {
    let (name, _) = http_get(&routes_url("/v1/info?verbose=1#top")).unwrap();
    assert_eq!(name, "cashu_getInfo");
}

#[test]
fn unknown_paths_are_errors() {
    assert_eq!(
        routes_custom(http_get(&routes_url("/v2/keys/")).unwrap_err()),
        "IrohAsync: unknown URL path '/v2/keys/' (is_post=false)"
    );
    assert_eq!(
        routes_custom(http_post(&routes_url("/v1/keys"), Ok(Value::Null)).unwrap_err()),
        "IrohAsync: unknown URL path '/v1/keys' (is_post=true)"
    );
    for path in ["", "/", "v1", "/v1/keys/a/b", "/V1/keys", "/v1/mint/quote/bolt12/x", "/keys/v1"] {
        assert!(path_to_method(path, false).is_err());
        assert!(path_to_method(path, true).is_err());
    }
}

#[test]
fn path_is_split_at_slashes() {
    assert_eq!(split_segments("/v1//keys/"), vec!["v1", "keys"]);
    assert_eq!(split_segments("a/b\u{e9}/c"), vec!["a", "b\u{e9}", "c"]);
    assert!(split_segments("///").is_empty());
    assert!(split_segments("").is_empty());
}

#[test]
fn post_body_is_passed_on() {
    for body in [r#"{"inputs":[1],"outputs":[]}"#, "[1]", "null"] {
        let (name, params) =
            http_post(&routes_url("/v1/swap"), Ok(routes_value(body))).unwrap();
        assert_eq!(name, "cashu_postSwap");
        assert_eq!(params, routes_value(body));
    }
}

#[test]
fn body_without_json_form_is_an_error() {
    let error = http_post(&routes_url("/v1/swap"), Err("key must be a string".to_string()));
    assert_eq!(routes_custom(error.unwrap_err()), "key must be a string");
    let error = http_post(&routes_url("/nowhere"), Err("key must be a string".to_string()));
    assert_eq!(
        routes_custom(error.unwrap_err()),
        "IrohAsync: unknown URL path '/nowhere' (is_post=true)"
    );
}

#[test]
fn path_params_are_merged_into_the_body() {
    assert_eq!(
        merge_params(routes_value(r#"{"a":1,"b":2}"#), &routes_value(r#"{"b":3,"c":4}"#)),
        routes_value(r#"{"a":1,"b":3,"c":4}"#)
    );
    assert_eq!(
        merge_params(routes_value(r#"{"a":1}"#), &routes_value("{}")),
        routes_value(r#"{"a":1}"#)
    );
    assert_eq!(
        merge_params(routes_value("{}"), &routes_value(r#"{"id":"x"}"#)),
        routes_value(r#"{"id":"x"}"#)
    );
    assert_eq!(
        merge_params(routes_value("[1]"), &routes_value(r#"{"id":"x"}"#)),
        routes_value("[1]")
    );
    assert_eq!(
        merge_params(routes_value(r#"{"a":1}"#), &routes_value("null")),
        routes_value(r#"{"a":1}"#)
    );
}
