//! Error messages and text helpers.

use cdk_iroh::error::MintError;
use cdk_iroh::text::{decimal, join, same_text, strip_prefix};
use cdk_iroh::Error;

#[test]
fn every_error_has_its_message() {
    assert_eq!(Error::Io("lost".to_string()).message(), "I/O error: lost");
    assert_eq!(Error::Json("eof".to_string()).message(), "JSON error: eof");
    assert_eq!(
        Error::MessageTooLarge(16_777_217).message(),
        "Message too large: 16777217 bytes"
    );
    assert_eq!(Error::UnknownMethod("m".to_string()).message(), "Unknown method: m");
    assert_eq!(Error::InvalidParams("p".to_string()).message(), "Invalid params: p");
    assert_eq!(Error::Mint("m".to_string()).message(), "Mint error: m");
    assert_eq!(Error::Iroh("bind".to_string()).message(), "Iroh error: bind");
    assert_eq!(Error::Identity("key".to_string()).message(), "Identity error: key");
}

#[test]
fn mint_error_is_converted() {
    let error = Error::from(MintError { message: "token already spent".to_string() });
    assert_eq!(error.message(), "Mint error: token already spent");
}

#[test]
fn numbers_are_written_in_decimal() {
    assert_eq!(decimal(0), "0");
    assert_eq!(decimal(9), "9");
    assert_eq!(decimal(10), "10");
    assert_eq!(decimal(1_234_567_890), "1234567890");
    assert_eq!(decimal(u64::MAX), "18446744073709551615");
}

#[test]
fn texts_are_compared_joined_and_stripped() {
    assert!(same_text("", ""));
    assert!(same_text("na\u{ef}ve", "na\u{ef}ve"));
    assert!(!same_text("abc", "abd"));
    assert!(!same_text("ab", "abc"));
    assert_eq!(join("a", "\u{e9}"), "a\u{e9}");
    assert_eq!(strip_prefix("iroh://x", "iroh://"), Some("x"));
    assert_eq!(strip_prefix("iroh://", "iroh://"), Some(""));
    assert_eq!(strip_prefix("iroh:/", "iroh://"), None);
    assert_eq!(strip_prefix("\u{e9}x", "\u{e9}"), Some("x"));
    assert_eq!(strip_prefix("IROH://x", "iroh://"), None);
}
