//! Error types of the mint server and of the wallet's transport.

use crate::text::{decimal, decimal_text, join, law_prefix_and_rest_are_the_text, stripped};
use vstd::prelude::*;

verus! {

/// Errors that can occur in the Iroh mint server.
#[derive(Debug)]
pub enum Error {
    /// An I/O error occurred on the QUIC stream.
    Io(String),
    /// JSON (de)serialisation failed.
    Json(String),
    /// The incoming message length prefix exceeds the allowed maximum.
    MessageTooLarge(u32),
    /// The JSON-RPC method is not recognised.
    UnknownMethod(String),
    /// Missing or invalid params for a method.
    InvalidParams(String),
    /// An error returned by the mint.
    Mint(String),
    /// An error from the Iroh endpoint/transport layer.
    Iroh(String),
    /// Failed to load or persist the node identity key.
    Identity(String),
}

/// What an [`Error`] says.
pub enum ErrorView {
    Io(Seq<char>),
    Json(Seq<char>),
    MessageTooLarge(u32),
    UnknownMethod(Seq<char>),
    InvalidParams(Seq<char>),
    Mint(Seq<char>),
    Iroh(Seq<char>),
    Identity(Seq<char>),
}

impl View for Error {
    type V = ErrorView;

    open spec fn view(&self) -> ErrorView {
        match self {
            Error::Io(text) => ErrorView::Io(text@),
            Error::Json(text) => ErrorView::Json(text@),
            Error::MessageTooLarge(size) => ErrorView::MessageTooLarge(*size),
            Error::UnknownMethod(text) => ErrorView::UnknownMethod(text@),
            Error::InvalidParams(text) => ErrorView::InvalidParams(text@),
            Error::Mint(text) => ErrorView::Mint(text@),
            Error::Iroh(text) => ErrorView::Iroh(text@),
            Error::Identity(text) => ErrorView::Identity(text@),
        }
    }
}

impl ErrorView {
    /// The message that is shown to a person.
    pub open spec fn message(self) -> Seq<char> {
        match self {
            ErrorView::Io(text) => "I/O error: "@ + text,
            ErrorView::Json(text) => "JSON error: "@ + text,
            ErrorView::MessageTooLarge(size) => "Message too large: "@ + decimal_text(size as nat)
                + " bytes"@,
            ErrorView::UnknownMethod(text) => "Unknown method: "@ + text,
            ErrorView::InvalidParams(text) => "Invalid params: "@ + text,
            ErrorView::Mint(text) => "Mint error: "@ + text,
            ErrorView::Iroh(text) => "Iroh error: "@ + text,
            ErrorView::Identity(text) => "Identity error: "@ + text,
        }
    }
}

impl Error {
    /// The message that is shown to a person.
    pub fn message(&self) -> (text: String)
        ensures
            text@ == self@.message(),
    {
        match self {
            Error::Io(detail) => join("I/O error: ", detail.as_str()),
            Error::Json(detail) => join("JSON error: ", detail.as_str()),
            Error::MessageTooLarge(size) => {
                let mut text = join("Message too large: ", decimal(*size as u64).as_str());
                text.append(" bytes");
                text
            },
            Error::UnknownMethod(detail) => join("Unknown method: ", detail.as_str()),
            Error::InvalidParams(detail) => join("Invalid params: ", detail.as_str()),
            Error::Mint(detail) => join("Mint error: ", detail.as_str()),
            Error::Iroh(detail) => join("Iroh error: ", detail.as_str()),
            Error::Identity(detail) => join("Identity error: ", detail.as_str()),
        }
    }
}

/// An error that the mint returned, by its message.
#[derive(Debug)]
pub struct MintError {
    /// The mint's message.
    pub message: String,
}

impl From<MintError> for Error {
    fn from(error: MintError) -> (converted: Error) {
        Error::Mint(error.message)
    }
}

impl vstd::std_specs::convert::FromSpecImpl<MintError> for Error {
    open spec fn obeys_from_spec() -> bool {
        true
    }

    open spec fn from_spec(error: MintError) -> Error {
        Error::Mint(error.message)
    }
}

/// Errors of the wallet's transport.
#[derive(Debug)]
pub enum TransportError {
    /// The transport failed, or was asked for what it cannot do.
    Custom(String),
    /// The mint answered with an error of its own.
    Mint(MintError),
}

/// What a [`TransportError`] says.
pub enum TransportErrorView {
    Custom(Seq<char>),
    Mint(Seq<char>),
}

impl View for TransportError {
    type V = TransportErrorView;

    open spec fn view(&self) -> TransportErrorView {
        match self {
            TransportError::Custom(text) => TransportErrorView::Custom(text@),
            TransportError::Mint(error) => TransportErrorView::Mint(error.message@),
        }
    }
}

/// The message of an error is the name of what failed, followed by the detail
/// to the last character; a size is given in decimal.
pub proof fn law_message_tells_the_detail(text: Seq<char>, size: u32)
    ensures
        stripped(ErrorView::Io(text).message(), "I/O error: "@) == Some(text),
        stripped(ErrorView::Json(text).message(), "JSON error: "@) == Some(text),
        stripped(ErrorView::UnknownMethod(text).message(), "Unknown method: "@) == Some(text),
        stripped(ErrorView::InvalidParams(text).message(), "Invalid params: "@) == Some(text),
        stripped(ErrorView::Mint(text).message(), "Mint error: "@) == Some(text),
        stripped(ErrorView::Iroh(text).message(), "Iroh error: "@) == Some(text),
        stripped(ErrorView::Identity(text).message(), "Identity error: "@) == Some(text),
        stripped(ErrorView::MessageTooLarge(size).message(), "Message too large: "@) == Some(
            decimal_text(size as nat) + " bytes"@,
        ),
{
    law_prefix_and_rest_are_the_text(text, "I/O error: "@, text);
    law_prefix_and_rest_are_the_text(text, "JSON error: "@, text);
    law_prefix_and_rest_are_the_text(text, "Unknown method: "@, text);
    law_prefix_and_rest_are_the_text(text, "Invalid params: "@, text);
    law_prefix_and_rest_are_the_text(text, "Mint error: "@, text);
    law_prefix_and_rest_are_the_text(text, "Iroh error: "@, text);
    law_prefix_and_rest_are_the_text(text, "Identity error: "@, text);
    let sized = decimal_text(size as nat) + " bytes"@;
    law_prefix_and_rest_are_the_text(text, "Message too large: "@, sized);
    assert("Message too large: "@ + decimal_text(size as nat) + " bytes"@ =~= "Message too large: "@
        + sized);
}

/// The model of an error holds what the error holds.
pub proof fn law_errors_are_modelled_whole(error: Error, failure: TransportError)
    ensures
        match error {
            Error::Io(text) => error@ == ErrorView::Io(text@),
            Error::Json(text) => error@ == ErrorView::Json(text@),
            Error::MessageTooLarge(size) => error@ == ErrorView::MessageTooLarge(size),
            Error::UnknownMethod(text) => error@ == ErrorView::UnknownMethod(text@),
            Error::InvalidParams(text) => error@ == ErrorView::InvalidParams(text@),
            Error::Mint(text) => error@ == ErrorView::Mint(text@),
            Error::Iroh(text) => error@ == ErrorView::Iroh(text@),
            Error::Identity(text) => error@ == ErrorView::Identity(text@),
        },
        match failure {
            TransportError::Custom(text) => failure@ == TransportErrorView::Custom(text@),
            TransportError::Mint(own) => failure@ == TransportErrorView::Mint(own.message@),
        },
{
}

/// An error of the mint keeps the mint's message, to the last character.
pub proof fn law_mint_errors_keep_their_message(error: MintError)
    ensures
        <Error as vstd::std_specs::convert::FromSpec<MintError>>::from_spec(error)@
            == ErrorView::Mint(error.message@),
        <Error as vstd::std_specs::convert::FromSpec<MintError>>::obeys_from_spec(),
{
}

} // verus!
