//! Iroh QUIC transport for the Cashu wallet.
//!
//! Connects wallets to Iroh-enabled mints by `NodeId` instead of URL, using
//! QUIC bidirectional streams with a 4-byte big-endian length-prefix framing
//! and a JSON-RPC 2.0 envelope. The endpoint, its connections and its streams
//! are the caller's.

use crate::error::{TransportError, TransportErrorView};
use crate::json;
use crate::json::{
    displayed, json_of, member_of, parsed, printed_text, reads_as, survives_printing, Json,
};
use crate::protocol::CASHU_ALPN;
use crate::text::{join, same_text};
use iroh::NodeId;
use serde_json::Value;
use url::Url;
use vstd::prelude::*;
use vstd::utf8::encode_utf8;

verus! {

/// Maximum framed message size (16 MiB). Responses above this limit are
/// rejected to defend against memory-exhaustion.
pub const MAX_FRAME_SIZE: u32 = 16 * 1024 * 1024;

/// A transport error with this text.
pub open spec fn custom(text: Seq<char>) -> TransportErrorView {
    TransportErrorView::Custom(text)
}

fn custom_error(head: &str, tail: &str) -> (error: TransportError)
    ensures
        error@ == custom(head@ + tail@),
{
    TransportError::Custom(join(head, tail))
}

/// The error of a transport without an endpoint.
pub open spec fn no_endpoint() -> TransportErrorView {
    custom(
        "IrohAsync used without a configured endpoint. Use IrohAsync::new instead of IrohAsync::default."@,
    )
}

/// The error of a transport without a node to dial.
pub open spec fn no_node_id() -> TransportErrorView {
    custom("IrohAsync used without a configured node_id."@)
}

/// Iroh QUIC transport for wallet-to-mint communication: the local endpoint
/// and the mint's node ID.
///
/// The default transport is a placeholder without either. Any request on it
/// fails, because there is no peer to connect to. Use [`IrohAsync::new`] to
/// construct a properly initialised transport.
#[derive(Debug, Clone)]
pub struct IrohAsync<E> {
    endpoint: Option<E>,
    node_id: Option<NodeId>,
}

impl<E> IrohAsync<E> {
    /// The endpoint that is dialled from, where there is one.
    pub closed spec fn dials_from(self) -> Option<E> {
        self.endpoint
    }

    /// The node that is dialled, where there is one.
    pub closed spec fn dials(self) -> Option<NodeId> {
        self.node_id
    }

    /// Create a new [`IrohAsync`] that dials `node_id` over `endpoint`.
    pub fn new(endpoint: E, node_id: NodeId) -> (transport: IrohAsync<E>)
        ensures
            transport.dials_from() == Some(endpoint),
            transport.dials() == Some(node_id),
    {
        IrohAsync { endpoint: Some(endpoint), node_id: Some(node_id) }
    }

    /// The node that is dialled, where there is one.
    pub fn node_id(&self) -> (node_id: Option<NodeId>)
        ensures
            node_id == self.dials(),
    {
        self.node_id
    }

    /// The endpoint to dial from and the node to dial.
    pub fn peer(&self) -> (result: Result<(&E, NodeId), TransportError>)
        ensures
            match self.dials_from() {
                None => result matches Err(error) && error@ == no_endpoint(),
                Some(endpoint) => match self.dials() {
                    None => result matches Err(error) && error@ == no_node_id(),
                    Some(node) => result matches Ok((e, n)) && *e == endpoint && n == node,
                },
            },
    {
        match &self.endpoint {
            None => Err(
                TransportError::Custom(
                    "IrohAsync used without a configured endpoint. Use IrohAsync::new instead of IrohAsync::default.".to_string(),
                ),
            ),
            Some(endpoint) => match self.node_id {
                None => Err(
                    TransportError::Custom(
                        "IrohAsync used without a configured node_id.".to_string(),
                    ),
                ),
                Some(node_id) => Ok((endpoint, node_id)),
            },
        }
    }

    /// Iroh has no use for an HTTP proxy: always an error.
    pub fn with_proxy(
        &mut self,
        _proxy: Url,
        _host_matcher: Option<&str>,
        _accept_invalid_certs: bool,
    ) -> (result: Result<(), TransportError>)
        ensures
            *final(self) == *old(self),
            result matches Err(error) && error@ == custom(
                "IrohAsync does not support HTTP proxies; Iroh uses its own relay infrastructure."@,
            ),
    {
        Err(
            TransportError::Custom(
                "IrohAsync does not support HTTP proxies; Iroh uses its own relay infrastructure.".to_string(),
            ),
        )
    }

    /// DNS records cannot be looked up over Iroh: always an error.
    pub fn resolve_dns_txt(&self, _domain: &str) -> (result: Result<Vec<String>, TransportError>)
        ensures
            result matches Err(error) && error@ == custom(
                "IrohAsync does not support DNS TXT resolution; use the default HTTP transport for BIP-353 lookups."@,
            ),
    {
        Err(
            TransportError::Custom(
                "IrohAsync does not support DNS TXT resolution; use the default HTTP transport for BIP-353 lookups.".to_string(),
            ),
        )
    }
}

impl<E> Default for IrohAsync<E> {
    /// Returns a placeholder transport with no peer configured.
    fn default() -> (transport: IrohAsync<E>)
        ensures
            transport.dials_from() is None,
            transport.dials() is None,
    {
        IrohAsync { endpoint: None, node_id: None }
    }
}

/// The cached connection to the mint, reopened when it is lost.
#[derive(Debug)]
pub struct ConnectionCache<C> {
    connection: Option<C>,
}

impl<C> ConnectionCache<C> {
    /// The connection that is kept.
    pub closed spec fn kept(self) -> Option<C> {
        self.connection
    }

    /// A cache without a connection.
    pub fn new() -> (cache: ConnectionCache<C>)
        ensures
            cache.kept() is None,
    {
        ConnectionCache { connection: None }
    }

    /// The connection that is kept.
    pub fn current(&self) -> (connection: Option<&C>)
        ensures
            match connection {
                Some(c) => self.kept() == Some(*c),
                None => self.kept() is None,
            },
    {
        self.connection.as_ref()
    }

    /// Whether the kept connection can be used again, given whether it has been
    /// closed. A closed connection is dropped.
    pub fn reuse(&mut self, closed: bool) -> (usable: bool)
        ensures
            usable == (old(self).kept() is Some && !closed),
            final(self).kept() == if closed {
                None
            } else {
                old(self).kept()
            },
    {
        if closed {
            self.connection = None;
        }
        self.connection.is_some()
    }

    /// Keeps the connection that was established, or says why none was.
    pub fn connected(&mut self, outcome: Result<C, String>) -> (result: Result<(), TransportError>)
        ensures
            match outcome {
                Ok(connection) => final(self).kept() == Some(connection) && result is Ok,
                Err(failure) => final(self).kept() == old(self).kept() && (result matches Err(error)
                    && error@ == custom("Iroh connect failed: "@ + failure@)),
            },
    {
        match outcome {
            Ok(connection) => {
                self.connection = Some(connection);
                Ok(())
            },
            Err(failure) => Err(custom_error("Iroh connect failed: ", failure.as_str())),
        }
    }
}

impl<E> IrohAsync<E> {
    /// Looks for the live connection to the peer, given whether the kept one
    /// has been closed: `None` if the kept connection is to be used again, and
    /// otherwise the endpoint to dial from, the node to dial and the protocol to
    /// speak. A closed connection is dropped.
    pub fn get_connection<C>(&self, cache: &mut ConnectionCache<C>, closed: bool) -> (result:
        Result<Option<(&E, NodeId, [u8; 12])>, TransportError>)
        ensures
            match (self.dials_from(), self.dials()) {
                (None, _) => (result matches Err(error) && error@ == no_endpoint())
                    && final(cache).kept() == old(cache).kept(),
                (Some(_), None) => (result matches Err(error) && error@ == no_node_id())
                    && final(cache).kept() == old(cache).kept(),
                (Some(endpoint), Some(node)) => if old(cache).kept() is Some && !closed {
                    (result matches Ok(None)) && final(cache).kept() == old(cache).kept()
                } else {
                    (result matches Ok(Some((e, n, alpn))) && *e == endpoint && n == node && alpn
                        == CASHU_ALPN)
                        && final(cache).kept() is None
                },
            },
    {
        match self.peer() {
            Err(error) => Err(error),
            Ok((endpoint, node_id)) => if cache.reuse(closed) {
                Ok(None)
            } else {
                Ok(Some((endpoint, node_id, CASHU_ALPN)))
            },
        }
    }
}

/// A result with its error in the model.
pub open spec fn result_view<T>(result: Result<T, TransportError>) -> Result<
    T,
    TransportErrorView,
> {
    match result {
        Ok(value) => Ok(value),
        Err(error) => Err(error@),
    }
}

/// A text result in the model.
pub open spec fn text_result(result: Result<String, TransportError>) -> Result<
    Seq<char>,
    TransportErrorView,
> {
    match result {
        Ok(text) => Ok(text@),
        Err(error) => Err(error@),
    }
}

/// The text of the result that a response envelope holds: an envelope with an
/// error is an error, whatever else it holds.
pub open spec fn result_in(envelope: Json) -> Result<Seq<char>, TransportErrorView> {
    match member_of(envelope, "error"@) {
        Some(error) => Err(custom("JSON-RPC error: "@ + displayed(error))),
        None => match member_of(envelope, "result"@) {
            None => Err(custom("JSON-RPC response missing 'result' field"@)),
            Some(result) => Ok(printed_text(result)),
        },
    }
}

/// The response envelope holds a result and no error.
pub open spec fn holds_result(envelope: Json) -> bool {
    member_of(envelope, "error"@) is None && member_of(envelope, "result"@) is Some
}

/// The result that a response envelope holds is read back from this text, where
/// it is one that printing preserves.
pub open spec fn reads_back(text: Seq<char>, envelope: Json) -> bool {
    member_of(envelope, "result"@) matches Some(result) && (survives_printing(result)
        ==> reads_as(encode_utf8(text), result))
}

/// The text of the result in a response body.
pub open spec fn result_in_body(body: Seq<u8>) -> Result<Seq<char>, TransportErrorView> {
    match parsed(body) {
        Ok(envelope) => result_in(envelope),
        Err(failure) => Err(custom("JSON parse error: "@ + failure)),
    }
}

/// The text of the result that a response envelope holds.
///
/// There is one wherever the envelope has a result and no error, and the result
/// is read back from its text, where it is one that printing preserves.
pub fn envelope_result(envelope: &Value) -> (result: Result<String, TransportError>)
    ensures
        text_result(result) == result_in(json_of(*envelope)),
        result is Ok <==> holds_result(json_of(*envelope)),
        result matches Ok(text) ==> reads_back(text@, json_of(*envelope)),
{
    match json::member(envelope, "error") {
        Some(error) => Err(custom_error("JSON-RPC error: ", json::display(error).as_str())),
        None => match json::member(envelope, "result") {
            None => Err(
                TransportError::Custom("JSON-RPC response missing 'result' field".to_string()),
            ),
            Some(result) => match json::print_text(result) {
                Ok(text) => Ok(text),
                Err(failure) => Err(custom_error("result serialisation error: ", failure.as_str())),
            },
        },
    }
}

/// The text of the result in a response body.
pub fn rpc_result(body: &[u8]) -> (result: Result<String, TransportError>)
    ensures
        text_result(result) == result_in_body(body@),
        result is Ok <==> (parsed(body@) matches Ok(envelope) && holds_result(envelope)),
        result matches Ok(text) ==> (parsed(body@) matches Ok(envelope) && reads_back(
            text@,
            envelope,
        )),
{
    match json::parse(body) {
        Ok(envelope) => envelope_result(&envelope),
        Err(failure) => Err(custom_error("JSON parse error: ", failure.as_str())),
    }
}

/// The error where the result of a call is not what the caller expects: the
/// mint's own error, if that is what the result holds.
pub fn unexpected_result(failure: &str, response: Option<TransportError>) -> (error: TransportError)
    ensures
        error@ == match response {
            Some(mint_error) => mint_error@,
            None => custom("deserialisation error: "@ + failure@),
        },
{
    match response {
        Some(mint_error) => mint_error,
        None => custom_error("deserialisation error: ", failure),
    }
}

/// Whether the server's acknowledgement of a subscription stream is accepted.
pub open spec fn ack_verdict(ack: Json) -> Result<(), TransportErrorView> {
    match member_of(ack, "error"@) {
        Some(error) => Err(custom("cashu_subscribe rejected by server: "@ + displayed(error))),
        None => match member_of(ack, "result"@) {
            Some(result) if member_of(result, "status"@) == Some(Json::Text("OK"@)) => Ok(()),
            _ => Err(custom("cashu_subscribe unexpected ack: "@ + displayed(ack))),
        },
    }
}

/// Whether the body of the server's acknowledgement is accepted.
pub open spec fn ack_verdict_in_body(body: Seq<u8>) -> Result<(), TransportErrorView> {
    match parsed(body) {
        Ok(ack) => ack_verdict(ack),
        Err(failure) => Err(custom("subscribe ack parse error: "@ + failure)),
    }
}

/// Validates the server's acknowledgement of a subscription stream.
pub fn accept_ack(ack: &Value) -> (result: Result<(), TransportError>)
    ensures
        result_view(result) == ack_verdict(json_of(*ack)),
{
    match json::member(ack, "error") {
        Some(error) => Err(
            custom_error("cashu_subscribe rejected by server: ", json::display(error).as_str()),
        ),
        None => {
            let ok = match json::member(ack, "result") {
                None => false,
                Some(result) => match json::member(result, "status") {
                    None => false,
                    Some(status) => match json::as_text(status) {
                        None => false,
                        Some(text) => same_text(text, "OK"),
                    },
                },
            };
            if ok {
                Ok(())
            } else {
                Err(custom_error("cashu_subscribe unexpected ack: ", json::display(ack).as_str()))
            }
        },
    }
}

/// Validates the body of the server's acknowledgement of a subscription stream.
pub fn subscribe_ack(body: &[u8]) -> (result: Result<(), TransportError>)
    ensures
        result_view(result) == ack_verdict_in_body(body@),
{
    match json::parse(body) {
        Ok(ack) => accept_ack(&ack),
        Err(failure) => Err(custom_error("subscribe ack parse error: ", failure.as_str())),
    }
}

/// The result of a response envelope is the text of its member `result`,
/// whatever value it is, unless there is a member `error`: that is then the
/// failure, whatever value it is. An envelope with neither, or one that is no
/// object, is a failure.
pub proof fn law_result_of_an_envelope(
    members: Map<Seq<char>, Json>,
    error: Json,
    result: Json,
    other: Json,
)
    ensures
        result_in(Json::Object(members.insert("error"@, error))) == Err::<Seq<char>, _>(
            TransportErrorView::Custom("JSON-RPC error: "@ + displayed(error)),
        ),
        !members.contains_key("error"@) ==> result_in(
            Json::Object(members.insert("result"@, result)),
        ) == Ok::<_, TransportErrorView>(printed_text(result)),
        !members.contains_key("error"@) && !members.contains_key("result"@) ==> result_in(
            Json::Object(members),
        ) == Err::<Seq<char>, _>(
            TransportErrorView::Custom("JSON-RPC response missing 'result' field"@),
        ),
        !(other is Object) ==> result_in(other) == Err::<Seq<char>, _>(
            TransportErrorView::Custom("JSON-RPC response missing 'result' field"@),
        ),
        holds_result(other) <==> result_in(other) is Ok,
{
    reveal_strlit("error");
    reveal_strlit("result");
    assert("error"@.len() == 5 && "result"@.len() == 6);
}

/// The result in a body is that of the envelope that the body parses to; a body
/// that does not parse is a failure with the parser's error.
pub proof fn law_result_of_a_body(body: Seq<u8>)
    ensures
        match parsed(body) {
            Ok(envelope) => result_in_body(body) == result_in(envelope),
            Err(failure) => result_in_body(body) == Err::<Seq<char>, _>(
                TransportErrorView::Custom("JSON parse error: "@ + failure),
            ),
        },
{
}

/// An acknowledgement is accepted exactly if it has no member `error` and the
/// member `status` of its member `result` is the text `OK`. One with an error is
/// refused with it, and any other with what was received.
pub proof fn law_acknowledgements_that_are_accepted(
    members: Map<Seq<char>, Json>,
    error: Json,
    inner: Map<Seq<char>, Json>,
    status: Json,
    ack: Json,
    body: Seq<u8>,
)
    ensures
        ack_verdict(Json::Object(members.insert("error"@, error))) == Err::<(), _>(
            TransportErrorView::Custom(
                "cashu_subscribe rejected by server: "@ + displayed(error),
            ),
        ),
        !members.contains_key("error"@) ==> (ack_verdict(
            Json::Object(
                members.insert("result"@, Json::Object(inner.insert("status"@, status))),
            ),
        ) is Ok <==> status == Json::Text("OK"@)),
        ack_verdict(ack) is Ok ==> member_of(ack, "error"@) is None && (member_of(
            ack,
            "result"@,
        ) matches Some(result) && member_of(result, "status"@) == Some(Json::Text("OK"@))),
        ack_verdict(ack) is Err && member_of(ack, "error"@) is None ==> ack_verdict(ack) == Err::<
            (),
            _,
        >(TransportErrorView::Custom("cashu_subscribe unexpected ack: "@ + displayed(ack))),
        match parsed(body) {
            Ok(answer) => ack_verdict_in_body(body) == ack_verdict(answer),
            Err(failure) => ack_verdict_in_body(body) == Err::<(), _>(
                TransportErrorView::Custom("subscribe ack parse error: "@ + failure),
            ),
        },
{
    reveal_strlit("error");
    reveal_strlit("result");
    assert("error"@.len() == 5 && "result"@.len() == 6);
}

/// The failures of a transport without a peer say what is missing.
pub proof fn law_missing_peer_is_told()
    ensures
        no_endpoint() == TransportErrorView::Custom(
            "IrohAsync used without a configured endpoint. Use IrohAsync::new instead of IrohAsync::default."@,
        ),
        no_node_id() == TransportErrorView::Custom(
            "IrohAsync used without a configured node_id."@,
        ),
        forall|text: Seq<char>| #[trigger] custom(text) == TransportErrorView::Custom(text),
        MAX_FRAME_SIZE == 16 * 1024 * 1024,
{
}

/// The models of results hold what the results hold.
pub proof fn law_results_are_modelled_whole<T>(value: T, text: String, error: TransportError)
    ensures
        result_view(Ok::<T, TransportError>(value)) == Ok::<T, TransportErrorView>(value),
        result_view(Err::<T, TransportError>(error)) == Err::<T, TransportErrorView>(error@),
        text_result(Ok(text)) == Ok::<Seq<char>, TransportErrorView>(text@),
        text_result(Err(error)) == Err::<Seq<char>, TransportErrorView>(error@),
{
}

} // verus!
