//! One stream of the wallet: a JSON-RPC round-trip, or the handshake that opens
//! a subscription stream.
//!
//! The bytes are moved by the caller: [`Exchange::step`] takes what came of the
//! last action and says which action is next.

use crate::buffer::{big_endian, law_big_endian_digits, law_big_endian_read_back};
use crate::error::{TransportError, TransportErrorView};
use crate::json;
use crate::json::{empty_object, json_of, parsed, printed, prints_faithfully, Json};
use crate::protocol::methods;
use crate::text::{decimal, decimal_text, join};
use crate::transport::{
    ack_verdict_in_body, custom, holds_result, reads_back, result_in_body, rpc_result, subscribe_ack, IrohAsync,
    MAX_FRAME_SIZE,
};
use crate::wire::{
    body_of, frame_step, frame_step_of, framed, law_bytes_are_asked_for_exactly,
    law_frame_is_read_back, length_prefix, FrameStep, RequestView, RpcRequest,
};
use serde_json::Value;
use vstd::prelude::*;

verus! {

/// What an exchange is for.
#[derive(Debug, Clone, Copy, PartialEq, Eq, Structural)]
pub enum Purpose {
    /// A request with one response.
    Call,
    /// The handshake of a subscription stream, which stays open.
    Subscribe,
}

/// How far an exchange has come: what the next event is about.
#[derive(Debug)]
pub enum Phase {
    /// A connection to the mint is being obtained.
    Connecting,
    /// A stream is being opened.
    Opening,
    /// The length prefix of this body is being written.
    WritingPrefix(Vec<u8>),
    /// The body is being written.
    WritingBody,
    /// The send side is being finished.
    Finishing,
    /// The answer is being received; these bytes have arrived.
    Receiving(Vec<u8>),
    /// Nothing is left to do.
    Over,
}

/// The model of a [`Phase`].
pub enum PhaseView {
    Connecting,
    Opening,
    WritingPrefix(Seq<u8>),
    WritingBody,
    Finishing,
    Receiving(Seq<u8>),
    Over,
}

impl View for Phase {
    type V = PhaseView;

    open spec fn view(&self) -> PhaseView {
        match self {
            Phase::Connecting => PhaseView::Connecting,
            Phase::Opening => PhaseView::Opening,
            Phase::WritingPrefix(body) => PhaseView::WritingPrefix(body@),
            Phase::WritingBody => PhaseView::WritingBody,
            Phase::Finishing => PhaseView::Finishing,
            Phase::Receiving(received) => PhaseView::Receiving(received@),
            Phase::Over => PhaseView::Over,
        }
    }
}

/// An exchange with the mint that is under way.
#[derive(Debug)]
pub struct Exchange {
    /// What the exchange is for.
    pub purpose: Purpose,
    /// The request message.
    pub request: Value,
    /// How far the exchange has come.
    pub phase: Phase,
}

/// The model of an [`Exchange`].
pub struct ExchangeView {
    pub purpose: Purpose,
    pub request: Json,
    pub phase: PhaseView,
}

impl View for Exchange {
    type V = ExchangeView;

    open spec fn view(&self) -> ExchangeView {
        ExchangeView {
            purpose: self.purpose,
            request: json_of(self.request),
            phase: self.phase@,
        }
    }
}

/// What came of the last action of an exchange.
#[derive(Debug)]
pub enum ExchangeEvent {
    /// There is a connection.
    Connected,
    /// There is no connection.
    NotConnected(TransportError),
    /// There is a stream.
    Opened,
    /// No stream could be opened.
    NotOpened(String),
    /// The bytes were written.
    Written,
    /// The bytes could not be written.
    NotWritten(String),
    /// The send side was finished.
    Finished,
    /// The send side could not be finished.
    NotFinished(String),
    /// These bytes have arrived.
    Received(Vec<u8>),
    /// The bytes did not arrive.
    NotReceived(String),
}

/// The model of an [`ExchangeEvent`].
pub enum ExchangeEventView {
    Connected,
    NotConnected(TransportErrorView),
    Opened,
    NotOpened(Seq<char>),
    Written,
    NotWritten(Seq<char>),
    Finished,
    NotFinished(Seq<char>),
    Received(Seq<u8>),
    NotReceived(Seq<char>),
}

impl View for ExchangeEvent {
    type V = ExchangeEventView;

    open spec fn view(&self) -> ExchangeEventView {
        match self {
            ExchangeEvent::Connected => ExchangeEventView::Connected,
            ExchangeEvent::NotConnected(error) => ExchangeEventView::NotConnected(error@),
            ExchangeEvent::Opened => ExchangeEventView::Opened,
            ExchangeEvent::NotOpened(error) => ExchangeEventView::NotOpened(error@),
            ExchangeEvent::Written => ExchangeEventView::Written,
            ExchangeEvent::NotWritten(error) => ExchangeEventView::NotWritten(error@),
            ExchangeEvent::Finished => ExchangeEventView::Finished,
            ExchangeEvent::NotFinished(error) => ExchangeEventView::NotFinished(error@),
            ExchangeEvent::Received(bytes) => ExchangeEventView::Received(bytes@),
            ExchangeEvent::NotReceived(error) => ExchangeEventView::NotReceived(error@),
        }
    }
}

/// What is to be done next for an exchange.
#[derive(Debug)]
pub enum ExchangeAction {
    /// Open a bidirectional stream on the connection.
    Open,
    /// Write the length prefix.
    WritePrefix([u8; 4]),
    /// Write the body.
    WriteBody(Vec<u8>),
    /// Finish the send side, so that the server sees the end of the request.
    Finish,
    /// Receive exactly this many bytes.
    Receive(usize),
    /// The call has this result, in JSON text.
    Result(String),
    /// The subscription stream is ready for traffic.
    Ready,
    /// The exchange failed.
    Fail(TransportError),
}

/// The model of an [`ExchangeAction`].
pub enum ExchangeActionView {
    Open,
    WritePrefix(Seq<u8>),
    WriteBody(Seq<u8>),
    Finish,
    Receive(nat),
    Result(Seq<char>),
    Ready,
    Fail(TransportErrorView),
}

impl View for ExchangeAction {
    type V = ExchangeActionView;

    open spec fn view(&self) -> ExchangeActionView {
        match self {
            ExchangeAction::Open => ExchangeActionView::Open,
            ExchangeAction::WritePrefix(prefix) => ExchangeActionView::WritePrefix(prefix@),
            ExchangeAction::WriteBody(body) => ExchangeActionView::WriteBody(body@),
            ExchangeAction::Finish => ExchangeActionView::Finish,
            ExchangeAction::Receive(count) => ExchangeActionView::Receive(*count as nat),
            ExchangeAction::Result(text) => ExchangeActionView::Result(text@),
            ExchangeAction::Ready => ExchangeActionView::Ready,
            ExchangeAction::Fail(error) => ExchangeActionView::Fail(error@),
        }
    }
}

impl ExchangeView {
    /// The event is one that the exchange waits for.
    pub open spec fn waits_for(self, event: ExchangeEventView) -> bool {
        match self.phase {
            PhaseView::Connecting => event is Connected || event is NotConnected,
            PhaseView::Opening => event is Opened || event is NotOpened,
            PhaseView::WritingPrefix(_) => event is Written || event is NotWritten,
            PhaseView::WritingBody => event is Written || event is NotWritten,
            PhaseView::Finishing => event is Finished || event is NotFinished,
            PhaseView::Receiving(_) => event is Received || event is NotReceived,
            PhaseView::Over => false,
        }
    }

    /// The exchange at another phase, with an action.
    pub open spec fn goes_on(self, phase: PhaseView, action: ExchangeActionView) -> (
        ExchangeView,
        ExchangeActionView,
    ) {
        (ExchangeView { purpose: self.purpose, request: self.request, phase }, action)
    }

    /// The exchange has failed.
    pub open spec fn fails(self, error: TransportErrorView) -> (ExchangeView, ExchangeActionView) {
        self.goes_on(PhaseView::Over, ExchangeActionView::Fail(error))
    }

    /// The exchange once these bytes have arrived.
    pub open spec fn with_received(self, received: Seq<u8>) -> (ExchangeView, ExchangeActionView) {
        match frame_step_of(received) {
            FrameStep::Want(count) => self.goes_on(
                PhaseView::Receiving(received),
                ExchangeActionView::Receive(count as nat),
            ),
            FrameStep::TooLarge(length) => self.fails(frame_too_large(length as nat)),
            FrameStep::Complete(_) => match self.purpose {
                Purpose::Call => match result_in_body(body_of(received)) {
                    Ok(text) => self.goes_on(PhaseView::Over, ExchangeActionView::Result(text)),
                    Err(error) => self.fails(error),
                },
                Purpose::Subscribe => match ack_verdict_in_body(body_of(received)) {
                    Ok(_) => self.goes_on(PhaseView::Over, ExchangeActionView::Ready),
                    Err(error) => self.fails(error),
                },
            },
        }
    }

    /// The state and the action that follow from an event that the exchange waits for.
    pub open spec fn next(self, event: ExchangeEventView) -> (ExchangeView, ExchangeActionView) {
        match (self.phase, event) {
            (PhaseView::Connecting, ExchangeEventView::Connected) => self.goes_on(
                PhaseView::Opening,
                ExchangeActionView::Open,
            ),
            (PhaseView::Connecting, ExchangeEventView::NotConnected(error)) => self.fails(error),
            (PhaseView::Opening, ExchangeEventView::Opened) => {
                let body = printed(self.request);
                if body.len() > u32::MAX {
                    self.fails(custom("frame too large to encode as u32"@))
                } else {
                    self.goes_on(
                        PhaseView::WritingPrefix(body),
                        ExchangeActionView::WritePrefix(big_endian(body.len())),
                    )
                }
            },
            (PhaseView::Opening, ExchangeEventView::NotOpened(failure)) => self.fails(
                custom("open_bi failed: "@ + failure),
            ),
            (PhaseView::WritingPrefix(body), ExchangeEventView::Written) => self.goes_on(
                PhaseView::WritingBody,
                ExchangeActionView::WriteBody(body),
            ),
            (PhaseView::WritingPrefix(_), ExchangeEventView::NotWritten(failure)) => self.fails(
                custom("write length prefix failed: "@ + failure),
            ),
            (PhaseView::WritingBody, ExchangeEventView::Written) => match self.purpose {
                Purpose::Call => self.goes_on(PhaseView::Finishing, ExchangeActionView::Finish),
                Purpose::Subscribe => self.with_received(Seq::empty()),
            },
            (PhaseView::WritingBody, ExchangeEventView::NotWritten(failure)) => self.fails(
                custom("write frame body failed: "@ + failure),
            ),
            (PhaseView::Finishing, ExchangeEventView::Finished) => self.with_received(Seq::empty()),
            (PhaseView::Finishing, ExchangeEventView::NotFinished(failure)) => self.fails(
                custom("stream finish failed: "@ + failure),
            ),
            (
                PhaseView::Receiving(received),
                ExchangeEventView::Received(arrived),
            ) => self.with_received(received + arrived),
            (
                PhaseView::Receiving(received),
                ExchangeEventView::NotReceived(failure),
            ) => self.fails(
                custom(
                    if received.len() < 4 {
                        "read length prefix failed: "@ + failure
                    } else {
                        "read frame body failed: "@ + failure
                    },
                ),
            ),
            _ => (self, ExchangeActionView::Open),
        }
    }
}

/// The error for a frame that announces more bytes than allowed.
pub open spec fn frame_too_large(length: nat) -> TransportErrorView {
    custom(
        "frame too large: "@ + decimal_text(length) + " bytes (limit "@ + decimal_text(
            MAX_FRAME_SIZE as nat,
        ) + ")"@,
    )
}

fn frame_too_large_error(length: u32) -> (error: TransportError)
    ensures
        error@ == frame_too_large(length as nat),
{
    let mut text = join("frame too large: ", decimal(length as u64).as_str());
    text.append(" bytes (limit ");
    text.append(decimal(MAX_FRAME_SIZE as u64).as_str());
    text.append(")");
    TransportError::Custom(text)
}

/// The request of a call.
pub open spec fn call_request(method: Seq<char>, params: Json) -> RequestView {
    RequestView { jsonrpc: "2.0"@, method, params, id: Json::Integer(1) }
}

/// The request that opens a subscription stream.
pub open spec fn subscribe_request() -> RequestView {
    RequestView {
        jsonrpc: "2.0"@,
        method: methods::SUBSCRIBE@,
        params: Json::Object(empty_object()),
        id: Json::Integer(0),
    }
}

impl<E> IrohAsync<E> {
    /// Begins a complete JSON-RPC round-trip over a new bidirectional stream;
    /// first, a connection is to be obtained.
    pub fn rpc(&self, method: &str, params: Value) -> (exchange: Exchange)
        ensures
            exchange@ == (ExchangeView {
                purpose: Purpose::Call,
                request: call_request(method@, json_of(params)).json(),
                phase: PhaseView::Connecting,
            }),
    {
        let request = RpcRequest {
            jsonrpc: "2.0".to_string(),
            method: method.to_string(),
            params,
            id: json::integer(1),
        };
        Exchange { purpose: Purpose::Call, request: request.to_value(), phase: Phase::Connecting }
    }

    /// Begins to open a long-lived NUT-17 subscription stream to the mint;
    /// first, a connection is to be obtained.
    ///
    /// The exchange sends the initial `cashu_subscribe` handshake and waits for
    /// the server's acknowledgement. The stream then stays open for `subscribe`
    /// / `unsubscribe` / notification traffic.
    pub fn open_subscription_stream(&self) -> (exchange: Exchange)
        ensures
            exchange@ == (ExchangeView {
                purpose: Purpose::Subscribe,
                request: subscribe_request().json(),
                phase: PhaseView::Connecting,
            }),
    {
        let request = RpcRequest {
            jsonrpc: "2.0".to_string(),
            method: methods::SUBSCRIBE.to_string(),
            params: json::object(json::no_members()),
            id: json::integer(0),
        };
        Exchange {
            purpose: Purpose::Subscribe,
            request: request.to_value(),
            phase: Phase::Connecting,
        }
    }
}

impl Exchange {
    /// Goes on with an exchange, given what came of its last action.
    ///
    /// The request that is written can be read back from its bytes, and the
    /// result of a call from its text, where they are values that printing
    /// preserves.
    pub fn step(self, event: ExchangeEvent) -> (next: (Exchange, ExchangeAction))
        requires
            self@.waits_for(event@),
        ensures
            (next.0@, next.1@) == self@.next(event@),
            self.phase is Opening && event is Opened ==> prints_faithfully(json_of(self.request)),
            next.1 matches ExchangeAction::Result(text) ==> (self.phase matches Phase::Receiving(
                received,
            ) && event matches ExchangeEvent::Received(arrived) && parsed(
                body_of(received@ + arrived@),
            ) matches Ok(envelope) && reads_back(text@, envelope)),
            self.purpose is Call ==> (self.phase matches Phase::Receiving(received) ==> (
            event matches ExchangeEvent::Received(arrived) ==> (frame_step_of(received@ + arrived@)
                is Complete ==> (next.1 is Result <==> (parsed(
                body_of(received@ + arrived@),
            ) matches Ok(envelope) && holds_result(envelope)))))),
    {
        let Exchange { purpose, request, phase } = self;
        match (phase, event) {
            (Phase::Connecting, ExchangeEvent::Connected) => (
                Exchange { purpose, request, phase: Phase::Opening },
                ExchangeAction::Open,
            ),
            (Phase::Connecting, ExchangeEvent::NotConnected(error)) => over(
                purpose,
                request,
                ExchangeAction::Fail(error),
            ),
            (Phase::Opening, ExchangeEvent::Opened) => match json::print(&request) {
                Err(failure) => over(
                    purpose,
                    request,
                    ExchangeAction::Fail(TransportError::Custom(failure)),
                ),
                Ok(body) => if body.len() as u64 > u32::MAX as u64 {
                    over(
                        purpose,
                        request,
                        ExchangeAction::Fail(
                            TransportError::Custom("frame too large to encode as u32".to_string()),
                        ),
                    )
                } else {
                    let prefix = length_prefix(body.len() as u32);
                    (
                        Exchange { purpose, request, phase: Phase::WritingPrefix(body) },
                        ExchangeAction::WritePrefix(prefix),
                    )
                },
            },
            (Phase::Opening, ExchangeEvent::NotOpened(failure)) => over(
                purpose,
                request,
                failed("open_bi failed: ", failure),
            ),
            (Phase::WritingPrefix(body), ExchangeEvent::Written) => (
                Exchange { purpose, request, phase: Phase::WritingBody },
                ExchangeAction::WriteBody(body),
            ),
            (Phase::WritingPrefix(_), ExchangeEvent::NotWritten(failure)) => over(
                purpose,
                request,
                failed("write length prefix failed: ", failure),
            ),
            (Phase::WritingBody, ExchangeEvent::Written) => match purpose {
                Purpose::Call => (
                    Exchange { purpose, request, phase: Phase::Finishing },
                    ExchangeAction::Finish,
                ),
                Purpose::Subscribe => received_so_far(purpose, request, Vec::new()),
            },
            (Phase::WritingBody, ExchangeEvent::NotWritten(failure)) => over(
                purpose,
                request,
                failed("write frame body failed: ", failure),
            ),
            (Phase::Finishing, ExchangeEvent::Finished) => received_so_far(
                purpose,
                request,
                Vec::new(),
            ),
            (Phase::Finishing, ExchangeEvent::NotFinished(failure)) => over(
                purpose,
                request,
                failed("stream finish failed: ", failure),
            ),
            (Phase::Receiving(received), ExchangeEvent::Received(arrived)) => {
                let mut received = received;
                let mut arrived = arrived;
                received.append(&mut arrived);
                received_so_far(purpose, request, received)
            },
            (Phase::Receiving(received), ExchangeEvent::NotReceived(failure)) => if received.len()
                < 4 {
                over(purpose, request, failed("read length prefix failed: ", failure))
            } else {
                over(purpose, request, failed("read frame body failed: ", failure))
            },
            (phase, _) => (Exchange { purpose, request, phase }, ExchangeAction::Open),
        }
    }
}

fn over(purpose: Purpose, request: Value, action: ExchangeAction) -> (next: (
    Exchange,
    ExchangeAction,
))
    ensures
        next.0@ == (ExchangeView { purpose, request: json_of(request), phase: PhaseView::Over }),
        next.1 == action,
{
    (Exchange { purpose, request, phase: Phase::Over }, action)
}

fn failed(head: &str, failure: String) -> (action: ExchangeAction)
    ensures
        action@ == ExchangeActionView::Fail(custom(head@ + failure@)),
{
    ExchangeAction::Fail(TransportError::Custom(join(head, failure.as_str())))
}

fn received_so_far(purpose: Purpose, request: Value, received: Vec<u8>) -> (next: (
    Exchange,
    ExchangeAction,
))
    ensures
        (next.0@, next.1@) == (ExchangeView {
            purpose,
            request: json_of(request),
            phase: PhaseView::Over,
        }).with_received(received@),
        next.1 matches ExchangeAction::Result(text) ==> (parsed(body_of(received@)) matches Ok(
            envelope,
        ) && reads_back(text@, envelope)),
        received@.len() < 4 ==> next.1 is Receive,
{
    match frame_step(received.as_slice()) {
        FrameStep::Want(count) => (
            Exchange { purpose, request, phase: Phase::Receiving(received) },
            ExchangeAction::Receive(count),
        ),
        FrameStep::TooLarge(length) => over(
            purpose,
            request,
            ExchangeAction::Fail(frame_too_large_error(length)),
        ),
        FrameStep::Complete(length) => {
            let body = vstd::slice::slice_subrange(received.as_slice(), 4, 4 + length);
            match purpose {
                Purpose::Call => match rpc_result(body) {
                    Ok(text) => over(purpose, request, ExchangeAction::Result(text)),
                    Err(error) => over(purpose, request, ExchangeAction::Fail(error)),
                },
                Purpose::Subscribe => match subscribe_ack(body) {
                    Ok(_) => over(purpose, request, ExchangeAction::Ready),
                    Err(error) => over(purpose, request, ExchangeAction::Fail(error)),
                },
            }
        },
    }
}

/// A request is written as one frame: its length prefix and then its body.
pub proof fn law_request_is_written_as_one_frame(exchange: ExchangeView)
    requires
        exchange.phase is Opening,
        printed(exchange.request).len() <= u32::MAX,
    ensures
        ({
            let (writing, first) = exchange.next(ExchangeEventView::Opened);
            let second = writing.next(ExchangeEventView::Written).1;
            &&& first matches ExchangeActionView::WritePrefix(prefix)
            &&& second matches ExchangeActionView::WriteBody(rest)
            &&& prefix + rest == framed(printed(exchange.request))
        }),
{
}

/// A call ends its side of the stream once the request is written, and only
/// after that looks for the answer.
pub proof fn law_call_finishes_before_it_receives(exchange: ExchangeView, event: ExchangeEventView)
    requires
        exchange.purpose is Call,
        exchange.waits_for(event),
    ensures
        exchange.phase is WritingBody && event is Written ==> exchange.next(event).1 is Finish,
        exchange.next(event).1 is Receive ==> exchange.phase is Finishing || exchange.phase
            is Receiving,
{
}

/// The side of the wallet on a subscription stream is never finished: the
/// stream stays open for what follows the handshake.
pub proof fn law_subscription_stream_stays_open(exchange: ExchangeView, event: ExchangeEventView)
    requires
        exchange.purpose is Subscribe,
        !(exchange.phase is Finishing),
        exchange.waits_for(event),
    ensures
        !(exchange.next(event).1 is Finish),
        !(exchange.next(event).0.phase is Finishing),
        exchange.next(event).0.purpose is Subscribe,
{
}

/// An exchange is over exactly when it has come to a result, is ready for
/// traffic, or has failed.
pub proof fn law_exchange_ends_with_an_outcome(exchange: ExchangeView, event: ExchangeEventView)
    requires
        exchange.waits_for(event),
    ensures
        ({
            let (later, action) = exchange.next(event);
            later.phase is Over <==> action is Result || action is Ready || action is Fail
        }),
        exchange.next(event).1 is Result ==> exchange.purpose is Call,
        exchange.next(event).1 is Ready ==> exchange.purpose is Subscribe,
{
}

/// An answer that announces more than the maximum is refused once its length
/// prefix has arrived; nothing of its body is received.
pub proof fn law_oversized_answer_is_refused(exchange: ExchangeView, prefix: Seq<u8>, length: nat)
    requires
        exchange.phase == PhaseView::Receiving(Seq::empty()),
        MAX_FRAME_SIZE < length <= u32::MAX,
        prefix == big_endian(length),
    ensures
        exchange.next(ExchangeEventView::Received(prefix)).1 == ExchangeActionView::Fail(
            frame_too_large(length),
        ),
{
    law_big_endian_read_back(length);
    assert(Seq::<u8>::empty() + prefix =~= prefix);
}

/// Without a connection an exchange fails with the reason that there is none,
/// and nothing is sent.
pub proof fn law_no_connection_no_exchange(exchange: ExchangeView, reason: TransportErrorView)
    requires
        exchange.phase is Connecting,
    ensures
        exchange.next(ExchangeEventView::NotConnected(reason)).0.phase is Over,
        exchange.next(ExchangeEventView::NotConnected(reason)).1 == ExchangeActionView::Fail(
            reason,
        ),
{
}

/// A call asks for the given method with the given parameters, under the
/// identifier 1; a handshake asks for `cashu_subscribe` with an empty object,
/// under the identifier 0. Both are of version 2.0.
pub proof fn law_requests_of_the_wallet(method: Seq<char>, params: Json)
    ensures
        call_request(method, params) == (RequestView {
            jsonrpc: "2.0"@,
            method,
            params,
            id: Json::Integer(1),
        }),
        subscribe_request() == (RequestView {
            jsonrpc: "2.0"@,
            method: "cashu_subscribe"@,
            params: Json::Object(Map::empty()),
            id: Json::Integer(0),
        }),
{
}

/// An exchange connects, opens a stream, writes the length of the printed request
/// as four bytes and then the printed request itself. A request whose length does
/// not fit into four bytes is not sent.
pub proof fn law_request_is_sent_whole(exchange: ExchangeView)
    ensures
        exchange.phase is Connecting ==> exchange.next(ExchangeEventView::Connected) == (
            ExchangeView { phase: PhaseView::Opening, ..exchange },
            ExchangeActionView::Open,
        ),
        exchange.phase is Opening ==> ({
            let body = printed(exchange.request);
            let (writing, first) = exchange.next(ExchangeEventView::Opened);
            let (written, second) = writing.next(ExchangeEventView::Written);
            if body.len() <= u32::MAX {
                &&& first matches ExchangeActionView::WritePrefix(prefix)
                &&& prefix.len() == 4
                &&& body.len() == ((prefix[0] * 0x100 + prefix[1]) * 0x100 + prefix[2]) * 0x100
                    + prefix[3]
                &&& second == ExchangeActionView::WriteBody(body)
                &&& written == (ExchangeView { phase: PhaseView::WritingBody, ..exchange })
            } else {
                &&& writing.phase is Over
                &&& first == ExchangeActionView::Fail(
                    TransportErrorView::Custom("frame too large to encode as u32"@),
                )
            }
        }),
{
    if exchange.phase is Opening && printed(exchange.request).len() <= u32::MAX {
        let length = printed(exchange.request).len();
        law_big_endian_digits(length, big_endian(length));
    }
}

/// Once its request is written, a call finishes its side of the stream and then
/// receives; a handshake receives at once. Both begin with the four bytes of the
/// length of the answer, and then ask for exactly what the frame lacks, until it
/// is whole.
pub proof fn law_answer_is_received_whole(exchange: ExchangeView, body: Seq<u8>, from: int, to: int)
    requires
        body.len() <= 16 * 1024 * 1024,
        0 <= from <= to < framed(body).len(),
    ensures
        ({
            let receiving = ExchangeView { phase: PhaseView::Receiving(Seq::empty()), ..exchange };
            let started = (receiving, ExchangeActionView::Receive(4));
            &&& exchange.phase is WritingBody && exchange.purpose is Call ==> exchange.next(
                ExchangeEventView::Written,
            ) == (
                ExchangeView { phase: PhaseView::Finishing, ..exchange },
                ExchangeActionView::Finish,
            )
            &&& exchange.phase is WritingBody && exchange.purpose is Subscribe ==> exchange.next(
                ExchangeEventView::Written,
            ) == started
            &&& exchange.phase is Finishing ==> exchange.next(ExchangeEventView::Finished)
                == started
            &&& exchange.phase == PhaseView::Receiving(framed(body).take(from)) ==> exchange.next(
                ExchangeEventView::Received(framed(body).subrange(from, to)),
            ) == (
                ExchangeView { phase: PhaseView::Receiving(framed(body).take(to)), ..exchange },
                ExchangeActionView::Receive(
                    (if to < 4 {
                        4 - to
                    } else {
                        framed(body).len() - to
                    }) as nat,
                ),
            )
        }),
{
    assert(framed(body).take(from) + framed(body).subrange(from, to) =~= framed(body).take(to));
    law_bytes_are_asked_for_exactly(body, to);
    law_bytes_are_asked_for_exactly(body, 0);
    assert(framed(body).take(0) =~= Seq::<u8>::empty());
}

/// Whatever fails ends the exchange, and the failure says what was being done and
/// why it failed.
pub proof fn law_failures_of_an_exchange(
    exchange: ExchangeView,
    reason: Seq<char>,
    error: TransportErrorView,
    length: nat,
)
    ensures
        exchange.phase is Connecting ==> exchange.next(ExchangeEventView::NotConnected(error)).1
            == ExchangeActionView::Fail(error),
        exchange.phase is Opening ==> exchange.next(ExchangeEventView::NotOpened(reason)).1
            == ExchangeActionView::Fail(
            TransportErrorView::Custom("open_bi failed: "@ + reason),
        ),
        exchange.phase is WritingPrefix ==> exchange.next(ExchangeEventView::NotWritten(reason)).1
            == ExchangeActionView::Fail(
            TransportErrorView::Custom("write length prefix failed: "@ + reason),
        ),
        exchange.phase is WritingBody ==> exchange.next(ExchangeEventView::NotWritten(reason)).1
            == ExchangeActionView::Fail(
            TransportErrorView::Custom("write frame body failed: "@ + reason),
        ),
        exchange.phase is Finishing ==> exchange.next(ExchangeEventView::NotFinished(reason)).1
            == ExchangeActionView::Fail(
            TransportErrorView::Custom("stream finish failed: "@ + reason),
        ),
        exchange.phase matches PhaseView::Receiving(received) ==> exchange.next(
            ExchangeEventView::NotReceived(reason),
        ).1 == ExchangeActionView::Fail(
            TransportErrorView::Custom(
                if received.len() < 4 {
                    "read length prefix failed: "@ + reason
                } else {
                    "read frame body failed: "@ + reason
                },
            ),
        ),
        frame_too_large(length) == TransportErrorView::Custom(
            "frame too large: "@ + decimal_text(length) + " bytes (limit "@ + decimal_text(
                16 * 1024 * 1024,
            ) + ")"@,
        ),
{
}

/// An exchange takes every outcome that its last action can have.
pub proof fn law_exchanges_take_what_comes(
    exchange: ExchangeView,
    reason: Seq<char>,
    error: TransportErrorView,
    bytes: Seq<u8>,
)
    ensures
        exchange.phase is Connecting ==> exchange.waits_for(ExchangeEventView::Connected)
            && exchange.waits_for(ExchangeEventView::NotConnected(error)),
        exchange.phase is Opening ==> exchange.waits_for(ExchangeEventView::Opened)
            && exchange.waits_for(ExchangeEventView::NotOpened(reason)),
        exchange.phase is WritingPrefix || exchange.phase is WritingBody ==> exchange.waits_for(
            ExchangeEventView::Written,
        ) && exchange.waits_for(ExchangeEventView::NotWritten(reason)),
        exchange.phase is Finishing ==> exchange.waits_for(ExchangeEventView::Finished)
            && exchange.waits_for(ExchangeEventView::NotFinished(reason)),
        exchange.phase is Receiving ==> exchange.waits_for(ExchangeEventView::Received(bytes))
            && exchange.waits_for(ExchangeEventView::NotReceived(reason)),
{
}

/// The models of exchanges, events and actions hold what these hold.
pub proof fn law_exchanges_are_modelled_whole(
    exchange: Exchange,
    event: ExchangeEvent,
    action: ExchangeAction,
)
    ensures
        exchange@.purpose == exchange.purpose && exchange@.request == json_of(exchange.request),
        match exchange.phase {
            Phase::Connecting => exchange@.phase is Connecting,
            Phase::Opening => exchange@.phase is Opening,
            Phase::WritingPrefix(body) => exchange@.phase == PhaseView::WritingPrefix(body@),
            Phase::WritingBody => exchange@.phase is WritingBody,
            Phase::Finishing => exchange@.phase is Finishing,
            Phase::Receiving(received) => exchange@.phase == PhaseView::Receiving(received@),
            Phase::Over => exchange@.phase is Over,
        },
        match event {
            ExchangeEvent::Connected => event@ is Connected,
            ExchangeEvent::NotConnected(error) => event@ == ExchangeEventView::NotConnected(error@),
            ExchangeEvent::Opened => event@ is Opened,
            ExchangeEvent::NotOpened(text) => event@ == ExchangeEventView::NotOpened(text@),
            ExchangeEvent::Written => event@ is Written,
            ExchangeEvent::NotWritten(text) => event@ == ExchangeEventView::NotWritten(text@),
            ExchangeEvent::Finished => event@ is Finished,
            ExchangeEvent::NotFinished(text) => event@ == ExchangeEventView::NotFinished(text@),
            ExchangeEvent::Received(bytes) => event@ == ExchangeEventView::Received(bytes@),
            ExchangeEvent::NotReceived(text) => event@ == ExchangeEventView::NotReceived(text@),
        },
        match action {
            ExchangeAction::Open => action@ is Open,
            ExchangeAction::WritePrefix(prefix) => action@ == ExchangeActionView::WritePrefix(
                prefix@,
            ),
            ExchangeAction::WriteBody(body) => action@ == ExchangeActionView::WriteBody(body@),
            ExchangeAction::Finish => action@ is Finish,
            ExchangeAction::Receive(count) => action@ == ExchangeActionView::Receive(count as nat),
            ExchangeAction::Result(text) => action@ == ExchangeActionView::Result(text@),
            ExchangeAction::Ready => action@ is Ready,
            ExchangeAction::Fail(error) => action@ == ExchangeActionView::Fail(error@),
        },
{
}

/// Once the frame of the answer is whole, its body decides how the exchange ends:
/// a call with the result in it, a handshake ready for traffic if it is an
/// acknowledgement that is accepted, and either with the failure that the body
/// stands for. It makes no difference in which pieces the frame arrived.
pub proof fn law_answer_decides_the_exchange(exchange: ExchangeView, body: Seq<u8>, count: int)
    requires
        body.len() <= 16 * 1024 * 1024,
        0 <= count <= framed(body).len(),
        exchange.phase == PhaseView::Receiving(framed(body).take(count)),
    ensures
        ({
            let (later, action) = exchange.next(
                ExchangeEventView::Received(framed(body).skip(count)),
            );
            &&& later == (ExchangeView { phase: PhaseView::Over, ..exchange })
            &&& exchange.purpose is Call ==> action == match result_in_body(body) {
                Ok(text) => ExchangeActionView::Result(text),
                Err(error) => ExchangeActionView::Fail(error),
            }
            &&& exchange.purpose is Subscribe ==> action == match ack_verdict_in_body(body) {
                Ok(_) => ExchangeActionView::Ready,
                Err(error) => ExchangeActionView::Fail(error),
            }
        }),
{
    law_frame_is_read_back(body, Seq::empty());
    assert(framed(body) + Seq::empty() =~= framed(body));
    assert(framed(body).take(count) + framed(body).skip(count) =~= framed(body));
}

} // verus!
