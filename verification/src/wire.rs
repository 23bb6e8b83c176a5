//! Framing and JSON-RPC 2.0 envelope types for the Cashu/Iroh wire protocol.
//!
//! Each message is framed with a 4-byte big-endian length prefix followed by
//! a UTF-8 JSON body. One QUIC bidirectional stream is used per
//! request/response pair.

use crate::buffer::{
    big_endian, big_endian_value, buffered, empty_buffer, law_big_endian_digits,
    law_big_endian_read_back, put_slice, put_u32,
};
use crate::error::{Error, ErrorView};
use crate::json;
use crate::json::{json_of, member_of, parsed, printed, prints_faithfully, survives_printing, Json};
use crate::text::same_text;
use bytes::BytesMut;
use serde_json::Value;
use vstd::prelude::*;

verus! {

/// Maximum allowed message size (16 MiB) to guard against malicious peers.
pub const MAX_MESSAGE_BYTES: u32 = 16 * 1024 * 1024;

/// A message body behind its length prefix. The prefix stands for the length of
/// a body that has at most `u32::MAX` bytes.
pub open spec fn framed(body: Seq<u8>) -> Seq<u8> {
    big_endian(body.len()) + body
}

/// The body length that the first four received bytes announce.
pub open spec fn announced(received: Seq<u8>) -> nat {
    big_endian_value(received)
}

/// How far the frame at the front of the received bytes has arrived.
#[derive(Debug, PartialEq, Eq, Structural)]
pub enum FrameStep {
    /// This many bytes must be received before anything more can be decided.
    Want(usize),
    /// The body has arrived: this many bytes after the prefix.
    Complete(usize),
    /// The prefix announces more bytes than a message may have.
    TooLarge(u32),
}

/// What the received bytes say of the frame at their front.
pub open spec fn frame_step_of(received: Seq<u8>) -> FrameStep {
    let length = announced(received);
    if received.len() < 4 {
        FrameStep::Want((4 - received.len()) as usize)
    } else if length > MAX_MESSAGE_BYTES {
        FrameStep::TooLarge(length as u32)
    } else if received.len() < 4 + length {
        FrameStep::Want((4 + length - received.len()) as usize)
    } else {
        FrameStep::Complete(length as usize)
    }
}

/// The body of the frame at the front of the received bytes.
pub open spec fn body_of(received: Seq<u8>) -> Seq<u8> {
    received.subrange(4, 4 + announced(received) as int)
}

/// Looks at the frame at the front of the received bytes.
pub fn frame_step(received: &[u8]) -> (step: FrameStep)
    ensures
        step == frame_step_of(received@),
{
    if received.len() < 4 {
        return FrameStep::Want(4 - received.len());
    }
    let length: u32 = received[0] as u32 * 0x100_0000 + received[1] as u32 * 0x1_0000 + received[2]
        as u32 * 0x100 + received[3] as u32;
    if length > MAX_MESSAGE_BYTES {
        FrameStep::TooLarge(length)
    } else if received.len() < 4 + length as usize {
        FrameStep::Want(4 + length as usize - received.len())
    } else {
        FrameStep::Complete(length as usize)
    }
}

/// The four prefix bytes for a body of `length` bytes.
pub fn length_prefix(length: u32) -> (prefix: [u8; 4])
    ensures
        prefix@ == big_endian(length as nat),
{
    let prefix: [u8; 4] = [
        (length / 0x100_0000) as u8,
        (length / 0x1_0000 % 0x100) as u8,
        (length / 0x100 % 0x100) as u8,
        (length % 0x100) as u8,
    ];
    assert(prefix@ == big_endian(length as nat));
    prefix
}

/// Bytes that begin with the prefix for a length announce that length.
proof fn lemma_announced(received: Seq<u8>, length: nat)
    requires
        length <= u32::MAX,
        received.len() >= 4,
        received.take(4) == big_endian(length),
    ensures
        announced(received) == length,
{
    law_big_endian_read_back(length);
    assert(forall|i: int| 0 <= i < 4 ==> received[i] == received.take(4)[i]);
}

/// A frame with a body of at most the maximum size is recognised as complete
/// once all of it has been received, and its body is the one that was framed,
/// whatever follows it.
pub proof fn law_frame_is_read_back(body: Seq<u8>, rest: Seq<u8>)
    requires
        body.len() <= MAX_MESSAGE_BYTES,
    ensures
        frame_step_of(framed(body) + rest) == FrameStep::Complete(body.len() as usize),
        body_of(framed(body) + rest) == body,
{
    let received = framed(body) + rest;
    assert(received.take(4) =~= big_endian(body.len()));
    lemma_announced(received, body.len());
    assert(body_of(received) =~= body);
}

/// While a frame with a body of at most the maximum size is still arriving,
/// bytes are asked for, and never more than belong to the frame.
pub proof fn law_partial_frame_asks_for_the_rest(body: Seq<u8>, count: int)
    requires
        body.len() <= MAX_MESSAGE_BYTES,
        0 <= count < framed(body).len(),
    ensures
        frame_step_of(framed(body).take(count)) matches FrameStep::Want(n) && 0 < n && count + n
            <= framed(body).len(),
{
    let received = framed(body).take(count);
    if count >= 4 {
        assert(received.take(4) =~= big_endian(body.len()));
        lemma_announced(received, body.len());
    }
}

/// A frame whose body is larger than the maximum is refused as soon as its
/// prefix has been received.
pub proof fn law_oversized_frame_is_refused(body: Seq<u8>, count: int)
    requires
        MAX_MESSAGE_BYTES < body.len() <= u32::MAX,
        4 <= count <= framed(body).len(),
    ensures
        frame_step_of(framed(body).take(count)) == FrameStep::TooLarge(body.len() as u32),
{
    let received = framed(body).take(count);
    assert(received.take(4) =~= big_endian(body.len()));
    lemma_announced(received, body.len());
}

/// What reading a message has come to.
#[derive(Debug)]
pub enum ReadStep {
    /// This many more bytes must be received.
    Want(usize),
    /// The message has arrived.
    Message(Value),
    /// No message can be read from the stream.
    Failed(Error),
}

/// The model of a [`ReadStep`].
pub enum ReadView {
    Want(nat),
    Message(Json),
    Failed(ErrorView),
}

impl View for ReadStep {
    type V = ReadView;

    open spec fn view(&self) -> ReadView {
        match self {
            ReadStep::Want(n) => ReadView::Want(*n as nat),
            ReadStep::Message(value) => ReadView::Message(json_of(*value)),
            ReadStep::Failed(error) => ReadView::Failed(error@),
        }
    }
}

/// What reading a message from the received bytes comes to.
pub open spec fn read_outcome(received: Seq<u8>) -> ReadView {
    match frame_step_of(received) {
        FrameStep::Want(n) => ReadView::Want(n as nat),
        FrameStep::TooLarge(length) => ReadView::Failed(ErrorView::MessageTooLarge(length)),
        FrameStep::Complete(_) => match parsed(body_of(received)) {
            Ok(value) => ReadView::Message(value),
            Err(error) => ReadView::Failed(ErrorView::Json(error)),
        },
    }
}

/// Reads a length-prefixed JSON message from the bytes that a stream has
/// delivered so far.
pub fn read_message(received: &[u8]) -> (step: ReadStep)
    ensures
        step@ == read_outcome(received@),
{
    match frame_step(received) {
        FrameStep::Want(n) => ReadStep::Want(n),
        FrameStep::TooLarge(length) => ReadStep::Failed(Error::MessageTooLarge(length)),
        FrameStep::Complete(length) => {
            let body = vstd::slice::slice_subrange(received, 4, 4 + length);
            match json::parse(body) {
                Ok(value) => ReadStep::Message(value),
                Err(error) => ReadStep::Failed(Error::Json(error)),
            }
        },
    }
}

/// The error of a stream that failed, or ended before the frame was whole, with
/// this text.
pub fn stream_failure(failure: String) -> (error: Error)
    ensures
        error@ == ErrorView::Io(failure@),
{
    Error::Io(failure)
}

/// What reading a message comes to on a stream that failed or ended with this
/// text, once these bytes had arrived: an I/O error while the frame is not whole.
pub open spec fn outcome_at_end(received: Seq<u8>, failure: Seq<char>) -> ReadView {
    match read_outcome(received) {
        ReadView::Want(_) => ReadView::Failed(ErrorView::Io(failure)),
        outcome => outcome,
    }
}

/// Reads a length-prefixed JSON message from the bytes that a stream delivered
/// before it failed or ended with this text.
pub fn read_message_at_end(received: &[u8], failure: String) -> (step: ReadStep)
    ensures
        step@ == outcome_at_end(received@, failure@),
{
    match read_message(received) {
        ReadStep::Want(_) => ReadStep::Failed(stream_failure(failure)),
        step => step,
    }
}

/// A stream that fails or ends before the frame of a message is whole gives an
/// I/O error.
pub proof fn law_broken_frame_is_an_io_error(body: Seq<u8>, count: int, failure: Seq<char>)
    requires
        body.len() <= MAX_MESSAGE_BYTES,
        0 <= count < framed(body).len(),
    ensures
        outcome_at_end(framed(body).take(count), failure) == ReadView::Failed(
            ErrorView::Io(failure),
        ),
{
    law_partial_frame_asks_for_the_rest(body, count);
}

/// Prints the body of a message.
pub fn encode_message(value: &Value) -> (result: Result<Vec<u8>, Error>)
    ensures
        result matches Ok(output) && output@ == printed(json_of(*value)),
        prints_faithfully(json_of(*value)),
{
    match json::print(value) {
        Ok(body) => Ok(body),
        Err(error) => Err(Error::Json(error)),
    }
}

/// The length of a body of this many bytes fits into the prefix, and its frame
/// into a buffer. No buffer has more than `isize::MAX` bytes.
pub open spec fn can_be_framed(length: nat) -> bool {
    length <= u32::MAX && length + 4 <= isize::MAX
}

/// The error for a body that is too large to be framed.
pub open spec fn too_large_to_frame() -> ErrorView {
    ErrorView::Io("message too large to be framed"@)
}

/// The length that the prefix of a body stands for, if the body can be framed.
pub fn prefix_length(length: usize) -> (result: Result<u32, Error>)
    ensures
        if can_be_framed(length as nat) {
            result matches Ok(n) && n == length
        } else {
            result matches Err(error) && error@ == too_large_to_frame()
        },
{
    if length as u64 > u32::MAX as u64 || length > isize::MAX as usize - 4 {
        Err(Error::Io("message too large to be framed".to_string()))
    } else {
        Ok(length as u32)
    }
}

/// Puts a body behind its length prefix.
pub fn frame_message(body: &[u8]) -> (result: Result<BytesMut, Error>)
    ensures
        if can_be_framed(body@.len()) {
            result matches Ok(frame) && buffered(frame) == framed(body@)
        } else {
            result matches Err(error) && error@ == too_large_to_frame()
        },
{
    match prefix_length(body.len()) {
        Ok(length) => {
            let mut frame = empty_buffer(4 + body.len());
            put_u32(&mut frame, length);
            put_slice(&mut frame, body);
            Ok(frame)
        },
        Err(error) => Err(error),
    }
}

/// The length-prefixed JSON message that is written to the stream for `value`.
/// Reading it gives back the value, where it is one that printing preserves and
/// the message is not too large to be read.
pub fn write_message(value: &Value) -> (result: Result<BytesMut, Error>)
    ensures
        ({
            let body = printed(json_of(*value));
            if can_be_framed(body.len()) {
                result matches Ok(frame) && buffered(frame) == framed(body)
            } else {
                result matches Err(error) && error@ == too_large_to_frame()
            }
        }),
        survives_printing(json_of(*value)) ==> (result matches Ok(frame) ==> buffered(frame).len()
            <= 4 + MAX_MESSAGE_BYTES ==> read_outcome(buffered(frame)) == ReadView::Message(
            json_of(*value),
        )),
{
    match encode_message(value) {
        Ok(body) => {
            proof {
                if body@.len() <= MAX_MESSAGE_BYTES {
                    law_frame_is_read_back(body@, Seq::empty());
                    assert(framed(body@) + Seq::empty() =~= framed(body@));
                }
            }
            frame_message(body.as_slice())
        },
        Err(error) => Err(error),
    }
}

/// The prefix of every message that is written stands for the length of its body.
pub proof fn law_prefix_stands_for_the_length(body: Seq<u8>)
    requires
        can_be_framed(body.len()),
    ensures
        announced(framed(body)) == body.len(),
        framed(body).len() == 4 + body.len(),
        framed(body).skip(4) == body,
{
    assert(framed(body).take(4) =~= big_endian(body.len()));
    lemma_announced(framed(body), body.len());
    assert(framed(body).skip(4) =~= body);
}

/// A JSON-RPC 2.0 request.
#[derive(Debug, Clone)]
pub struct RpcRequest {
    /// Must be `"2.0"`.
    pub jsonrpc: String,
    /// Method name (e.g. `"cashu_getKeys"`).
    pub method: String,
    /// Request parameters (may be `null`).
    pub params: Value,
    /// Request identifier echoed back in the response.
    pub id: Value,
}

/// The model of an [`RpcRequest`].
pub struct RequestView {
    pub jsonrpc: Seq<char>,
    pub method: Seq<char>,
    pub params: Json,
    pub id: Json,
}

impl View for RpcRequest {
    type V = RequestView;

    open spec fn view(&self) -> RequestView {
        RequestView {
            jsonrpc: self.jsonrpc@,
            method: self.method@,
            params: json_of(self.params),
            id: json_of(self.id),
        }
    }
}

impl RequestView {
    /// The request is one of JSON-RPC 2.0.
    pub open spec fn valid(self) -> bool {
        self.jsonrpc == "2.0"@
    }

    /// The JSON object that stands for the request on the wire.
    pub open spec fn json(self) -> Json {
        Json::Object(
            map![
                "jsonrpc"@ => Json::Text(self.jsonrpc),
                "method"@ => Json::Text(self.method),
                "params"@ => self.params,
                "id"@ => self.id,
            ],
        )
    }
}

/// A JSON-RPC 2.0 error object.
#[derive(Debug, Clone)]
pub struct RpcError {
    /// Numeric error code.
    pub code: i32,
    /// Human-readable message.
    pub message: String,
}

/// The model of an [`RpcError`].
pub struct RpcErrorView {
    pub code: i32,
    pub message: Seq<char>,
}

impl View for RpcError {
    type V = RpcErrorView;

    open spec fn view(&self) -> RpcErrorView {
        RpcErrorView { code: self.code, message: self.message@ }
    }
}

impl RpcErrorView {
    /// The JSON object that stands for the error on the wire.
    pub open spec fn json(self) -> Json {
        Json::Object(
            map![
                "code"@ => Json::Integer(self.code as int),
                "message"@ => Json::Text(self.message),
            ],
        )
    }
}

/// A JSON-RPC 2.0 response.
#[derive(Debug, Clone)]
pub struct RpcResponse {
    /// Always `"2.0"`.
    pub jsonrpc: String,
    /// Successful result, mutually exclusive with `error`.
    pub result: Option<Value>,
    /// Error object, mutually exclusive with `result`.
    pub error: Option<RpcError>,
    /// Request identifier copied from the request.
    pub id: Value,
}

/// The model of an [`RpcResponse`].
pub struct ResponseView {
    pub jsonrpc: Seq<char>,
    pub result: Option<Json>,
    pub error: Option<RpcErrorView>,
    pub id: Json,
}

impl View for RpcResponse {
    type V = ResponseView;

    open spec fn view(&self) -> ResponseView {
        ResponseView {
            jsonrpc: self.jsonrpc@,
            result: match self.result {
                Some(value) => Some(json_of(value)),
                None => None,
            },
            error: match self.error {
                Some(error) => Some(error@),
                None => None,
            },
            id: json_of(self.id),
        }
    }
}

impl ResponseView {
    /// A successful response.
    pub open spec fn ok(id: Json, result: Json) -> ResponseView {
        ResponseView { jsonrpc: "2.0"@, result: Some(result), error: None, id }
    }

    /// An error response.
    pub open spec fn err(id: Json, code: i32, message: Seq<char>) -> ResponseView {
        ResponseView {
            jsonrpc: "2.0"@,
            result: None,
            error: Some(RpcErrorView { code, message }),
            id,
        }
    }

    /// The version is 2.0, and there is a result or an error, but not both.
    pub open spec fn well_formed(self) -> bool {
        self.jsonrpc == "2.0"@ && (self.result is Some <==> self.error is None)
    }

    /// The JSON object that stands for the response on the wire: a member for
    /// the result or the error only where there is one.
    pub open spec fn json(self) -> Json {
        let base = map!["jsonrpc"@ => Json::Text(self.jsonrpc), "id"@ => self.id];
        let with_result = match self.result {
            Some(result) => base.insert("result"@, result),
            None => base,
        };
        let with_error = match self.error {
            Some(error) => with_result.insert("error"@, error.json()),
            None => with_result,
        };
        Json::Object(with_error)
    }
}

impl RpcRequest {
    /// Whether the request is one of JSON-RPC 2.0.
    pub fn is_valid(&self) -> (valid: bool)
        ensures
            valid == self@.valid(),
    {
        same_text(self.jsonrpc.as_str(), "2.0")
    }

    /// The JSON object that stands for the request on the wire.
    pub fn to_value(&self) -> (value: Value)
        ensures
            json_of(value) == self@.json(),
    {
        let mut members = json::no_members();
        json::set_member(&mut members, "jsonrpc".to_string(), json::text(self.jsonrpc.as_str()));
        json::set_member(&mut members, "method".to_string(), json::text(self.method.as_str()));
        json::set_member(&mut members, "params".to_string(), self.params.clone());
        json::set_member(&mut members, "id".to_string(), self.id.clone());
        json::object(members)
    }
}

impl RpcError {
    /// The JSON object that stands for the error on the wire.
    pub fn to_value(&self) -> (value: Value)
        ensures
            json_of(value) == self@.json(),
    {
        let mut members = json::no_members();
        json::set_member(&mut members, "code".to_string(), json::integer(self.code as i64));
        json::set_member(&mut members, "message".to_string(), json::text(self.message.as_str()));
        json::object(members)
    }
}

impl RpcResponse {
    /// Construct a successful response.
    pub fn ok(id: Value, result: Value) -> (response: RpcResponse)
        ensures
            response@ == ResponseView::ok(json_of(id), json_of(result)),
            response.id == id,
            response.result == Some(result),
    {
        RpcResponse { jsonrpc: "2.0".to_string(), result: Some(result), error: None, id }
    }

    /// Construct an error response.
    pub fn err(id: Value, code: i32, message: String) -> (response: RpcResponse)
        ensures
            response@ == ResponseView::err(json_of(id), code, message@),
            response.id == id,
            response.error == Some(RpcError { code, message }),
    {
        RpcResponse {
            jsonrpc: "2.0".to_string(),
            result: None,
            error: Some(RpcError { code, message }),
            id,
        }
    }

    /// The JSON object that stands for the response on the wire.
    pub fn to_value(&self) -> (value: Value)
        ensures
            json_of(value) == self@.json(),
    {
        let mut members = json::no_members();
        json::set_member(&mut members, "jsonrpc".to_string(), json::text(self.jsonrpc.as_str()));
        json::set_member(&mut members, "id".to_string(), self.id.clone());
        if let Some(result) = &self.result {
            json::set_member(&mut members, "result".to_string(), result.clone());
        }
        if let Some(error) = &self.error {
            json::set_member(&mut members, "error".to_string(), error.to_value());
        }
        json::object(members)
    }
}

/// A response that was constructed has a result or an error, never both.
pub proof fn law_result_excludes_error(id: Json, result: Json, code: i32, message: Seq<char>)
    ensures
        ResponseView::ok(id, result).well_formed(),
        ResponseView::err(id, code, message).well_formed(),
{
}

/// A frame is four bytes and then the body, and the four bytes are the length of
/// the body to the base 256, the most significant digit first. Every body whose
/// length fits into four bytes, and whose frame fits into a buffer, can be
/// framed.
pub proof fn law_frame_layout(body: Seq<u8>)
    requires
        body.len() <= u32::MAX,
    ensures
        ({
            let frame = framed(body);
            &&& frame.len() == 4 + body.len()
            &&& frame.skip(4) == body
            &&& body.len() == ((frame[0] * 0x100 + frame[1]) * 0x100 + frame[2]) * 0x100 + frame[3]
        }),
        body.len() + 4 <= isize::MAX ==> can_be_framed(body.len()),
        forall|length: nat| #[trigger]
            can_be_framed(length) ==> length <= u32::MAX && length + 4 <= isize::MAX,
        too_large_to_frame() is Io,
{
    law_big_endian_digits(body.len(), big_endian(body.len()));
    assert(framed(body).skip(4) =~= body);
}

/// What is read from a whole frame of at most 16 MiB is what its body parses to,
/// or the parser's error, whatever follows the frame.
pub proof fn law_message_is_the_parsed_body(body: Seq<u8>, rest: Seq<u8>)
    requires
        body.len() <= 16 * 1024 * 1024,
    ensures
        match parsed(body) {
            Ok(value) => read_outcome(framed(body) + rest) == ReadView::Message(value),
            Err(error) => read_outcome(framed(body) + rest) == ReadView::Failed(
                ErrorView::Json(error),
            ),
        },
{
    law_frame_is_read_back(body, rest);
}

/// While a frame of at most 16 MiB is arriving, exactly the bytes that its prefix
/// lacks are asked for, and then exactly those that its body lacks. A frame that
/// announces more is refused with its length, once its prefix has arrived.
pub proof fn law_bytes_are_asked_for_exactly(body: Seq<u8>, count: int)
    requires
        body.len() <= u32::MAX,
        0 <= count < framed(body).len(),
    ensures
        ({
            let outcome = read_outcome(framed(body).take(count));
            if count < 4 {
                outcome == ReadView::Want((4 - count) as nat)
            } else if body.len() > 16 * 1024 * 1024 {
                outcome == ReadView::Failed(ErrorView::MessageTooLarge(body.len() as u32))
            } else {
                outcome == ReadView::Want((framed(body).len() - count) as nat)
            }
        }),
{
    let received = framed(body).take(count);
    if count >= 4 {
        assert(received.take(4) =~= big_endian(body.len()));
        lemma_announced(received, body.len());
    }
}

/// The names of the members of the envelopes are different.
proof fn lemma_envelope_names()
    ensures
        "jsonrpc"@ != "method"@ && "jsonrpc"@ != "params"@ && "jsonrpc"@ != "id"@,
        "method"@ != "params"@ && "method"@ != "id"@ && "params"@ != "id"@,
        "jsonrpc"@ != "result"@ && "jsonrpc"@ != "error"@ && "result"@ != "error"@,
        "id"@ != "result"@ && "id"@ != "error"@ && "code"@ != "message"@,
{
    reveal_strlit("jsonrpc");
    reveal_strlit("method");
    reveal_strlit("params");
    reveal_strlit("id");
    reveal_strlit("result");
    reveal_strlit("error");
    reveal_strlit("code");
    reveal_strlit("message");
    assert("jsonrpc"@.len() == 7 && "method"@.len() == 6 && "params"@.len() == 6 && "id"@.len()
        == 2 && "result"@.len() == 6 && "error"@.len() == 5 && "code"@.len() == 4
        && "message"@.len() == 7);
    assert("method"@[0] == 'm' && "params"@[0] == 'p' && "result"@[0] == 'r');
}

/// A request on the wire is an object of its version, method, parameters and
/// identifier, each as it is in the request, and of nothing else.
pub proof fn law_request_on_the_wire(request: RequestView)
    ensures
        member_of(request.json(), "jsonrpc"@) == Some(Json::Text(request.jsonrpc)),
        member_of(request.json(), "method"@) == Some(Json::Text(request.method)),
        member_of(request.json(), "params"@) == Some(request.params),
        member_of(request.json(), "id"@) == Some(request.id),
        forall|name: Seq<char>| #[trigger]
            member_of(request.json(), name) is Some ==> name == "jsonrpc"@ || name == "method"@
                || name == "params"@ || name == "id"@,
        request.valid() <==> member_of(request.json(), "jsonrpc"@) == Some(Json::Text("2.0"@)),
{
    lemma_envelope_names();
}

/// A response on the wire is an object of its version, its identifier and its
/// result or error, each as it is in the response, and of nothing else; an error
/// is an object of its code and its message.
pub proof fn law_response_on_the_wire(response: ResponseView)
    ensures
        response.json() is Object,
        member_of(response.json(), "jsonrpc"@) == Some(Json::Text(response.jsonrpc)),
        member_of(response.json(), "id"@) == Some(response.id),
        member_of(response.json(), "result"@) == response.result,
        match response.error {
            None => member_of(response.json(), "error"@) is None,
            Some(error) => member_of(response.json(), "error"@) matches Some(object) && member_of(
                object,
                "code"@,
            ) == Some(Json::Integer(error.code as int)) && member_of(object, "message"@) == Some(
                Json::Text(error.message),
            ) && (forall|name: Seq<char>| #[trigger]
                member_of(object, name) is Some ==> name == "code"@ || name == "message"@),
        },
        forall|name: Seq<char>| #[trigger]
            member_of(response.json(), name) is Some ==> name == "jsonrpc"@ || name == "id"@ || name
                == "result"@ || name == "error"@,
{
    lemma_envelope_names();
}

/// A constructed response has version 2.0, the identifier that was given, and
/// either exactly the result or exactly the code and message that were given.
pub proof fn law_responses_hold_what_they_are_made_of(
    id: Json,
    result: Json,
    code: i32,
    message: Seq<char>,
)
    ensures
        ({
            let ok = ResponseView::ok(id, result);
            ok.jsonrpc == "2.0"@ && ok.id == id && ok.result == Some(result) && ok.error is None
        }),
        ({
            let err = ResponseView::err(id, code, message);
            err.jsonrpc == "2.0"@ && err.id == id && err.result is None && (
            err.error matches Some(error) && error.code == code && error.message == message)
        }),
{
}

/// The models of the envelopes hold what the envelopes hold.
pub proof fn law_envelopes_are_modelled_whole(
    request: RpcRequest,
    error: RpcError,
    response: RpcResponse,
    step: ReadStep,
)
    ensures
        request@.jsonrpc == request.jsonrpc@ && request@.method == request.method@,
        request@.params == json_of(request.params) && request@.id == json_of(request.id),
        error@.code == error.code && error@.message == error.message@,
        response@.jsonrpc == response.jsonrpc@ && response@.id == json_of(response.id),
        response.result matches Some(value) ==> response@.result == Some(json_of(value)),
        response.result is None ==> response@.result is None,
        response.error matches Some(refusal) ==> response@.error == Some(refusal@),
        response.error is None ==> response@.error is None,
        match step {
            ReadStep::Want(n) => step@ == ReadView::Want(n as nat),
            ReadStep::Message(value) => step@ == ReadView::Message(json_of(value)),
            ReadStep::Failed(failure) => step@ == ReadView::Failed(failure@),
        },
{
}

/// The end of a stream changes nothing of a message that has arrived whole, and
/// nothing of the refusal of one that is too large.
pub proof fn law_end_of_stream_keeps_what_arrived(
    body: Seq<u8>,
    rest: Seq<u8>,
    failure: Seq<char>,
)
    requires
        body.len() <= u32::MAX,
    ensures
        outcome_at_end(framed(body) + rest, failure) == read_outcome(framed(body) + rest),
{
    let received = framed(body) + rest;
    assert(received.take(4) =~= big_endian(body.len()));
    lemma_announced(received, body.len());
}

} // verus!
