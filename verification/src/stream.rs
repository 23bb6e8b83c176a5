//! One request stream of the mint server.
//!
//! Each inbound bidirectional stream carries exactly one JSON-RPC 2.0
//! request/response pair, except for subscription streams, which are handed
//! over. The bytes are moved by the caller: [`stream_step`] takes what came of
//! the last action and says which action is next.

use crate::error::{Error, ErrorView};
use crate::json;
use crate::json::{json_of, member_of, Json};
use crate::protocol::methods;
use crate::text::{join, same_text};
use crate::wire::{
    law_response_on_the_wire, RequestView, ResponseView, RpcRequest, RpcResponse,
};
use serde_json::Value;
use vstd::prelude::*;

verus! {

/// The request could not be read as JSON.
pub const RPC_PARSE_ERROR: i32 = -32700;

/// The JSON is no request.
pub const RPC_INVALID_REQUEST: i32 = -32600;

/// Where a stream stands: what the next event is about.
#[derive(Debug)]
pub enum StreamState {
    /// The request message is being read.
    Reading,
    /// The message is being decoded as a request envelope.
    Decoding,
    /// The request is being dispatched.
    Serving,
    /// The response is being written.
    Replying,
    /// The send side is being finished.
    Finishing,
    /// The refusal of a request is being written; the stream then fails with this error.
    Refusing(Error),
    /// Nothing is left to do here.
    Over,
}

/// The model of a [`StreamState`].
pub enum StreamStateView {
    Reading,
    Decoding,
    Serving,
    Replying,
    Finishing,
    Refusing(ErrorView),
    Over,
}

impl View for StreamState {
    type V = StreamStateView;

    open spec fn view(&self) -> StreamStateView {
        match self {
            StreamState::Reading => StreamStateView::Reading,
            StreamState::Decoding => StreamStateView::Decoding,
            StreamState::Serving => StreamStateView::Serving,
            StreamState::Replying => StreamStateView::Replying,
            StreamState::Finishing => StreamStateView::Finishing,
            StreamState::Refusing(error) => StreamStateView::Refusing(error@),
            StreamState::Over => StreamStateView::Over,
        }
    }
}

/// What came of the last action on a stream.
#[derive(Debug)]
pub enum StreamEvent {
    /// A message was read.
    Received(Value),
    /// No message could be read.
    NotReceived(Error),
    /// The message is this request.
    Decoded(RpcRequest),
    /// The message is no request.
    NotDecoded(String),
    /// The request has this response.
    Served(RpcResponse),
    /// The message was written.
    Written,
    /// The message could not be written.
    NotWritten(Error),
    /// The send side was finished.
    Finished,
    /// The send side could not be finished.
    NotFinished(String),
}

/// The model of a [`StreamEvent`].
pub enum StreamEventView {
    Received(Json),
    NotReceived(ErrorView),
    Decoded(RequestView),
    NotDecoded(Seq<char>),
    Served(ResponseView),
    Written,
    NotWritten(ErrorView),
    Finished,
    NotFinished(Seq<char>),
}

impl View for StreamEvent {
    type V = StreamEventView;

    open spec fn view(&self) -> StreamEventView {
        match self {
            StreamEvent::Received(value) => StreamEventView::Received(json_of(*value)),
            StreamEvent::NotReceived(error) => StreamEventView::NotReceived(error@),
            StreamEvent::Decoded(request) => StreamEventView::Decoded(request@),
            StreamEvent::NotDecoded(error) => StreamEventView::NotDecoded(error@),
            StreamEvent::Served(response) => StreamEventView::Served(response@),
            StreamEvent::Written => StreamEventView::Written,
            StreamEvent::NotWritten(error) => StreamEventView::NotWritten(error@),
            StreamEvent::Finished => StreamEventView::Finished,
            StreamEvent::NotFinished(error) => StreamEventView::NotFinished(error@),
        }
    }
}

/// What is to be done next on a stream.
#[derive(Debug)]
pub enum StreamAction {
    /// Decode the message as a request envelope.
    Decode(Value),
    /// Dispatch the request and follow it to its response.
    Serve(RpcRequest),
    /// Hand the stream over to a subscription session, for the request with this identifier.
    Subscribe(Value),
    /// Write a message.
    Write(Value),
    /// Finish the send side, so that the peer knows that the response is complete.
    Finish,
    /// The stream is done with.
    Close(Result<(), Error>),
}

/// The model of a [`StreamAction`].
pub enum StreamActionView {
    Decode(Json),
    Serve(RequestView),
    Subscribe(Json),
    Write(Json),
    Finish,
    Close(Result<(), ErrorView>),
}

impl View for StreamAction {
    type V = StreamActionView;

    open spec fn view(&self) -> StreamActionView {
        match self {
            StreamAction::Decode(value) => StreamActionView::Decode(json_of(*value)),
            StreamAction::Serve(request) => StreamActionView::Serve(request@),
            StreamAction::Subscribe(id) => StreamActionView::Subscribe(json_of(*id)),
            StreamAction::Write(value) => StreamActionView::Write(json_of(*value)),
            StreamAction::Finish => StreamActionView::Finish,
            StreamAction::Close(result) => StreamActionView::Close(
                match result {
                    Ok(_) => Ok(()),
                    Err(error) => Err(error@),
                },
            ),
        }
    }
}

impl StreamStateView {
    /// The event is one that the stream waits for.
    pub open spec fn waits_for(self, event: StreamEventView) -> bool {
        match self {
            StreamStateView::Reading => event is Received || event is NotReceived,
            StreamStateView::Decoding => event is Decoded || event is NotDecoded,
            StreamStateView::Serving => event is Served,
            StreamStateView::Replying => event is Written || event is NotWritten,
            StreamStateView::Finishing => event is Finished || event is NotFinished,
            StreamStateView::Refusing(_) => event is Written || event is NotWritten,
            StreamStateView::Over => false,
        }
    }

    /// The state and the action that follow from an event that the stream waits for.
    pub open spec fn next(self, event: StreamEventView) -> (StreamStateView, StreamActionView) {
        match event {
            StreamEventView::Received(raw) => (
                StreamStateView::Decoding,
                StreamActionView::Decode(raw),
            ),
            StreamEventView::NotReceived(error) => (
                StreamStateView::Refusing(error),
                StreamActionView::Write(parse_error_reply(error.message()).json()),
            ),
            StreamEventView::Decoded(request) => if !request.valid() {
                (
                    StreamStateView::Refusing(ErrorView::Json("jsonrpc must be 2.0"@)),
                    StreamActionView::Write(wrong_version_reply(request.id).json()),
                )
            } else if request.method == methods::SUBSCRIBE@ {
                (StreamStateView::Over, StreamActionView::Subscribe(request.id))
            } else {
                (StreamStateView::Serving, StreamActionView::Serve(request))
            },
            StreamEventView::NotDecoded(error) => (
                StreamStateView::Refusing(ErrorView::Json(error)),
                StreamActionView::Write(invalid_request_reply(error).json()),
            ),
            StreamEventView::Served(response) => (
                StreamStateView::Replying,
                StreamActionView::Write(response.json()),
            ),
            StreamEventView::Written => match self {
                StreamStateView::Refusing(error) => (
                    StreamStateView::Over,
                    StreamActionView::Close(Err(error)),
                ),
                _ => (StreamStateView::Finishing, StreamActionView::Finish),
            },
            StreamEventView::NotWritten(failure) => match self {
                StreamStateView::Refusing(error) => (
                    StreamStateView::Over,
                    StreamActionView::Close(Err(error)),
                ),
                _ => (StreamStateView::Over, StreamActionView::Close(Err(failure))),
            },
            StreamEventView::Finished => (StreamStateView::Over, StreamActionView::Close(Ok(()))),
            StreamEventView::NotFinished(failure) => (
                StreamStateView::Over,
                StreamActionView::Close(Err(ErrorView::Io(failure))),
            ),
        }
    }
}

/// The answer to bytes that are no message.
pub open spec fn parse_error_reply(error: Seq<char>) -> ResponseView {
    ResponseView::err(Json::Null, RPC_PARSE_ERROR, "parse error: "@ + error)
}

/// The answer to a message that is no request.
pub open spec fn invalid_request_reply(error: Seq<char>) -> ResponseView {
    ResponseView::err(Json::Null, RPC_INVALID_REQUEST, "invalid request: "@ + error)
}

/// The answer to a request that is not one of JSON-RPC 2.0.
pub open spec fn wrong_version_reply(id: Json) -> ResponseView {
    ResponseView::err(id, RPC_INVALID_REQUEST, "invalid request: jsonrpc must be 2.0"@)
}

/// Goes on with a stream, given what came of the last action. A stream begins
/// in the state [`StreamState::Reading`], with its request being read.
pub fn stream_step(state: StreamState, event: StreamEvent) -> (next: (StreamState, StreamAction))
    requires
        state@.waits_for(event@),
    ensures
        (next.0@, next.1@) == state@.next(event@),
        next.1 matches StreamAction::Serve(request) ==> request.jsonrpc@ == "2.0"@
            && request.method@ != methods::SUBSCRIBE@,
        next.1 is Subscribe ==> (event matches StreamEvent::Decoded(request) && request.jsonrpc@
            == "2.0"@ && request.method@ == methods::SUBSCRIBE@),
{
    match event {
        StreamEvent::Received(raw) => (StreamState::Decoding, StreamAction::Decode(raw)),
        StreamEvent::NotReceived(error) => {
            let reply = RpcResponse::err(
                json::null(),
                RPC_PARSE_ERROR,
                join("parse error: ", error.message().as_str()),
            );
            (StreamState::Refusing(error), StreamAction::Write(reply.to_value()))
        },
        StreamEvent::Decoded(request) => if !request.is_valid() {
            let reply = RpcResponse::err(
                request.id,
                RPC_INVALID_REQUEST,
                "invalid request: jsonrpc must be 2.0".to_string(),
            );
            (
                StreamState::Refusing(Error::Json("jsonrpc must be 2.0".to_string())),
                StreamAction::Write(reply.to_value()),
            )
        } else if same_text(request.method.as_str(), methods::SUBSCRIBE) {
            (StreamState::Over, StreamAction::Subscribe(request.id))
        } else {
            (StreamState::Serving, StreamAction::Serve(request))
        },
        StreamEvent::NotDecoded(error) => {
            let reply = RpcResponse::err(
                json::null(),
                RPC_INVALID_REQUEST,
                join("invalid request: ", error.as_str()),
            );
            (StreamState::Refusing(Error::Json(error)), StreamAction::Write(reply.to_value()))
        },
        StreamEvent::Served(response) => (
            StreamState::Replying,
            StreamAction::Write(response.to_value()),
        ),
        StreamEvent::Written => match state {
            StreamState::Refusing(error) => (StreamState::Over, StreamAction::Close(Err(error))),
            _ => (StreamState::Finishing, StreamAction::Finish),
        },
        StreamEvent::NotWritten(failure) => match state {
            StreamState::Refusing(error) => (StreamState::Over, StreamAction::Close(Err(error))),
            _ => (StreamState::Over, StreamAction::Close(Err(failure))),
        },
        StreamEvent::Finished => (StreamState::Over, StreamAction::Close(Ok(()))),
        StreamEvent::NotFinished(failure) => (
            StreamState::Over,
            StreamAction::Close(Err(Error::Io(failure))),
        ),
    }
}

/// A stream whose request cannot be read is answered with a parse error that
/// has no identifier, and fails with the error of the read, whether or not the
/// answer gets through.
pub proof fn law_unreadable_request_is_refused(error: ErrorView, delivered: StreamEventView)
    requires
        delivered is Written || delivered is NotWritten,
    ensures
        ({
            let (refusing, answer) = StreamStateView::Reading.next(
                StreamEventView::NotReceived(error),
            );
            let (over, close) = refusing.next(delivered);
            &&& answer == StreamActionView::Write(parse_error_reply(error.message()).json())
            &&& refusing.waits_for(delivered)
            &&& over is Over
            &&& close == StreamActionView::Close(Err(error))
        }),
{
}

/// A stream whose message is no request is answered with an invalid-request
/// error that has no identifier, and fails with that error, whether or not the
/// answer gets through.
pub proof fn law_invalid_request_is_refused(error: Seq<char>, delivered: StreamEventView)
    requires
        delivered is Written || delivered is NotWritten,
    ensures
        ({
            let (refusing, answer) = StreamStateView::Decoding.next(
                StreamEventView::NotDecoded(error),
            );
            let (over, close) = refusing.next(delivered);
            &&& answer == StreamActionView::Write(invalid_request_reply(error).json())
            &&& refusing.waits_for(delivered)
            &&& over is Over
            &&& close == StreamActionView::Close(Err(ErrorView::Json(error)))
        }),
{
}

/// Only requests of JSON-RPC 2.0 are served or open a subscription. Any other
/// request is answered with an invalid-request error that echoes its identifier,
/// and the stream then fails, whether or not the answer gets through.
pub proof fn law_other_versions_are_refused(request: RequestView, delivered: StreamEventView)
    requires
        request.jsonrpc != "2.0"@,
        delivered is Written || delivered is NotWritten,
    ensures
        ({
            let (refusing, answer) = StreamStateView::Decoding.next(
                StreamEventView::Decoded(request),
            );
            let (over, close) = refusing.next(delivered);
            &&& answer == StreamActionView::Write(wrong_version_reply(request.id).json())
            &&& refusing.waits_for(delivered)
            &&& over is Over
            &&& close == StreamActionView::Close(Err(ErrorView::Json("jsonrpc must be 2.0"@)))
        }),
{
}

/// The stream is handed over to a subscription by this event.
pub open spec fn hands_over(event: StreamEventView) -> bool {
    event matches StreamEventView::Decoded(request) && request.valid() && request.method
        == methods::SUBSCRIBE@
}

/// The stream goes through these events, one after the other, and is then over.
pub open spec fn runs_through(state: StreamStateView, events: Seq<StreamEventView>) -> bool
    decreases events.len(),
{
    if events.len() == 0 {
        state is Over
    } else {
        state.waits_for(events[0]) && runs_through(
            state.next(events[0]).0,
            events.drop_first(),
        )
    }
}

/// The messages that the stream writes on the way through these events.
pub open spec fn written_on_the_way(state: StreamStateView, events: Seq<StreamEventView>) -> Seq<
    Json,
>
    decreases events.len(),
{
    if events.len() == 0 {
        Seq::empty()
    } else {
        let (later, action) = state.next(events[0]);
        let rest = written_on_the_way(later, events.drop_first());
        match action {
            StreamActionView::Write(message) => seq![message] + rest,
            _ => rest,
        }
    }
}

/// A stream answers its request exactly once, unless it is handed over to a
/// subscription: then it writes nothing.
pub proof fn law_one_answer_per_stream(events: Seq<StreamEventView>)
    requires
        runs_through(StreamStateView::Reading, events),
    ensures
        ({
            let written = written_on_the_way(StreamStateView::Reading, events);
            if hands_over(events.last()) {
                written.len() == 0
            } else {
                written.len() == 1
            }
        }),
{
    lemma_answers_left(StreamStateView::Reading, events);
}

/// How many messages a stream still writes from a state on.
proof fn lemma_answers_left(state: StreamStateView, events: Seq<StreamEventView>)
    requires
        runs_through(state, events),
    ensures
        ({
            let written = written_on_the_way(state, events);
            match state {
                StreamStateView::Reading | StreamStateView::Decoding => events.len() > 0 && (
                if hands_over(events.last()) {
                    written.len() == 0
                } else {
                    written.len() == 1
                }),
                StreamStateView::Serving => events.len() > 0 && !(events.last() is Decoded)
                    && written.len() == 1,
                StreamStateView::Over => events.len() == 0 && written.len() == 0,
                _ => events.len() > 0 && !(events.last() is Decoded) && written.len() == 0,
            }
        }),
    decreases events.len(),
{
    if events.len() > 0 {
        let later = state.next(events[0]).0;
        lemma_answers_left(later, events.drop_first());
        if events.len() > 1 {
            assert(events.drop_first().last() == events.last());
        }
    }
}

/// The refusals are errors under the codes of JSON-RPC, with the reason at the
/// end of their message. One for a message that could not be taken for a request
/// has no identifier; one for a request of another version has that of the
/// request.
pub proof fn law_refusals_say_why(error: Seq<char>, id: Json)
    ensures
        parse_error_reply(error) == ResponseView::err(Json::Null, (-32700) as i32, "parse error: "@ + error),
        invalid_request_reply(error) == ResponseView::err(
            Json::Null,
            (-32600) as i32,
            "invalid request: "@ + error,
        ),
        wrong_version_reply(id).id == id,
        wrong_version_reply(id).result is None,
        wrong_version_reply(id).error matches Some(refusal) && refusal.code == -32600,
{
}

/// A request that was read is decoded as it was read, and served as it was
/// decoded; or handed over under its own identifier, if it is a subscription.
pub proof fn law_request_is_passed_on_unchanged(raw: Json, request: RequestView)
    requires
        request.jsonrpc == "2.0"@,
    ensures
        StreamStateView::Reading.next(StreamEventView::Received(raw)) == (
            StreamStateView::Decoding,
            StreamActionView::Decode(raw),
        ),
        request.method != "cashu_subscribe"@ ==> StreamStateView::Decoding.next(
            StreamEventView::Decoded(request),
        ) == (StreamStateView::Serving, StreamActionView::Serve(request)),
        request.method == "cashu_subscribe"@ ==> StreamStateView::Decoding.next(
            StreamEventView::Decoded(request),
        ) == (StreamStateView::Over, StreamActionView::Subscribe(request.id)),
{
}

/// A request that is served is answered with the response, whole: the message
/// that is written has the version, the identifier and the result or error of
/// the response as its members. Then the send side is finished and the stream
/// closes well; where the answer cannot be written or the stream not be
/// finished, it closes with that failure.
pub proof fn law_response_is_written_whole(
    response: ResponseView,
    failure: ErrorView,
    reason: Seq<char>,
)
    ensures
        ({
            let (replying, answer) = StreamStateView::Serving.next(
                StreamEventView::Served(response),
            );
            let (finishing, finish) = replying.next(StreamEventView::Written);
            &&& answer matches StreamActionView::Write(message)
            &&& message is Object
            &&& member_of(message, "jsonrpc"@) == Some(Json::Text(response.jsonrpc))
            &&& member_of(message, "id"@) == Some(response.id)
            &&& member_of(message, "result"@) == response.result
            &&& match response.error {
                None => member_of(message, "error"@) is None,
                Some(error) => member_of(message, "error"@) matches Some(object) && member_of(
                    object,
                    "code"@,
                ) == Some(Json::Integer(error.code as int)) && member_of(object, "message"@)
                    == Some(Json::Text(error.message)),
            }
            &&& forall|name: Seq<char>| #[trigger]
                member_of(message, name) is Some ==> name == "jsonrpc"@ || name == "id"@ || name
                    == "result"@ || name == "error"@
            &&& replying is Replying
            &&& replying.next(StreamEventView::NotWritten(failure)) == (
                StreamStateView::Over,
                StreamActionView::Close(Err(failure)),
            )
            &&& finish is Finish
            &&& finishing.next(StreamEventView::Finished) == (
                StreamStateView::Over,
                StreamActionView::Close(Ok(())),
            )
            &&& finishing.next(StreamEventView::NotFinished(reason)) == (
                StreamStateView::Over,
                StreamActionView::Close(Err(ErrorView::Io(reason))),
            )
        }),
{
    law_response_on_the_wire(response);
}

/// A stream takes every outcome that its last action can have, and none once it
/// is over.
pub proof fn law_streams_take_what_comes(
    raw: Json,
    failure: ErrorView,
    request: RequestView,
    response: ResponseView,
    reason: Seq<char>,
    event: StreamEventView,
)
    ensures
        StreamStateView::Reading.waits_for(StreamEventView::Received(raw)),
        StreamStateView::Reading.waits_for(StreamEventView::NotReceived(failure)),
        StreamStateView::Decoding.waits_for(StreamEventView::Decoded(request)),
        StreamStateView::Decoding.waits_for(StreamEventView::NotDecoded(reason)),
        StreamStateView::Serving.waits_for(StreamEventView::Served(response)),
        StreamStateView::Replying.waits_for(StreamEventView::Written),
        StreamStateView::Replying.waits_for(StreamEventView::NotWritten(failure)),
        StreamStateView::Finishing.waits_for(StreamEventView::Finished),
        StreamStateView::Finishing.waits_for(StreamEventView::NotFinished(reason)),
        !StreamStateView::Over.waits_for(event),
{
}

/// The models of states, events and actions hold what these hold.
pub proof fn law_streams_are_modelled_whole(
    state: StreamState,
    event: StreamEvent,
    action: StreamAction,
)
    ensures
        match state {
            StreamState::Reading => state@ is Reading,
            StreamState::Decoding => state@ is Decoding,
            StreamState::Serving => state@ is Serving,
            StreamState::Replying => state@ is Replying,
            StreamState::Finishing => state@ is Finishing,
            StreamState::Refusing(error) => state@ == StreamStateView::Refusing(error@),
            StreamState::Over => state@ is Over,
        },
        match event {
            StreamEvent::Received(raw) => event@ == StreamEventView::Received(json_of(raw)),
            StreamEvent::NotReceived(error) => event@ == StreamEventView::NotReceived(error@),
            StreamEvent::Decoded(request) => event@ == StreamEventView::Decoded(request@),
            StreamEvent::NotDecoded(text) => event@ == StreamEventView::NotDecoded(text@),
            StreamEvent::Served(response) => event@ == StreamEventView::Served(response@),
            StreamEvent::Written => event@ is Written,
            StreamEvent::NotWritten(error) => event@ == StreamEventView::NotWritten(error@),
            StreamEvent::Finished => event@ is Finished,
            StreamEvent::NotFinished(text) => event@ == StreamEventView::NotFinished(text@),
        },
        match action {
            StreamAction::Decode(raw) => action@ == StreamActionView::Decode(json_of(raw)),
            StreamAction::Serve(request) => action@ == StreamActionView::Serve(request@),
            StreamAction::Subscribe(id) => action@ == StreamActionView::Subscribe(json_of(id)),
            StreamAction::Write(message) => action@ == StreamActionView::Write(json_of(message)),
            StreamAction::Finish => action@ is Finish,
            StreamAction::Close(Ok(_)) => action@ == StreamActionView::Close(Ok(())),
            StreamAction::Close(Err(error)) => action@ == StreamActionView::Close(Err(error@)),
        },
{
}

} // verus!
