//! How the two ends of a stream agree: what one side writes, the other side
//! reads and understands.

use crate::error::TransportErrorView;
use crate::exchange::{
    call_request, subscribe_request, ExchangeActionView, ExchangeEventView, ExchangeView,
    PhaseView,
};
use crate::handler::{
    begin, dispatched, ends_in, id_in, law_every_call_is_answered, law_operation_names_are_distinct,
    CallView, NextView, Operation, OutcomeView, Stage, TaskView,
};
use crate::json::{
    displayed, exact_within, member_of, printed, printed_text, prints_faithfully, reads_as,
    survives_printing, Json,
};
use crate::routes::{law_every_identifier_has_a_route, route, segments};
use crate::stream::{StreamActionView, StreamEventView, StreamStateView};
use crate::subscription::{
    acknowledgement, notification_json, status_json, WsReplyView, WsResultView,
};
use crate::transport::{ack_verdict, custom, holds_result, result_in, MAX_FRAME_SIZE};
use crate::wire::{
    framed, law_frame_is_read_back, read_outcome, ReadView, RequestView, ResponseView,
    RpcErrorView, MAX_MESSAGE_BYTES,
};
use vstd::prelude::*;

verus! {

/// The names of the members of the two envelopes are different.
proof fn lemma_member_names()
    ensures
        "jsonrpc"@ != "id"@,
        "jsonrpc"@ != "result"@,
        "jsonrpc"@ != "error"@,
        "id"@ != "result"@,
        "id"@ != "error"@,
        "result"@ != "error"@,
{
    reveal_strlit("jsonrpc");
    reveal_strlit("id");
    reveal_strlit("result");
    reveal_strlit("error");
    assert("jsonrpc"@.len() == 7 && "id"@.len() == 2 && "result"@.len() == 6 && "error"@.len()
        == 5);
}

/// Every request that the wallet makes for a URL is served: the stream of its
/// call is not taken for a subscription, and the dispatch of the request begins
/// the operation that the URL stands for, with the parameters of the request.
pub proof fn law_routes_are_served(path: Seq<char>, is_post: bool, params: Json, next: NextView)
    requires
        route(segments(path), is_post) is Some,
        ({
            let operation = route(segments(path), is_post).unwrap().0;
            dispatched(call_request(operation.name(), params), next)
        }),
    ensures
        ({
            let operation = route(segments(path), is_post).unwrap().0;
            let request = call_request(operation.name(), params);
            &&& StreamStateView::Decoding.next(StreamEventView::Decoded(request)) == (
                StreamStateView::Serving,
                StreamActionView::Serve(request),
            )
            &&& next == begin(operation, params, Json::Integer(1))
        }),
{
    let operation = route(segments(path), is_post).unwrap().0;
    law_operation_names_are_distinct(operation, operation);
}

/// The identifier that the wallet takes from the path of a URL is the one that
/// the server looks up.
pub proof fn law_path_ids_are_found(path: Seq<char>)
    requires
        route(segments(path), false) is Some,
        route(segments(path), false).unwrap().0.looks_up(),
    ensures
        ({
            let (operation, params) = route(segments(path), false).unwrap();
            id_in(operation, params) == Some(Json::Text(segments(path).last()))
        }),
{
    reveal_strlit("id");
    reveal_strlit("keyset_id");
    reveal_strlit("payment_method");
    assert("id"@.len() == 2 && "keyset_id"@.len() == 9 && "payment_method"@.len() == 14);
}

/// The handshake that the wallet sends hands its stream over to a subscription
/// session, and the acknowledgement that the session writes is one that the
/// wallet accepts.
pub proof fn law_handshake_is_understood(id: Json)
    ensures
        StreamStateView::Decoding.next(StreamEventView::Decoded(subscribe_request())) == (
            StreamStateView::Over,
            StreamActionView::Subscribe(Json::Integer(0)),
        ),
        ack_verdict(acknowledgement(id).json()) is Ok,
{
    lemma_member_names();
}

/// The wallet finds the result of a successful response, and the error of any
/// other.
pub proof fn law_responses_are_understood(id: Json, result: Json, code: i32, message: Seq<char>)
    ensures
        holds_result(ResponseView::ok(id, result).json()),
        member_of(ResponseView::ok(id, result).json(), "result"@) == Some(result),
        result_in(ResponseView::ok(id, result).json()) == Ok::<_, TransportErrorView>(
            printed_text(result),
        ),
        !holds_result(ResponseView::err(id, code, message).json()),
        result_in(ResponseView::err(id, code, message).json()) == Err::<Seq<char>, _>(
            custom("JSON-RPC error: "@ + displayed((RpcErrorView { code, message }).json())),
        ),
{
    lemma_member_names();
}

/// An object leaves one level of nesting to each of its members.
proof fn lemma_object_nests(members: Map<Seq<char>, Json>)
    requires
        forall|name: Seq<char>| #[trigger]
            members.contains_key(name) ==> exact_within(members[name], 126),
    ensures
        survives_printing(Json::Object(members)),
{
}

/// Printing preserves the requests of the wallet, if their parameters leave
/// room for the envelope around them and hold no fractions.
pub proof fn law_requests_survive_printing(method: Seq<char>, params: Json)
    requires
        exact_within(params, 126),
    ensures
        survives_printing(call_request(method, params).json()),
        survives_printing(subscribe_request().json()),
{
    assert(exact_within(Json::Text("2.0"@), 126));
    assert(exact_within(Json::Text(method), 126));
    assert(exact_within(Json::Text(subscribe_request().method), 126));
    assert(exact_within(Json::Integer(0), 126));
    assert(exact_within(Json::Integer(1), 126));
    assert(exact_within(subscribe_request().params, 126));
    lemma_object_nests(call_request(method, params).json()->Object_0);
    lemma_object_nests(subscribe_request().json()->Object_0);
}

/// Printing preserves the responses of the mint, if their identifier and result
/// leave room for the envelope around them and hold no fractions.
pub proof fn law_responses_survive_printing(id: Json, result: Json, code: i32, message: Seq<char>)
    requires
        exact_within(id, 126),
    ensures
        exact_within(result, 126) ==> survives_printing(ResponseView::ok(id, result).json()),
        survives_printing(ResponseView::err(id, code, message).json()),
        survives_printing(acknowledgement(id).json()),
{
    assert(exact_within(Json::Text("2.0"@), 126));
    if exact_within(result, 126) {
        lemma_object_nests(ResponseView::ok(id, result).json()->Object_0);
    }
    let error = (RpcErrorView { code, message }).json();
    assert(exact_within(Json::Integer(code as int), 125));
    assert(exact_within(Json::Text(message), 125));
    assert(exact_within(error, 126));
    lemma_object_nests(ResponseView::err(id, code, message).json()->Object_0);
    let status = acknowledgement(id).result.unwrap();
    assert(exact_within(Json::Text("OK"@), 125));
    assert(exact_within(status, 126));
    lemma_object_nests(acknowledgement(id).json()->Object_0);
}

/// Printing preserves the messages of a subscription session: its responses, and
/// its notifications if their payload leaves room for the message around it and
/// holds no fractions.
pub proof fn law_session_messages_survive_printing(
    answer: WsReplyView,
    sub_id: Seq<char>,
    payload: Json,
)
    ensures
        survives_printing(answer.json()),
        exact_within(payload, 125) ==> survives_printing(notification_json(sub_id, payload)),
{
    assert(exact_within(Json::Text("2.0"@), 126));
    assert(exact_within(Json::Integer(answer.id as int), 126));
    match answer.result {
        WsResultView::Subscribed(status, sub) | WsResultView::Unsubscribed(status, sub) => {
            assert(exact_within(Json::Text(status), 125));
            assert(exact_within(Json::Text(sub), 125));
            assert(exact_within(status_json(status, sub), 126));
        },
        WsResultView::Error(code, message) => {
            assert(exact_within(Json::Integer(code as int), 125));
            assert(exact_within(Json::Text(message), 125));
            assert(exact_within((RpcErrorView { code, message }).json(), 126));
        },
    }
    lemma_object_nests(answer.json()->Object_0);
    if exact_within(payload, 125) {
        assert(exact_within(Json::Text("subscribe"@), 126));
        assert(exact_within(Json::Text(sub_id), 125));
        let members = notification_json(sub_id, payload)->Object_0;
        assert(exact_within(
            Json::Object(map!["subId"@ => Json::Text(sub_id), "payload"@ => payload]),
            126,
        ));
        lemma_object_nests(members);
    }
}

/// Both ends accept messages up to the same size, and any message that one end
/// frames is read by the other: the value that was printed is the value that is
/// read, where it is one that printing preserves.
pub proof fn law_messages_arrive(value: Json)
    requires
        prints_faithfully(value),
        survives_printing(value),
        printed(value).len() <= MAX_MESSAGE_BYTES,
    ensures
        MAX_FRAME_SIZE == MAX_MESSAGE_BYTES,
        read_outcome(framed(printed(value))) == ReadView::Message(value),
{
    let body = printed(value);
    law_frame_is_read_back(body, Seq::empty());
    assert(framed(body) + Seq::empty() =~= framed(body));
}

/// A call comes to the result that the mint answered: the frame of the response
/// ends the exchange with the text of the result, or with the error.
pub proof fn law_calls_come_to_their_result(
    exchange: ExchangeView,
    response: ResponseView,
    body: Seq<u8>,
    count: int,
)
    requires
        exchange.purpose is Call,
        0 <= count <= framed(body).len(),
        exchange.phase == PhaseView::Receiving(framed(body).take(count)),
        reads_as(body, response.json()),
        body.len() <= MAX_FRAME_SIZE,
    ensures
        exchange.next(ExchangeEventView::Received(framed(body).skip(count))).1 == match result_in(
            response.json(),
        ) {
            Ok(text) => ExchangeActionView::Result(text),
            Err(error) => ExchangeActionView::Fail(error),
        },
{
    law_frame_is_read_back(body, Seq::empty());
    assert(framed(body) + Seq::empty() =~= framed(body));
    assert(framed(body).take(count) + framed(body).skip(count) =~= framed(body));
}

/// A subscription stream is ready once the frame of the session's
/// acknowledgement has arrived.
pub proof fn law_handshake_comes_to_a_session(
    exchange: ExchangeView,
    id: Json,
    body: Seq<u8>,
    count: int,
)
    requires
        exchange.purpose is Subscribe,
        0 <= count <= framed(body).len(),
        exchange.phase == PhaseView::Receiving(framed(body).take(count)),
        reads_as(body, acknowledgement(id).json()),
        body.len() <= MAX_FRAME_SIZE,
    ensures
        exchange.next(ExchangeEventView::Received(framed(body).skip(count))).1 is Ready,
{
    law_handshake_is_understood(id);
    law_frame_is_read_back(body, Seq::empty());
    assert(framed(body) + Seq::empty() =~= framed(body));
    assert(framed(body).take(count) + framed(body).skip(count) =~= framed(body));
}

/// A message stands for one request at most: requests with the same JSON form
/// are the same.
pub proof fn law_message_determines_the_request(a: RequestView, b: RequestView)
    requires
        a.json() == b.json(),
    ensures
        a == b,
{
    reveal_strlit("jsonrpc");
    reveal_strlit("method");
    reveal_strlit("params");
    reveal_strlit("id");
    assert("jsonrpc"@.len() == 7 && "method"@.len() == 6 && "params"@.len() == 6 && "id"@.len()
        == 2);
    assert("method"@[0] == 'm' && "params"@[0] == 'p');
    let in_a = a.json()->Object_0;
    let in_b = b.json()->Object_0;
    assert(in_a["jsonrpc"@] == in_b["jsonrpc"@]);
    assert(in_a["method"@] == in_b["method"@]);
    assert(in_a["params"@] == in_b["params"@]);
    assert(in_a["id"@] == in_b["id"@]);
}

/// A call gives the wallet what the mint answered. The server takes the message
/// of a call for the request that the wallet made, begins the operation that was
/// asked for, and once the mint's answer is there, its response ends the
/// wallet's exchange with that answer, however the response arrives.
pub proof fn law_call_gives_the_mints_answer(
    operation: Operation,
    params: Json,
    request: RequestView,
    next: NextView,
    outcomes: Seq<OutcomeView>,
    response: ResponseView,
    answer: Json,
    exchange: ExchangeView,
    body: Seq<u8>,
    count: int,
)
    requires
        request.json() == call_request(operation.name(), params).json(),
        dispatched(request, next),
        next matches NextView::Do(call, _) ==> ends_in(call, outcomes, response),
        outcomes.len() > 0,
        outcomes.last() == OutcomeView::Encoded(answer),
        reads_as(body, response.json()),
        body.len() <= MAX_FRAME_SIZE,
        exchange.purpose is Call,
        0 <= count <= framed(body).len(),
        exchange.phase == PhaseView::Receiving(framed(body).take(count)),
    ensures
        next == begin(operation, params, Json::Integer(1)),
        response == ResponseView::ok(Json::Integer(1), answer),
        exchange.next(ExchangeEventView::Received(framed(body).skip(count))).1
            == ExchangeActionView::Result(printed_text(answer)),
{
    law_message_determines_the_request(request, call_request(operation.name(), params));
    assert(operation.name() == request.method);
    assert(next == begin(operation, params, Json::Integer(1)));
    if let NextView::Do(call, _) = next {
        law_every_call_is_answered(call, outcomes, response);
    }
    law_responses_are_understood(Json::Integer(1), answer, 0, Seq::empty());
    law_calls_come_to_their_result(exchange, response, body, count);
}

/// What the mint was asked for reaches the wallet over the stream: a call that
/// was served with a result ends with the text of that result, and one that was
/// served with an error ends with that error, if what the server wrote is what
/// the wallet reads, however it arrives.
pub proof fn law_served_response_ends_the_exchange(
    id: Json,
    result: Json,
    code: i32,
    reason: Seq<char>,
    served: ResponseView,
    message: Json,
    exchange: ExchangeView,
    body: Seq<u8>,
    count: int,
)
    requires
        served == ResponseView::ok(id, result) || served == ResponseView::err(id, code, reason),
        StreamStateView::Serving.next(StreamEventView::Served(served)).1
            == StreamActionView::Write(message),
        reads_as(body, message),
        body.len() <= 16 * 1024 * 1024,
        exchange.purpose is Call,
        0 <= count <= framed(body).len(),
        exchange.phase == PhaseView::Receiving(framed(body).take(count)),
    ensures
        served.error is None ==> exchange.next(
            ExchangeEventView::Received(framed(body).skip(count)),
        ).1 == ExchangeActionView::Result(printed_text(result)),
        served.error is Some ==> exchange.next(
            ExchangeEventView::Received(framed(body).skip(count)),
        ).1 == ExchangeActionView::Fail(
            TransportErrorView::Custom(
                "JSON-RPC error: "@ + displayed((RpcErrorView { code, message: reason }).json()),
            ),
        ),
{
    law_responses_are_understood(id, result, code, reason);
    law_calls_come_to_their_result(exchange, served, body, count);
}

/// A wallet that asks for a URL is served what the URL names: a GET of a key set
/// or of a quote has the server look up the very identifier that the path ends
/// with, under the operation of the path.
pub proof fn law_identifier_in_a_url_is_looked_up(id: Seq<char>, call: Json)
    requires
        id.len() > 0,
        forall|i: int| 0 <= i < id.len() ==> #[trigger] id[i] != '/',
    ensures
        route(segments("/v1/keys/"@ + id), false) matches Some((operation, params)) && begin(
            operation,
            params,
            call,
        ) == NextView::Do(
            CallView { operation: Operation::GetKeyById, id: call, stage: Stage::Id },
            TaskView::ReadId(Json::Text(id)),
        ),
        route(segments("/v1/mint/quote/bolt11/"@ + id), false) matches Some((operation, params))
            && begin(operation, params, call) == NextView::Do(
            CallView { operation: Operation::GetMintQuote, id: call, stage: Stage::Id },
            TaskView::ReadId(Json::Text(id)),
        ),
        route(segments("/v1/melt/quote/bolt11/"@ + id), false) matches Some((operation, params))
            && begin(operation, params, call) == NextView::Do(
            CallView { operation: Operation::GetMeltQuote, id: call, stage: Stage::Id },
            TaskView::ReadId(Json::Text(id)),
        ),
{
    law_every_identifier_has_a_route(id);
    reveal_strlit("id");
    reveal_strlit("keyset_id");
    reveal_strlit("payment_method");
    assert("id"@.len() == 2 && "keyset_id"@.len() == 9 && "payment_method"@.len() == 14);
}

} // verus!
