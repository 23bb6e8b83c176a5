//! NUT-17 long-lived subscription sessions.
//!
//! When the wallet sends a `cashu_subscribe` request on a bidirectional stream,
//! a [`Session`] takes over that stream and keeps it open.
//!
//! ## Protocol on the stream
//!
//! ```text
//! wallet -> server  :  cashu_subscribe  (the initial request, already read)
//! server -> wallet  :  {"jsonrpc":"2.0","result":{"status":"OK"},"id":0}
//!
//! wallet -> server  :  subscribe / unsubscribe
//! server -> wallet  :  response or notification
//! ```
//!
//! Both directions use the framing of every other stream. The stream, the
//! mint's notifications and the tasks that forward them are the caller's:
//! [`Session::step`] takes what happened and says what is to be done.

use crate::error::{Error, ErrorView};
use crate::json;
use crate::json::{json_of, member_of, Json};
use crate::text::{join, same_text};
use crate::wire::{ResponseView, RpcError, RpcErrorView, RpcResponse};
use serde_json::Value;
use vstd::prelude::*;

verus! {

/// The message is no request, or the mint does not take the subscription.
pub const WS_PARSE_ERROR: i32 = -32700;

/// The subscription identifier cannot be used.
pub const WS_INVALID_PARAMS: i32 = -32602;

/// A subscription that the table holds: its identifier and the handle of the
/// task that forwards its notifications.
pub struct Entry<H> {
    pub id: Seq<char>,
    pub handle: H,
}

/// The subscriptions of a session, each with the handle of its forwarding task.
#[derive(Debug)]
pub struct Subscriptions<H> {
    entries: Vec<(String, H)>,
}

impl<H> View for Subscriptions<H> {
    type V = Seq<Entry<H>>;

    closed spec fn view(&self) -> Seq<Entry<H>> {
        self.entries@.map_values(|entry: (String, H)| Entry { id: entry.0@, handle: entry.1 })
    }
}

/// A subscription with this identifier is in the table.
pub open spec fn is_subscribed<H>(entries: Seq<Entry<H>>, id: Seq<char>) -> bool {
    exists|i: int| 0 <= i < entries.len() && (#[trigger] entries[i]).id == id
}

/// The place in the table of the subscription with this identifier.
pub open spec fn place_of<H>(entries: Seq<Entry<H>>, id: Seq<char>) -> int {
    choose|i: int| 0 <= i < entries.len() && (#[trigger] entries[i]).id == id
}

/// The handles of the forwarding tasks.
pub open spec fn handles<H>(entries: Seq<Entry<H>>) -> Seq<H> {
    entries.map_values(|entry: Entry<H>| entry.handle)
}

/// No identifier occurs twice in the table.
pub open spec fn distinct<H>(entries: Seq<Entry<H>>) -> bool {
    forall|i: int, j: int|
        0 <= i < entries.len() && 0 <= j < entries.len() && (#[trigger] entries[i]).id == (
        #[trigger] entries[j]).id ==> i == j
}

impl<H> Subscriptions<H> {
    /// A table without subscriptions.
    pub fn new() -> (table: Subscriptions<H>)
        ensures
            table@ == Seq::<Entry<H>>::empty(),
    {
        let table = Subscriptions { entries: Vec::new() };
        assert(table@ =~= Seq::<Entry<H>>::empty());
        table
    }

    /// The place of a subscription in the table.
    fn find(&self, id: &str) -> (place: Option<usize>)
        ensures
            match place {
                Some(i) => i < self@.len() && self@[i as int].id == id@,
                None => !is_subscribed(self@, id@),
            },
    {
        let mut i: usize = 0;
        while i < self.entries.len()
            invariant
                i <= self.entries@.len(),
                forall|j: int| 0 <= j < i ==> (#[trigger] self@[j]).id != id@,
            decreases self.entries@.len() - i,
        {
            assert(self@[i as int].id == self.entries@[i as int].0@);
            if same_text(self.entries[i].0.as_str(), id) {
                return Some(i);
            }
            i = i + 1;
        }
        None
    }

    /// Whether a subscription with this identifier is in the table.
    pub fn contains(&self, id: &str) -> (found: bool)
        ensures
            found == is_subscribed(self@, id@),
    {
        self.find(id).is_some()
    }

    /// Puts a subscription into the table.
    pub fn insert(&mut self, id: String, handle: H)
        requires
            !is_subscribed(old(self)@, id@),
        ensures
            final(self)@ == old(self)@.push(Entry { id: id@, handle }),
            distinct(old(self)@) ==> distinct(final(self)@),
    {
        self.entries.push((id, handle));
        assert(self@ =~= old(self)@.push(Entry { id: id@, handle }));
    }

    /// Takes a subscription out of the table and gives its handle.
    pub fn remove(&mut self, id: &str) -> (handle: Option<H>)
        requires
            distinct(old(self)@),
        ensures
            distinct(final(self)@),
            !is_subscribed(final(self)@, id@),
            if is_subscribed(old(self)@, id@) {
                let place = place_of(old(self)@, id@);
                handle == Some(old(self)@[place].handle) && final(self)@ == old(self)@.remove(place)
            } else {
                handle is None && final(self)@ == old(self)@
            },
    {
        match self.find(id) {
            None => None,
            Some(place) => {
                assert(place_of(old(self)@, id@) == place as int);
                let (_, handle) = self.entries.remove(place);
                assert(self@ =~= old(self)@.remove(place as int));
                Some(handle)
            },
        }
    }

    /// Empties the table and gives all handles.
    pub fn drain(self) -> (all: Vec<H>)
        ensures
            all@ == handles(self@),
    {
        let mut rest = self.entries;
        let mut all: Vec<H> = Vec::new();
        let ghost taken = self.entries@;
        while rest.len() > 0
            invariant
                taken.len() == all@.len() + rest@.len(),
                forall|i: int| 0 <= i < all@.len() ==> #[trigger] all@[i] == taken[i].1,
                forall|i: int|
                    0 <= i < rest@.len() ==> #[trigger] rest@[i] == taken[all@.len() + i],
            decreases rest@.len(),
        {
            let (_, handle) = rest.remove(0);
            all.push(handle);
        }
        assert(all@ =~= handles(self@));
        all
    }
}

/// What a wallet asks for on a subscription stream.
#[derive(Debug)]
pub enum WsMethod {
    /// Subscribe, under this subscription identifier.
    Subscribe(String),
    /// Unsubscribe from this subscription identifier.
    Unsubscribe(String),
}

/// A request of the wallet on a subscription stream.
#[derive(Debug)]
pub struct WsRequest {
    /// The identifier of the request.
    pub id: usize,
    /// What is asked for.
    pub method: WsMethod,
}

/// The model of a [`WsMethod`].
pub enum WsMethodView {
    Subscribe(Seq<char>),
    Unsubscribe(Seq<char>),
}

/// The model of a [`WsRequest`].
pub struct WsRequestView {
    pub id: usize,
    pub method: WsMethodView,
}

impl View for WsRequest {
    type V = WsRequestView;

    open spec fn view(&self) -> WsRequestView {
        WsRequestView {
            id: self.id,
            method: match self.method {
                WsMethod::Subscribe(sub_id) => WsMethodView::Subscribe(sub_id@),
                WsMethod::Unsubscribe(sub_id) => WsMethodView::Unsubscribe(sub_id@),
            },
        }
    }
}

/// What a request on a subscription stream came to.
#[derive(Debug)]
pub enum WsResult {
    /// The wallet is subscribed: the status and the subscription identifier.
    Subscribed(String, String),
    /// The wallet is unsubscribed: the status and the subscription identifier.
    Unsubscribed(String, String),
    /// The request failed: a code and a message.
    Error(i32, String),
}

/// The response to a request on a subscription stream.
#[derive(Debug)]
pub struct WsReply {
    /// The identifier of the request.
    pub id: usize,
    /// What the request came to.
    pub result: WsResult,
}

/// The model of a [`WsResult`].
pub enum WsResultView {
    Subscribed(Seq<char>, Seq<char>),
    Unsubscribed(Seq<char>, Seq<char>),
    Error(i32, Seq<char>),
}

/// The model of a [`WsReply`].
pub struct WsReplyView {
    pub id: usize,
    pub result: WsResultView,
}

/// The JSON object that says what became of a subscription.
pub open spec fn status_json(status: Seq<char>, sub_id: Seq<char>) -> Json {
    Json::Object(map!["status"@ => Json::Text(status), "subId"@ => Json::Text(sub_id)])
}

impl WsReplyView {
    /// The JSON object that stands for the response on the wire: a result or an
    /// error, under the identifier of the request.
    pub open spec fn json(self) -> Json {
        let base = map!["jsonrpc"@ => Json::Text("2.0"@), "id"@ => Json::Integer(self.id as int)];
        Json::Object(
            match self.result {
                WsResultView::Subscribed(status, sub_id) => base.insert(
                    "result"@,
                    status_json(status, sub_id),
                ),
                WsResultView::Unsubscribed(status, sub_id) => base.insert(
                    "result"@,
                    status_json(status, sub_id),
                ),
                WsResultView::Error(code, message) => base.insert(
                    "error"@,
                    (RpcErrorView { code, message }).json(),
                ),
            },
        )
    }
}

/// The JSON object that stands for a notification on the wire: what it says, and
/// the subscription that it is for.
pub open spec fn notification_json(sub_id: Seq<char>, payload: Json) -> Json {
    Json::Object(
        map![
            "jsonrpc"@ => Json::Text("2.0"@),
            "method"@ => Json::Text("subscribe"@),
            "params"@ => Json::Object(
                map!["subId"@ => Json::Text(sub_id), "payload"@ => payload],
            ),
        ],
    )
}

fn status_value(status: &str, sub_id: &str) -> (value: Value)
    ensures
        json_of(value) == status_json(status@, sub_id@),
{
    let mut members = json::no_members();
    json::set_member(&mut members, "status".to_string(), json::text(status));
    json::set_member(&mut members, "subId".to_string(), json::text(sub_id));
    json::object(members)
}

/// The JSON object that stands for a notification on the wire.
pub fn notification_value(sub_id: &str, payload: Value) -> (value: Value)
    ensures
        json_of(value) == notification_json(sub_id@, json_of(payload)),
{
    let mut params = json::no_members();
    json::set_member(&mut params, "subId".to_string(), json::text(sub_id));
    json::set_member(&mut params, "payload".to_string(), payload);
    let mut members = json::no_members();
    json::set_member(&mut members, "jsonrpc".to_string(), json::text("2.0"));
    json::set_member(&mut members, "method".to_string(), json::text("subscribe"));
    json::set_member(&mut members, "params".to_string(), json::object(params));
    json::object(members)
}

impl WsReply {
    /// The JSON object that stands for the response on the wire.
    pub fn to_value(&self) -> (value: Value)
        ensures
            json_of(value) == self@.json(),
    {
        let mut members = json::no_members();
        json::set_member(&mut members, "jsonrpc".to_string(), json::text("2.0"));
        json::set_member(&mut members, "id".to_string(), json::unsigned(self.id as u64));
        match &self.result {
            WsResult::Subscribed(status, sub_id) => {
                let result = status_value(status.as_str(), sub_id.as_str());
                json::set_member(&mut members, "result".to_string(), result);
            },
            WsResult::Unsubscribed(status, sub_id) => {
                let result = status_value(status.as_str(), sub_id.as_str());
                json::set_member(&mut members, "result".to_string(), result);
            },
            WsResult::Error(code, message) => {
                let error = RpcError { code: *code, message: message.clone() };
                json::set_member(&mut members, "error".to_string(), error.to_value());
            },
        }
        json::object(members)
    }
}

impl View for WsReply {
    type V = WsReplyView;

    open spec fn view(&self) -> WsReplyView {
        WsReplyView {
            id: self.id,
            result: match self.result {
                WsResult::Subscribed(status, sub_id) => WsResultView::Subscribed(status@, sub_id@),
                WsResult::Unsubscribed(status, sub_id) => WsResultView::Unsubscribed(
                    status@,
                    sub_id@,
                ),
                WsResult::Error(code, message) => WsResultView::Error(code, message@),
            },
        }
    }
}

/// Where a session stands: what the next event is about.
#[derive(Debug)]
pub enum SessionPhase {
    /// The acknowledgement of the handshake is being written.
    Acknowledging,
    /// The session waits for a notification or for a message of the wallet.
    Waiting,
    /// The payload of a notification for this subscription identifier is being
    /// converted to JSON.
    Notifying(String),
    /// A notification is being written.
    WritingNotification,
    /// A message of the wallet is being decoded.
    Decoding,
    /// The mint is taking the subscription of this request, with this identifier.
    Subscribing(usize, String),
    /// The response to a request is being written.
    Replying,
    /// The response to a message that is no request is being written.
    Refusing,
    /// The session has ended.
    Over,
}

/// The model of a [`SessionPhase`].
pub enum SessionPhaseView {
    Acknowledging,
    Waiting,
    Notifying(Seq<char>),
    WritingNotification,
    Decoding,
    Subscribing(usize, Seq<char>),
    Replying,
    Refusing,
    Over,
}

impl View for SessionPhase {
    type V = SessionPhaseView;

    open spec fn view(&self) -> SessionPhaseView {
        match self {
            SessionPhase::Acknowledging => SessionPhaseView::Acknowledging,
            SessionPhase::Waiting => SessionPhaseView::Waiting,
            SessionPhase::Notifying(sub_id) => SessionPhaseView::Notifying(sub_id@),
            SessionPhase::WritingNotification => SessionPhaseView::WritingNotification,
            SessionPhase::Decoding => SessionPhaseView::Decoding,
            SessionPhase::Subscribing(id, sub_id) => SessionPhaseView::Subscribing(*id, sub_id@),
            SessionPhase::Replying => SessionPhaseView::Replying,
            SessionPhase::Refusing => SessionPhaseView::Refusing,
            SessionPhase::Over => SessionPhaseView::Over,
        }
    }
}

/// A subscription session. `H` is the handle of a task that forwards the
/// notifications of one subscription.
#[derive(Debug)]
pub struct Session<H> {
    subscriptions: Subscriptions<H>,
    phase: SessionPhase,
}

/// The model of a [`Session`].
pub struct SessionView<H> {
    pub entries: Seq<Entry<H>>,
    pub phase: SessionPhaseView,
}

impl<H> View for Session<H> {
    type V = SessionView<H>;

    closed spec fn view(&self) -> SessionView<H> {
        SessionView { entries: self.subscriptions@, phase: self.phase@ }
    }
}

/// What happened to a session. `P` is what a notification says.
#[derive(Debug)]
pub enum SessionEvent<H, P> {
    /// The mint has a notification for this subscription identifier.
    Notified(String, P),
    /// The wallet sent a message.
    Received(Value),
    /// No more messages can be received.
    Ended,
    /// The message is this request.
    Decoded(WsRequest),
    /// The message is no request.
    NotDecoded(String),
    /// The mint took the subscription; its notifications are forwarded by the
    /// task with this handle.
    Subscribed(H),
    /// The mint did not take the subscription.
    NotSubscribed,
    /// The payload of the notification in JSON.
    Encoded(Value),
    /// The payload of the notification could not be converted to JSON.
    NotEncoded,
    /// The message was written.
    Written,
    /// The message could not be written.
    NotWritten(Error),
}

/// The model of a [`SessionEvent`].
pub enum SessionEventView<H, P> {
    Notified(Seq<char>, P),
    Received(Json),
    Ended,
    Decoded(WsRequestView),
    NotDecoded(Seq<char>),
    Subscribed(H),
    NotSubscribed,
    Encoded(Json),
    NotEncoded,
    Written,
    NotWritten(ErrorView),
}

impl<H, P> View for SessionEvent<H, P> {
    type V = SessionEventView<H, P>;

    open spec fn view(&self) -> SessionEventView<H, P> {
        match self {
            SessionEvent::Notified(sub_id, payload) => SessionEventView::Notified(
                sub_id@,
                *payload,
            ),
            SessionEvent::Received(message) => SessionEventView::Received(json_of(*message)),
            SessionEvent::Ended => SessionEventView::Ended,
            SessionEvent::Decoded(request) => SessionEventView::Decoded(request@),
            SessionEvent::NotDecoded(error) => SessionEventView::NotDecoded(error@),
            SessionEvent::Subscribed(handle) => SessionEventView::Subscribed(*handle),
            SessionEvent::NotSubscribed => SessionEventView::NotSubscribed,
            SessionEvent::Encoded(payload) => SessionEventView::Encoded(json_of(*payload)),
            SessionEvent::NotEncoded => SessionEventView::NotEncoded,
            SessionEvent::Written => SessionEventView::Written,
            SessionEvent::NotWritten(error) => SessionEventView::NotWritten(error@),
        }
    }
}

/// What is to be done next for a session.
#[derive(Debug)]
pub enum SessionAction<H, P> {
    /// Wait for a notification of the mint or a message of the wallet.
    Wait,
    /// Convert the payload of a notification to JSON.
    EncodePayload(P),
    /// Decode the message as a request.
    Decode(Value),
    /// Have the mint take the subscription with this identifier.
    Subscribe(String),
    /// Abort the forwarding task, if one is given, and write the response.
    Answer(Option<H>, WsReply),
    /// Write a message.
    Write(Value),
    /// Abort these forwarding tasks; the session has ended.
    Close(Vec<H>, Result<(), Error>),
}

/// The model of a [`SessionAction`].
pub enum SessionActionView<H, P> {
    Wait,
    EncodePayload(P),
    Decode(Json),
    Subscribe(Seq<char>),
    Answer(Option<H>, WsReplyView),
    Write(Json),
    Close(Seq<H>, Result<(), ErrorView>),
}

impl<H, P> View for SessionAction<H, P> {
    type V = SessionActionView<H, P>;

    open spec fn view(&self) -> SessionActionView<H, P> {
        match self {
            SessionAction::Wait => SessionActionView::Wait,
            SessionAction::EncodePayload(payload) => SessionActionView::EncodePayload(*payload),
            SessionAction::Decode(message) => SessionActionView::Decode(json_of(*message)),
            SessionAction::Subscribe(sub_id) => SessionActionView::Subscribe(sub_id@),
            SessionAction::Answer(handle, reply) => SessionActionView::Answer(*handle, reply@),
            SessionAction::Write(message) => SessionActionView::Write(json_of(*message)),
            SessionAction::Close(all, result) => SessionActionView::Close(
                all@,
                match result {
                    Ok(_) => Ok(()),
                    Err(error) => Err(error@),
                },
            ),
        }
    }
}

/// The response to a request.
pub open spec fn reply(id: usize, result: WsResultView) -> WsReplyView {
    WsReplyView { id, result }
}

impl<H> SessionView<H> {
    /// The event is one that the session waits for.
    pub open spec fn waits_for<P>(self, event: SessionEventView<H, P>) -> bool {
        match self.phase {
            SessionPhaseView::Acknowledging
            | SessionPhaseView::WritingNotification
            | SessionPhaseView::Replying
            | SessionPhaseView::Refusing => event is Written || event is NotWritten,
            SessionPhaseView::Waiting => event is Notified || event is Received || event is Ended,
            SessionPhaseView::Notifying(_) => event is Encoded || event is NotEncoded,
            SessionPhaseView::Decoding => event is Decoded || event is NotDecoded,
            SessionPhaseView::Subscribing(..) => event is Subscribed || event is NotSubscribed,
            SessionPhaseView::Over => false,
        }
    }

    /// The identifiers are distinct, and a subscription that the mint is taking
    /// has a new one.
    pub open spec fn well_formed(self) -> bool {
        &&& distinct(self.entries)
        &&& self.phase matches SessionPhaseView::Subscribing(_, sub_id) ==> !is_subscribed(
            self.entries,
            sub_id,
        )
    }

    /// The session at another phase, with an action.
    pub open spec fn goes_on<P>(self, phase: SessionPhaseView, action: SessionActionView<H, P>) -> (
        SessionView<H>,
        SessionActionView<H, P>,
    ) {
        (SessionView { entries: self.entries, phase }, action)
    }

    /// The session waits for what comes next.
    pub open spec fn waits<P>(self) -> (SessionView<H>, SessionActionView<H, P>) {
        self.goes_on(SessionPhaseView::Waiting, SessionActionView::Wait)
    }

    /// The session answers a request, and aborts a forwarding task if one is given.
    pub open spec fn answers<P>(self, aborted: Option<H>, answer: WsReplyView) -> (
        SessionView<H>,
        SessionActionView<H, P>,
    ) {
        self.goes_on(SessionPhaseView::Replying, SessionActionView::Answer(aborted, answer))
    }

    /// The session ends: all its forwarding tasks are aborted.
    pub open spec fn ends<P>(self, result: Result<(), ErrorView>) -> (
        SessionView<H>,
        SessionActionView<H, P>,
    ) {
        (
            SessionView { entries: Seq::empty(), phase: SessionPhaseView::Over },
            SessionActionView::Close(handles(self.entries), result),
        )
    }

    /// What follows from a request of the wallet.
    pub open spec fn requested<P>(self, request: WsRequestView) -> (
        SessionView<H>,
        SessionActionView<H, P>,
    ) {
        match request.method {
            WsMethodView::Subscribe(sub_id) => if is_subscribed(self.entries, sub_id) {
                self.answers(
                    None,
                    reply(
                        request.id,
                        WsResultView::Error(
                            WS_INVALID_PARAMS,
                            "subscription ID already exists"@,
                        ),
                    ),
                )
            } else {
                self.goes_on(
                    SessionPhaseView::Subscribing(request.id, sub_id),
                    SessionActionView::Subscribe(sub_id),
                )
            },
            WsMethodView::Unsubscribe(sub_id) => if is_subscribed(self.entries, sub_id) {
                let place = place_of(self.entries, sub_id);
                (SessionView { entries: self.entries.remove(place), phase: self.phase }).answers(
                    Some(self.entries[place].handle),
                    reply(request.id, WsResultView::Unsubscribed("OK"@, sub_id)),
                )
            } else {
                self.answers(
                    None,
                    reply(
                        request.id,
                        WsResultView::Error(WS_INVALID_PARAMS, "unknown subscription ID"@),
                    ),
                )
            },
        }
    }

    /// The state and the action that follow from an event that the session waits for.
    pub open spec fn next<P>(self, event: SessionEventView<H, P>) -> (
        SessionView<H>,
        SessionActionView<H, P>,
    ) {
        match (self.phase, event) {
            (SessionPhaseView::Acknowledging, SessionEventView::NotWritten(error)) => self.ends(
                Err(error),
            ),
            (SessionPhaseView::Waiting, SessionEventView::Notified(sub_id, payload)) =>
            if is_subscribed(self.entries, sub_id) {
                self.goes_on(
                    SessionPhaseView::Notifying(sub_id),
                    SessionActionView::EncodePayload(payload),
                )
            } else {
                self.waits()
            },
            (SessionPhaseView::Waiting, SessionEventView::Received(message)) => self.goes_on(
                SessionPhaseView::Decoding,
                SessionActionView::Decode(message),
            ),
            (SessionPhaseView::Waiting, SessionEventView::Ended) => self.ends(Ok(())),
            (SessionPhaseView::Notifying(sub_id), SessionEventView::Encoded(payload)) =>
            self.goes_on(
                SessionPhaseView::WritingNotification,
                SessionActionView::Write(notification_json(sub_id, payload)),
            ),
            (SessionPhaseView::Decoding, SessionEventView::Decoded(request)) => self.requested(
                request,
            ),
            (SessionPhaseView::Decoding, SessionEventView::NotDecoded(error)) => self.goes_on(
                SessionPhaseView::Refusing,
                SessionActionView::Answer(
                    None,
                    reply(0, WsResultView::Error(WS_PARSE_ERROR, "parse error: "@ + error)),
                ),
            ),
            (
                SessionPhaseView::Subscribing(id, sub_id),
                SessionEventView::Subscribed(handle),
            ) => (SessionView {
                entries: self.entries.push(Entry { id: sub_id, handle }),
                phase: self.phase,
            }).answers(None, reply(id, WsResultView::Subscribed("OK"@, sub_id))),
            (SessionPhaseView::Subscribing(id, _), SessionEventView::NotSubscribed) => self.answers(
                None,
                reply(id, WsResultView::Error(WS_PARSE_ERROR, "parse error"@)),
            ),
            (SessionPhaseView::WritingNotification, SessionEventView::NotWritten(_))
            | (SessionPhaseView::Replying, SessionEventView::NotWritten(_)) => self.ends(Ok(())),
            _ => self.waits(),
        }
    }
}

/// The answer to the handshake: the stream is ready for subscriptions.
pub open spec fn acknowledgement(id: Json) -> ResponseView {
    ResponseView::ok(id, Json::Object(map!["status"@ => Json::Text("OK"@)]))
}

/// Handle a long-lived NUT-17 subscription stream.
///
/// The initial `cashu_subscribe` request has already been read; its identifier
/// is given here, so that the opening acknowledgement can be sent.
pub fn handle_subscription_stream<H, P>(initial_id: Value) -> (next: (
    Session<H>,
    SessionAction<H, P>,
))
    ensures
        next.0@.entries.len() == 0,
        next.0@.phase is Acknowledging,
        next.0@.well_formed(),
        next.1@ == SessionActionView::<H, P>::Write(acknowledgement(json_of(initial_id)).json()),
{
    let mut members = json::no_members();
    json::set_member(&mut members, "status".to_string(), json::text("OK"));
    let ack = RpcResponse::ok(initial_id, json::object(members));
    (
        Session { subscriptions: Subscriptions::new(), phase: SessionPhase::Acknowledging },
        SessionAction::Write(ack.to_value()),
    )
}

impl<H> Session<H> {
    fn go_on<P>(
        subscriptions: Subscriptions<H>,
        phase: SessionPhase,
        action: SessionAction<H, P>,
    ) -> (next: (Session<H>, SessionAction<H, P>))
        ensures
            next.0@ == (SessionView { entries: subscriptions@, phase: phase@ }),
            next.1 == action,
    {
        (Session { subscriptions, phase }, action)
    }

    fn end<P>(subscriptions: Subscriptions<H>, result: Result<(), Error>) -> (next: (
        Session<H>,
        SessionAction<H, P>,
    ))
        ensures
            next.0@ == (SessionView::<H> { entries: Seq::empty(), phase: SessionPhaseView::Over }),
            next.1 matches SessionAction::Close(all, r) && all@ == handles(subscriptions@) && r
                == result,
    {
        let all = subscriptions.drain();
        (
            Session { subscriptions: Subscriptions::new(), phase: SessionPhase::Over },
            SessionAction::Close(all, result),
        )
    }

    fn answer<P>(
        subscriptions: Subscriptions<H>,
        aborted: Option<H>,
        id: usize,
        result: WsResult,
    ) -> (next: (Session<H>, SessionAction<H, P>))
        ensures
            next.0@ == (SessionView {
                entries: subscriptions@,
                phase: SessionPhaseView::Replying,
            }),
            next.1@ == SessionActionView::<H, P>::Answer(aborted, (WsReply { id, result })@),
    {
        Session::go_on(
            subscriptions,
            SessionPhase::Replying,
            SessionAction::Answer(aborted, WsReply { id, result }),
        )
    }

    /// What follows from a request of the wallet.
    fn request<P>(subscriptions: Subscriptions<H>, request: WsRequest) -> (next: (
        Session<H>,
        SessionAction<H, P>,
    ))
        requires
            distinct(subscriptions@),
        ensures
            (next.0@, next.1@) == (SessionView {
                entries: subscriptions@,
                phase: SessionPhaseView::Decoding,
            }).requested::<P>(request@),
            next.0@.well_formed(),
    {
        let mut subscriptions = subscriptions;
        let id = request.id;
        match request.method {
            WsMethod::Subscribe(sub_id) => if subscriptions.contains(sub_id.as_str()) {
                Session::answer(
                    subscriptions,
                    None,
                    id,
                    WsResult::Error(
                        WS_INVALID_PARAMS,
                        "subscription ID already exists".to_string(),
                    ),
                )
            } else {
                let named = sub_id.clone();
                Session::go_on(
                    subscriptions,
                    SessionPhase::Subscribing(id, sub_id),
                    SessionAction::Subscribe(named),
                )
            },
            WsMethod::Unsubscribe(sub_id) => match subscriptions.remove(sub_id.as_str()) {
                Some(handle) => Session::answer(
                    subscriptions,
                    Some(handle),
                    id,
                    WsResult::Unsubscribed("OK".to_string(), sub_id),
                ),
                None => Session::answer(
                    subscriptions,
                    None,
                    id,
                    WsResult::Error(WS_INVALID_PARAMS, "unknown subscription ID".to_string()),
                ),
            },
        }
    }

    /// Goes on with a session, given what happened.
    pub fn step<P>(self, event: SessionEvent<H, P>) -> (next: (Session<H>, SessionAction<H, P>))
        requires
            self@.well_formed(),
            self@.waits_for(event@),
        ensures
            (next.0@, next.1@) == self@.next(event@),
            next.0@.well_formed(),
    {
        let Session { subscriptions, phase } = self;
        let mut subscriptions = subscriptions;
        match (phase, event) {
            (SessionPhase::Acknowledging, SessionEvent::NotWritten(error)) => Session::end(
                subscriptions,
                Err(error),
            ),
            (SessionPhase::Waiting, SessionEvent::Notified(sub_id, payload)) =>
            if subscriptions.contains(sub_id.as_str()) {
                Session::go_on(
                    subscriptions,
                    SessionPhase::Notifying(sub_id),
                    SessionAction::EncodePayload(payload),
                )
            } else {
                Session::go_on(subscriptions, SessionPhase::Waiting, SessionAction::Wait)
            },
            (SessionPhase::Waiting, SessionEvent::Received(message)) => Session::go_on(
                subscriptions,
                SessionPhase::Decoding,
                SessionAction::Decode(message),
            ),
            (SessionPhase::Waiting, SessionEvent::Ended) => Session::end(subscriptions, Ok(())),
            (SessionPhase::Notifying(sub_id), SessionEvent::Encoded(payload)) => Session::go_on(
                subscriptions,
                SessionPhase::WritingNotification,
                SessionAction::Write(notification_value(sub_id.as_str(), payload)),
            ),
            (SessionPhase::Decoding, SessionEvent::Decoded(request)) => Session::request(
                subscriptions,
                request,
            ),
            (SessionPhase::Decoding, SessionEvent::NotDecoded(error)) => Session::go_on(
                subscriptions,
                SessionPhase::Refusing,
                SessionAction::Answer(
                    None,
                    WsReply {
                        id: 0,
                        result: WsResult::Error(
                            WS_PARSE_ERROR,
                            join("parse error: ", error.as_str()),
                        ),
                    },
                ),
            ),
            (SessionPhase::Subscribing(id, sub_id), SessionEvent::Subscribed(handle)) => {
                subscriptions.insert(sub_id.clone(), handle);
                Session::answer(
                    subscriptions,
                    None,
                    id,
                    WsResult::Subscribed("OK".to_string(), sub_id),
                )
            },
            (SessionPhase::Subscribing(id, _), SessionEvent::NotSubscribed) => Session::answer(
                subscriptions,
                None,
                id,
                WsResult::Error(WS_PARSE_ERROR, "parse error".to_string()),
            ),
            (SessionPhase::WritingNotification, SessionEvent::NotWritten(_)) => Session::end(
                subscriptions,
                Ok(()),
            ),
            (SessionPhase::Replying, SessionEvent::NotWritten(_)) => Session::end(
                subscriptions,
                Ok(()),
            ),
            _ => Session::go_on(subscriptions, SessionPhase::Waiting, SessionAction::Wait),
        }
    }
}

/// The forwarding tasks that an event hands to the session.
pub open spec fn started<H, P>(event: SessionEventView<H, P>) -> Seq<H> {
    match event {
        SessionEventView::Subscribed(handle) => seq![handle],
        _ => Seq::empty(),
    }
}

/// The forwarding tasks that an action aborts.
pub open spec fn aborted<H, P>(action: SessionActionView<H, P>) -> Seq<H> {
    match action {
        SessionActionView::Answer(Some(handle), _) => seq![handle],
        SessionActionView::Close(all, _) => all,
        _ => Seq::empty(),
    }
}

/// Every forwarding task is accounted for: what a session holds and is handed
/// is what it holds afterwards and aborts. No task is lost, and none is aborted
/// twice.
pub proof fn law_tasks_are_accounted_for<H, P>(
    session: SessionView<H>,
    event: SessionEventView<H, P>,
)
    requires
        session.well_formed(),
        session.waits_for(event),
    ensures
        ({
            let (later, action) = session.next(event);
            (handles(session.entries) + started(event)).to_multiset() == (handles(later.entries)
                + aborted(action)).to_multiset()
        }),
{
    broadcast use vstd::seq_lib::group_to_multiset_ensures;

    let (later, action) = session.next(event);
    let before = handles(session.entries);
    match (session.phase, event) {
        (
            SessionPhaseView::Subscribing(_, sub_id),
            SessionEventView::Subscribed(handle),
        ) => {
            assert(handles(later.entries) =~= before.push(handle));
            assert(before + started(event) =~= handles(later.entries) + aborted(action));
        },
        (SessionPhaseView::Decoding, SessionEventView::Decoded(request)) => {
            match request.method {
                WsMethodView::Unsubscribe(sub_id) if is_subscribed(session.entries, sub_id) => {
                    let place = place_of(session.entries, sub_id);
                    assert(handles(later.entries) =~= before.remove(place));
                    assert(handles(later.entries) + aborted(action) =~= before.remove(place).push(
                        before[place],
                    ));
                    assert(before + started(event) =~= before);
                    assert(before.remove(place).push(before[place]).to_multiset()
                        =~= before.to_multiset());
                },
                _ => {
                    assert(before + started(event) =~= handles(later.entries) + aborted(action));
                },
            }
        },
        _ => {
            assert(before + started(event) =~= handles(later.entries) + aborted(action));
        },
    }
}

/// No forwarding task outlives the session: when it ends, all tasks that it
/// holds are aborted.
pub proof fn law_no_task_outlives_the_session<H, P>(
    session: SessionView<H>,
    event: SessionEventView<H, P>,
)
    requires
        session.waits_for(event),
        session.next(event).0.phase is Over,
    ensures
        session.next(event).1 matches SessionActionView::Close(all, _) && all == handles(
            session.entries,
        ),
        session.next(event).0.entries.len() == 0,
{
}

/// A session never holds two subscriptions with the same identifier.
pub proof fn law_identifiers_stay_distinct<H, P>(
    session: SessionView<H>,
    event: SessionEventView<H, P>,
)
    requires
        session.well_formed(),
        session.waits_for(event),
    ensures
        session.next(event).0.well_formed(),
{
    if session.phase is Decoding {
        if let SessionEventView::Decoded(request) = event {
            if let WsMethodView::Unsubscribe(sub_id) = request.method {
                if is_subscribed(session.entries, sub_id) {
                    lemma_removed(session.entries, sub_id);
                }
            }
        }
    }
}

/// A subscription that is taken out is gone, and the others stay distinct.
proof fn lemma_removed<H>(entries: Seq<Entry<H>>, sub_id: Seq<char>)
    requires
        distinct(entries),
        is_subscribed(entries, sub_id),
    ensures
        distinct(entries.remove(place_of(entries, sub_id))),
        !is_subscribed(entries.remove(place_of(entries, sub_id)), sub_id),
{
    let place = place_of(entries, sub_id);
    let rest = entries.remove(place);
    assert(forall|i: int|
        0 <= i < rest.len() ==> #[trigger] rest[i] == entries[if i < place {
            i
        } else {
            i + 1
        }]);
}

/// The session at rest, holding these subscriptions.
pub open spec fn at_rest<H>(entries: Seq<Entry<H>>) -> SessionView<H> {
    SessionView { entries, phase: SessionPhaseView::Waiting }
}

/// The session with a request of the wallet at hand, holding these subscriptions.
pub open spec fn at_request<H>(entries: Seq<Entry<H>>) -> SessionView<H> {
    SessionView { entries, phase: SessionPhaseView::Decoding }
}

/// A notification is forwarded if the session holds its subscription: its
/// payload is converted to JSON, and the message holds that payload under the
/// identifier that the notification came for. Other notifications are dropped.
pub proof fn law_stale_notifications_are_dropped<H, P>(
    entries: Seq<Entry<H>>,
    sub_id: Seq<char>,
    payload: P,
    encoded: Json,
)
    ensures
        ({
            let (later, action) = at_rest(entries).next(
                SessionEventView::Notified(sub_id, payload),
            );
            if is_subscribed(entries, sub_id) {
                &&& action == SessionActionView::<H, P>::EncodePayload(payload)
                &&& later.next(SessionEventView::<H, P>::Encoded(encoded)).1
                    == SessionActionView::<H, P>::Write(notification_json(sub_id, encoded))
            } else {
                later == at_rest(entries) && action == SessionActionView::<H, P>::Wait
            }
        }),
{
}

/// Once a wallet has unsubscribed, notifications for the subscription are
/// dropped, and a second unsubscription is refused.
pub proof fn law_unsubscribed_is_gone<H, P>(
    entries: Seq<Entry<H>>,
    sub_id: Seq<char>,
    payload: P,
    id: usize,
    again: usize,
)
    requires
        distinct(entries),
    ensures
        ({
            let unsubscribe = WsRequestView { id, method: WsMethodView::Unsubscribe(sub_id) };
            let twice = WsRequestView { id: again, method: WsMethodView::Unsubscribe(sub_id) };
            let left = at_request(entries).next(
                SessionEventView::<H, P>::Decoded(unsubscribe),
            ).0.entries;
            &&& !is_subscribed(left, sub_id)
            &&& at_rest(left).next(SessionEventView::Notified(sub_id, payload)).1 is Wait
            &&& at_request(left).next(SessionEventView::<H, P>::Decoded(twice)).1
                == SessionActionView::<H, P>::Answer(
                None,
                reply(
                    again,
                    WsResultView::Error(WS_INVALID_PARAMS, "unknown subscription ID"@),
                ),
            )
        }),
{
    if is_subscribed(entries, sub_id) {
        lemma_removed(entries, sub_id);
    }
}

/// Once a wallet has subscribed, notifications for the subscription are
/// forwarded, and a second subscription with its identifier is refused.
pub proof fn law_subscribed_is_served<H, P>(
    entries: Seq<Entry<H>>,
    sub_id: Seq<char>,
    handle: H,
    payload: P,
    id: usize,
    again: usize,
)
    requires
        !is_subscribed(entries, sub_id),
    ensures
        ({
            let subscribe = WsRequestView { id, method: WsMethodView::Subscribe(sub_id) };
            let twice = WsRequestView { id: again, method: WsMethodView::Subscribe(sub_id) };
            let (taking, ask) = at_request(entries).next(
                SessionEventView::<H, P>::Decoded(subscribe),
            );
            let (taken, answer) = taking.next(SessionEventView::<H, P>::Subscribed(handle));
            &&& ask == SessionActionView::<H, P>::Subscribe(sub_id)
            &&& answer == SessionActionView::<H, P>::Answer(
                None,
                reply(id, WsResultView::Subscribed("OK"@, sub_id)),
            )
            &&& at_rest(taken.entries).next(SessionEventView::Notified(sub_id, payload)).1
                == SessionActionView::<H, P>::EncodePayload(payload)
            &&& at_request(taken.entries).next(SessionEventView::<H, P>::Decoded(twice)).1
                == SessionActionView::<H, P>::Answer(
                None,
                reply(
                    again,
                    WsResultView::Error(WS_INVALID_PARAMS, "subscription ID already exists"@),
                ),
            )
        }),
{
    let taken = entries.push(Entry { id: sub_id, handle });
    assert(taken[entries.len() as int].id == sub_id);
    assert(is_subscribed(taken, sub_id));
}

/// Unsubscribing undoes subscribing: the session holds what it held before, and
/// the task that is aborted is the one that the subscription started.
pub proof fn law_unsubscribing_undoes_subscribing<H, P>(
    entries: Seq<Entry<H>>,
    sub_id: Seq<char>,
    handle: H,
    id: usize,
)
    requires
        distinct(entries),
        !is_subscribed(entries, sub_id),
    ensures
        ({
            let taken = entries.push(Entry { id: sub_id, handle });
            let unsubscribe = WsRequestView { id, method: WsMethodView::Unsubscribe(sub_id) };
            let (left, answer) = at_request(taken).next(
                SessionEventView::<H, P>::Decoded(unsubscribe),
            );
            &&& left.entries == entries
            &&& answer == SessionActionView::<H, P>::Answer(
                Some(handle),
                reply(id, WsResultView::Unsubscribed("OK"@, sub_id)),
            )
        }),
{
    let taken = entries.push(Entry { id: sub_id, handle });
    assert(taken[entries.len() as int].id == sub_id);
    let place = place_of(taken, sub_id);
    assert(is_subscribed(taken, sub_id));
    if place < entries.len() {
        assert(entries[place].id == sub_id);
    }
    assert(taken.remove(place) =~= entries);
}

/// A response on a subscription stream has a result or an error, and never both,
/// and the identifier of its request.
pub proof fn law_replies_are_well_formed(answer: WsReplyView)
    ensures
        member_of(answer.json(), "id"@) == Some(Json::Integer(answer.id as int)),
        member_of(answer.json(), "result"@) is Some <==> !(answer.result is Error),
        member_of(answer.json(), "error"@) is Some <==> answer.result is Error,
{
    reveal_strlit("jsonrpc");
    reveal_strlit("id");
    reveal_strlit("result");
    reveal_strlit("error");
    assert("jsonrpc"@.len() == 7 && "id"@.len() == 2 && "result"@.len() == 6 && "error"@.len()
        == 5);
}

/// The session waits for each of these events in turn.
pub open spec fn runs<H, P>(session: SessionView<H>, events: Seq<SessionEventView<H, P>>) -> bool
    decreases events.len(),
{
    events.len() > 0 ==> session.waits_for(events[0]) && runs(
        session.next(events[0]).0,
        events.drop_first(),
    )
}

/// The session after these events.
pub open spec fn after<H, P>(
    session: SessionView<H>,
    events: Seq<SessionEventView<H, P>>,
) -> SessionView<H>
    decreases events.len(),
{
    if events.len() == 0 {
        session
    } else {
        after(session.next(events[0]).0, events.drop_first())
    }
}

/// The actions of the session on the way through these events.
pub open spec fn actions<H, P>(
    session: SessionView<H>,
    events: Seq<SessionEventView<H, P>>,
) -> Seq<SessionActionView<H, P>>
    decreases events.len(),
{
    if events.len() == 0 {
        Seq::empty()
    } else {
        let (later, action) = session.next(events[0]);
        seq![action] + actions(later, events.drop_first())
    }
}

/// The identifiers under which the messages among these events are to be
/// answered, in order: that of each request, and 0 for a message that is none.
pub open spec fn asked<H, P>(events: Seq<SessionEventView<H, P>>) -> Seq<usize>
    decreases events.len(),
{
    if events.len() == 0 {
        Seq::empty()
    } else {
        let rest = asked(events.drop_first());
        match events[0] {
            SessionEventView::Decoded(request) => seq![request.id] + rest,
            SessionEventView::NotDecoded(_) => seq![0usize] + rest,
            _ => rest,
        }
    }
}

/// The identifiers of the responses among these actions, in order.
pub open spec fn answered<H, P>(actions: Seq<SessionActionView<H, P>>) -> Seq<usize>
    decreases actions.len(),
{
    if actions.len() == 0 {
        Seq::empty()
    } else {
        let rest = answered(actions.drop_first());
        match actions[0] {
            SessionActionView::Answer(_, answer) => seq![answer.id] + rest,
            _ => rest,
        }
    }
}

/// The identifier of the request that a session has yet to answer.
pub open spec fn unanswered<H>(session: SessionView<H>) -> Seq<usize> {
    match session.phase {
        SessionPhaseView::Subscribing(id, _) => seq![id],
        _ => Seq::empty(),
    }
}

/// Each message of the wallet is answered exactly once, under the identifier of
/// its request, and in order: over any run of a session, the responses are those
/// to the messages, but for a request that the mint is still at work on.
pub proof fn law_every_message_is_answered_once<H, P>(
    session: SessionView<H>,
    events: Seq<SessionEventView<H, P>>,
)
    requires
        runs(session, events),
    ensures
        unanswered(session) + asked(events) == answered(actions(session, events)) + unanswered(
            after(session, events),
        ),
    decreases events.len(),
{
    if events.len() == 0 {
        assert(unanswered(session) + asked(events) =~= answered(actions(session, events))
            + unanswered(after(session, events)));
    } else {
        let event = events[0];
        let (later, action) = session.next(event);
        let rest = events.drop_first();
        law_every_message_is_answered_once(later, rest);
        assert(actions(session, events).drop_first() =~= actions(later, rest));
        let given = answered(actions(later, rest)) + unanswered(after(later, rest));
        let now = match action {
            SessionActionView::Answer(_, answer) => seq![answer.id],
            _ => Seq::<usize>::empty(),
        };
        let new = match event {
            SessionEventView::Decoded(request) => seq![request.id],
            SessionEventView::NotDecoded(_) => seq![0usize],
            _ => Seq::<usize>::empty(),
        };
        assert(asked(events) =~= new + asked(rest));
        assert(answered(actions(session, events)) =~= now + answered(actions(later, rest)));
        assert(unanswered(session) + new =~= now + unanswered(later));
        assert(unanswered(session) + asked(events) =~= (unanswered(session) + new) + asked(rest));
        assert((now + unanswered(later)) + asked(rest) =~= now + (unanswered(later) + asked(rest)));
        assert(answered(actions(session, events)) + unanswered(after(session, events)) =~= now
            + given);
    }
}

/// Runs of a session compose: what follows a run goes on from where it ended.
pub proof fn law_runs_compose<H, P>(
    session: SessionView<H>,
    first: Seq<SessionEventView<H, P>>,
    second: Seq<SessionEventView<H, P>>,
)
    ensures
        runs(session, first + second) <==> runs(session, first) && runs(
            after(session, first),
            second,
        ),
        after(session, first + second) == after(after(session, first), second),
        actions(session, first + second) == actions(session, first) + actions(
            after(session, first),
            second,
        ),
    decreases first.len(),
{
    if first.len() == 0 {
        assert(first + second =~= second);
        assert(actions(session, first) + actions(session, second) =~= actions(session, second));
    } else {
        let later = session.next(first[0]).0;
        law_runs_compose(later, first.drop_first(), second);
        assert((first + second).drop_first() =~= first.drop_first() + second);
        assert((first + second)[0] == first[0]);
        assert(actions(session, first + second) =~= actions(session, first) + actions(
            after(session, first),
            second,
        ));
    }
}

/// The events of a message that is no request: it arrives, is not decoded, and
/// its answer is delivered or not.
pub open spec fn stray_message<H, P>(
    message: Json,
    error: Seq<char>,
    delivered: SessionEventView<H, P>,
) -> Seq<SessionEventView<H, P>> {
    seq![SessionEventView::Received(message), SessionEventView::NotDecoded(error), delivered]
}

/// A message that is no request is answered once, with a parse error, and
/// changes nothing else: whether or not the answer gets through, the session
/// goes on as if the message had not come.
pub proof fn law_stray_message_changes_nothing<H, P>(
    entries: Seq<Entry<H>>,
    message: Json,
    error: Seq<char>,
    delivered: SessionEventView<H, P>,
    rest: Seq<SessionEventView<H, P>>,
)
    requires
        delivered is Written || delivered is NotWritten,
    ensures
        ({
            let stray = stray_message(message, error, delivered);
            &&& runs(at_rest(entries), stray)
            &&& actions(at_rest(entries), stray) == seq![
                SessionActionView::<H, P>::Decode(message),
                SessionActionView::Answer(
                    None,
                    reply(0, WsResultView::Error(WS_PARSE_ERROR, "parse error: "@ + error)),
                ),
                SessionActionView::Wait,
            ]
            &&& runs(at_rest(entries), stray + rest) <==> runs(at_rest(entries), rest)
            &&& after(at_rest(entries), stray + rest) == after(at_rest(entries), rest)
            &&& actions(at_rest(entries), stray + rest) == actions(at_rest(entries), stray)
                + actions(at_rest(entries), rest)
        }),
{
    let stray = stray_message(message, error, delivered);
    let decoding = at_rest(entries).next(stray[0]).0;
    let refusing = decoding.next(stray[1]).0;
    let one = stray.drop_first();
    let two = one.drop_first();
    let three = two.drop_first();
    assert(one[0] == stray[1] && two[0] == stray[2] && three.len() == 0);
    assert(refusing.next(delivered).0 == at_rest(entries));
    assert(runs(at_rest(entries), three));
    assert(runs(refusing, two));
    assert(runs(decoding, one));
    assert(after(refusing, two) == after(at_rest(entries), three));
    assert(after(decoding, one) == at_rest(entries));
    assert(actions(at_rest(entries), three) =~= Seq::empty());
    assert(actions(refusing, two) =~= seq![refusing.next(delivered).1]);
    assert(actions(decoding, one) =~= seq![decoding.next(stray[1]).1, refusing.next(delivered).1]);
    assert(actions(at_rest(entries), stray) =~= seq![
        at_rest(entries).next(stray[0]).1,
        decoding.next(stray[1]).1,
        refusing.next(delivered).1,
    ]);
    law_runs_compose(at_rest(entries), stray, rest);
}

/// A notification: the identifier of its subscription, what it says, and that
/// in JSON.
pub struct Notification<P> {
    pub sub_id: Seq<char>,
    pub payload: P,
    pub encoded: Json,
}

/// The events of notifications that are converted and written, one after the other.
pub open spec fn deliveries<H, P>(notifications: Seq<Notification<P>>) -> Seq<
    SessionEventView<H, P>,
>
    decreases notifications.len(),
{
    if notifications.len() == 0 {
        Seq::empty()
    } else {
        let first = notifications[0];
        seq![
            SessionEventView::Notified(first.sub_id, first.payload),
            SessionEventView::Encoded(first.encoded),
            SessionEventView::Written,
        ] + deliveries(notifications.drop_first())
    }
}

/// The actions that forward notifications, one after the other: each payload is
/// converted, and then written as one message under the identifier of its
/// subscription.
pub open spec fn forwarded<H, P>(notifications: Seq<Notification<P>>) -> Seq<
    SessionActionView<H, P>,
>
    decreases notifications.len(),
{
    if notifications.len() == 0 {
        Seq::empty()
    } else {
        let first = notifications[0];
        seq![
            SessionActionView::EncodePayload(first.payload),
            SessionActionView::Write(notification_json(first.sub_id, first.encoded)),
            SessionActionView::Wait,
        ] + forwarded(notifications.drop_first())
    }
}

/// No notification is lost: however many come for subscriptions that the session
/// holds, each is written as exactly one message, with its own payload and the
/// identifier of its subscription, in the order in which they came, and the
/// session holds what it held before.
pub proof fn law_every_notification_is_forwarded<H, P>(
    entries: Seq<Entry<H>>,
    notifications: Seq<Notification<P>>,
)
    requires
        forall|i: int|
            0 <= i < notifications.len() ==> is_subscribed(
                entries,
                (#[trigger] notifications[i]).sub_id,
            ),
    ensures
        runs(at_rest(entries), deliveries::<H, P>(notifications)),
        after(at_rest(entries), deliveries::<H, P>(notifications)) == at_rest(entries),
        actions(at_rest(entries), deliveries::<H, P>(notifications)) == forwarded::<H, P>(
            notifications,
        ),
    decreases notifications.len(),
{
    if notifications.len() > 0 {
        let first = notifications[0];
        let rest = notifications.drop_first();
        let events: Seq<SessionEventView<H, P>> = seq![
            SessionEventView::Notified(first.sub_id, first.payload),
            SessionEventView::Encoded(first.encoded),
            SessionEventView::Written,
        ];
        assert forall|i: int| 0 <= i < rest.len() implies is_subscribed(
            entries,
            (#[trigger] rest[i]).sub_id,
        ) by {
            assert(rest[i] == notifications[i + 1]);
        }
        law_every_notification_is_forwarded::<H, P>(entries, rest);
        let notifying = at_rest(entries).next(events[0]).0;
        let writing = notifying.next(events[1]).0;
        let one = events.drop_first();
        let two = one.drop_first();
        let three = two.drop_first();
        assert(one[0] == events[1] && two[0] == events[2] && three.len() == 0);
        assert(is_subscribed(entries, first.sub_id));
        assert(writing.next(events[2]).0 == at_rest(entries));
        assert(runs(at_rest(entries), three));
        assert(runs(writing, two));
        assert(runs(notifying, one));
        assert(after(writing, two) == after(at_rest(entries), three));
        assert(after(notifying, one) == at_rest(entries));
        assert(actions(at_rest(entries), three) =~= Seq::empty());
        assert(actions(writing, two) =~= seq![writing.next(events[2]).1]);
        assert(actions(notifying, one) =~= seq![
            notifying.next(events[1]).1,
            writing.next(events[2]).1,
        ]);
        assert(actions(at_rest(entries), events) =~= seq![
            at_rest(entries).next(events[0]).1,
            notifying.next(events[1]).1,
            writing.next(events[2]).1,
        ]);
        law_runs_compose(at_rest(entries), events, deliveries::<H, P>(rest));
        assert(deliveries::<H, P>(notifications) == events + deliveries::<H, P>(rest));
    }
}

/// The names of the members of the messages of a session are different.
proof fn lemma_message_names()
    ensures
        "jsonrpc"@ != "id"@ && "jsonrpc"@ != "result"@ && "jsonrpc"@ != "error"@,
        "id"@ != "result"@ && "id"@ != "error"@ && "result"@ != "error"@,
        "jsonrpc"@ != "method"@ && "jsonrpc"@ != "params"@ && "method"@ != "params"@,
        "subId"@ != "payload"@ && "subId"@ != "status"@ && "code"@ != "message"@,
{
    reveal_strlit("jsonrpc");
    reveal_strlit("id");
    reveal_strlit("result");
    reveal_strlit("error");
    reveal_strlit("method");
    reveal_strlit("params");
    reveal_strlit("subId");
    reveal_strlit("payload");
    reveal_strlit("status");
    reveal_strlit("code");
    reveal_strlit("message");
    assert("jsonrpc"@.len() == 7 && "id"@.len() == 2 && "result"@.len() == 6 && "error"@.len() == 5
        && "method"@.len() == 6 && "params"@.len() == 6 && "subId"@.len() == 5 && "payload"@.len()
        == 7 && "status"@.len() == 6 && "code"@.len() == 4 && "message"@.len() == 7);
    assert("method"@[0] == 'm' && "params"@[0] == 'p');
}

/// A notification on the wire holds the payload exactly as it is, whatever value
/// it is, and beside it the identifier of its subscription, and nothing else.
pub proof fn law_notification_holds_its_payload(sub_id: Seq<char>, payload: Json)
    ensures
        ({
            let message = notification_json(sub_id, payload);
            &&& member_of(message, "jsonrpc"@) == Some(Json::Text("2.0"@))
            &&& member_of(message, "method"@) == Some(Json::Text("subscribe"@))
            &&& member_of(message, "params"@) matches Some(params)
            &&& member_of(params, "subId"@) == Some(Json::Text(sub_id))
            &&& member_of(params, "payload"@) == Some(payload)
            &&& forall|name: Seq<char>| #[trigger]
                member_of(params, name) is Some ==> name == "subId"@ || name == "payload"@
            &&& forall|name: Seq<char>| #[trigger]
                member_of(message, name) is Some ==> name == "jsonrpc"@ || name == "method"@ || name
                    == "params"@
        }),
{
    lemma_message_names();
}

/// Notifications on the wire are the same only if they are for the same
/// subscription and hold the same payload.
pub proof fn law_notification_determines_its_payload(
    a: Seq<char>,
    b: Seq<char>,
    in_a: Json,
    in_b: Json,
)
    requires
        notification_json(a, in_a) == notification_json(b, in_b),
    ensures
        a == b,
        in_a == in_b,
{
    law_notification_holds_its_payload(a, in_a);
    law_notification_holds_its_payload(b, in_b);
}

/// A response on a subscription stream has version 2.0 and the identifier of its
/// request. Its result tells the status as the status and the subscription
/// identifier as the subscription identifier; its error tells the code and the
/// message. There is nothing else in it.
pub proof fn law_reply_holds_what_became_of_the_request(answer: WsReplyView)
    ensures
        member_of(answer.json(), "jsonrpc"@) == Some(Json::Text("2.0"@)),
        member_of(answer.json(), "id"@) == Some(Json::Integer(answer.id as int)),
        match answer.result {
            WsResultView::Subscribed(status, sub_id) | WsResultView::Unsubscribed(
                status,
                sub_id,
            ) => {
                &&& member_of(answer.json(), "error"@) is None
                &&& member_of(answer.json(), "result"@) matches Some(result)
                &&& member_of(result, "status"@) == Some(Json::Text(status))
                &&& member_of(result, "subId"@) == Some(Json::Text(sub_id))
                &&& forall|name: Seq<char>| #[trigger]
                    member_of(result, name) is Some ==> name == "status"@ || name == "subId"@
            },
            WsResultView::Error(code, message) => {
                &&& member_of(answer.json(), "result"@) is None
                &&& member_of(answer.json(), "error"@) matches Some(error)
                &&& member_of(error, "code"@) == Some(Json::Integer(code as int))
                &&& member_of(error, "message"@) == Some(Json::Text(message))
                &&& forall|name: Seq<char>| #[trigger]
                    member_of(error, name) is Some ==> name == "code"@ || name == "message"@
            },
        },
        forall|name: Seq<char>| #[trigger]
            member_of(answer.json(), name) is Some ==> name == "jsonrpc"@ || name == "id"@ || name
                == "result"@ || name == "error"@,
{
    lemma_message_names();
}

/// The acknowledgement of a handshake is a successful response under the
/// identifier of the handshake, and its result is an object with the status `OK`
/// and nothing else.
pub proof fn law_acknowledgement_says_ok(id: Json)
    ensures
        acknowledgement(id).jsonrpc == "2.0"@,
        acknowledgement(id).id == id,
        acknowledgement(id).error is None,
        acknowledgement(id).result matches Some(result) && member_of(result, "status"@) == Some(
            Json::Text("OK"@),
        ) && (forall|name: Seq<char>| #[trigger]
            member_of(result, name) is Some ==> name == "status"@),
{
}

/// A table holds the subscriptions that were put into it: an empty one holds
/// none, and a further one adds its own identifier and its own task.
pub proof fn law_table_holds_what_was_put_in<H>(
    entries: Seq<Entry<H>>,
    entry: Entry<H>,
    sub_id: Seq<char>,
)
    ensures
        !is_subscribed(Seq::<Entry<H>>::empty(), sub_id),
        is_subscribed(entries.push(entry), sub_id) <==> sub_id == entry.id || is_subscribed(
            entries,
            sub_id,
        ),
        handles(Seq::<Entry<H>>::empty()) == Seq::<H>::empty(),
        handles(entries.push(entry)) == handles(entries).push(entry.handle),
        distinct(Seq::<Entry<H>>::empty()),
        distinct(entries.push(entry)) <==> distinct(entries) && !is_subscribed(entries, entry.id),
{
    let more = entries.push(entry);
    let last = entries.len() as int;
    assert(more[last] == entry);
    assert(forall|i: int| 0 <= i < last ==> more[i] == entries[i]);
    if is_subscribed(entries, sub_id) {
        let i = choose|i: int| 0 <= i < entries.len() && (#[trigger] entries[i]).id == sub_id;
        assert(more[i].id == sub_id);
    }
    assert(handles(Seq::<Entry<H>>::empty()) =~= Seq::<H>::empty());
    assert(handles(more) =~= handles(entries).push(entry.handle));
    if distinct(more) {
        assert forall|i: int, j: int|
            0 <= i < last && 0 <= j < last && (#[trigger] entries[i]).id == (
            #[trigger] entries[j]).id implies i == j by {
            assert(more[i].id == more[j].id);
        }
        if is_subscribed(entries, entry.id) {
            let i = choose|i: int| 0 <= i < entries.len() && (#[trigger] entries[i]).id == entry.id;
            assert(more[i].id == more[last].id);
        }
    }
}

/// What a session does with a request of the wallet. A subscription under a new
/// identifier is put to the mint, under that identifier; under an identifier in
/// use it is refused. An unsubscription takes out the subscription of that
/// identifier, aborts its task and says so; of an unknown identifier it is
/// refused. Every answer is under the identifier of the request, and a refusal
/// changes nothing that the session holds.
pub proof fn law_requests_are_carried_out<H, P>(
    entries: Seq<Entry<H>>,
    sub_id: Seq<char>,
    id: usize,
    place: int,
)
    requires
        distinct(entries),
    ensures
        ({
            let here = SessionView { entries, phase: SessionPhaseView::Decoding };
            let replying = SessionView { entries, phase: SessionPhaseView::Replying };
            let subscribe = WsRequestView { id, method: WsMethodView::Subscribe(sub_id) };
            let unsubscribe = WsRequestView { id, method: WsMethodView::Unsubscribe(sub_id) };
            let subscribing = here.next(SessionEventView::<H, P>::Decoded(subscribe));
            let unsubscribing = here.next(SessionEventView::<H, P>::Decoded(unsubscribe));
            &&& is_subscribed(entries, sub_id) ==> subscribing == (
                replying,
                SessionActionView::<H, P>::Answer(
                    None,
                    WsReplyView {
                        id,
                        result: WsResultView::Error(
                            (-32602) as i32,
                            "subscription ID already exists"@,
                        ),
                    },
                ),
            )
            &&& !is_subscribed(entries, sub_id) ==> subscribing == (
                SessionView { entries, phase: SessionPhaseView::Subscribing(id, sub_id) },
                SessionActionView::<H, P>::Subscribe(sub_id),
            )
            &&& 0 <= place < entries.len() && entries[place].id == sub_id ==> unsubscribing == (
                SessionView {
                    entries: entries.remove(place),
                    phase: SessionPhaseView::Replying,
                },
                SessionActionView::<H, P>::Answer(
                    Some(entries[place].handle),
                    WsReplyView { id, result: WsResultView::Unsubscribed("OK"@, sub_id) },
                ),
            )
            &&& !is_subscribed(entries, sub_id) ==> unsubscribing == (
                replying,
                SessionActionView::<H, P>::Answer(
                    None,
                    WsReplyView {
                        id,
                        result: WsResultView::Error((-32602) as i32, "unknown subscription ID"@),
                    },
                ),
            )
        }),
{
    if 0 <= place < entries.len() && entries[place].id == sub_id {
        assert(is_subscribed(entries, sub_id));
        assert(place_of(entries, sub_id) == place);
    }
}

/// What becomes of a subscription that was put to the mint. One that the mint
/// took is held, with its task, and the wallet is told its identifier; one that
/// it did not take is refused, and the session holds what it held.
pub proof fn law_subscriptions_are_held<H, P>(
    entries: Seq<Entry<H>>,
    sub_id: Seq<char>,
    id: usize,
    handle: H,
)
    ensures
        ({
            let here = SessionView { entries, phase: SessionPhaseView::Subscribing(id, sub_id) };
            &&& here.next(SessionEventView::<H, P>::Subscribed(handle)) == (
                SessionView {
                    entries: entries.push(Entry { id: sub_id, handle }),
                    phase: SessionPhaseView::Replying,
                },
                SessionActionView::<H, P>::Answer(
                    None,
                    WsReplyView { id, result: WsResultView::Subscribed("OK"@, sub_id) },
                ),
            )
            &&& here.next(SessionEventView::<H, P>::NotSubscribed) == (
                SessionView { entries, phase: SessionPhaseView::Replying },
                SessionActionView::<H, P>::Answer(
                    None,
                    WsReplyView {
                        id,
                        result: WsResultView::Error((-32700) as i32, "parse error"@),
                    },
                ),
            )
        }),
{
}

/// What a session does with a message and with a notification. A message is
/// decoded as it came, and one that is no request is refused with the reason. A
/// notification for a subscription that is held is converted and written with
/// its payload under its identifier; one that cannot be converted, or that is
/// for no subscription, is dropped. What the session holds is unchanged.
pub proof fn law_messages_and_notifications_pass_through<H, P>(
    entries: Seq<Entry<H>>,
    message: Json,
    reason: Seq<char>,
    sub_id: Seq<char>,
    payload: P,
    encoded: Json,
)
    ensures
        ({
            let waiting = SessionView { entries, phase: SessionPhaseView::Waiting };
            let decoding = SessionView { entries, phase: SessionPhaseView::Decoding };
            let notifying = SessionView { entries, phase: SessionPhaseView::Notifying(sub_id) };
            let rest = (waiting, SessionActionView::<H, P>::Wait);
            &&& waiting.next(SessionEventView::<H, P>::Received(message)) == (
                decoding,
                SessionActionView::<H, P>::Decode(message),
            )
            &&& decoding.next(SessionEventView::<H, P>::NotDecoded(reason)) == (
                SessionView { entries, phase: SessionPhaseView::Refusing },
                SessionActionView::<H, P>::Answer(
                    None,
                    WsReplyView {
                        id: 0,
                        result: WsResultView::Error((-32700) as i32, "parse error: "@ + reason),
                    },
                ),
            )
            &&& is_subscribed(entries, sub_id) ==> waiting.next(
                SessionEventView::Notified(sub_id, payload),
            ) == (notifying, SessionActionView::<H, P>::EncodePayload(payload))
            &&& !is_subscribed(entries, sub_id) ==> waiting.next(
                SessionEventView::Notified(sub_id, payload),
            ) == rest
            &&& notifying.next(SessionEventView::<H, P>::NotEncoded) == rest
            &&& notifying.next(SessionEventView::<H, P>::Encoded(encoded)).0 == (SessionView {
                entries,
                phase: SessionPhaseView::WritingNotification,
            })
            &&& notifying.next(
                SessionEventView::<H, P>::Encoded(encoded),
            ).1 matches SessionActionView::Write(written)
            &&& member_of(written, "params"@) matches Some(params)
            &&& member_of(params, "subId"@) == Some(Json::Text(sub_id))
            &&& member_of(params, "payload"@) == Some(encoded)
        }),
{
    law_notification_holds_its_payload(sub_id, encoded);
}

/// What delivery does to a session. Once a message is written, the session waits
/// for the next. A lost acknowledgement ends it with the failure; a lost
/// response or notification, or the end of the wallet's messages, ends it well,
/// and all its tasks are aborted; a lost refusal of a message that was no request
/// does not end it.
pub proof fn law_delivery_decides_whether_a_session_goes_on<H, P>(
    entries: Seq<Entry<H>>,
    failure: ErrorView,
)
    ensures
        ({
            let acknowledging = SessionView { entries, phase: SessionPhaseView::Acknowledging };
            let waiting = SessionView { entries, phase: SessionPhaseView::Waiting };
            let notifying = SessionView { entries, phase: SessionPhaseView::WritingNotification };
            let replying = SessionView { entries, phase: SessionPhaseView::Replying };
            let refusing = SessionView { entries, phase: SessionPhaseView::Refusing };
            let over = SessionView::<H> { entries: Seq::empty(), phase: SessionPhaseView::Over };
            let rest = (waiting, SessionActionView::<H, P>::Wait);
            let lost = SessionEventView::<H, P>::NotWritten(failure);
            let closed = (over, SessionActionView::<H, P>::Close(handles(entries), Ok(())));
            &&& acknowledging.next(SessionEventView::<H, P>::Written) == rest
            &&& acknowledging.next(lost) == (
                over,
                SessionActionView::<H, P>::Close(handles(entries), Err(failure)),
            )
            &&& notifying.next(SessionEventView::<H, P>::Written) == rest
            &&& notifying.next(lost) == closed
            &&& replying.next(SessionEventView::<H, P>::Written) == rest
            &&& replying.next(lost) == closed
            &&& refusing.next(SessionEventView::<H, P>::Written) == rest
            &&& refusing.next(lost) == rest
            &&& waiting.next(SessionEventView::<H, P>::Ended) == closed
        }),
{
}

/// A session takes every outcome that its last action can have, and, while it
/// waits, whatever comes.
pub proof fn law_sessions_take_what_comes<H, P>(
    session: SessionView<H>,
    sub_id: Seq<char>,
    payload: P,
    message: Json,
    request: WsRequestView,
    reason: Seq<char>,
    handle: H,
    failure: ErrorView,
)
    ensures
        session.phase is Waiting ==> session.waits_for(
            SessionEventView::Notified(sub_id, payload),
        ) && session.waits_for(SessionEventView::<H, P>::Received(message)) && session.waits_for(
            SessionEventView::<H, P>::Ended,
        ),
        session.phase is Notifying ==> session.waits_for(
            SessionEventView::<H, P>::Encoded(message),
        ) && session.waits_for(SessionEventView::<H, P>::NotEncoded),
        session.phase is Decoding ==> session.waits_for(
            SessionEventView::<H, P>::Decoded(request),
        ) && session.waits_for(SessionEventView::<H, P>::NotDecoded(reason)),
        session.phase is Subscribing ==> session.waits_for(
            SessionEventView::<H, P>::Subscribed(handle),
        ) && session.waits_for(SessionEventView::<H, P>::NotSubscribed),
        session.phase is Acknowledging || session.phase is WritingNotification || session.phase
            is Replying || session.phase is Refusing ==> session.waits_for(
            SessionEventView::<H, P>::Written,
        ) && session.waits_for(SessionEventView::<H, P>::NotWritten(failure)),
        distinct(session.entries) && !(session.phase is Subscribing) ==> session.well_formed(),
{
}

/// The models of requests, responses, events and actions hold what these hold.
pub proof fn law_sessions_are_modelled_whole<H, P>(
    request: WsRequest,
    answer: WsReply,
    event: SessionEvent<H, P>,
    action: SessionAction<H, P>,
)
    ensures
        request@.id == request.id,
        match request.method {
            WsMethod::Subscribe(sub_id) => request@.method == WsMethodView::Subscribe(sub_id@),
            WsMethod::Unsubscribe(sub_id) => request@.method == WsMethodView::Unsubscribe(sub_id@),
        },
        answer@.id == answer.id,
        match answer.result {
            WsResult::Subscribed(status, sub_id) => answer@.result == WsResultView::Subscribed(
                status@,
                sub_id@,
            ),
            WsResult::Unsubscribed(status, sub_id) => answer@.result == WsResultView::Unsubscribed(
                status@,
                sub_id@,
            ),
            WsResult::Error(code, message) => answer@.result == WsResultView::Error(code, message@),
        },
        match event {
            SessionEvent::Notified(sub_id, payload) => event@ == SessionEventView::<
                H,
                P,
            >::Notified(sub_id@, payload),
            SessionEvent::Received(message) => event@ == SessionEventView::<H, P>::Received(
                json_of(message),
            ),
            SessionEvent::Ended => event@ is Ended,
            SessionEvent::Decoded(asked_for) => event@ == SessionEventView::<H, P>::Decoded(
                asked_for@,
            ),
            SessionEvent::NotDecoded(text) => event@ == SessionEventView::<H, P>::NotDecoded(text@),
            SessionEvent::Subscribed(handle) => event@ == SessionEventView::<H, P>::Subscribed(
                handle,
            ),
            SessionEvent::NotSubscribed => event@ is NotSubscribed,
            SessionEvent::Encoded(payload) => event@ == SessionEventView::<H, P>::Encoded(
                json_of(payload),
            ),
            SessionEvent::NotEncoded => event@ is NotEncoded,
            SessionEvent::Written => event@ is Written,
            SessionEvent::NotWritten(error) => event@ == SessionEventView::<H, P>::NotWritten(
                error@,
            ),
        },
        match action {
            SessionAction::Wait => action@ is Wait,
            SessionAction::EncodePayload(payload) => action@ == SessionActionView::<
                H,
                P,
            >::EncodePayload(payload),
            SessionAction::Decode(message) => action@ == SessionActionView::<H, P>::Decode(
                json_of(message),
            ),
            SessionAction::Subscribe(sub_id) => action@ == SessionActionView::<H, P>::Subscribe(
                sub_id@,
            ),
            SessionAction::Answer(aborted, answer) => action@ == SessionActionView::<H, P>::Answer(
                aborted,
                answer@,
            ),
            SessionAction::Write(message) => action@ == SessionActionView::<H, P>::Write(
                json_of(message),
            ),
            SessionAction::Close(all, Ok(_)) => action@ == SessionActionView::<H, P>::Close(
                all@,
                Ok(()),
            ),
            SessionAction::Close(all, Err(error)) => action@ == SessionActionView::<H, P>::Close(
                all@,
                Err(error@),
            ),
        },
{
}

} // verus!
