//! Request dispatch: maps incoming JSON-RPC method names to mint operations,
//! and follows each operation to its response.
//!
//! The mint itself, the typed parameters and answers, and their conversion from
//! and to JSON are the caller's. A [`Call`] says what is to be done next and,
//! once it is told the outcome, what follows from it.

use crate::json;
use crate::json::{json_of, Json};
use crate::protocol::methods;
use crate::text::{join, same_text};
use crate::wire::{RequestView, ResponseView, RpcRequest, RpcResponse};
use serde_json::Value;
use vstd::prelude::*;

verus! {

/// The parameters of a method are invalid.
pub const RPC_INVALID_PARAMS: i32 = -32602;

/// There is no method of this name.
pub const RPC_METHOD_NOT_FOUND: i32 = -32601;

/// The mint failed, or its answer has no JSON form.
pub const RPC_INTERNAL_ERROR: i32 = -32603;

/// The mint operations that a request can ask for.
#[derive(Debug, Clone, Copy, PartialEq, Eq, Structural)]
pub enum Operation {
    GetKeys,
    GetKeysets,
    GetKeyById,
    PostSwap,
    GetMintQuote,
    PostMintQuote,
    PostMint,
    GetMeltQuote,
    PostMeltQuote,
    PostMelt,
    CheckState,
    GetInfo,
    Restore,
}

impl Operation {
    /// The name of the method that asks for the operation.
    pub open spec fn name(self) -> Seq<char> {
        match self {
            Operation::GetKeys => methods::GET_KEYS@,
            Operation::GetKeysets => methods::GET_KEYSETS@,
            Operation::GetKeyById => methods::GET_KEY_BY_ID@,
            Operation::PostSwap => methods::POST_SWAP@,
            Operation::GetMintQuote => methods::GET_MINT_QUOTE@,
            Operation::PostMintQuote => methods::POST_MINT_QUOTE@,
            Operation::PostMint => methods::POST_MINT@,
            Operation::GetMeltQuote => methods::GET_MELT_QUOTE@,
            Operation::PostMeltQuote => methods::POST_MELT_QUOTE@,
            Operation::PostMelt => methods::POST_MELT@,
            Operation::CheckState => methods::CHECK_STATE@,
            Operation::GetInfo => methods::GET_INFO@,
            Operation::Restore => methods::RESTORE@,
        }
    }

    /// The operation takes parameters.
    pub open spec fn takes_params(self) -> bool {
        !(self is GetKeys || self is GetKeysets || self is GetInfo)
    }

    /// The operation looks something up by an identifier.
    pub open spec fn looks_up(self) -> bool {
        self is GetKeyById || self is GetMintQuote || self is GetMeltQuote
    }

    /// The operation creates a quote, whose parameters depend on the payment method.
    pub open spec fn creates_quote(self) -> bool {
        self is PostMintQuote || self is PostMeltQuote
    }

    /// The mint can fail to carry out the operation.
    pub open spec fn can_fail(self) -> bool {
        !(self is GetKeys || self is GetKeysets)
    }
}

impl Operation {
    /// The name of the method that asks for the operation.
    pub fn method(self) -> (method: &'static str)
        ensures
            method@ == self.name(),
    {
        match self {
            Operation::GetKeys => methods::GET_KEYS,
            Operation::GetKeysets => methods::GET_KEYSETS,
            Operation::GetKeyById => methods::GET_KEY_BY_ID,
            Operation::PostSwap => methods::POST_SWAP,
            Operation::GetMintQuote => methods::GET_MINT_QUOTE,
            Operation::PostMintQuote => methods::POST_MINT_QUOTE,
            Operation::PostMint => methods::POST_MINT,
            Operation::GetMeltQuote => methods::GET_MELT_QUOTE,
            Operation::PostMeltQuote => methods::POST_MELT_QUOTE,
            Operation::PostMelt => methods::POST_MELT,
            Operation::CheckState => methods::CHECK_STATE,
            Operation::GetInfo => methods::GET_INFO,
            Operation::Restore => methods::RESTORE,
        }
    }
}

/// There is an operation whose method has this name.
pub open spec fn is_operation(method: Seq<char>) -> bool {
    exists|operation: Operation| #[trigger] operation.name() == method
}

/// The operation whose method has this name, told from its length and a few of its characters.
spec fn told_apart(name: Seq<char>) -> Operation {
    if name.len() == 13 {
        if name[9] == 'K' {
            Operation::GetKeys
        } else if name[9] == 'I' {
            Operation::GetInfo
        } else {
            Operation::Restore
        }
    } else if name.len() == 14 {
        if name[11] == 'w' {
            Operation::PostSwap
        } else if name[11] == 'i' {
            Operation::PostMint
        } else {
            Operation::PostMelt
        }
    } else if name.len() == 16 {
        if name[12] == 's' {
            Operation::GetKeysets
        } else if name[12] == 'B' {
            Operation::GetKeyById
        } else {
            Operation::CheckState
        }
    } else if name.len() == 18 {
        if name[10] == 'i' {
            Operation::GetMintQuote
        } else {
            Operation::GetMeltQuote
        }
    } else if name[11] == 'i' {
        Operation::PostMintQuote
    } else {
        Operation::PostMeltQuote
    }
}

/// The name of an operation tells it apart; none is as long as the name of the
/// subscription method.
proof fn lemma_told_apart(operation: Operation)
    ensures
        told_apart(operation.name()) == operation,
        operation.name().len() != 15,
{
    reveal_strlit("cashu_getKeys");
    reveal_strlit("cashu_getKeysets");
    reveal_strlit("cashu_getKeyById");
    reveal_strlit("cashu_postSwap");
    reveal_strlit("cashu_getMintQuote");
    reveal_strlit("cashu_postMintQuote");
    reveal_strlit("cashu_postMint");
    reveal_strlit("cashu_getMeltQuote");
    reveal_strlit("cashu_postMeltQuote");
    reveal_strlit("cashu_postMelt");
    reveal_strlit("cashu_checkState");
    reveal_strlit("cashu_getInfo");
    reveal_strlit("cashu_restore");
}

/// No two operations have the same name, and none has the name of the
/// subscription method.
pub proof fn law_operation_names_are_distinct(a: Operation, b: Operation)
    ensures
        a.name() == b.name() ==> a == b,
        a.name() != methods::SUBSCRIBE@,
{
    lemma_told_apart(a);
    lemma_told_apart(b);
    reveal_strlit("cashu_subscribe");
}

/// The operation that a method asks for, if there is one.
pub fn operation_named(method: &str) -> (found: Option<Operation>)
    ensures
        match found {
            Some(operation) => operation.name() == method@,
            None => !is_operation(method@),
        },
{
    if same_text(method, methods::GET_KEYS) {
        Some(Operation::GetKeys)
    } else if same_text(method, methods::GET_KEYSETS) {
        Some(Operation::GetKeysets)
    } else if same_text(method, methods::GET_KEY_BY_ID) {
        Some(Operation::GetKeyById)
    } else if same_text(method, methods::POST_SWAP) {
        Some(Operation::PostSwap)
    } else if same_text(method, methods::GET_MINT_QUOTE) {
        Some(Operation::GetMintQuote)
    } else if same_text(method, methods::POST_MINT_QUOTE) {
        Some(Operation::PostMintQuote)
    } else if same_text(method, methods::POST_MINT) {
        Some(Operation::PostMint)
    } else if same_text(method, methods::GET_MELT_QUOTE) {
        Some(Operation::GetMeltQuote)
    } else if same_text(method, methods::POST_MELT_QUOTE) {
        Some(Operation::PostMeltQuote)
    } else if same_text(method, methods::POST_MELT) {
        Some(Operation::PostMelt)
    } else if same_text(method, methods::CHECK_STATE) {
        Some(Operation::CheckState)
    } else if same_text(method, methods::GET_INFO) {
        Some(Operation::GetInfo)
    } else if same_text(method, methods::RESTORE) {
        Some(Operation::Restore)
    } else {
        None
    }
}

/// The kind of payment that a quote is asked for.
#[derive(Debug)]
pub enum QuoteKind {
    /// A Lightning invoice.
    Bolt11,
    /// Any other payment method, by its name.
    Custom(String),
    /// Any other payment method, where the mint is not told its name.
    Unnamed,
}

/// The model of a [`QuoteKind`].
pub enum QuoteKindView {
    Bolt11,
    Custom(Seq<char>),
    Unnamed,
}

impl View for QuoteKind {
    type V = QuoteKindView;

    open spec fn view(&self) -> QuoteKindView {
        match self {
            QuoteKind::Bolt11 => QuoteKindView::Bolt11,
            QuoteKind::Custom(method) => QuoteKindView::Custom(method@),
            QuoteKind::Unnamed => QuoteKindView::Unnamed,
        }
    }
}

/// The kind of payment that an operation creates a quote for, by the name of the
/// payment method. A mint is told the name of a custom method for a mint quote,
/// and not for a melt quote.
pub open spec fn kind_named(operation: Operation, payment_method: Seq<char>) -> QuoteKindView {
    if payment_method == "bolt11"@ {
        QuoteKindView::Bolt11
    } else if operation is PostMintQuote {
        QuoteKindView::Custom(payment_method)
    } else {
        QuoteKindView::Unnamed
    }
}

/// The payment method of a quote request that names none.
pub fn default_payment_method() -> (payment_method: String)
    ensures
        payment_method@ == "bolt11"@,
{
    "bolt11".to_string()
}

/// The kind of payment that an operation creates a quote for, by the name of the
/// payment method.
pub fn quote_kind(operation: Operation, payment_method: String) -> (kind: QuoteKind)
    ensures
        kind@ == kind_named(operation, payment_method@),
{
    if same_text(payment_method.as_str(), "bolt11") {
        QuoteKind::Bolt11
    } else {
        match operation {
            Operation::PostMintQuote => QuoteKind::Custom(payment_method),
            _ => QuoteKind::Unnamed,
        }
    }
}

/// The payment method and the quote request that parameters hold: the method is
/// the member `payment_method`, or `bolt11` where there is no such member, and
/// the request is an object of all other members. Parameters that are no object,
/// or whose payment method is no text, hold neither.
pub open spec fn quote_in(params: Json) -> Option<(Seq<char>, Json)> {
    match params {
        Json::Object(members) => if !members.contains_key("payment_method"@) {
            Some(("bolt11"@, params))
        } else {
            match members["payment_method"@] {
                Json::Text(name) => Some((name, Json::Object(members.remove("payment_method"@)))),
                _ => None,
            }
        },
        _ => None,
    }
}

/// The payment method and the quote request that parameters hold.
pub fn split_quote_params(params: &Value) -> (found: Option<(String, Value)>)
    ensures
        match quote_in(json_of(*params)) {
            Some((payment_method, request)) => found matches Some((name, rest)) && name@
                == payment_method && json_of(rest) == request,
            None => found is None,
        },
{
    match json::as_object(params) {
        None => None,
        Some(members) => match json::member(params, "payment_method") {
            None => Some((default_payment_method(), params.clone())),
            Some(named) => match json::as_text(named) {
                None => None,
                Some(name) => {
                    let mut rest = json::copy_members(members);
                    json::remove_member(&mut rest, "payment_method");
                    Some((name.to_string(), json::object(rest)))
                },
            },
        },
    }
}

/// The only item of an array that has one item.
pub open spec fn only_item(params: Json) -> Option<Json> {
    match params {
        Json::Array(items) => if items.len() == 1 {
            Some(items[0])
        } else {
            None
        },
        _ => None,
    }
}

/// The key set identifier that parameters hold: the member `id` or the member
/// `keyset_id` of an object that has one of them and not the other, or the only
/// item of an array.
pub open spec fn keyset_in(params: Json) -> Option<Json> {
    match params {
        Json::Object(members) => if members.contains_key("id"@) && !members.contains_key(
            "keyset_id"@,
        ) {
            Some(members["id"@])
        } else if members.contains_key("keyset_id"@) && !members.contains_key("id"@) {
            Some(members["keyset_id"@])
        } else {
            None
        },
        _ => only_item(params),
    }
}

/// The identifier of an existing quote that parameters hold: the member `id` of
/// an object, or the only item of an array.
pub open spec fn quote_id_in(params: Json) -> Option<Json> {
    match params {
        Json::Object(members) => if members.contains_key("id"@) {
            Some(members["id"@])
        } else {
            None
        },
        _ => only_item(params),
    }
}

/// The identifier that the parameters of an operation hold, which looks
/// something up by it.
pub open spec fn id_in(operation: Operation, params: Json) -> Option<Json> {
    if operation is GetKeyById {
        keyset_in(params)
    } else {
        quote_id_in(params)
    }
}

/// The model of an optional value.
pub open spec fn option_view(found: Option<Value>) -> Option<Json> {
    match found {
        Some(value) => Some(json_of(value)),
        None => None,
    }
}

/// The only item of an array that has one item.
fn only_item_of(params: &Value) -> (found: Option<Value>)
    ensures
        option_view(found) == only_item(json_of(*params)),
{
    match json::as_array(params) {
        Some(items) => if items.len() == 1 {
            Some(items[0].clone())
        } else {
            None
        },
        None => None,
    }
}

/// The key set identifier that parameters hold. Both names of the member are
/// taken alike, for compatibility.
pub fn keyset_param(params: &Value) -> (found: Option<Value>)
    ensures
        option_view(found) == keyset_in(json_of(*params)),
{
    match json::as_object(params) {
        Some(_) => match (json::member(params, "id"), json::member(params, "keyset_id")) {
            (Some(id), None) => Some(id.clone()),
            (None, Some(id)) => Some(id.clone()),
            _ => None,
        },
        None => only_item_of(params),
    }
}

/// The identifier of an existing quote that parameters hold.
pub fn quote_id_param(params: &Value) -> (found: Option<Value>)
    ensures
        option_view(found) == quote_id_in(json_of(*params)),
{
    match json::as_object(params) {
        Some(_) => match json::member(params, "id") {
            Some(id) => Some(id.clone()),
            None => None,
        },
        None => only_item_of(params),
    }
}

/// How far a call has come: what its next outcome is about.
#[derive(Debug, Clone, Copy, PartialEq, Eq, Structural)]
pub enum Stage {
    /// The parameters are being decoded.
    Params,
    /// The identifier inside the parameters is being decoded.
    Id,
    /// The quote request inside the parameters is being decoded.
    Quote,
    /// The mint is at work.
    Mint,
    /// The mint's answer is being converted to JSON.
    Encode,
}

/// A call of a mint operation that is under way.
#[derive(Debug)]
pub struct Call {
    /// The operation.
    pub operation: Operation,
    /// The identifier of the request.
    pub id: Value,
    /// How far the call has come.
    pub stage: Stage,
}

/// The model of a [`Call`].
pub struct CallView {
    pub operation: Operation,
    pub id: Json,
    pub stage: Stage,
}

impl View for Call {
    type V = CallView;

    open spec fn view(&self) -> CallView {
        CallView { operation: self.operation, id: json_of(self.id), stage: self.stage }
    }
}

/// What is to be done next for a call.
#[derive(Debug)]
pub enum Task {
    /// Decode the parameters of the operation. Those that should hold an
    /// identifier or a quote request and do not can only be refused.
    ReadParams(Value),
    /// Decode the identifier that the operation looks up.
    ReadId(Value),
    /// Decode a quote request of this kind.
    ReadQuote(QuoteKind, Value),
    /// Have the mint carry out the operation.
    AskMint,
    /// Convert the mint's answer to JSON.
    EncodeAnswer,
}

/// The model of a [`Task`].
pub enum TaskView {
    ReadParams(Json),
    ReadId(Json),
    ReadQuote(QuoteKindView, Json),
    AskMint,
    EncodeAnswer,
}

impl View for Task {
    type V = TaskView;

    open spec fn view(&self) -> TaskView {
        match self {
            Task::ReadParams(params) => TaskView::ReadParams(json_of(*params)),
            Task::ReadId(id) => TaskView::ReadId(json_of(*id)),
            Task::ReadQuote(kind, rest) => TaskView::ReadQuote(kind@, json_of(*rest)),
            Task::AskMint => TaskView::AskMint,
            Task::EncodeAnswer => TaskView::EncodeAnswer,
        }
    }
}

/// What came of a task.
#[derive(Debug)]
pub enum Outcome {
    /// The parameters were decoded.
    ParamsRead,
    /// The parameters could not be decoded.
    ParamsRefused(String),
    /// The quote request was decoded.
    QuoteRead,
    /// The quote request could not be decoded.
    QuoteRefused(String),
    /// The mint answered.
    Answered,
    /// The mint failed.
    Failed(String),
    /// The mint's answer in JSON.
    Encoded(Value),
    /// The mint's answer could not be converted to JSON.
    NotEncoded(String),
}

/// The model of an [`Outcome`].
pub enum OutcomeView {
    ParamsRead,
    ParamsRefused(Seq<char>),
    QuoteRead,
    QuoteRefused(Seq<char>),
    Answered,
    Failed(Seq<char>),
    Encoded(Json),
    NotEncoded(Seq<char>),
}

impl View for Outcome {
    type V = OutcomeView;

    open spec fn view(&self) -> OutcomeView {
        match self {
            Outcome::ParamsRead => OutcomeView::ParamsRead,
            Outcome::ParamsRefused(error) => OutcomeView::ParamsRefused(error@),
            Outcome::QuoteRead => OutcomeView::QuoteRead,
            Outcome::QuoteRefused(error) => OutcomeView::QuoteRefused(error@),
            Outcome::Answered => OutcomeView::Answered,
            Outcome::Failed(error) => OutcomeView::Failed(error@),
            Outcome::Encoded(answer) => OutcomeView::Encoded(json_of(*answer)),
            Outcome::NotEncoded(error) => OutcomeView::NotEncoded(error@),
        }
    }
}

/// What follows for a request.
#[derive(Debug)]
pub enum Next {
    /// The call goes on with a task.
    Do(Call, Task),
    /// The call is over, with this response.
    Reply(RpcResponse),
}

/// The model of a [`Next`].
pub enum NextView {
    Do(CallView, TaskView),
    Reply(ResponseView),
}

impl View for Next {
    type V = NextView;

    open spec fn view(&self) -> NextView {
        match self {
            Next::Do(call, task) => NextView::Do(call@, task@),
            Next::Reply(response) => NextView::Reply(response@),
        }
    }
}

impl CallView {
    /// The outcome is one that the call waits for.
    pub open spec fn waits_for(self, outcome: OutcomeView) -> bool {
        match outcome {
            OutcomeView::ParamsRead => self.stage is Id || (self.stage is Params
                && !self.operation.creates_quote() && !self.operation.looks_up()),
            OutcomeView::ParamsRefused(_) => self.stage is Params || self.stage is Id,
            OutcomeView::QuoteRead => self.stage is Quote,
            OutcomeView::QuoteRefused(_) => self.stage is Quote,
            OutcomeView::Answered => self.stage is Mint,
            OutcomeView::Failed(_) => self.stage is Mint && self.operation.can_fail(),
            OutcomeView::Encoded(_) => self.stage is Encode,
            OutcomeView::NotEncoded(_) => self.stage is Encode,
        }
    }

    /// The call at a later stage.
    pub open spec fn at(self, stage: Stage) -> CallView {
        CallView { operation: self.operation, id: self.id, stage }
    }

    /// What follows from an outcome that the call waits for.
    pub open spec fn next(self, outcome: OutcomeView) -> NextView {
        match outcome {
            OutcomeView::ParamsRead => NextView::Do(self.at(Stage::Mint), TaskView::AskMint),
            OutcomeView::ParamsRefused(error) => NextView::Reply(
                ResponseView::err(self.id, RPC_INVALID_PARAMS, "invalid params: "@ + error),
            ),
            OutcomeView::QuoteRead => NextView::Do(self.at(Stage::Mint), TaskView::AskMint),
            OutcomeView::QuoteRefused(error) => NextView::Reply(
                ResponseView::err(self.id, RPC_INVALID_PARAMS, error),
            ),
            OutcomeView::Answered => NextView::Do(self.at(Stage::Encode), TaskView::EncodeAnswer),
            OutcomeView::Failed(error) => NextView::Reply(
                ResponseView::err(self.id, RPC_INTERNAL_ERROR, error),
            ),
            OutcomeView::Encoded(answer) => NextView::Reply(ResponseView::ok(self.id, answer)),
            OutcomeView::NotEncoded(error) => NextView::Reply(
                ResponseView::err(self.id, RPC_INTERNAL_ERROR, error),
            ),
        }
    }

    /// The most outcomes that a call at this stage still waits for.
    pub open spec fn outcomes_left(self) -> nat {
        match self.stage {
            Stage::Params => 3,
            Stage::Id => 3,
            Stage::Quote => 3,
            Stage::Mint => 2,
            Stage::Encode => 1,
        }
    }
}

/// How the call of an operation begins: with its parameters, if it takes any, or
/// with the identifier or the quote request that they hold.
pub open spec fn begin(operation: Operation, params: Json, id: Json) -> NextView {
    let call = CallView { operation, id, stage: Stage::Params };
    if !operation.takes_params() {
        NextView::Do(call.at(Stage::Mint), TaskView::AskMint)
    } else if operation.looks_up() && id_in(operation, params) is Some {
        NextView::Do(
            call.at(Stage::Id),
            TaskView::ReadId(id_in(operation, params).unwrap()),
        )
    } else if operation.creates_quote() && quote_in(params) is Some {
        let (payment_method, request) = quote_in(params).unwrap();
        NextView::Do(
            call.at(Stage::Quote),
            TaskView::ReadQuote(kind_named(operation, payment_method), request),
        )
    } else {
        NextView::Do(call, TaskView::ReadParams(params))
    }
}

/// What follows from a request: the call of the operation that its method asks
/// for, or the response that there is no such method.
pub open spec fn dispatched(req: RequestView, next: NextView) -> bool {
    &&& forall|operation: Operation| #[trigger]
        operation.name() == req.method ==> next == begin(operation, req.params, req.id)
    &&& !is_operation(req.method) ==> next == NextView::Reply(
        ResponseView::err(req.id, RPC_METHOD_NOT_FOUND, "unknown method: "@ + req.method),
    )
}

/// Begins the call of an operation that looks something up, given the identifier
/// that the parameters of its request hold.
fn look_up(operation: Operation, found: Option<Value>, req: RpcRequest) -> (next: Next)
    requires
        operation.looks_up(),
        option_view(found) == id_in(operation, req@.params),
    ensures
        next@ == begin(operation, req@.params, req@.id),
{
    match found {
        Some(id) => Next::Do(Call { operation, id: req.id, stage: Stage::Id }, Task::ReadId(id)),
        None => Next::Do(
            Call { operation, id: req.id, stage: Stage::Params },
            Task::ReadParams(req.params),
        ),
    }
}

/// Dispatch a validated request, one of JSON-RPC 2.0, to the mint operation that
/// its method asks for.
///
/// All failures become JSON-RPC error responses, so that a response can always
/// be sent back to the peer. A `cashu_subscribe` request takes over its stream
/// and is not dispatched.
pub fn dispatch(req: RpcRequest) -> (next: Next)
    requires
        req@.valid(),
        req.method@ != methods::SUBSCRIBE@,
    ensures
        dispatched(req@, next@),
{
    match operation_named(req.method.as_str()) {
        Some(operation) => {
            proof {
                assert forall|other: Operation| #[trigger] other.name() == req.method@ implies other
                    == operation by {
                    law_operation_names_are_distinct(other, operation);
                }
            }
            match operation {
                Operation::GetKeys | Operation::GetKeysets | Operation::GetInfo => Next::Do(
                    Call { operation, id: req.id, stage: Stage::Mint },
                    Task::AskMint,
                ),
                Operation::GetKeyById => look_up(operation, keyset_param(&req.params), req),
                Operation::GetMintQuote | Operation::GetMeltQuote => look_up(
                    operation,
                    quote_id_param(&req.params),
                    req,
                ),
                Operation::PostMintQuote | Operation::PostMeltQuote => match split_quote_params(
                    &req.params,
                ) {
                    Some((payment_method, request)) => Next::Do(
                        Call { operation, id: req.id, stage: Stage::Quote },
                        Task::ReadQuote(quote_kind(operation, payment_method), request),
                    ),
                    None => Next::Do(
                        Call { operation, id: req.id, stage: Stage::Params },
                        Task::ReadParams(req.params),
                    ),
                },
                _ => Next::Do(
                    Call { operation, id: req.id, stage: Stage::Params },
                    Task::ReadParams(req.params),
                ),
            }
        },
        None => {
            let message = join("unknown method: ", req.method.as_str());
            Next::Reply(RpcResponse::err(req.id, RPC_METHOD_NOT_FOUND, message))
        },
    }
}

impl Call {
    /// Goes on with a call, given what came of its task.
    pub fn step(self, outcome: Outcome) -> (next: Next)
        requires
            self@.waits_for(outcome@),
        ensures
            next@ == self@.next(outcome@),
    {
        let operation = self.operation;
        match outcome {
            Outcome::ParamsRead => Next::Do(
                Call { operation, id: self.id, stage: Stage::Mint },
                Task::AskMint,
            ),
            Outcome::ParamsRefused(error) => {
                let message = join("invalid params: ", error.as_str());
                Next::Reply(RpcResponse::err(self.id, RPC_INVALID_PARAMS, message))
            },
            Outcome::QuoteRead => Next::Do(
                Call { operation, id: self.id, stage: Stage::Mint },
                Task::AskMint,
            ),
            Outcome::QuoteRefused(error) => Next::Reply(
                RpcResponse::err(self.id, RPC_INVALID_PARAMS, error),
            ),
            Outcome::Answered => Next::Do(
                Call { operation, id: self.id, stage: Stage::Encode },
                Task::EncodeAnswer,
            ),
            Outcome::Failed(error) => Next::Reply(
                RpcResponse::err(self.id, RPC_INTERNAL_ERROR, error),
            ),
            Outcome::Encoded(answer) => Next::Reply(RpcResponse::ok(self.id, answer)),
            Outcome::NotEncoded(error) => Next::Reply(
                RpcResponse::err(self.id, RPC_INTERNAL_ERROR, error),
            ),
        }
    }
}

/// The call, told these outcomes in turn, ends in this response.
pub open spec fn ends_in(call: CallView, outcomes: Seq<OutcomeView>, response: ResponseView) -> bool
    decreases outcomes.len(),
{
    outcomes.len() > 0 && call.waits_for(outcomes[0]) && match call.next(outcomes[0]) {
        NextView::Do(later, _) => ends_in(later, outcomes.drop_first(), response),
        NextView::Reply(reply) => outcomes.len() == 1 && reply == response,
    }
}

/// Every call ends, after at most three outcomes, in a response that echoes the
/// request's identifier and has a result or an error. The result is the mint's
/// answer in JSON; the error code says whether the parameters or the mint were
/// at fault.
pub proof fn law_every_call_is_answered(
    call: CallView,
    outcomes: Seq<OutcomeView>,
    response: ResponseView,
)
    requires
        ends_in(call, outcomes, response),
    ensures
        0 < outcomes.len() <= call.outcomes_left() <= 3,
        response.well_formed(),
        response.id == call.id,
        match outcomes.last() {
            OutcomeView::Encoded(answer) => response.result == Some(answer),
            OutcomeView::ParamsRefused(_) | OutcomeView::QuoteRefused(_) => response.error is Some
                && response.error.unwrap().code == RPC_INVALID_PARAMS,
            OutcomeView::Failed(_) | OutcomeView::NotEncoded(_) => response.error is Some
                && response.error.unwrap().code == RPC_INTERNAL_ERROR,
            _ => false,
        },
    decreases outcomes.len(),
{
    if let NextView::Do(later, _) = call.next(outcomes[0]) {
        law_every_call_is_answered(later, outcomes.drop_first(), response);
        assert(outcomes.drop_first().last() == outcomes.last());
    }
}

/// A call keeps its operation and identifier, and comes nearer to its end with
/// each outcome.
pub proof fn law_calls_make_progress(call: CallView, outcome: OutcomeView)
    requires
        call.waits_for(outcome),
    ensures
        match call.next(outcome) {
            NextView::Do(later, _) => later.operation == call.operation && later.id == call.id
                && later.outcomes_left() < call.outcomes_left(),
            NextView::Reply(response) => response.id == call.id,
        },
{
}

/// The mint is asked only once the parameters of the operation have been
/// decoded: all of them, for a quote of whatever kind.
pub proof fn law_mint_sees_only_decoded_params(call: CallView, outcome: OutcomeView)
    requires
        call.waits_for(outcome),
        call.next(outcome) matches NextView::Do(_, TaskView::AskMint),
    ensures
        !(call.operation.creates_quote() && call.stage is Params),
        !(call.operation.looks_up() && call.stage is Params),
        outcome is ParamsRead || outcome is QuoteRead,
{
}

/// A key set is looked up alike by the members `id` and `keyset_id`.
pub proof fn law_keyset_id_has_two_names(members: Map<Seq<char>, Json>, keyset: Json, id: Json)
    requires
        !members.contains_key("id"@),
        !members.contains_key("keyset_id"@),
    ensures
        ({
            let by_id = Json::Object(members.insert("id"@, keyset));
            let by_keyset_id = Json::Object(members.insert("keyset_id"@, keyset));
            let by_both = Json::Object(members.insert("id"@, keyset).insert("keyset_id"@, keyset));
            &&& begin(Operation::GetKeyById, by_id, id) == begin(
                Operation::GetKeyById,
                by_keyset_id,
                id,
            )
            &&& begin(Operation::GetKeyById, by_id, id) == NextView::Do(
                CallView { operation: Operation::GetKeyById, id, stage: Stage::Id },
                TaskView::ReadId(keyset),
            )
            &&& keyset_in(by_both) is None
            &&& keyset_in(Json::Object(members)) is None
        }),
{
    reveal_strlit("id");
    reveal_strlit("keyset_id");
    assert("id"@.len() == 2 && "keyset_id"@.len() == 9);
}

/// Parameters without the identifier that an operation looks up do not reach the
/// mint: the only outcome that the call waits for is that they are refused, and
/// the answer then says that they are invalid.
pub proof fn law_params_without_an_id_are_refused(
    operation: Operation,
    params: Json,
    id: Json,
    outcome: OutcomeView,
)
    requires
        operation.looks_up(),
        id_in(operation, params) is None,
        (CallView { operation, id, stage: Stage::Params }).waits_for(outcome),
    ensures
        begin(operation, params, id) == NextView::Do(
            CallView { operation, id, stage: Stage::Params },
            TaskView::ReadParams(params),
        ),
        (CallView { operation, id, stage: Stage::Params }).next(outcome) matches NextView::Reply(
            response,
        ) && response.id == id && (response.error matches Some(error) && error.code
            == RPC_INVALID_PARAMS),
{
}

/// Quote parameters that name no payment method are taken for those that name
/// `bolt11`: the same call begins, for the same request. The mint is asked once
/// the request has been decoded; if it cannot be, the answer says that the
/// parameters are invalid, and the mint is not asked.
pub proof fn law_absent_payment_method_is_bolt11(
    operation: Operation,
    members: Map<Seq<char>, Json>,
    id: Json,
    error: Seq<char>,
)
    requires
        operation.creates_quote(),
        !members.contains_key("payment_method"@),
    ensures
        ({
            let named = members.insert("payment_method"@, Json::Text("bolt11"@));
            let reading = CallView { operation, id, stage: Stage::Quote };
            &&& begin(operation, Json::Object(members), id) == begin(
                operation,
                Json::Object(named),
                id,
            )
            &&& begin(operation, Json::Object(members), id) == NextView::Do(
                reading,
                TaskView::ReadQuote(QuoteKindView::Bolt11, Json::Object(members)),
            )
            &&& reading.next(OutcomeView::QuoteRead) == NextView::Do(
                reading.at(Stage::Mint),
                TaskView::AskMint,
            )
            &&& reading.next(OutcomeView::QuoteRefused(error)) == NextView::Reply(
                ResponseView::err(id, RPC_INVALID_PARAMS, error),
            )
        }),
{
    let named = members.insert("payment_method"@, Json::Text("bolt11"@));
    assert(named.remove("payment_method"@) =~= members);
}

/// The mint is not told the name of a custom payment method for a melt quote:
/// calls whose parameters differ only in that name are the same.
pub proof fn law_melt_quote_method_is_not_told(
    members: Map<Seq<char>, Json>,
    a: Seq<char>,
    b: Seq<char>,
    id: Json,
)
    requires
        a != "bolt11"@,
        b != "bolt11"@,
    ensures
        ({
            let with_a = members.insert("payment_method"@, Json::Text(a));
            let with_b = members.insert("payment_method"@, Json::Text(b));
            let request = Json::Object(members.remove("payment_method"@));
            &&& begin(Operation::PostMeltQuote, Json::Object(with_a), id) == begin(
                Operation::PostMeltQuote,
                Json::Object(with_b),
                id,
            )
            &&& begin(Operation::PostMeltQuote, Json::Object(with_a), id) == NextView::Do(
                CallView { operation: Operation::PostMeltQuote, id, stage: Stage::Quote },
                TaskView::ReadQuote(QuoteKindView::Unnamed, request),
            )
        }),
{
    let with_a = members.insert("payment_method"@, Json::Text(a));
    let with_b = members.insert("payment_method"@, Json::Text(b));
    assert(with_a.remove("payment_method"@) =~= members.remove("payment_method"@));
    assert(with_b.remove("payment_method"@) =~= members.remove("payment_method"@));
}

/// The mint is told the name of a custom payment method for a mint quote.
pub proof fn law_mint_quote_method_is_told(
    members: Map<Seq<char>, Json>,
    payment_method: Seq<char>,
    id: Json,
)
    requires
        payment_method != "bolt11"@,
    ensures
        ({
            let params = members.insert("payment_method"@, Json::Text(payment_method));
            begin(Operation::PostMintQuote, Json::Object(params), id) == NextView::Do(
                CallView { operation: Operation::PostMintQuote, id, stage: Stage::Quote },
                TaskView::ReadQuote(
                    QuoteKindView::Custom(payment_method),
                    Json::Object(members.remove("payment_method"@)),
                ),
            )
        }),
{
    let params = members.insert("payment_method"@, Json::Text(payment_method));
    assert(params.remove("payment_method"@) =~= members.remove("payment_method"@));
}

/// Parameters that hold no quote request do not reach the mint: the only outcome
/// that the call waits for is that they are refused, and the answer then says
/// that they are invalid.
pub proof fn law_params_without_a_quote_are_refused(
    operation: Operation,
    params: Json,
    id: Json,
    outcome: OutcomeView,
)
    requires
        operation.creates_quote(),
        quote_in(params) is None,
        (CallView { operation, id, stage: Stage::Params }).waits_for(outcome),
    ensures
        begin(operation, params, id) == NextView::Do(
            CallView { operation, id, stage: Stage::Params },
            TaskView::ReadParams(params),
        ),
        (CallView { operation, id, stage: Stage::Params }).next(outcome) matches NextView::Reply(
            response,
        ) && response.id == id && (response.error matches Some(error) && error.code
            == RPC_INVALID_PARAMS),
{
}

/// The methods that are served, by name, are those of the protocol.
pub proof fn law_methods_of_the_protocol(operation: Operation)
    ensures
        operation.name() == match operation {
            Operation::GetKeys => "cashu_getKeys"@,
            Operation::GetKeysets => "cashu_getKeysets"@,
            Operation::GetKeyById => "cashu_getKeyById"@,
            Operation::PostSwap => "cashu_postSwap"@,
            Operation::GetMintQuote => "cashu_getMintQuote"@,
            Operation::PostMintQuote => "cashu_postMintQuote"@,
            Operation::PostMint => "cashu_postMint"@,
            Operation::GetMeltQuote => "cashu_getMeltQuote"@,
            Operation::PostMeltQuote => "cashu_postMeltQuote"@,
            Operation::PostMelt => "cashu_postMelt"@,
            Operation::CheckState => "cashu_checkState"@,
            Operation::GetInfo => "cashu_getInfo"@,
            Operation::Restore => "cashu_restore"@,
        },
{
}

/// A request whose method is that of an operation begins this operation, with
/// the parameters and the identifier of the request. A request with any other
/// method is answered, under its identifier, that there is no such method.
pub proof fn law_method_decides_the_operation(
    req: RequestView,
    next: NextView,
    operation: Operation,
)
    requires
        dispatched(req, next),
    ensures
        operation.name() == req.method ==> next == begin(operation, req.params, req.id),
        (forall|other: Operation| #[trigger] other.name() != req.method) ==> (
        next matches NextView::Reply(response) && response.id == req.id && response.result is None
            && (response.error matches Some(error) && error.code == -32601 && error.message
            == "unknown method: "@ + req.method)),
{
}

/// What a request carries reaches the mint as it is: an operation without
/// parameters asks the mint at once, and one whose parameters are a request of
/// its own is handed these very parameters to decode. The call has the
/// operation and the identifier of the request.
pub proof fn law_params_are_handed_on_whole(operation: Operation, params: Json, id: Json)
    ensures
        operation is GetKeys || operation is GetKeysets || operation is GetInfo ==> begin(
            operation,
            params,
            id,
        ) == NextView::Do(CallView { operation, id, stage: Stage::Mint }, TaskView::AskMint),
        operation is PostSwap || operation is PostMint || operation is PostMelt
            || operation is CheckState || operation is Restore ==> begin(operation, params, id)
            == NextView::Do(
            CallView { operation, id, stage: Stage::Params },
            TaskView::ReadParams(params),
        ),
{
}

/// An operation that looks something up is handed the identifier that the
/// parameters hold, whatever value it is: the member `id`, among any other
/// members, or the only item of an array. Parameters without one are handed on
/// to be refused.
pub proof fn law_identifiers_are_handed_on_whole(
    operation: Operation,
    members: Map<Seq<char>, Json>,
    items: Seq<Json>,
    value: Json,
    id: Json,
)
    requires
        operation is GetKeyById || operation is GetMintQuote || operation is GetMeltQuote,
    ensures
        ({
            let looking = NextView::Do(
                CallView { operation, id, stage: Stage::Id },
                TaskView::ReadId(value),
            );
            let call = CallView { operation, id, stage: Stage::Params };
            let without = Json::Object(members.remove("id"@).remove("keyset_id"@));
            let with_id = members.insert("id"@, value);
            &&& begin(operation, Json::Array(seq![value]), id) == looking
            &&& !(operation is GetKeyById) ==> begin(operation, Json::Object(with_id), id) == looking
            &&& begin(operation, Json::Object(with_id.remove("keyset_id"@)), id) == looking
            &&& begin(operation, without, id) == NextView::Do(call, TaskView::ReadParams(without))
            &&& items.len() != 1 ==> begin(operation, Json::Array(items), id) == NextView::Do(
                call,
                TaskView::ReadParams(Json::Array(items)),
            )
            &&& !(value is Object) && !(value is Array) ==> begin(operation, value, id)
                == NextView::Do(call, TaskView::ReadParams(value))
        }),
{
    reveal_strlit("id");
    reveal_strlit("keyset_id");
    assert("id"@.len() == 2 && "keyset_id"@.len() == 9);
}

/// Quote parameters that are no object, or whose payment method is no text, are
/// handed on as they are, to be refused.
pub proof fn law_malformed_quote_params_are_handed_on(
    operation: Operation,
    members: Map<Seq<char>, Json>,
    method: Json,
    params: Json,
    id: Json,
)
    requires
        operation is PostMintQuote || operation is PostMeltQuote,
    ensures
        !(params is Object) ==> begin(operation, params, id) == NextView::Do(
            CallView { operation, id, stage: Stage::Params },
            TaskView::ReadParams(params),
        ),
        !(method is Text) ==> ({
            let named = Json::Object(members.insert("payment_method"@, method));
            begin(operation, named, id) == NextView::Do(
                CallView { operation, id, stage: Stage::Params },
                TaskView::ReadParams(named),
            )
        }),
{
}

/// What comes of a task decides what follows, under the operation and the
/// identifier of the call: what was decoded is put to the mint, what the mint
/// answered is converted, and the answer in JSON is the result of the response.
/// A failure is the error of the response, with its text.
pub proof fn law_outcomes_decide_what_follows(call: CallView, error: Seq<char>, answer: Json)
    ensures
        ({
            let operation = call.operation;
            let id = call.id;
            let asking = NextView::Do(
                CallView { operation, id, stage: Stage::Mint },
                TaskView::AskMint,
            );
            let internal = NextView::Reply(ResponseView::err(id, (-32603) as i32, error));
            &&& call.next(OutcomeView::ParamsRead) == asking
            &&& call.next(OutcomeView::QuoteRead) == asking
            &&& call.next(OutcomeView::Answered) == NextView::Do(
                CallView { operation, id, stage: Stage::Encode },
                TaskView::EncodeAnswer,
            )
            &&& call.next(OutcomeView::Encoded(answer)) == NextView::Reply(
                ResponseView::ok(id, answer),
            )
            &&& call.next(OutcomeView::ParamsRefused(error)) == NextView::Reply(
                ResponseView::err(id, (-32602) as i32, "invalid params: "@ + error),
            )
            &&& call.next(OutcomeView::QuoteRefused(error)) == NextView::Reply(
                ResponseView::err(id, (-32602) as i32, error),
            )
            &&& call.next(OutcomeView::Failed(error)) == internal
            &&& call.next(OutcomeView::NotEncoded(error)) == internal
        }),
{
}

/// A call takes every outcome that its task can have.
pub proof fn law_calls_take_what_comes(operation: Operation, id: Json, error: Seq<char>, answer: Json)
    ensures
        ({
            let params = CallView { operation, id, stage: Stage::Params };
            let looking = CallView { operation, id, stage: Stage::Id };
            let quote = CallView { operation, id, stage: Stage::Quote };
            let mint = CallView { operation, id, stage: Stage::Mint };
            let encode = CallView { operation, id, stage: Stage::Encode };
            &&& params.waits_for(OutcomeView::ParamsRefused(error))
            &&& operation is PostSwap || operation is PostMint || operation is PostMelt
                || operation is CheckState || operation is Restore ==> params.waits_for(
                OutcomeView::ParamsRead,
            )
            &&& looking.waits_for(OutcomeView::ParamsRead)
            &&& looking.waits_for(OutcomeView::ParamsRefused(error))
            &&& quote.waits_for(OutcomeView::QuoteRead)
            &&& quote.waits_for(OutcomeView::QuoteRefused(error))
            &&& mint.waits_for(OutcomeView::Answered)
            &&& !(operation is GetKeys) && !(operation is GetKeysets) ==> mint.waits_for(
                OutcomeView::Failed(error),
            )
            &&& encode.waits_for(OutcomeView::Encoded(answer))
            &&& encode.waits_for(OutcomeView::NotEncoded(error))
        }),
{
}

/// The models of calls, tasks and outcomes hold what these hold.
pub proof fn law_calls_are_modelled_whole(call: Call, task: Task, outcome: Outcome, next: Next)
    ensures
        call@.operation == call.operation && call@.id == json_of(call.id) && call@.stage
            == call.stage,
        match task {
            Task::ReadParams(params) => task@ == TaskView::ReadParams(json_of(params)),
            Task::ReadId(id) => task@ == TaskView::ReadId(json_of(id)),
            Task::ReadQuote(kind, rest) => task@ == TaskView::ReadQuote(
                match kind {
                    QuoteKind::Bolt11 => QuoteKindView::Bolt11,
                    QuoteKind::Custom(name) => QuoteKindView::Custom(name@),
                    QuoteKind::Unnamed => QuoteKindView::Unnamed,
                },
                json_of(rest),
            ),
            Task::AskMint => task@ is AskMint,
            Task::EncodeAnswer => task@ is EncodeAnswer,
        },
        match outcome {
            Outcome::ParamsRead => outcome@ is ParamsRead,
            Outcome::ParamsRefused(text) => outcome@ == OutcomeView::ParamsRefused(text@),
            Outcome::QuoteRead => outcome@ is QuoteRead,
            Outcome::QuoteRefused(text) => outcome@ == OutcomeView::QuoteRefused(text@),
            Outcome::Answered => outcome@ is Answered,
            Outcome::Failed(text) => outcome@ == OutcomeView::Failed(text@),
            Outcome::Encoded(answer) => outcome@ == OutcomeView::Encoded(json_of(answer)),
            Outcome::NotEncoded(text) => outcome@ == OutcomeView::NotEncoded(text@),
        },
        match next {
            Next::Do(later, work) => next@ == NextView::Do(later@, work@),
            Next::Reply(response) => next@ == NextView::Reply(response@),
        },
        forall|value: Value| #[trigger] option_view(Some(value)) == Some(json_of(value)),
        option_view(None) is None,
{
}

/// What parameters hold is what was put into them: the identifier of a quote or
/// of a key set, and the payment method of a quote beside its other members,
/// whatever values these are.
pub proof fn law_params_hold_what_was_put_in(
    members: Map<Seq<char>, Json>,
    value: Json,
    name: Seq<char>,
    items: Seq<Json>,
)
    ensures
        quote_id_in(Json::Object(members.insert("id"@, value))) == Some(value),
        quote_id_in(Json::Object(members.remove("id"@))) is None,
        quote_id_in(Json::Array(seq![value])) == Some(value),
        keyset_in(Json::Object(members.remove("keyset_id"@).insert("id"@, value))) == Some(value),
        keyset_in(Json::Object(members.remove("id"@).insert("keyset_id"@, value))) == Some(value),
        keyset_in(Json::Object(members.remove("id"@).remove("keyset_id"@))) is None,
        keyset_in(Json::Object(members.insert("id"@, value).insert("keyset_id"@, value))) is None,
        keyset_in(Json::Array(seq![value])) == Some(value),
        items.len() != 1 ==> keyset_in(Json::Array(items)) is None && quote_id_in(
            Json::Array(items),
        ) is None,
        quote_in(Json::Object(members.insert("payment_method"@, Json::Text(name)))) == Some(
            (name, Json::Object(members.remove("payment_method"@))),
        ),
        quote_in(Json::Object(members.remove("payment_method"@))) == Some(
            ("bolt11"@, Json::Object(members.remove("payment_method"@))),
        ),
        !(value is Text) ==> quote_in(
            Json::Object(members.insert("payment_method"@, value)),
        ) is None,
        !(value is Object) ==> quote_in(value) is None,
        !(value is Object) && !(value is Array) ==> quote_id_in(value) is None && keyset_in(
            value,
        ) is None,
{
    reveal_strlit("id");
    reveal_strlit("keyset_id");
    assert("id"@.len() == 2 && "keyset_id"@.len() == 9);
    let named = members.insert("payment_method"@, Json::Text(name));
    assert(named.remove("payment_method"@) =~= members.remove("payment_method"@));
}

/// Only `bolt11` is taken for a Lightning invoice. Any other payment method is a
/// custom one, with its own name for a mint quote and without it for a melt quote.
pub proof fn law_payment_methods(name: Seq<char>)
    ensures
        kind_named(Operation::PostMintQuote, "bolt11"@) is Bolt11,
        kind_named(Operation::PostMeltQuote, "bolt11"@) is Bolt11,
        name != "bolt11"@ ==> kind_named(Operation::PostMintQuote, name) == QuoteKindView::Custom(
            name,
        ),
        name != "bolt11"@ ==> kind_named(Operation::PostMeltQuote, name) is Unnamed,
{
}

} // verus!
