//! The line to the worker that talks to the node.
//!
//! A request is handed over together with a channel for its answer. The answer is
//! looked for without waiting, once a frame.

use crate::flow;
use crate::json::{Json, JsonView};
use crate::rpc;
use crate::rpc::{RpcError, RpcErrorView};
use tokio::sync::mpsc;
use tokio::sync::oneshot;
use vstd::prelude::*;

verus! {

/// Declares `tokio::sync::oneshot::error::RecvError`, which the receiver's own impls name.
#[verifier::external_type_specification]
#[verifier::external_body]
pub struct ExRecvError(oneshot::error::RecvError);

/// Declares `tokio::sync::oneshot::Receiver`.
#[verifier::external_type_specification]
#[verifier::external_body]
#[verifier::reject_recursive_types(T)]
pub struct ExReceiver<T>(oneshot::Receiver<T>);

/// Declares `tokio::sync::oneshot::Sender`.
#[verifier::external_type_specification]
#[verifier::external_body]
#[verifier::reject_recursive_types(T)]
pub struct ExSender<T>(oneshot::Sender<T>);

/// Declares `tokio::sync::mpsc::UnboundedSender`.
#[verifier::external_type_specification]
#[verifier::external_body]
#[verifier::reject_recursive_types(T)]
pub struct ExUnboundedSender<T>(mpsc::UnboundedSender<T>);

/// What a look into an answer channel finds.
#[derive(Debug, PartialEq, Eq)]
pub enum Received<T> {
    Value(T),
    /// No answer yet.
    Empty,
    /// There will be no answer, or it was taken before.
    Closed,
}

/// A request to the worker.
pub enum ChainRequest {
    /// A single call.
    Rpc { method: String, params: Json, reply: oneshot::Sender<Result<Json, RpcError>> },
    /// A full round of play; the answer is its report.
    RunFlow {
        rpc_url: String,
        token: Option<String>,
        chain_id: u64,
        report: oneshot::Sender<Result<String, String>>,
    },
}

/// A single call on its way.
pub struct PendingRpc {
    pub rx: oneshot::Receiver<Result<Json, RpcError>>,
}

/// A full round of play on its way.
pub struct ChainFlowTask {
    pub rx: oneshot::Receiver<Result<String, String>>,
}

/// The sending end of the line to the worker.
pub struct ChainHandle {
    pub tx: mpsc::UnboundedSender<ChainRequest>,
}

/// Nothing more will come out of this end: what it was waiting for, or the word that
/// there will be nothing, has been taken.
pub uninterp spec fn rpc_spent(rx: oneshot::Receiver<Result<Json, RpcError>>) -> bool;

/// The channel of this end is given up without anything being sent to it.
pub uninterp spec fn rpc_deserted(rx: oneshot::Receiver<Result<Json, RpcError>>) -> bool;

/// That outcome is what is sent to this end.
pub uninterp spec fn rpc_answered(
    rx: oneshot::Receiver<Result<Json, RpcError>>,
    outcome: Result<Json, RpcError>,
) -> bool;

/// Nothing more will come out of this end: what it was waiting for, or the word that
/// there will be nothing, has been taken.
pub uninterp spec fn flow_spent(rx: oneshot::Receiver<Result<String, String>>) -> bool;

/// The channel of this end is given up without anything being sent to it.
pub uninterp spec fn flow_deserted(rx: oneshot::Receiver<Result<String, String>>) -> bool;

/// That report is what is sent to this end.
pub uninterp spec fn flow_answered(
    rx: oneshot::Receiver<Result<String, String>>,
    report: Result<String, String>,
) -> bool;

/// Calls `try_recv` of `tokio::sync::oneshot::Receiver` for the outcome of a call. Claims
/// that a spent end is found closed, and else only one whose channel is given up; that any
/// find but an empty one leaves the end spent, and an empty one leaves it as it is and not
/// spent; and that a value is what was sent to it. Which of these is found of an end that
/// is not spent rests on how far the worker is, and is not said.
#[verifier::external_body]
fn rpc_try_recv(rx: &mut oneshot::Receiver<Result<Json, RpcError>>) -> (r: Received<
    Result<Json, RpcError>,
>)
    ensures
        rpc_spent(*old(rx)) ==> r is Closed,
        rpc_spent(*final(rx)) <==> !(r is Empty),
        r is Closed ==> rpc_spent(*old(rx)) || rpc_deserted(*old(rx)),
        r is Value ==> rpc_answered(*old(rx), r->Value_0) && !rpc_deserted(*old(rx)),
        r is Empty ==> *final(rx) == *old(rx),
{
    match rx.try_recv() {
        Ok(value) => Received::Value(value),
        Err(oneshot::error::TryRecvError::Empty) => Received::Empty,
        Err(oneshot::error::TryRecvError::Closed) => Received::Closed,
    }
}

/// Calls `try_recv` of `tokio::sync::oneshot::Receiver` for the report of a round. Claims
/// the same as for the outcome of a call.
#[verifier::external_body]
fn flow_try_recv(rx: &mut oneshot::Receiver<Result<String, String>>) -> (r: Received<
    Result<String, String>,
>)
    ensures
        flow_spent(*old(rx)) ==> r is Closed,
        flow_spent(*final(rx)) <==> !(r is Empty),
        r is Closed ==> flow_spent(*old(rx)) || flow_deserted(*old(rx)),
        r is Value ==> flow_answered(*old(rx), r->Value_0) && !flow_deserted(*old(rx)),
        r is Empty ==> *final(rx) == *old(rx),
{
    match rx.try_recv() {
        Ok(value) => Received::Value(value),
        Err(oneshot::error::TryRecvError::Empty) => Received::Empty,
        Err(oneshot::error::TryRecvError::Closed) => Received::Closed,
    }
}

/// Both ends are of one channel: what is sent on the one is received on the other.
pub uninterp spec fn rpc_ends_joined(
    reply: oneshot::Sender<Result<Json, RpcError>>,
    rx: oneshot::Receiver<Result<Json, RpcError>>,
) -> bool;

/// Both ends are of one channel: what is sent on the one is received on the other.
pub uninterp spec fn flow_ends_joined(
    report: oneshot::Sender<Result<String, String>>,
    rx: oneshot::Receiver<Result<String, String>>,
) -> bool;

/// Calls `tokio::sync::oneshot::channel` for the outcome of a call. Claims that the two
/// ends are of one channel, and that the waiting end is not spent.
#[verifier::external_body]
fn rpc_channel() -> (r: (
    oneshot::Sender<Result<Json, RpcError>>,
    oneshot::Receiver<Result<Json, RpcError>>,
))
    ensures
        rpc_ends_joined(r.0, r.1),
        !rpc_spent(r.1),
{
    oneshot::channel()
}

/// Calls `tokio::sync::oneshot::channel` for the report of a round. Claims that the two
/// ends are of one channel, and that the waiting end is not spent.
#[verifier::external_body]
fn flow_channel() -> (r: (
    oneshot::Sender<Result<String, String>>,
    oneshot::Receiver<Result<String, String>>,
))
    ensures
        flow_ends_joined(r.0, r.1),
        !flow_spent(r.1),
{
    oneshot::channel()
}

/// That request was put on the worker's line.
pub uninterp spec fn request_taken(
    tx: mpsc::UnboundedSender<ChainRequest>,
    request: ChainRequest,
) -> bool;

/// Calls `send` of `tokio::sync::mpsc::UnboundedSender`, and says whether it succeeded.
/// Claims that the request was put on the line exactly where it did. Each request has a
/// reply channel of its own and is sent once, so this is settled for it. Whether it is
/// taken rests on whether the worker lives, and is not said.
#[verifier::external_body]
fn send_request(tx: &mpsc::UnboundedSender<ChainRequest>, request: ChainRequest) -> (r: bool)
    ensures
        r <==> request_taken(*tx, request),
{
    tx.send(request).is_ok()
}

/// Calls `clone` of `tokio::sync::mpsc::UnboundedSender`. Claims that the copy is an end of
/// the same line.
#[verifier::external_body]
fn copy_line(tx: &mpsc::UnboundedSender<ChainRequest>) -> (r: mpsc::UnboundedSender<ChainRequest>)
    ensures
        r == *tx,
{
    tx.clone()
}

/// The outcome of a call whose worker is gone.
pub open spec fn rpc_closed() -> Result<JsonView, RpcErrorView> {
    Err(RpcErrorView::BadResponse("chain worker closed"@))
}

/// The report of a round whose worker is gone.
pub open spec fn flow_closed() -> Result<Seq<char>, Seq<char>> {
    Err("chain worker closed"@)
}

/// What a look at a single call amounts to: no answer yet, or its outcome. A worker
/// that is gone is a bad answer.
pub open spec fn rpc_polled(got: Received<Result<Json, RpcError>>) -> Option<
    Result<JsonView, RpcErrorView>,
> {
    match got {
        Received::Value(r) => Some(rpc::outcome_view(r)),
        Received::Empty => None,
        Received::Closed => Some(rpc_closed()),
    }
}

/// What a look at a round of play amounts to.
pub open spec fn flow_polled(got: Received<Result<String, String>>) -> Option<
    Result<Seq<char>, Seq<char>>,
> {
    match got {
        Received::Value(r) => Some(flow::end_view(r)),
        Received::Empty => None,
        Received::Closed => Some(flow_closed()),
    }
}

/// The outcome of a call that may still be on its way, mathematically.
pub open spec fn rpc_poll_view(r: Option<Result<Json, RpcError>>) -> Option<
    Result<JsonView, RpcErrorView>,
> {
    match r {
        Some(r) => Some(rpc::outcome_view(r)),
        None => None,
    }
}

/// The report of a round that may still be on its way, mathematically.
pub open spec fn flow_poll_view(r: Option<Result<String, String>>) -> Option<
    Result<Seq<char>, Seq<char>>,
> {
    match r {
        Some(r) => Some(flow::end_view(r)),
        None => None,
    }
}

/// What a look at a single call amounts to.
pub fn rpc_outcome(got: Received<Result<Json, RpcError>>) -> (r: Option<Result<Json, RpcError>>)
    ensures
        rpc_poll_view(r) == rpc_polled(got),
{
    match got {
        Received::Value(r) => Some(r),
        Received::Empty => None,
        Received::Closed => Some(
            Err(RpcError::BadResponse("chain worker closed".to_string())),
        ),
    }
}

/// What a look at a round of play amounts to.
pub fn flow_outcome(got: Received<Result<String, String>>) -> (r: Option<Result<String, String>>)
    ensures
        flow_poll_view(r) == flow_polled(got),
{
    match got {
        Received::Value(r) => Some(r),
        Received::Empty => None,
        Received::Closed => Some(Err("chain worker closed".to_string())),
    }
}

/// A look at a call: from an end as it was, by what it found, to the end as it is then.
/// Without an answer the end is as it was. Whatever comes out leaves the end spent. Of an
/// end that is spent, or whose channel was given up, it comes out that the worker is gone;
/// of any other, what was sent to it.
pub open spec fn rpc_look(
    before: oneshot::Receiver<Result<Json, RpcError>>,
    found: Option<Result<JsonView, RpcErrorView>>,
    after: oneshot::Receiver<Result<Json, RpcError>>,
) -> bool {
    &&& rpc_spent(before) ==> found == Some(rpc_closed())
    &&& rpc_spent(after) <==> found is Some
    &&& found is None ==> after == before
    &&& found matches Some(outcome) ==> if rpc_spent(before) || rpc_deserted(before) {
        outcome == rpc_closed()
    } else {
        exists|sent: Result<Json, RpcError>| #[trigger]
            rpc_answered(before, sent) && rpc::outcome_view(sent) == outcome
    }
}

/// A look at a round, in the same way.
pub open spec fn flow_look(
    before: oneshot::Receiver<Result<String, String>>,
    found: Option<Result<Seq<char>, Seq<char>>>,
    after: oneshot::Receiver<Result<String, String>>,
) -> bool {
    &&& flow_spent(before) ==> found == Some(flow_closed())
    &&& flow_spent(after) <==> found is Some
    &&& found is None ==> after == before
    &&& found matches Some(report) ==> if flow_spent(before) || flow_deserted(before) {
        report == flow_closed()
    } else {
        exists|sent: Result<String, String>| #[trigger]
            flow_answered(before, sent) && flow::end_view(sent) == report
    }
}

impl PendingRpc {
    /// Looks for the answer without waiting.
    pub fn poll(&mut self) -> (r: Option<Result<Json, RpcError>>)
        ensures
            rpc_look(old(self).rx, rpc_poll_view(r), final(self).rx),
    {
        rpc_outcome(rpc_try_recv(&mut self.rx))
    }
}

impl ChainFlowTask {
    /// Looks for the report without waiting.
    pub fn poll(&mut self) -> (r: Option<Result<String, String>>)
        ensures
            flow_look(old(self).rx, flow_poll_view(r), final(self).rx),
    {
        flow_outcome(flow_try_recv(&mut self.rx))
    }
}

/// Looks at a call, one after the other: `ends[i]` is the end before the look that found
/// `found[i]`.
pub open spec fn rpc_looks(
    ends: Seq<oneshot::Receiver<Result<Json, RpcError>>>,
    found: Seq<Option<Result<JsonView, RpcErrorView>>>,
) -> bool {
    &&& ends.len() == found.len() + 1
    &&& forall|i: int| 0 <= i < found.len() ==> #[trigger] rpc_look(ends[i], found[i], ends[i + 1])
}

/// Looks at a round, one after the other.
pub open spec fn flow_looks(
    ends: Seq<oneshot::Receiver<Result<String, String>>>,
    found: Seq<Option<Result<Seq<char>, Seq<char>>>>,
) -> bool {
    &&& ends.len() == found.len() + 1
    &&& forall|i: int| 0 <= i < found.len() ==> #[trigger] flow_look(ends[i], found[i], ends[i + 1])
}

/// However often a call is looked at, its answer comes out at most once: every look after
/// the first that found something finds that the worker is gone, and every look before it
/// left the waiting end as it was.
pub proof fn law_answer_comes_once(
    ends: Seq<oneshot::Receiver<Result<Json, RpcError>>>,
    found: Seq<Option<Result<JsonView, RpcErrorView>>>,
    i: int,
    j: int,
)
    requires
        rpc_looks(ends, found),
        0 <= i < j < found.len(),
    ensures
        found[i] is Some ==> found[j] == Some(rpc_closed()),
        found[j - 1] is None ==> ends[j] == ends[i],
    decreases j - i,
{
    assert(rpc_look(ends[j - 1], found[j - 1], ends[j - 1 + 1]));
    assert(rpc_look(ends[j], found[j], ends[j + 1]));
    if i < j - 1 {
        law_answer_comes_once(ends, found, i, j - 1);
        assert(rpc_look(ends[j - 2], found[j - 2], ends[j - 2 + 1]));
    }
}

/// However often a round is looked at, its report comes out at most once: every look
/// after the first that found something finds that the worker is gone, and every look
/// before it left the waiting end as it was.
pub proof fn law_report_comes_once(
    ends: Seq<oneshot::Receiver<Result<String, String>>>,
    found: Seq<Option<Result<Seq<char>, Seq<char>>>>,
    i: int,
    j: int,
)
    requires
        flow_looks(ends, found),
        0 <= i < j < found.len(),
    ensures
        found[i] is Some ==> found[j] == Some(flow_closed()),
        found[j - 1] is None ==> ends[j] == ends[i],
    decreases j - i,
{
    assert(flow_look(ends[j - 1], found[j - 1], ends[j - 1 + 1]));
    assert(flow_look(ends[j], found[j], ends[j + 1]));
    if i < j - 1 {
        law_report_comes_once(ends, found, i, j - 1);
        assert(flow_look(ends[j - 2], found[j - 2], ends[j - 2 + 1]));
    }
}

/// The first that comes out of an end that is not spent and whose channel was not given
/// up is what was sent to it.
pub proof fn law_first_find_is_the_answer(
    ends: Seq<oneshot::Receiver<Result<Json, RpcError>>>,
    found: Seq<Option<Result<JsonView, RpcErrorView>>>,
    i: int,
)
    requires
        rpc_looks(ends, found),
        0 <= i < found.len(),
        found[i] is Some,
        i > 0 ==> found[i - 1] is None,
        !rpc_spent(ends[0]),
        !rpc_deserted(ends[0]),
    ensures
        exists|sent: Result<Json, RpcError>| #[trigger]
            rpc_answered(ends[0], sent) && found[i] == Some(rpc::outcome_view(sent)),
{
    if i > 0 {
        law_answer_comes_once(ends, found, 0, i);
    }
    assert(rpc_look(ends[i], found[i], ends[i + 1]));
}

/// The first that comes out of an end that is not spent and whose channel was not given
/// up is the report that was sent to it.
pub proof fn law_first_find_is_the_report(
    ends: Seq<oneshot::Receiver<Result<String, String>>>,
    found: Seq<Option<Result<Seq<char>, Seq<char>>>>,
    i: int,
)
    requires
        flow_looks(ends, found),
        0 <= i < found.len(),
        found[i] is Some,
        i > 0 ==> found[i - 1] is None,
        !flow_spent(ends[0]),
        !flow_deserted(ends[0]),
    ensures
        exists|sent: Result<String, String>| #[trigger]
            flow_answered(ends[0], sent) && found[i] == Some(flow::end_view(sent)),
{
    if i > 0 {
        law_report_comes_once(ends, found, 0, i);
    }
    assert(flow_look(ends[i], found[i], ends[i + 1]));
}

/// A request is for that call, and its answer is what is waited for.
pub open spec fn asks_for_call(
    request: ChainRequest,
    method: String,
    params: Json,
    pending: PendingRpc,
) -> bool {
    request matches ChainRequest::Rpc { method: m, params: p, reply } && m == method && p == params
        && rpc_ends_joined(reply, pending.rx) && !rpc_spent(pending.rx)
}

/// A request is for that round of play, and its report is what is waited for.
pub open spec fn asks_for_flow(
    request: ChainRequest,
    rpc_url: String,
    token: Option<String>,
    chain_id: u64,
    task: ChainFlowTask,
) -> bool {
    request matches ChainRequest::RunFlow { rpc_url: u, token: t, chain_id: c, report } && u
        == rpc_url && t == token && c == chain_id && flow_ends_joined(report, task.rx)
        && !flow_spent(task.rx)
}

/// A single call with the channel for its answer.
pub fn rpc_request(method: String, params: Json) -> (r: (ChainRequest, PendingRpc))
    ensures
        asks_for_call(r.0, method, params, r.1),
{
    let (reply, rx) = rpc_channel();
    (ChainRequest::Rpc { method, params, reply }, PendingRpc { rx })
}

/// A full round of play with the channel for its report.
pub fn flow_request(rpc_url: String, token: Option<String>, chain_id: u64) -> (r: (
    ChainRequest,
    ChainFlowTask,
))
    ensures
        asks_for_flow(r.0, rpc_url, token, chain_id, r.1),
{
    let (report, rx) = flow_channel();
    (ChainRequest::RunFlow { rpc_url, token, chain_id, report }, ChainFlowTask { rx })
}

/// Something that is waited for only where the request for it was taken.
pub fn if_taken<T>(taken: bool, pending: T) -> (r: Option<T>)
    ensures
        r == if taken {
            Some(pending)
        } else {
            None
        },
{
    if taken {
        Some(pending)
    } else {
        None
    }
}

impl Clone for ChainHandle {
    fn clone(&self) -> (r: ChainHandle)
        ensures
            r.tx == self.tx,
    {
        ChainHandle { tx: copy_line(&self.tx) }
    }
}

impl ChainHandle {
    /// Hands the request of [`rpc_request`] to the worker. Where something comes back, a
    /// request for exactly that call was put on the line, and what comes back waits for
    /// its answer. Where nothing comes back, the request for it was not taken: the worker is
    /// gone. When that is so rests on the worker alone, and is not said.
    pub fn call(&self, method: String, params: Json) -> (r: Option<PendingRpc>)
        ensures
            r is Some ==> exists|request: ChainRequest|
                request_taken(self.tx, request) && asks_for_call(request, method, params, r->0),
            r is None ==> exists|request: ChainRequest, pending: PendingRpc|
                !request_taken(self.tx, request) && asks_for_call(
                    request,
                    method,
                    params,
                    pending,
                ),
    {
        let (request, pending) = rpc_request(method, params);
        let ghost waiting = pending;
        let r = if_taken(send_request(&self.tx, request), pending);
        assert(asks_for_call(request, method, params, waiting));
        assert(r is Some ==> r->0 == waiting);
        r
    }

    /// Hands the request of [`flow_request`] to the worker. Where something comes back, a
    /// request for exactly that round was put on the line, and what comes back waits for
    /// its report. Where nothing comes back, the request for it was not taken: the worker is
    /// gone. When that is so rests on the worker alone, and is not said.
    pub fn spawn_chain_flow(
        &self,
        rpc_url: String,
        token: Option<String>,
        chain_id: u64,
    ) -> (r: Option<ChainFlowTask>)
        ensures
            r is Some ==> exists|request: ChainRequest|
                request_taken(self.tx, request) && asks_for_flow(
                    request,
                    rpc_url,
                    token,
                    chain_id,
                    r->0,
                ),
            r is None ==> exists|request: ChainRequest, task: ChainFlowTask|
                !request_taken(self.tx, request) && asks_for_flow(
                    request,
                    rpc_url,
                    token,
                    chain_id,
                    task,
                ),
    {
        let (request, task) = flow_request(rpc_url, token, chain_id);
        let ghost waiting = task;
        let r = if_taken(send_request(&self.tx, request), task);
        assert(asks_for_flow(request, rpc_url, token, chain_id, waiting));
        assert(r is Some ==> r->0 == waiting);
        r
    }
}

/// What is found in a channel is what comes of it: a value as it is, nothing while there
/// is none, and of a channel that is closed, that the worker is gone.
pub proof fn law_find_is_what_comes_of_it(
    outcome: Result<Json, RpcError>,
    report: Result<String, String>,
)
    ensures
        rpc_polled(Received::Value(outcome)) == Some(rpc::outcome_view(outcome)),
        rpc_polled(Received::Empty) is None,
        rpc_polled(Received::Closed) == Some(
            Err::<JsonView, RpcErrorView>(RpcErrorView::BadResponse("chain worker closed"@)),
        ),
        flow_polled(Received::Value(report)) == Some(flow::end_view(report)),
        flow_polled(Received::Empty) is None,
        flow_polled(Received::Closed) == Some(
            Err::<Seq<char>, Seq<char>>("chain worker closed"@),
        ),
        rpc_poll_view(Some(outcome)) == Some(rpc::outcome_view(outcome)),
        rpc_poll_view(None) is None,
        flow_poll_view(Some(report)) == Some(flow::end_view(report)),
        flow_poll_view(None) is None,
{
}

/// A request for a call holds that call's own method and parameters, and answers to the
/// end that is waited at, which is not spent; a request for a round in the same way holds
/// that round's own node, token and chain.
pub proof fn law_request_holds_what_is_asked(
    request: ChainRequest,
    method: String,
    params: Json,
    pending: PendingRpc,
    rpc_url: String,
    token: Option<String>,
    chain_id: u64,
    task: ChainFlowTask,
)
    ensures
        asks_for_call(request, method, params, pending) ==> (request matches ChainRequest::Rpc {
            method: m,
            params: p,
            reply,
        } && m@ == method@ && p@ == params@ && rpc_ends_joined(reply, pending.rx) && !rpc_spent(
            pending.rx,
        )),
        asks_for_flow(request, rpc_url, token, chain_id, task) ==> (request matches
            ChainRequest::RunFlow { rpc_url: u, token: t, chain_id: c, report } && u@ == rpc_url@
            && rpc::text_option_view(t) == rpc::text_option_view(token) && c == chain_id
            && flow_ends_joined(report, task.rx) && !flow_spent(task.rx)),
{
}

/// A look that finds nothing leaves the end as it was and is made of an end that is not
/// spent; a look at a spent or deserted end that finds something finds the worker gone.
pub proof fn law_look_changes_only_what_it_takes(
    before: oneshot::Receiver<Result<Json, RpcError>>,
    found: Option<Result<JsonView, RpcErrorView>>,
    after: oneshot::Receiver<Result<Json, RpcError>>,
    flow_before: oneshot::Receiver<Result<String, String>>,
    flow_found: Option<Result<Seq<char>, Seq<char>>>,
    flow_after: oneshot::Receiver<Result<String, String>>,
)
    requires
        rpc_look(before, found, after),
        flow_look(flow_before, flow_found, flow_after),
    ensures
        found is None ==> after == before && !rpc_spent(before),
        found is Some ==> rpc_spent(after),
        found is Some && (rpc_spent(before) || rpc_deserted(before)) ==> found == Some(
            Err::<JsonView, RpcErrorView>(RpcErrorView::BadResponse("chain worker closed"@)),
        ),
        flow_found is None ==> flow_after == flow_before && !flow_spent(flow_before),
        flow_found is Some ==> flow_spent(flow_after),
        flow_found is Some && (flow_spent(flow_before) || flow_deserted(flow_before)) ==> flow_found
            == Some(Err::<Seq<char>, Seq<char>>("chain worker closed"@)),
{
}

} // verus!
