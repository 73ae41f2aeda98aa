//! What the client does in each frame with an answer that may still be on its way.
//!
//! Nothing here waits: an object of the chain is asked for now and then, and while an
//! answer is on its way it is only looked for.

use crate::client::{ChainConfig, ConfigView};
use crate::flow;
use crate::json::{Json, JsonView};
use crate::rpc;
use crate::rpc::{list_of, RpcError, RpcErrorView};
use crate::worker;
use crate::worker::{ChainFlowTask, PendingRpc};
use tokio::sync::oneshot;
use vstd::prelude::*;

verus! {

/// The state of an object on the chain has arrived.
#[derive(Debug, PartialEq)]
pub struct ObjectSynced {
    pub object_id: String,
    pub value: Json,
}

/// A round of play has ended, with its report or with the reason of its failure.
#[derive(Debug, PartialEq, Eq)]
pub struct ChainFlowResult(pub Result<String, String>);

impl Clone for ObjectSynced {
    fn clone(&self) -> (r: ObjectSynced)
        ensures
            r.object_id@ == self.object_id@,
            r.value@ == self.value@,
    {
        ObjectSynced { object_id: self.object_id.clone(), value: self.value.copy() }
    }
}

impl Clone for ChainFlowResult {
    fn clone(&self) -> (r: ChainFlowResult)
        ensures
            flow::end_view(r.0) == flow::end_view(self.0),
    {
        match &self.0 {
            Ok(summary) => ChainFlowResult(Ok(summary.clone())),
            Err(e) => ChainFlowResult(Err(e.clone())),
        }
    }
}

/// The watch over an object.
pub struct SyncState {
    /// How many frames the watch has counted.
    pub tick: u32,
    /// The question that is on its way.
    pub pending: Option<PendingRpc>,
}

/// What the watch does in a frame.
#[derive(Debug, PartialEq)]
pub enum SyncAction {
    Idle,
    /// Ask for the object.
    Request { method: String, params: Json },
    /// Look for the answer.
    Poll,
}

/// What came of a question.
#[derive(Debug, PartialEq)]
pub enum SyncReport {
    Synced(ObjectSynced),
    Failed(RpcError),
}

/// What the watch does in a frame, mathematically.
pub enum SyncActionView {
    Idle,
    Request { method: Seq<char>, params: JsonView },
    Poll,
}

/// What came of a question, mathematically.
pub enum SyncReportView {
    Synced { object_id: Seq<char>, value: JsonView },
    Failed(RpcErrorView),
}

impl View for SyncAction {
    type V = SyncActionView;

    open spec fn view(&self) -> SyncActionView {
        match self {
            SyncAction::Idle => SyncActionView::Idle,
            SyncAction::Request { method, params } => SyncActionView::Request {
                method: method@,
                params: params@,
            },
            SyncAction::Poll => SyncActionView::Poll,
        }
    }
}

impl View for SyncReport {
    type V = SyncReportView;

    open spec fn view(&self) -> SyncReportView {
        match self {
            SyncReport::Synced(s) => SyncReportView::Synced {
                object_id: s.object_id@,
                value: s.value@,
            },
            SyncReport::Failed(e) => SyncReportView::Failed(e@),
        }
    }
}

/// A report that may be missing, mathematically.
pub open spec fn report_option_view(r: Option<SyncReport>) -> Option<SyncReportView> {
    match r {
        Some(r) => Some(r@),
        None => None,
    }
}

/// How many frames one question is asked in; zero counts as one.
pub open spec fn sync_period(config: ConfigView) -> u32 {
    if config.sync_every_ticks > 1 {
        config.sync_every_ticks
    } else {
        1
    }
}

/// The frame is one that the watch counts.
pub open spec fn counts(config: ConfigView, waiting: bool) -> bool {
    config.object_id is Some && !waiting
}

/// What the watch does in a frame: nothing without an object; while a question is on
/// its way, look for its answer; else count the frame, and ask at the end of each period.
pub open spec fn sync_action(config: ConfigView, tick: u32, waiting: bool) -> SyncActionView {
    match config.object_id {
        None => SyncActionView::Idle,
        Some(object_id) => if waiting {
            SyncActionView::Poll
        } else if (tick + 1) % (sync_period(config) as int) == 0 {
            SyncActionView::Request {
                method: "rabbit_getObject"@,
                params: rpc::one_text(object_id),
            }
        } else {
            SyncActionView::Idle
        },
    }
}

/// What came of a question, given what was found of its answer.
pub open spec fn sync_report(
    object_id: Seq<char>,
    answer: Option<Result<JsonView, RpcErrorView>>,
) -> Option<SyncReportView> {
    match answer {
        None => None,
        Some(Ok(value)) => Some(SyncReportView::Synced { object_id, value }),
        Some(Err(e)) => Some(SyncReportView::Failed(e)),
    }
}

impl SyncState {
    /// A watch that has not begun.
    pub fn new() -> (r: SyncState)
        ensures
            r.tick == 0,
            r.pending is None,
    {
        SyncState { tick: 0, pending: None }
    }

    /// What to do in this frame.
    pub fn frame(&mut self, config: &ChainConfig) -> (r: SyncAction)
        requires
            counts(config@, old(self).pending is Some) ==> old(self).tick < u32::MAX,
        ensures
            r@ == sync_action(config@, old(self).tick, old(self).pending is Some),
            final(self).pending == old(self).pending,
            final(self).tick == old(self).tick + if counts(config@, old(self).pending is Some) {
                1int
            } else {
                0int
            },
    {
        match &config.object_id {
            None => SyncAction::Idle,
            Some(object_id) => {
                if self.pending.is_some() {
                    return SyncAction::Poll;
                }
                self.tick = self.tick + 1;
                let period: u32 = if config.sync_every_ticks > 1 {
                    config.sync_every_ticks
                } else {
                    1
                };
                if self.tick % period != 0 {
                    return SyncAction::Idle;
                }
                SyncAction::Request {
                    method: "rabbit_getObject".to_string(),
                    params: list_of(Json::Text(object_id.clone())),
                }
            },
        }
    }

    /// The question was handed to the worker, or the worker is gone; then the next
    /// period is waited for. Says whether there is an answer to look for.
    pub fn requested(&mut self, pending: Option<PendingRpc>) -> (r: bool)
        ensures
            r == (pending is Some),
            final(self).pending == pending,
            final(self).tick == old(self).tick,
    {
        self.pending = pending;
        self.pending.is_some()
    }

    /// Takes what was found of the answer. Once there is one, nothing is on its way
    /// any more.
    pub fn receive(
        &mut self,
        object_id: &str,
        answer: Option<Result<Json, RpcError>>,
    ) -> (r: Option<SyncReport>)
        ensures
            report_option_view(r) == sync_report(object_id@, worker::rpc_poll_view(answer)),
            answer is None ==> *final(self) == *old(self),
            answer is Some ==> final(self).pending is None && final(self).tick == old(self).tick,
    {
        match answer {
            None => None,
            Some(Ok(value)) => {
                self.pending = None;
                Some(
                    SyncReport::Synced(ObjectSynced { object_id: object_id.to_string(), value }),
                )
            },
            Some(Err(e)) => {
                self.pending = None;
                Some(SyncReport::Failed(e))
            },
        }
    }

    /// Looks for the answer without waiting.
    pub fn poll(&mut self, object_id: &str) -> (r: Option<SyncReport>)
        ensures
            old(self).pending is None ==> r is None,
            old(self).pending is Some ==> exists|
                found: Option<Result<JsonView, RpcErrorView>>,
                after: oneshot::Receiver<Result<Json, RpcError>>,
            |
                #[trigger] worker::rpc_look(old(self).pending->0.rx, found, after)
                    && report_option_view(r) == sync_report(object_id@, found),
            r is None ==> *final(self) == *old(self),
            r is Some ==> final(self).pending is None && final(self).tick == old(self).tick,
    {
        let answer = match &mut self.pending {
            Some(pending) => pending.poll(),
            None => None,
        };
        self.receive(object_id, answer)
    }
}

/// The watch over a round of play.
pub struct FlowWatch {
    pub task: Option<ChainFlowTask>,
}

/// What the watch over a round does in a frame.
#[derive(Clone, Copy, Debug, PartialEq, Eq, Structural)]
pub enum WatchAction {
    Idle,
    /// Have the worker play a round.
    Spawn,
    /// Look for its report.
    Poll,
}

/// A round is wanted: the setting is `1`.
pub open spec fn flow_wanted(setting: Option<Seq<char>>) -> bool {
    setting == Some("1"@)
}

/// The end of a round that may still be going on, mathematically.
pub open spec fn ended_view(r: Option<ChainFlowResult>) -> Option<Result<Seq<char>, Seq<char>>> {
    match r {
        Some(r) => Some(flow::end_view(r.0)),
        None => None,
    }
}

/// An optional text, mathematically.
pub open spec fn setting_view(s: Option<&str>) -> Option<Seq<char>> {
    match s {
        Some(s) => Some(s@),
        None => None,
    }
}

impl FlowWatch {
    /// A watch that has not begun.
    pub fn new() -> (r: FlowWatch)
        ensures
            r.task is None,
    {
        FlowWatch { task: None }
    }

    /// What to do in this frame: nothing unless a round is wanted; else begin it once,
    /// and then look for its report.
    pub fn frame(&self, setting: Option<&str>) -> (r: WatchAction)
        ensures
            r == if !flow_wanted(setting_view(setting)) {
                WatchAction::Idle
            } else if self.task is None {
                WatchAction::Spawn
            } else {
                WatchAction::Poll
            },
    {
        let wanted = match setting {
            Some(s) => s.to_string() == "1".to_string(),
            None => false,
        };
        if !wanted {
            WatchAction::Idle
        } else if self.task.is_none() {
            WatchAction::Spawn
        } else {
            WatchAction::Poll
        }
    }

    /// The worker took the round, or is gone, which ends the round at once.
    pub fn spawned(&mut self, task: Option<ChainFlowTask>) -> (r: Option<ChainFlowResult>)
        ensures
            final(self).task == task,
            ended_view(r) == if task is Some {
                None
            } else {
                Some(Err::<Seq<char>, Seq<char>>("worker unavailable"@))
            },
    {
        self.task = task;
        if self.task.is_some() {
            None
        } else {
            Some(ChainFlowResult(Err("worker unavailable".to_string())))
        }
    }

    /// Looks for the report without waiting. The client ends with the round.
    pub fn poll(&mut self) -> (r: Option<ChainFlowResult>)
        ensures
            old(self).task is None ==> r is None && final(self).task is None,
            old(self).task is Some ==> final(self).task is Some && worker::flow_look(
                old(self).task->0.rx,
                ended_view(r),
                final(self).task->0.rx,
            ),
    {
        match &mut self.task {
            Some(task) => match task.poll() {
                Some(report) => Some(ChainFlowResult(report)),
                None => None,
            },
            None => None,
        }
    }
}

/// Without an object to watch, nothing is ever asked for or counted, whatever the settings
/// say otherwise.
pub proof fn law_no_object_no_request(config: ConfigView, tick: u32, waiting: bool)
    requires
        config.object_id is None,
    ensures
        sync_action(config, tick, waiting) is Idle,
        !counts(config, waiting),
{
}

/// While a question is on its way, no second one is asked.
pub proof fn law_one_question_at_a_time(config: ConfigView, tick: u32)
    ensures
        !(sync_action(config, tick, true) is Request),
{
}

/// Of as many counted frames in a row as a period has, exactly one asks.
pub proof fn law_one_question_in_a_period(config: ConfigView, tick: u32) -> (k: u32)
    requires
        config.object_id is Some,
        tick + sync_period(config) <= u32::MAX,
    ensures
        k < sync_period(config),
        forall|i: u32|
            i < sync_period(config) ==> (#[trigger] sync_action(
                config,
                (tick + i) as u32,
                false,
            ) is Request <==> i == k),
{
    let p = sync_period(config) as int;
    let k = (p - 1 - tick as int % p) as u32;
    vstd::arithmetic::div_mod::lemma_fundamental_div_mod(tick as int, p);
    let q = tick as int / p;
    assert forall|i: u32| i < sync_period(config) implies (#[trigger] sync_action(
        config,
        (tick + i) as u32,
        false,
    ) is Request <==> i == k) by {
        let n = tick as int % p + i + 1;
        assert(tick + i + 1 == p * q + n);
        assert(0 < n < 2 * p);
        vstd::arithmetic::div_mod::lemma_mod_multiples_vanish(q, n, p);
        if n < p {
            vstd::arithmetic::div_mod::lemma_small_mod(n as nat, p as nat);
        } else if n > p {
            vstd::arithmetic::div_mod::lemma_mod_multiples_vanish(1, n - p, p);
            vstd::arithmetic::div_mod::lemma_small_mod((n - p) as nat, p as nat);
        } else {
            vstd::arithmetic::div_mod::lemma_mod_self_0(p);
        }
    }
    k
}

/// The watched object, and no other, is asked for by its own name, in every frame whose
/// count is a multiple of the period; a period of zero counts as one. In the other frames
/// nothing is done, and while a question is on its way its answer is looked for.
pub proof fn law_watched_object_is_asked_for(
    config: ConfigView,
    object_id: Seq<char>,
    tick: u32,
    waiting: bool,
)
    requires
        config.object_id == Some(object_id),
    ensures
        ({
            let period = if config.sync_every_ticks == 0 {
                1int
            } else {
                config.sync_every_ticks as int
            };
            &&& counts(config, waiting) <==> !waiting
            &&& waiting ==> sync_action(config, tick, waiting) == SyncActionView::Poll
            &&& !waiting && (tick + 1) % period == 0 ==> (sync_action(config, tick, waiting)
                matches SyncActionView::Request { method, params } && method
                == "rabbit_getObject"@ && params is Array && params->Array_0.len() == 1
                && params->Array_0[0] == JsonView::Text(object_id))
            &&& !waiting && (tick + 1) % period != 0 ==> sync_action(config, tick, waiting)
                == SyncActionView::Idle
        }),
{
}

/// An answer is reported once it is there, under the watched object's name, with the value
/// or the error as it came.
pub proof fn law_answer_is_reported_as_it_came(
    object_id: Seq<char>,
    v: JsonView,
    e: RpcErrorView,
)
    ensures
        sync_report(object_id, None) is None,
        sync_report(object_id, Some(Ok(v))) == Some(
            SyncReportView::Synced { object_id, value: v },
        ),
        sync_report(object_id, Some(Err(e))) == Some(SyncReportView::Failed(e)),
{
}

/// A round is wanted exactly where the setting is the single character `1`.
pub proof fn law_round_is_wanted_by_a_one(s: Seq<char>)
    ensures
        flow_wanted(Some(s)) <==> s.len() == 1 && s[0] == '1',
        !flow_wanted(None),
{
    reveal_strlit("1");
    if s.len() == 1 && s[0] == '1' {
        assert(s =~= "1"@);
    }
}

/// Actions, reports and results stand for what they hold.
pub proof fn law_reports_stand_for_what_they_hold(
    a: SyncAction,
    r: SyncReport,
    o: Option<SyncReport>,
    ended: Option<ChainFlowResult>,
    setting: Option<&str>,
)
    ensures
        match a {
            SyncAction::Idle => a@ == SyncActionView::Idle,
            SyncAction::Request { method, params } => a@ == (SyncActionView::Request {
                method: method@,
                params: params@,
            }),
            SyncAction::Poll => a@ == SyncActionView::Poll,
        },
        match r {
            SyncReport::Synced(s) => r@ == (SyncReportView::Synced {
                object_id: s.object_id@,
                value: s.value@,
            }),
            SyncReport::Failed(e) => r@ == SyncReportView::Failed(e@),
        },
        report_option_view(o) is Some <==> o is Some,
        o matches Some(r) ==> report_option_view(o) == Some(r@),
        ended_view(ended) is Some <==> ended is Some,
        ended matches Some(ChainFlowResult(Ok(s))) ==> ended_view(ended) == Some(
            Ok::<Seq<char>, Seq<char>>(s@),
        ),
        ended matches Some(ChainFlowResult(Err(e))) ==> ended_view(ended) == Some(
            Err::<Seq<char>, Seq<char>>(e@),
        ),
        setting_view(setting) is Some <==> setting is Some,
        setting matches Some(s) ==> setting_view(setting) == Some(s@),
{
}

} // verus!
