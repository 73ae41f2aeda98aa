//! Submitting a transaction and waiting for its block.
//!
//! A node that executes transactions with their block answers a submission with
//! `queued`. The result is then asked for again and again, until it is there, the
//! node reports an error, or the time is up.

use crate::json::{Json, JsonView};
use vstd::prelude::*;

verus! {

/// How long to sleep before each question for the result, in milliseconds.
pub const POLL_MILLIS: u64 = 300;

/// How long the result is waited for, in nanoseconds.
pub const DEADLINE_NANOS: u64 = 20_000_000_000;

/// How far a submission has come.
#[derive(Debug, PartialEq)]
pub enum WaitStage {
    /// The transaction is to be submitted.
    Submit,
    /// The time since the submission was answered is to be looked at.
    Clock,
    /// The result is to be asked for, after a sleep.
    Poll,
    /// There is a result, or there will be none.
    Done(Result<Json, String>),
}

/// A submission and the wait for its result.
#[derive(Debug, PartialEq)]
pub struct SubmitWait {
    /// The transaction's identity, as the node is asked for it.
    pub tx_id: String,
    pub stage: WaitStage,
}

/// What a submission wants next.
#[derive(Clone, Copy, Debug, PartialEq, Eq, Structural)]
pub enum WaitRequest {
    Submit,
    ElapsedNanos,
    SleepThenPoll,
    Nothing,
}

/// The answer to a request.
#[derive(Debug, PartialEq)]
pub enum WaitReply {
    Submitted(Result<Json, String>),
    ElapsedNanos(u64),
    Polled(Result<Json, String>),
}

/// How far a submission has come, mathematically.
pub enum WaitStageView {
    Submit,
    Clock,
    Poll,
    Done(Result<JsonView, Seq<char>>),
}

/// A submission, mathematically.
pub struct WaitView {
    pub tx_id: Seq<char>,
    pub stage: WaitStageView,
}

/// The answer to a request, mathematically.
pub enum WaitReplyView {
    Submitted(Result<JsonView, Seq<char>>),
    ElapsedNanos(u64),
    Polled(Result<JsonView, Seq<char>>),
}

/// A node's answer, mathematically.
pub open spec fn answer_view(r: Result<Json, String>) -> Result<JsonView, Seq<char>> {
    match r {
        Ok(v) => Ok(v@),
        Err(e) => Err(e@),
    }
}

impl View for WaitStage {
    type V = WaitStageView;

    open spec fn view(&self) -> WaitStageView {
        match self {
            WaitStage::Submit => WaitStageView::Submit,
            WaitStage::Clock => WaitStageView::Clock,
            WaitStage::Poll => WaitStageView::Poll,
            WaitStage::Done(r) => WaitStageView::Done(answer_view(*r)),
        }
    }
}

impl View for SubmitWait {
    type V = WaitView;

    open spec fn view(&self) -> WaitView {
        WaitView { tx_id: self.tx_id@, stage: self.stage@ }
    }
}

impl View for WaitReply {
    type V = WaitReplyView;

    open spec fn view(&self) -> WaitReplyView {
        match self {
            WaitReply::Submitted(r) => WaitReplyView::Submitted(answer_view(*r)),
            WaitReply::ElapsedNanos(n) => WaitReplyView::ElapsedNanos(*n),
            WaitReply::Polled(r) => WaitReplyView::Polled(answer_view(*r)),
        }
    }
}

impl WaitStageView {
    /// What is wanted at this stage.
    pub open spec fn request(self) -> WaitRequest {
        match self {
            WaitStageView::Submit => WaitRequest::Submit,
            WaitStageView::Clock => WaitRequest::ElapsedNanos,
            WaitStageView::Poll => WaitRequest::SleepThenPoll,
            WaitStageView::Done(_) => WaitRequest::Nothing,
        }
    }
}

/// The message of a wait that took too long.
pub open spec fn timeout_text(tx_id: Seq<char>) -> Seq<char> {
    "timed out waiting for block-time result of "@ + tx_id
}

/// The stage after an answer of the node: a queued transaction is waited for, and
/// anything else is the end.
pub open spec fn after_answer(answer: Result<JsonView, Seq<char>>) -> WaitStageView {
    match answer {
        Ok(v) => if v.flag("queued"@) {
            WaitStageView::Clock
        } else {
            WaitStageView::Done(Ok(v))
        },
        Err(e) => WaitStageView::Done(Err(e)),
    }
}

impl WaitView {
    /// The stage after an answer. An answer to another question changes nothing.
    pub open spec fn next_stage(self, reply: WaitReplyView) -> WaitStageView {
        match (self.stage, reply) {
            (WaitStageView::Submit, WaitReplyView::Submitted(answer)) => after_answer(answer),
            (WaitStageView::Clock, WaitReplyView::ElapsedNanos(n)) => if n > DEADLINE_NANOS {
                WaitStageView::Done(Err(timeout_text(self.tx_id)))
            } else {
                WaitStageView::Poll
            },
            (WaitStageView::Poll, WaitReplyView::Polled(answer)) => after_answer(answer),
            _ => self.stage,
        }
    }

    /// The submission after an answer.
    pub open spec fn next(self, reply: WaitReplyView) -> WaitView {
        WaitView { stage: self.next_stage(reply), ..self }
    }
}

/// The stage after an answer of the node.
fn stage_after(answer: Result<Json, String>) -> (r: WaitStage)
    ensures
        r@ == after_answer(answer_view(answer)),
{
    match answer {
        Ok(v) => if v.flag("queued") {
            WaitStage::Clock
        } else {
            WaitStage::Done(Ok(v))
        },
        Err(e) => WaitStage::Done(Err(e)),
    }
}

impl SubmitWait {
    /// A submission that is about to be made.
    pub fn new(tx_id: String) -> (r: SubmitWait)
        ensures
            r@ == (WaitView { tx_id: tx_id@, stage: WaitStageView::Submit }),
    {
        SubmitWait { tx_id, stage: WaitStage::Submit }
    }

    /// What is wanted next.
    pub fn request(&self) -> (r: WaitRequest)
        ensures
            r == self@.stage.request(),
    {
        match &self.stage {
            WaitStage::Submit => WaitRequest::Submit,
            WaitStage::Clock => WaitRequest::ElapsedNanos,
            WaitStage::Poll => WaitRequest::SleepThenPoll,
            WaitStage::Done(_) => WaitRequest::Nothing,
        }
    }

    /// Takes the answer to what was asked.
    pub fn step(self, reply: WaitReply) -> (r: SubmitWait)
        ensures
            r@ == self@.next(reply@),
    {
        let SubmitWait { tx_id, stage } = self;
        let stage = match (stage, reply) {
            (WaitStage::Submit, WaitReply::Submitted(answer)) => stage_after(answer),
            (WaitStage::Clock, WaitReply::ElapsedNanos(n)) => if n > DEADLINE_NANOS {
                let mut e = "timed out waiting for block-time result of ".to_string();
                e.append(tx_id.as_str());
                WaitStage::Done(Err(e))
            } else {
                WaitStage::Poll
            },
            (WaitStage::Poll, WaitReply::Polled(answer)) => stage_after(answer),
            (stage, _) => stage,
        };
        SubmitWait { tx_id, stage }
    }
}

/// A result that is handed out is never one that says `queued`: the wait goes on
/// until there is a real result.
pub proof fn law_result_is_not_queued(w: WaitView, reply: WaitReplyView, v: JsonView)
    requires
        !(w.stage is Done),
        w.next(reply).stage == WaitStageView::Done(Ok(v)),
    ensures
        !v.flag("queued"@),
        reply == WaitReplyView::Submitted(Ok(v)) || reply == WaitReplyView::Polled(Ok(v)),
{
}

/// A wait that has ended stays as it is, whatever is still answered.
pub proof fn law_wait_ends_for_good(w: WaitView, reply: WaitReplyView)
    requires
        w.stage is Done,
    ensures
        w.next(reply) == w,
{
}

/// A wait is given up only once the deadline has passed, or when the node reports an
/// error, which is then handed on as it is.
pub proof fn law_wait_fails_for_a_reason(w: WaitView, reply: WaitReplyView, e: Seq<char>)
    requires
        !(w.stage is Done),
        w.next(reply).stage == WaitStageView::Done(Err(e)),
    ensures
        ({
            ||| reply == WaitReplyView::Submitted(Err(e))
            ||| reply == WaitReplyView::Polled(Err(e))
            ||| (reply matches WaitReplyView::ElapsedNanos(n) && n > DEADLINE_NANOS && e
                == timeout_text(w.tx_id))
        }),
{
}

/// An elapsed time above the deadline ends the wait, and one up to it does not.
pub proof fn law_deadline_ends_the_wait(w: WaitView, nanos: u64)
    requires
        w.stage is Clock,
    ensures
        nanos > DEADLINE_NANOS ==> w.next(WaitReplyView::ElapsedNanos(nanos)).stage
            == WaitStageView::Done(Err(timeout_text(w.tx_id))),
        nanos <= DEADLINE_NANOS ==> w.next(WaitReplyView::ElapsedNanos(nanos)).stage is Poll,
{
}

/// The submission after a list of answers, one after the other.
pub open spec fn waited(w: WaitView, replies: Seq<WaitReplyView>) -> WaitView
    decreases replies.len(),
{
    if replies.len() == 0 {
        w
    } else {
        waited(w, replies.drop_last()).next(replies.last())
    }
}

/// At that answer the time was asked for, and was not up.
pub open spec fn in_time(w: WaitView, replies: Seq<WaitReplyView>, k: int) -> bool {
    &&& waited(w, replies.take(k)).stage is Clock
    &&& replies[k] matches WaitReplyView::ElapsedNanos(n) && n <= DEADLINE_NANOS
}

/// The wait is bounded: once the result was asked for, it is asked for again only after
/// the time was looked at and found to be within the deadline.
pub proof fn law_time_is_asked_between_polls(
    w: WaitView,
    replies: Seq<WaitReplyView>,
    i: int,
    j: int,
) -> (k: int)
    requires
        0 <= i < j <= replies.len(),
        waited(w, replies.take(i)).stage is Poll,
        replies[i] is Polled,
        waited(w, replies.take(j)).stage is Poll,
    ensures
        i < k < j,
        in_time(w, replies, k),
    decreases j - i,
{
    let before = replies.take(j);
    assert(before.drop_last() =~= replies.take(j - 1));
    assert(before.last() == replies[j - 1]);
    if waited(w, replies.take(j - 1)).stage is Poll {
        law_time_is_asked_between_polls(w, replies, i, j - 1)
    } else {
        j - 1
    }
}

/// An answer of the node decides at once: a queued transaction is waited for, any other
/// answer is the result as it came, and an error ends the wait as it came. The result of
/// a poll decides in the same way as that of the submission.
pub proof fn law_answer_decides(w: WaitView, v: JsonView, e: Seq<char>)
    requires
        w.stage is Submit || w.stage is Poll,
    ensures
        ({
            let answered = |r: Result<JsonView, Seq<char>>|
                if w.stage is Submit {
                    w.next(WaitReplyView::Submitted(r))
                } else {
                    w.next(WaitReplyView::Polled(r))
                };
            &&& v.get("queued"@) == Some(JsonView::Bool(true)) ==> answered(Ok(v)).stage is Clock
            &&& v.get("queued"@) != Some(JsonView::Bool(true)) ==> answered(Ok(v)).stage
                == WaitStageView::Done(Ok(v))
            &&& answered(Err(e)).stage == WaitStageView::Done(Err(e))
            &&& answered(Ok(v)).tx_id == w.tx_id
        }),
{
}

/// An answer to another question than the one that was asked changes nothing.
pub proof fn law_unasked_answers_change_no_wait(w: WaitView, reply: WaitReplyView)
    requires
        match reply {
            WaitReplyView::Submitted(_) => !(w.stage is Submit),
            WaitReplyView::ElapsedNanos(_) => !(w.stage is Clock),
            WaitReplyView::Polled(_) => !(w.stage is Poll),
        },
    ensures
        w.next(reply) == w,
{
}

/// Twenty seconds are waited for, and who waited in vain is told for which transaction.
pub proof fn law_time_is_up_after_twenty_seconds(w: WaitView, nanos: u64)
    requires
        w.stage is Clock,
    ensures
        nanos > 20_000_000_000 ==> w.next(WaitReplyView::ElapsedNanos(nanos)).stage
            == WaitStageView::Done(
            Err("timed out waiting for block-time result of "@ + w.tx_id),
        ),
        nanos <= 20_000_000_000 ==> w.next(WaitReplyView::ElapsedNanos(nanos)).stage is Poll,
        POLL_MILLIS == 300,
{
}

/// Each stage of a wait asks for what it waits for.
pub proof fn law_each_stage_of_a_wait_asks(r: Result<JsonView, Seq<char>>)
    ensures
        WaitStageView::Submit.request() == WaitRequest::Submit,
        WaitStageView::Clock.request() == WaitRequest::ElapsedNanos,
        WaitStageView::Poll.request() == WaitRequest::SleepThenPoll,
        WaitStageView::Done(r).request() == WaitRequest::Nothing,
{
}

/// A wait and an answer stand for what they hold.
pub proof fn law_wait_stands_for_what_it_holds(w: SubmitWait, reply: WaitReply)
    ensures
        w@.tx_id == w.tx_id@,
        match w.stage {
            WaitStage::Submit => w@.stage == WaitStageView::Submit,
            WaitStage::Clock => w@.stage == WaitStageView::Clock,
            WaitStage::Poll => w@.stage == WaitStageView::Poll,
            WaitStage::Done(Ok(v)) => w@.stage == WaitStageView::Done(Ok(v@)),
            WaitStage::Done(Err(e)) => w@.stage == WaitStageView::Done(Err(e@)),
        },
        match reply {
            WaitReply::Submitted(Ok(v)) => reply@ == WaitReplyView::Submitted(Ok(v@)),
            WaitReply::Submitted(Err(e)) => reply@ == WaitReplyView::Submitted(Err(e@)),
            WaitReply::ElapsedNanos(n) => reply@ == WaitReplyView::ElapsedNanos(n),
            WaitReply::Polled(Ok(v)) => reply@ == WaitReplyView::Polled(Ok(v@)),
            WaitReply::Polled(Err(e)) => reply@ == WaitReplyView::Polled(Err(e@)),
        },
{
}

} // verus!
