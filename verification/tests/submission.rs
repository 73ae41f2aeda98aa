use shanhai_client::json::Json;
use shanhai_client::submit::{
    SubmitWait, WaitReply, WaitRequest, WaitStage, DEADLINE_NANOS, POLL_MILLIS,
};

fn queued(flag: bool) -> Json {
    Json::Object(vec![("queued".to_string(), Json::Bool(flag))])
}

fn waiting() -> SubmitWait {
    SubmitWait::new("0xee".to_string()).step(WaitReply::Submitted(Ok(queued(true))))
}

#[test]
fn direct_result_needs_no_wait() {
    let w = SubmitWait::new("0xee".to_string());
    assert_eq!(w.request(), WaitRequest::Submit);
    let w = w.step(WaitReply::Submitted(Ok(queued(false))));
    assert_eq!(w.stage, WaitStage::Done(Ok(queued(false))));
    assert_eq!(w.request(), WaitRequest::Nothing);
}

#[test]
fn queued_transaction_is_polled_until_its_result() {
    let mut w = waiting();
    for _ in 0..3 {
        assert_eq!(w.request(), WaitRequest::ElapsedNanos);
        w = w.step(WaitReply::ElapsedNanos(DEADLINE_NANOS));
        assert_eq!(w.request(), WaitRequest::SleepThenPoll);
        w = w.step(WaitReply::Polled(Ok(queued(true))));
    }
    w = w.step(WaitReply::ElapsedNanos(0)).step(WaitReply::Polled(Ok(Json::Null)));
    assert_eq!(w.stage, WaitStage::Done(Ok(Json::Null)));
}

#[test]
fn wait_gives_up_only_after_the_deadline() {
    let w = waiting().step(WaitReply::ElapsedNanos(DEADLINE_NANOS + 1));
    assert_eq!(
        w.stage,
        WaitStage::Done(Err(
            "timed out waiting for block-time result of 0xee".to_string()
        ))
    );
    assert_eq!(DEADLINE_NANOS, 20_000_000_000);
    assert_eq!(POLL_MILLIS, 300);
}

#[test]
fn errors_of_the_node_end_the_wait() {
    let w = SubmitWait::new("0xee".to_string())
        .step(WaitReply::Submitted(Err("refused".to_string())));
    assert_eq!(w.stage, WaitStage::Done(Err("refused".to_string())));
    let w = waiting()
        .step(WaitReply::ElapsedNanos(5))
        .step(WaitReply::Polled(Err("lost".to_string())));
    assert_eq!(w.stage, WaitStage::Done(Err("lost".to_string())));
}

#[test]
fn ended_wait_stays_as_it_is() {
    let w = SubmitWait::new("0xee".to_string())
        .step(WaitReply::Submitted(Ok(Json::Null)))
        .step(WaitReply::Submitted(Err("late".to_string())))
        .step(WaitReply::ElapsedNanos(u64::MAX));
    assert_eq!(w.stage, WaitStage::Done(Ok(Json::Null)));
    let w = waiting().step(WaitReply::Polled(Ok(Json::Null)));
    assert_eq!(w.stage, WaitStage::Clock);
}

#[test]
fn time_is_asked_between_two_polls() {
    let w = waiting().step(WaitReply::ElapsedNanos(1));
    assert_eq!(w.request(), WaitRequest::SleepThenPoll);
    let w = w.step(WaitReply::Polled(Ok(queued(true))));
    assert_eq!(w.request(), WaitRequest::ElapsedNanos);
    let w = w.step(WaitReply::Polled(Ok(queued(true))));
    assert_eq!(w.request(), WaitRequest::ElapsedNanos);
}
