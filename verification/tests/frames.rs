use shanhai_client::client::{demo_unit, Element, Overrides};
use shanhai_client::frame::{
    FlowWatch, SyncAction, SyncReport, SyncState, WatchAction,
};
use shanhai_client::json::Json;
use shanhai_client::rpc::RpcError;
use shanhai_client::worker::{flow_outcome, rpc_outcome, ChainRequest, Received};
use shanhai_client::{
    ChainConfig, ChainFlowResult, ChainFlowTask, ChainHandle, ObjectSynced, PendingRpc,
    RabbitChainPlugin, Simulator,
};

fn ok() -> Json {
    Json::Object(vec![("ok".to_string(), Json::Bool(true))])
}

fn watching(every: u32) -> ChainConfig {
    let mut config = ChainConfig::default();
    config.object_id = Some("0xab".to_string());
    config.sync_every_ticks = every;
    config
}

fn nothing() -> Overrides {
    Overrides {
        rpc_url: None,
        token: None,
        object_id: None,
        chain_id: None,
        sync_every_ticks: None,
    }
}

#[test]
fn config_defaults_skip_sync() {
    let cfg = ChainConfig::default();
    assert!(cfg.object_id.is_none());
    assert_eq!(cfg.sync_every_ticks, 60);
    assert_eq!(cfg.chain_id, 10088);
}

#[test]
fn default_client_talks_to_this_machine() {
    let plugin = RabbitChainPlugin::default();
    assert_eq!(plugin.config.rpc_url, "http://127.0.0.1:8545");
    assert_eq!(plugin.config.token, None);
    let config = watching(3);
    assert_eq!(RabbitChainPlugin::with_config(config.clone()).config, config);
}

#[test]
fn overrides_replace_what_they_name() {
    let config = ChainConfig::default().with_overrides(Overrides {
        rpc_url: Some("http://far".to_string()),
        token: Some("key".to_string()),
        object_id: Some("0x1".to_string()),
        chain_id: Some("31337".to_string()),
        sync_every_ticks: Some("5".to_string()),
    });
    assert_eq!(config.rpc_url, "http://far");
    assert_eq!(config.token, Some("key".to_string()));
    assert_eq!(config.object_id, Some("0x1".to_string()));
    assert_eq!((config.chain_id, config.sync_every_ticks), (31337, 5));
    assert_eq!(watching(4).with_overrides(nothing()), watching(4));
}

#[test]
fn unreadable_numbers_count_as_the_default() {
    let mut o = nothing();
    o.chain_id = Some("0x10".to_string());
    o.sync_every_ticks = Some("4294967296".to_string());
    let mut config = watching(4);
    config.chain_id = 7;
    let config = config.with_overrides(o);
    assert_eq!((config.chain_id, config.sync_every_ticks), (10088, 60));
}

#[test]
fn simulator_counts_steps_and_spreads_seeds() {
    let mut sim = Simulator::default();
    assert_eq!(sim, Simulator { step: 0, last_seed: 0, last_winner: 0, last_rounds: 0 });
    let fight = sim.begin_tick();
    assert_eq!((sim.step, fight.seed), (1, 2_654_435_761));
    assert_eq!(
        fight.a.units,
        vec![demo_unit(1, 0, Element::Metal), demo_unit(2, 2, Element::Wood)]
    );
    assert_eq!(fight.b.units, vec![demo_unit(3, 0, Element::Fire)]);
    sim.begin_tick();
    assert_eq!(sim.begin_tick().seed, 7_963_307_283);
    sim.record(5, 1, 9);
    assert_eq!(sim, Simulator { step: 3, last_seed: 5, last_winner: 1, last_rounds: 9 });
    sim.step = (1 << 40) - 1;
    assert_eq!(sim.begin_tick().seed, 3_997_420_757_826_142_208);
    let unit = demo_unit(4, 1, Element::Fire);
    assert_eq!(
        (unit.atk, unit.def, unit.hp, unit.max_hp, unit.spd, unit.crit_permille),
        (100, 30, 1000, 1000, 10, 50)
    );
}

#[test]
fn pending_rpc_returns_none_while_in_flight() {
    let (_tx, rx) = tokio::sync::oneshot::channel();
    let mut pending = PendingRpc { rx };
    assert!(pending.poll().is_none());
}

#[test]
fn pending_rpc_surfaces_result_when_answered() {
    let (tx, rx) = tokio::sync::oneshot::channel();
    let mut pending = PendingRpc { rx };
    assert!(pending.poll().is_none());
    let _ = tx.send(Ok(ok()));
    let result = pending.poll().expect("answered");
    assert!(result.is_ok());
    assert_eq!(result.unwrap().get("ok"), Some(&Json::Bool(true)));
}

#[test]
fn pending_rpc_surfaces_closed_channel() {
    let (tx, rx) = tokio::sync::oneshot::channel();
    drop(tx);
    let mut pending = PendingRpc { rx };
    let result = pending.poll().expect("closed channel should yield a result");
    assert!(result.is_err());
    assert_eq!(
        result.unwrap_err(),
        RpcError::BadResponse("chain worker closed".to_string())
    );
}

#[test]
fn chain_flow_task_polls_to_completion() {
    let (tx, rx) = tokio::sync::oneshot::channel();
    let mut task = ChainFlowTask { rx };
    assert!(task.poll().is_none());
    let _ = tx.send(Ok("start=OK settle_outputs=2".to_string()));
    let result = task.poll().expect("answered");
    assert_eq!(result.unwrap(), "start=OK settle_outputs=2");
    assert_eq!(task.poll(), Some(Err("chain worker closed".to_string())));
}

#[test]
fn looks_amount_to_outcomes() {
    assert_eq!(rpc_outcome(Received::Empty), None);
    assert_eq!(rpc_outcome(Received::Value(Ok(ok()))), Some(Ok(ok())));
    assert_eq!(flow_outcome(Received::Empty), None);
    assert_eq!(
        flow_outcome(Received::Value(Err("down".to_string()))),
        Some(Err("down".to_string()))
    );
    assert_eq!(flow_outcome(Received::Closed), Some(Err("chain worker closed".to_string())));
}

#[test]
fn call_reaches_the_worker_and_its_answer_comes_back() {
    let (tx, mut rx) = tokio::sync::mpsc::unbounded_channel();
    let handle = ChainHandle { tx };
    let mut pending = handle
        .call("rabbit_gasPrice".to_string(), Json::Array(vec![]))
        .expect("a worker");
    match rx.try_recv() {
        Ok(ChainRequest::Rpc { method, params, reply }) => {
            assert_eq!(method, "rabbit_gasPrice");
            assert_eq!(params, Json::Array(vec![]));
            assert!(pending.poll().is_none());
            let _ = reply.send(Ok(ok()));
        }
        _ => panic!("no call"),
    }
    assert_eq!(pending.poll(), Some(Ok(ok())));
}

#[test]
fn round_reaches_the_worker() {
    let (tx, mut rx) = tokio::sync::mpsc::unbounded_channel();
    let handle = ChainHandle { tx };
    let mut task = handle
        .spawn_chain_flow("http://far".to_string(), Some("key".to_string()), 7)
        .expect("a worker");
    match rx.try_recv() {
        Ok(ChainRequest::RunFlow { rpc_url, token, chain_id, report }) => {
            assert_eq!((rpc_url.as_str(), chain_id), ("http://far", 7));
            assert_eq!(token, Some("key".to_string()));
            let _ = report.send(Ok("done".to_string()));
        }
        _ => panic!("no round"),
    }
    assert_eq!(task.poll(), Some(Ok("done".to_string())));
}

#[test]
fn dead_worker_takes_nothing() {
    let (tx, rx) = tokio::sync::mpsc::unbounded_channel();
    drop(rx);
    let handle = ChainHandle { tx };
    assert!(handle.call("x".to_string(), Json::Null).is_none());
    assert!(handle.spawn_chain_flow(String::new(), None, 1).is_none());
}

#[test]
fn object_is_asked_for_once_in_a_period() {
    let config = watching(3);
    let mut sync = SyncState::new();
    let mut asked = vec![];
    for frame in 1..=9 {
        match sync.frame(&config) {
            SyncAction::Request { method, params } => {
                assert_eq!(method, "rabbit_getObject");
                assert_eq!(params, Json::Array(vec![Json::Text("0xab".to_string())]));
                asked.push(frame);
                assert!(!sync.requested(None));
            }
            action => assert_eq!(action, SyncAction::Idle),
        }
    }
    assert_eq!(asked, vec![3, 6, 9]);
    let mut sync = SyncState::new();
    assert!(matches!(sync.frame(&watching(0)), SyncAction::Request { .. }));
}

#[test]
fn nothing_is_asked_without_an_object() {
    let mut sync = SyncState::new();
    for _ in 0..200 {
        assert_eq!(sync.frame(&ChainConfig::default()), SyncAction::Idle);
    }
    assert_eq!(sync.tick, 0);
}

#[test]
fn question_on_its_way_is_only_looked_for() {
    let config = watching(1);
    let (tx, rx) = tokio::sync::oneshot::channel();
    let mut sync = SyncState::new();
    assert!(matches!(sync.frame(&config), SyncAction::Request { .. }));
    assert!(sync.requested(Some(PendingRpc { rx })));
    assert_eq!(sync.poll("0xab"), None);
    assert_eq!(sync.frame(&config), SyncAction::Poll);
    assert_eq!(sync.tick, 1);
    let _ = tx.send(Ok(ok()));
    assert_eq!(
        sync.poll("0xab"),
        Some(SyncReport::Synced(ObjectSynced {
            object_id: "0xab".to_string(),
            value: ok(),
        }))
    );
    assert!(sync.pending.is_none());
    assert_eq!(sync.poll("0xab"), None);
}

#[test]
fn failed_question_is_over() {
    let (_tx, rx) = tokio::sync::oneshot::channel();
    let mut sync = SyncState::new();
    sync.requested(Some(PendingRpc { rx }));
    assert_eq!(sync.receive("0xab", None), None);
    assert!(sync.pending.is_some());
    let e = || RpcError::Transport("down".to_string());
    assert_eq!(sync.receive("0xab", Some(Err(e()))), Some(SyncReport::Failed(e())));
    assert!(sync.pending.is_none());
}

#[test]
fn round_is_begun_once_and_ends_the_client() {
    let mut watch = FlowWatch::new();
    assert_eq!(watch.frame(None), WatchAction::Idle);
    assert_eq!(watch.frame(Some("0")), WatchAction::Idle);
    assert_eq!(watch.frame(Some("1")), WatchAction::Spawn);
    assert_eq!(watch.poll(), None);
    let (tx, rx) = tokio::sync::oneshot::channel();
    assert_eq!(watch.spawned(Some(ChainFlowTask { rx })), None);
    assert_eq!(watch.frame(Some("1")), WatchAction::Poll);
    assert_eq!(watch.poll(), None);
    let _ = tx.send(Err("down".to_string()));
    assert_eq!(watch.poll(), Some(ChainFlowResult(Err("down".to_string()))));
}

#[test]
fn round_without_a_worker_fails_at_once() {
    let mut watch = FlowWatch::new();
    assert_eq!(
        watch.spawned(None),
        Some(ChainFlowResult(Err("worker unavailable".to_string())))
    );
    assert_eq!(watch.frame(Some("1")), WatchAction::Spawn);
}

#[test]
fn answer_comes_out_once() {
    let (tx, rx) = tokio::sync::oneshot::channel();
    let mut pending = PendingRpc { rx };
    assert_eq!(pending.poll(), None);
    assert_eq!(pending.poll(), None);
    let _ = tx.send(Ok(ok()));
    assert_eq!(pending.poll(), Some(Ok(ok())));
    let closed = || Some(Err(RpcError::BadResponse("chain worker closed".to_string())));
    assert_eq!(pending.poll(), closed());
    assert_eq!(pending.poll(), closed());
    let mut watch = FlowWatch::new();
    let (tx, rx) = tokio::sync::oneshot::channel();
    watch.spawned(Some(ChainFlowTask { rx }));
    let _ = tx.send(Ok("done".to_string()));
    assert_eq!(watch.poll(), Some(ChainFlowResult(Ok("done".to_string()))));
    assert_eq!(watch.poll(), Some(ChainFlowResult(Err("chain worker closed".to_string()))));
}

#[test]
fn copies_are_equal_and_apart() {
    let synced = ObjectSynced { object_id: "0xab".to_string(), value: ok() };
    assert_eq!(synced.clone(), synced);
    let ended = ChainFlowResult(Err("down".to_string()));
    assert_eq!(ended.clone(), ended);
    let (tx, mut rx) = tokio::sync::mpsc::unbounded_channel();
    let handle = ChainHandle { tx };
    let copy = handle.clone();
    drop(handle);
    assert!(copy.call("x".to_string(), Json::Null).is_some());
    assert!(rx.try_recv().is_ok());
}

#[test]
fn sent_error_is_not_a_closed_worker() {
    let (tx, rx) = tokio::sync::oneshot::channel();
    let mut pending = PendingRpc { rx };
    let _ = tx.send(Err(RpcError::Transport("down".to_string())));
    assert_eq!(pending.poll(), Some(Err(RpcError::Transport("down".to_string()))));
    let (tx, rx) = tokio::sync::oneshot::channel::<Result<String, String>>();
    let mut task = ChainFlowTask { rx };
    drop(tx);
    assert_eq!(task.poll(), Some(Err("chain worker closed".to_string())));
}
