use shanhai_client::assembly::{TxReply, TxRequest};
use shanhai_client::chain::{Encoded, TxPlan};
use shanhai_client::compute::{ComputeTx, ObjectId};
use shanhai_client::crypto::{Address, Digest};
use shanhai_client::flow::{ChainFlow, FlowReply, FlowRequest, FlowStage, Goal};
use shanhai_client::game::{ActionDrop, ActionKind, ActionOutcome, GameOp};
use shanhai_client::json::Json;
use shanhai_client::submit::{WaitReply, WaitRequest};

const PLAYER: &str = "0x1fefa0228a67afa987c6be20afc061321584f501";

fn text(s: &str) -> Json {
    Json::Text(s.to_string())
}

fn object(name: &str, value: Json) -> Json {
    Json::Object(vec![(name.to_string(), value)])
}

fn coin() -> ActionDrop {
    ActionDrop { item_id: "goblin_coin".to_string(), count: 1, price_shc: 3 }
}

/// A node that answers everything, with settings for what it holds.
struct Node {
    monster: Json,
    enhance: Json,
    drops: Vec<ActionDrop>,
    asked: Vec<FlowRequest>,
    submitted: Vec<ComputeTx>,
}

impl Node {
    fn new(monster: Json, enhance: Json, drops: Vec<ActionDrop>) -> Node {
        Node { monster, enhance, drops, asked: vec![], submitted: vec![] }
    }

    fn answer(&mut self, flow: &ChainFlow) -> FlowReply {
        let request = flow.request();
        self.asked.push(request);
        match request {
            FlowRequest::FundAccount | FlowRequest::FundTreasury => FlowReply::Funded(Ok(())),
            FlowRequest::GasPrice => FlowReply::GasPrice(Ok(object("base_fee", text("0x2")))),
            FlowRequest::NonceAndTime => FlowReply::NonceAndTime { nonce: 500, created_at: 77 },
            FlowRequest::GetMonsterConfig => FlowReply::Object(Ok(self.monster.copy())),
            FlowRequest::DefaultMonsterTable => FlowReply::DefaultMonsterTable { version: 1 },
            FlowRequest::ParseMonsterTable => FlowReply::MonsterTable(Ok(4)),
            FlowRequest::GetEnhanceConfig => FlowReply::Object(Ok(self.enhance.copy())),
            FlowRequest::DefaultEnhanceTable | FlowRequest::ParseEnhanceTable => {
                FlowReply::EnhanceTable(Ok(()))
            }
            FlowRequest::Transaction(r) => FlowReply::Transaction(self.assemble(flow, r)),
            FlowRequest::Submission(r) => FlowReply::Submission(self.submit(flow, r)),
            FlowRequest::LatestBlock => FlowReply::Block(Ok(object("number", text("0x9")))),
            FlowRequest::BlockByNumber(n) => {
                assert_eq!(n, 7);
                let hash = format!("0x{}", "ab".repeat(32));
                FlowReply::Block(Ok(object("hash", text(&hash))))
            }
            FlowRequest::DeriveSeed => {
                assert_eq!(flow.data().block_digest, Digest { bytes: [0xab; 32] });
                FlowReply::Seed(99)
            }
            FlowRequest::Execute => {
                assert_eq!(flow.execution().seed, 99);
                assert_eq!(flow.execution().action_type, ActionKind::Battle);
                FlowReply::Outcome(Ok(ActionOutcome {
                    result: text("won"),
                    drops: self.drops.iter().map(|d| d.copy()).collect(),
                }))
            }
            FlowRequest::Nothing => panic!("nothing to answer"),
        }
    }

    fn assemble(&self, flow: &ChainFlow, r: TxRequest) -> TxReply {
        match r {
            TxRequest::Encoding => {
                let drops = match flow.stage() {
                    FlowStage::Assemble(Goal::Settle, _) => self.drops.len(),
                    _ => 0,
                };
                TxReply::Encoding(Encoded {
                    object_id: ObjectId(Digest { bytes: [1; 32] }),
                    state: vec![1],
                    payload: vec![2],
                    drop_object_ids: vec![ObjectId(Digest { bytes: [2; 32] }); drops],
                })
            }
            TxRequest::GasEstimate => TxReply::GasEstimate(40_000),
            TxRequest::SigningPreimage => TxReply::SigningPreimage(vec![3]),
            TxRequest::ExpectedTxId => TxReply::ExpectedTxId(Digest { bytes: [0xdd; 32] }),
            TxRequest::Nothing => panic!("nothing to answer"),
        }
    }

    fn submit(&mut self, flow: &ChainFlow, r: WaitRequest) -> WaitReply {
        match r {
            WaitRequest::Submit => {
                if let FlowStage::Submit(_, tx, wait) = flow.stage() {
                    assert_eq!(wait.tx_id, format!("0x{}", "dd".repeat(32)));
                    self.submitted.push(tx.copy());
                }
                WaitReply::Submitted(Ok(object("queued", Json::Bool(true))))
            }
            WaitRequest::ElapsedNanos => WaitReply::ElapsedNanos(1),
            WaitRequest::SleepThenPoll => WaitReply::Polled(Ok(Json::Object(vec![
                ("status".to_string(), text("done")),
                ("output_refs".to_string(), Json::Array(vec![Json::Null, Json::Null])),
            ]))),
            WaitRequest::Nothing => panic!("nothing to answer"),
        }
    }

    fn play(&mut self) -> Result<String, String> {
        let mut flow = ChainFlow::new(Address { bytes: [0xcc; 20] }, 10088);
        assert_eq!(flow.player_account(), PLAYER);
        assert_eq!(flow.treasury_account(), format!("0x{}", "cc".repeat(20)));
        for _ in 0..200 {
            flow = match flow.into_end() {
                Ok(end) => return end,
                Err(flow) => flow,
            };
            let reply = self.answer(&flow);
            flow = flow.step(reply);
        }
        panic!("the round does not end")
    }
}

/// Plays a round up to the first question of that kind.
fn play_to(node: &mut Node, wanted: FlowRequest) -> ChainFlow {
    let mut flow = ChainFlow::new(Address { bytes: [0xcc; 20] }, 10088);
    while flow.request() != wanted {
        let reply = node.answer(&flow);
        flow = flow.step(reply);
    }
    flow
}

fn empty_chain() -> Node {
    Node::new(Json::Null, Json::Null, vec![coin()])
}

fn failure(flow: ChainFlow) -> String {
    match flow.into_end() {
        Ok(Err(e)) => e,
        _ => panic!("no failure"),
    }
}

#[test]
fn full_round_mints_starts_settles_and_sells() {
    let mut node = empty_chain();
    assert_eq!(
        node.play(),
        Ok(format!(
            "start=OK settle_outputs=2 sell=[goblin_coinx1:done] session=client-500 seed=99 player={PLAYER}"
        ))
    );
    let nonces: Vec<_> = node.submitted.iter().map(|tx| tx.nonce).collect();
    assert_eq!(nonces, vec![Some(500), Some(500), Some(501), Some(502)]);
    let fees: Vec<_> = node.submitted.iter().map(|tx| tx.max_fee).collect();
    assert_eq!(fees, vec![0, 0, 80_000, 80_000]);
    assert!(node.submitted.iter().all(|tx| tx.chain_id == Some(10088)));
    assert!(node.submitted.iter().all(|tx| tx.witness.signatures.len() == 1));
}

#[test]
fn round_without_drops_sells_nothing() {
    let state = text("0x00");
    let mut node = Node::new(object("state", state.copy()), object("state", state), vec![]);
    assert_eq!(
        node.play(),
        Ok(format!(
            "start=OK settle_outputs=2 sell=[] session=client-500 seed=99 player={PLAYER}"
        ))
    );
    assert_eq!(node.submitted.len(), 2);
    assert!(!node.asked.contains(&FlowRequest::DefaultMonsterTable));
    assert!(node.asked.contains(&FlowRequest::ParseEnhanceTable));
}

#[test]
fn session_is_bound_to_the_table_on_the_chain() {
    let mut node = Node::new(object("state", text("0x00")), Json::Null, vec![]);
    let flow = play_to(&mut node, FlowRequest::Transaction(TxRequest::Encoding));
    match flow.stage() {
        FlowStage::Assemble(Goal::Start, a) => match &a.plan {
            TxPlan::Start { op: GameOp::ActionStart { rules_version, created_at_unix, .. }, session } => {
                assert_eq!((*rules_version, *created_at_unix), (4, 77));
                assert_eq!(session.rules_version, 4);
                assert_eq!(session.session_id, "client-500");
                assert_eq!(session.creator, PLAYER);
            }
            _ => panic!("not a start"),
        },
        _ => panic!("not the start"),
    }
}

#[test]
fn random_block_is_asked_for_after_the_start() {
    let mut node = Node::new(object("state", text("0x00")), Json::Null, vec![]);
    node.play().unwrap();
    let block = node.asked.iter().position(|r| *r == FlowRequest::LatestBlock).unwrap();
    let submitted = node
        .asked
        .iter()
        .position(|r| *r == FlowRequest::Submission(WaitRequest::Submit))
        .unwrap();
    assert!(submitted < block);
}

#[test]
fn error_in_place_of_a_table_mints_nothing() {
    let flow = play_to(&mut empty_chain(), FlowRequest::GetMonsterConfig);
    let flow = flow.step(FlowReply::Object(Err("down".to_string())));
    assert_eq!(failure(flow), "get monster config: down");
    let flow = play_to(&mut empty_chain(), FlowRequest::GetMonsterConfig);
    let flow = flow.step(FlowReply::Object(Ok(Json::Object(vec![]))));
    assert_eq!(failure(flow), "monster config: missing state");
}

#[test]
fn each_failure_has_its_message() {
    let err = || Err("down".to_string());
    let to = |wanted: FlowRequest, reply: FlowReply| {
        let mut node = Node::new(object("state", text("0x00")), object("state", text("0x00")), vec![]);
        failure(play_to(&mut node, wanted).step(reply))
    };
    assert_eq!(to(FlowRequest::FundAccount, FlowReply::Funded(Err("down".to_string()))), "fund native: down");
    assert_eq!(to(FlowRequest::FundTreasury, FlowReply::Funded(Err("down".to_string()))), "fund treasury: down");
    assert_eq!(
        to(FlowRequest::GasPrice, FlowReply::GasPrice(err())),
        "gas price: down"
    );
    assert_eq!(
        to(
            FlowRequest::GasPrice,
            FlowReply::GasPrice(Ok(object("fee", Json::Array(vec![text("a\"b"), Json::Null]))))
        ),
        r#"gas price response missing base_fee: {"fee":["a\"b",null]}"#
    );
    assert_eq!(
        to(FlowRequest::ParseMonsterTable, FlowReply::MonsterTable(Err("eof".to_string()))),
        "monster config: state parse: eof"
    );
    assert_eq!(to(FlowRequest::GetEnhanceConfig, FlowReply::Object(err())), "get enhance config: down");
    assert_eq!(
        to(FlowRequest::GetEnhanceConfig, FlowReply::Object(Ok(Json::Bool(true)))),
        "enhance config: missing state"
    );
    assert_eq!(
        to(FlowRequest::ParseEnhanceTable, FlowReply::EnhanceTable(Err("eof".to_string()))),
        "enhance config: state parse: eof"
    );
    assert_eq!(
        to(
            FlowRequest::Submission(WaitRequest::Submit),
            FlowReply::Submission(WaitReply::Submitted(err()))
        ),
        "down"
    );
    assert_eq!(to(FlowRequest::LatestBlock, FlowReply::Block(err())), "latest: down");
    assert_eq!(to(FlowRequest::BlockByNumber(7), FlowReply::Block(err())), "stable block 7: down");
    assert_eq!(
        to(FlowRequest::BlockByNumber(7), FlowReply::Block(Ok(Json::Null))),
        "stable block 7 not found"
    );
    assert_eq!(
        to(FlowRequest::Execute, FlowReply::Outcome(Err("no such monster".to_string()))),
        "execute: no such monster"
    );
}

#[test]
fn unasked_answer_changes_nothing() {
    let flow = ChainFlow::new(Address { bytes: [0xcc; 20] }, 10088).step(FlowReply::Seed(5));
    assert_eq!(flow.stage(), &FlowStage::FundNative);
    assert_eq!(flow.data().seed, 0);
    let flow = flow
        .step(FlowReply::Funded(Err("down".to_string())))
        .step(FlowReply::Funded(Ok(())));
    assert_eq!(failure(flow), "fund native: down");
}

#[test]
fn sale_without_a_status_shows_a_question_mark() {
    let mut node = empty_chain();
    let mut flow = play_to(&mut node, FlowRequest::Execute);
    loop {
        let reply = match (flow.stage(), flow.request()) {
            (FlowStage::Submit(Goal::Sell, _, _), FlowRequest::Submission(_)) => {
                FlowReply::Submission(WaitReply::Submitted(Ok(Json::Null)))
            }
            _ => node.answer(&flow),
        };
        flow = match flow.step(reply).into_end() {
            Ok(end) => {
                assert!(end.unwrap().contains("sell=[goblin_coinx1:?]"));
                return;
            }
            Err(flow) => flow,
        };
    }
}

#[test]
fn settlement_claims_what_was_executed() {
    let mut node = empty_chain();
    let flow = play_to(&mut node, FlowRequest::LatestBlock);
    let committed = flow.data().session();
    let mut flow = flow;
    while flow.request() != FlowRequest::Transaction(TxRequest::Encoding) {
        let reply = node.answer(&flow);
        flow = flow.step(reply);
    }
    assert_eq!(flow.data().session(), committed);
    let FlowStage::Assemble(Goal::Settle, a) = flow.stage() else {
        panic!("not the settlement")
    };
    let TxPlan::Settle { op, settled, drops, drop_owner } = &a.plan else {
        panic!("not a settlement")
    };
    assert_eq!(
        op,
        &GameOp::ActionSettle {
            session_id: "client-500".to_string(),
            seed: 99,
            random_block_hash: format!("0x{}", "ab".repeat(32)),
            claimed: text("won"),
            drops: vec![coin()],
        }
    );
    assert!(settled.settled);
    assert_eq!(settled.inputs, committed.inputs);
    assert_eq!(settled.rules_version, committed.rules_version);
    assert_eq!(drops, &vec![coin()]);
    assert_eq!(drop_owner, flow.data().player.address());
}

#[test]
fn sessions_of_different_nonces_have_different_names() {
    let name = |nonce: u64| {
        let flow = play_to(&mut empty_chain(), FlowRequest::NonceAndTime);
        flow.step(FlowReply::NonceAndTime { nonce, created_at: 1 }).data().session_id.clone()
    };
    assert_eq!(name(0), "client-0");
    assert_eq!(name(u64::MAX - 2), "client-18446744073709551613");
    assert_ne!(name(1), name(10));
}

#[test]
fn fight_goes_by_the_tables_on_the_chain() {
    let mut node = Node::new(object("state", text("0x0102")), object("state", text("0x03")), vec![]);
    let e = play_to(&mut node, FlowRequest::Execute).execution();
    assert_eq!(e.monsters, Some(vec![1, 2]));
    assert_eq!(e.enhance, Some(vec![3]));
    assert_eq!(e.seed, 99);
    let mut node = Node::new(Json::Null, Json::Null, vec![]);
    let e = play_to(&mut node, FlowRequest::Execute).execution();
    assert_eq!((e.monsters, e.enhance), (None, None));
}

#[test]
fn transactions_come_in_order() {
    let mut node = empty_chain();
    node.play().unwrap();
    let at = |wanted: FlowRequest, n: usize| {
        node.asked.iter().enumerate().filter(|(_, r)| **r == wanted).nth(n).unwrap().0
    };
    let submit = FlowRequest::Submission(WaitRequest::Submit);
    let order = [
        at(FlowRequest::GetMonsterConfig, 0),
        at(submit, 0),
        at(FlowRequest::GetEnhanceConfig, 0),
        at(submit, 1),
        at(FlowRequest::LatestBlock, 0),
        at(FlowRequest::Execute, 0),
        at(submit, 2),
        at(submit, 3),
    ];
    assert!(order.windows(2).all(|w| w[0] < w[1]));
}

#[test]
fn round_under_way_has_no_end() {
    let flow = ChainFlow::new(Address { bytes: [0xcc; 20] }, 10088);
    let flow = flow.into_end().expect_err("under way");
    assert_eq!(flow.request(), FlowRequest::FundAccount);
}
