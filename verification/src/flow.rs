//! One full round of play on the chain: fund, load the rules, start a session, take
//! the random number, fight, settle, and sell the first drop.
//!
//! A [`ChainFlow`] asks for one piece of outside work at a time and takes the answer.
//! Any failure ends the round with a message; nothing is retried or papered over.

use crate::assembly;
use crate::assembly::{
    AssemblyView, StageView, TxAssembly, TxReply, TxReplyView, TxRequest, TxStage,
};
use crate::chain;
use crate::chain::{
    build_action_settle_tx, build_action_start_tx, build_mint_monster_config_tx,
    build_sell_drop_tx, execute_locally, new_session, player_name, EncodedView, Execution,
    ExecutionView, PlanView,
};
use crate::compute::{ComputeTx, TxView};
use crate::crypto;
use crate::crypto::{Address, Digest, PlayerWallet};
use crate::encoding;
use crate::game;
use crate::game::{
    copy_drops, ActionDrop, ActionInput, ActionKind, ActionOutcome, ActionSession, DropView,
    InputView, KindView, OpView, OutcomeView, SessionView, TeamUnit,
};
use crate::json;
use crate::json::{Json, JsonView};
use crate::node;
use crate::node::{
    base_fee, latest_number, parse_config_obj, stable_block_hash, stable_number,
};
use crate::submit;
use crate::submit::{
    SubmitWait, WaitReply, WaitReplyView, WaitRequest, WaitStage, WaitStageView, WaitView,
};
use crate::text;
use crate::text::decimal_text;
use vstd::prelude::*;

verus! {

/// The number of the player that the round is played with.
pub const PLAYER_ID: u64 = 9001;

/// What the player's account is given to pay gas with.
pub const NATIVE_FUNDS: u64 = 10_000_000;

/// What the treasury is given to buy drops with.
pub const TREASURY_FUNDS: u64 = 10_000;

/// The token that the treasury is given.
pub const TREASURY_TOKEN: u64 = 1;

/// Which transaction of the round is being made.
#[derive(Clone, Copy, Debug, PartialEq, Eq, Structural)]
pub enum Goal {
    MintConfig,
    Start,
    Settle,
    Sell,
}

/// What a round has learnt so far.
#[derive(Debug, PartialEq)]
pub struct FlowData {
    pub player: PlayerWallet,
    pub treasury: Address,
    pub chain_id: u64,
    pub base_fee: u64,
    pub nonce: u64,
    pub created_at: u64,
    pub session_id: String,
    pub rules_version: u64,
    /// The monster table as the chain holds it; the default one where this is missing.
    pub monsters: Option<Vec<u8>>,
    /// The enhancement table as the chain holds it; the default one where this is missing.
    pub enhance: Option<Vec<u8>>,
    /// The height of the random block.
    pub block_number: u64,
    /// The hash of the random block, as the node wrote it.
    pub block_hash: String,
    /// The hash of the random block.
    pub block_digest: Digest,
    pub seed: u64,
    /// What the action came to.
    pub result: Json,
    /// What the action yielded.
    pub drops: Vec<ActionDrop>,
    /// How many outputs the node reported for the settlement.
    pub settle_outputs: u64,
}

/// How far a round has come.
#[derive(Debug, PartialEq)]
pub enum FlowStage {
    FundNative,
    FundTreasury,
    BaseFee,
    Clock,
    MonsterConfig,
    /// The monster table was just minted with its default contents.
    DefaultMonsterTable,
    /// The encoded monster table of the chain.
    ParseMonsterTable(Vec<u8>),
    EnhanceConfig,
    /// The chain has no enhancement table.
    DefaultEnhanceTable,
    /// The encoded enhancement table of the chain.
    ParseEnhanceTable(Vec<u8>),
    Assemble(Goal, TxAssembly),
    Submit(Goal, ComputeTx, SubmitWait),
    LatestBlock,
    StableBlock,
    Seed,
    Execute,
    Finished(Result<String, String>),
}

/// A round of play. Its nonce always leaves room for the two after it.
#[derive(Debug, PartialEq)]
pub struct ChainFlow {
    data: FlowData,
    stage: FlowStage,
}

/// What a round wants next.
#[derive(Clone, Copy, Debug, PartialEq, Eq, Structural)]
pub enum FlowRequest {
    /// Give the player's account [`NATIVE_FUNDS`].
    FundAccount,
    /// Give the treasury [`TREASURY_FUNDS`] of [`TREASURY_TOKEN`].
    FundTreasury,
    GasPrice,
    /// A fresh nonce, and the creation time of a session that is opened now.
    NonceAndTime,
    GetMonsterConfig,
    /// Take the default monster table, and say its version.
    DefaultMonsterTable,
    /// Read the monster table from its encoding, and say its version.
    ParseMonsterTable,
    GetEnhanceConfig,
    DefaultEnhanceTable,
    ParseEnhanceTable,
    Transaction(TxRequest),
    Submission(WaitRequest),
    LatestBlock,
    /// The block at that height.
    BlockByNumber(u64),
    /// The seed that the random block gives for the session.
    DeriveSeed,
    /// Run the rules engine.
    Execute,
    Nothing,
}

/// The answer to a request.
#[derive(Debug, PartialEq)]
pub enum FlowReply {
    Funded(Result<(), String>),
    GasPrice(Result<Json, String>),
    NonceAndTime { nonce: u64, created_at: u64 },
    Object(Result<Json, String>),
    DefaultMonsterTable { version: u64 },
    /// The version of the monster table that was read.
    MonsterTable(Result<u64, String>),
    EnhanceTable(Result<(), String>),
    Transaction(TxReply),
    Submission(WaitReply),
    Block(Result<Json, String>),
    Seed(u64),
    Outcome(Result<ActionOutcome, String>),
}

/// What a round has learnt so far, mathematically.
pub struct FlowDataView {
    pub secret: Seq<u8>,
    pub treasury: Seq<u8>,
    pub chain_id: u64,
    pub base_fee: u64,
    pub nonce: u64,
    pub created_at: u64,
    pub session_id: Seq<char>,
    pub rules_version: u64,
    pub monsters: Option<Seq<u8>>,
    pub enhance: Option<Seq<u8>>,
    pub block_number: u64,
    pub block_hash: Seq<char>,
    pub block_digest: Seq<u8>,
    pub seed: u64,
    pub result: JsonView,
    pub drops: Seq<DropView>,
    pub settle_outputs: u64,
}

/// How far a round has come, mathematically.
pub enum FlowStageView {
    FundNative,
    FundTreasury,
    BaseFee,
    Clock,
    MonsterConfig,
    DefaultMonsterTable,
    ParseMonsterTable(Seq<u8>),
    EnhanceConfig,
    DefaultEnhanceTable,
    ParseEnhanceTable(Seq<u8>),
    Assemble(Goal, AssemblyView),
    Submit(Goal, TxView, WaitView),
    LatestBlock,
    StableBlock,
    Seed,
    Execute,
    Finished(Result<Seq<char>, Seq<char>>),
}

/// A round of play, mathematically.
pub struct FlowView {
    pub data: FlowDataView,
    pub stage: FlowStageView,
}

/// The answer to a request, mathematically.
pub enum FlowReplyView {
    Funded(Result<(), Seq<char>>),
    GasPrice(Result<JsonView, Seq<char>>),
    NonceAndTime { nonce: u64, created_at: u64 },
    Object(Result<JsonView, Seq<char>>),
    DefaultMonsterTable { version: u64 },
    MonsterTable(Result<u64, Seq<char>>),
    EnhanceTable(Result<(), Seq<char>>),
    Transaction(TxReplyView),
    Submission(WaitReplyView),
    Block(Result<JsonView, Seq<char>>),
    Seed(u64),
    Outcome(Result<OutcomeView, Seq<char>>),
}

/// A result whose error is text, mathematically.
pub open spec fn plain_result_view<T>(r: Result<T, String>) -> Result<T, Seq<char>> {
    match r {
        Ok(v) => Ok(v),
        Err(e) => Err(e@),
    }
}

/// The outcome of the fight, mathematically.
pub open spec fn outcome_view(r: Result<ActionOutcome, String>) -> Result<OutcomeView, Seq<char>> {
    match r {
        Ok(o) => Ok(o@),
        Err(e) => Err(e@),
    }
}

/// The end of a round, mathematically.
pub open spec fn end_view(r: Result<String, String>) -> Result<Seq<char>, Seq<char>> {
    match r {
        Ok(s) => Ok(s@),
        Err(e) => Err(e@),
    }
}

impl View for FlowData {
    type V = FlowDataView;

    open spec fn view(&self) -> FlowDataView {
        FlowDataView {
            secret: self.player@,
            treasury: self.treasury@,
            chain_id: self.chain_id,
            base_fee: self.base_fee,
            nonce: self.nonce,
            created_at: self.created_at,
            session_id: self.session_id@,
            rules_version: self.rules_version,
            monsters: chain::table_view(self.monsters),
            enhance: chain::table_view(self.enhance),
            block_number: self.block_number,
            block_hash: self.block_hash@,
            block_digest: self.block_digest@,
            seed: self.seed,
            result: self.result@,
            drops: game::drops_view(self.drops@),
            settle_outputs: self.settle_outputs,
        }
    }
}

impl View for FlowStage {
    type V = FlowStageView;

    open spec fn view(&self) -> FlowStageView {
        match self {
            FlowStage::FundNative => FlowStageView::FundNative,
            FlowStage::FundTreasury => FlowStageView::FundTreasury,
            FlowStage::BaseFee => FlowStageView::BaseFee,
            FlowStage::Clock => FlowStageView::Clock,
            FlowStage::MonsterConfig => FlowStageView::MonsterConfig,
            FlowStage::DefaultMonsterTable => FlowStageView::DefaultMonsterTable,
            FlowStage::ParseMonsterTable(b) => FlowStageView::ParseMonsterTable(b@),
            FlowStage::EnhanceConfig => FlowStageView::EnhanceConfig,
            FlowStage::DefaultEnhanceTable => FlowStageView::DefaultEnhanceTable,
            FlowStage::ParseEnhanceTable(b) => FlowStageView::ParseEnhanceTable(b@),
            FlowStage::Assemble(g, a) => FlowStageView::Assemble(*g, a@),
            FlowStage::Submit(g, tx, w) => FlowStageView::Submit(*g, tx@, w@),
            FlowStage::LatestBlock => FlowStageView::LatestBlock,
            FlowStage::StableBlock => FlowStageView::StableBlock,
            FlowStage::Seed => FlowStageView::Seed,
            FlowStage::Execute => FlowStageView::Execute,
            FlowStage::Finished(r) => FlowStageView::Finished(end_view(*r)),
        }
    }
}

impl View for ChainFlow {
    type V = FlowView;

    closed spec fn view(&self) -> FlowView {
        FlowView { data: self.data@, stage: self.stage@ }
    }
}

impl View for FlowReply {
    type V = FlowReplyView;

    open spec fn view(&self) -> FlowReplyView {
        match self {
            FlowReply::Funded(r) => FlowReplyView::Funded(plain_result_view(*r)),
            FlowReply::GasPrice(r) => FlowReplyView::GasPrice(submit::answer_view(*r)),
            FlowReply::NonceAndTime { nonce, created_at } => FlowReplyView::NonceAndTime {
                nonce: *nonce,
                created_at: *created_at,
            },
            FlowReply::Object(r) => FlowReplyView::Object(submit::answer_view(*r)),
            FlowReply::DefaultMonsterTable { version } => FlowReplyView::DefaultMonsterTable {
                version: *version,
            },
            FlowReply::MonsterTable(r) => FlowReplyView::MonsterTable(plain_result_view(*r)),
            FlowReply::EnhanceTable(r) => FlowReplyView::EnhanceTable(plain_result_view(*r)),
            FlowReply::Transaction(r) => FlowReplyView::Transaction(r@),
            FlowReply::Submission(r) => FlowReplyView::Submission(r@),
            FlowReply::Block(r) => FlowReplyView::Block(submit::answer_view(*r)),
            FlowReply::Seed(s) => FlowReplyView::Seed(*s),
            FlowReply::Outcome(r) => FlowReplyView::Outcome(outcome_view(*r)),
        }
    }
}

/// The master seed that the round's player is derived from.
pub open spec fn master_seed() -> Seq<u8> {
    Seq::new(32, |i: int| 0x11u8)
}

/// The private key of the round's player.
pub open spec fn player_secret() -> Seq<u8> {
    crypto::keccak256_of(crypto::wallet_seed(master_seed(), PLAYER_ID))
}

/// The team that the player fights with.
pub open spec fn battle_team() -> Seq<TeamUnit> {
    seq![TeamUnit { atk: 60, def: 20, hp: 500 }]
}

/// What the round's session commits to: a fight against a goblin.
pub open spec fn battle_inputs() -> InputView {
    InputView::Battle { monster_id: "goblin"@, team: battle_team() }
}

/// The name of the round's session.
pub open spec fn session_name(nonce: u64) -> Seq<char> {
    "client-"@ + text::decimal(nonce as nat)
}

/// What is shown for a sold drop.
pub open spec fn sold_text(drop: DropView, answer: JsonView) -> Seq<char> {
    drop.item_id + "x"@ + text::decimal(drop.count as nat) + ":"@ + match answer.text_member(
        "status"@,
    ) {
        Some(s) => s,
        None => "?"@,
    }
}

/// How many outputs an answer to a settlement reports.
pub open spec fn output_count(answer: JsonView) -> u64 {
    match answer.get("output_refs"@) {
        Some(refs) => match refs.array_len() {
            Some(n) => n as u64,
            None => 0,
        },
        None => 0,
    }
}

impl FlowDataView {
    /// What a round knows at its beginning.
    pub open spec fn initial(treasury: Seq<u8>, chain_id: u64) -> FlowDataView {
        FlowDataView {
            secret: player_secret(),
            treasury,
            chain_id,
            base_fee: 0,
            nonce: 0,
            created_at: 0,
            session_id: ""@,
            rules_version: 0,
            monsters: None,
            enhance: None,
            block_number: 0,
            block_hash: ""@,
            block_digest: Digest::zero_view(),
            seed: 0,
            result: JsonView::Null,
            drops: Seq::empty(),
            settle_outputs: 0,
        }
    }

    /// The round's session, as it is started.
    pub open spec fn session(self) -> SessionView {
        chain::open_session(
            self.secret,
            self.session_id,
            KindView::Battle,
            battle_inputs(),
            self.created_at,
            self.rules_version,
        )
    }

    /// What the rules engine is to be run on.
    pub open spec fn execution(self) -> ExecutionView {
        chain::execution_of(self.session(), self.seed, self.enhance, self.monsters)
    }

    /// A transaction of the round that is about to be made.
    pub open spec fn assembly(
        self,
        plan: PlanView,
        nonce: u64,
        base_fee: Option<u64>,
    ) -> AssemblyView {
        AssemblyView {
            plan,
            secret: self.secret,
            nonce,
            chain_id: self.chain_id,
            base_fee,
            stage: StageView::Encode,
        }
    }

    /// The minting of the monster table.
    pub open spec fn mint(self) -> AssemblyView {
        self.assembly(PlanView::MintMonsterConfig, self.nonce, None)
    }

    /// The start of the session.
    pub open spec fn start(self) -> AssemblyView {
        self.assembly(
            PlanView::Start { op: chain::start_op(self.session()), session: self.session() },
            self.nonce,
            None,
        )
    }

    /// The settlement of the session, one nonce on; the player owns the drops.
    pub open spec fn settle(self) -> AssemblyView {
        self.assembly(
            PlanView::Settle {
                op: OpView::ActionSettle {
                    session_id: self.session_id,
                    seed: self.seed,
                    random_block_hash: self.block_hash,
                    claimed: self.result,
                    drops: self.drops,
                },
                settled: chain::settled_session(self.session(), self.result),
                drops: self.drops,
                drop_owner: crypto::address_of(self.secret),
            },
            (self.nonce + 1) as u64,
            Some(self.base_fee),
        )
    }

    /// The sale of the first drop, two nonces on.
    pub open spec fn sale(self) -> AssemblyView {
        self.assembly(
            PlanView::SellDrop {
                op: OpView::SellDrop {
                    session_id: self.session_id,
                    item_id: self.drops[0].item_id,
                },
                session_id: self.session_id,
                item_id: self.drops[0].item_id,
            },
            (self.nonce + 2) as u64,
            Some(self.base_fee),
        )
    }

    /// A round that knows this, at its first stage.
    pub open spec fn bare(self) -> FlowView {
        FlowView { data: self, stage: FlowStageView::FundNative }
    }

    /// The report of a round that went through.
    pub open spec fn summary(self, sold: Seq<char>) -> Seq<char> {
        "start=OK settle_outputs="@ + text::decimal(self.settle_outputs as nat) + " sell=["@ + sold
            + "] session="@ + self.session_id + " seed="@ + text::decimal(self.seed as nat)
            + " player="@ + chain::account_name(self.secret)
    }
}

impl FlowStageView {
    /// What is wanted at this stage.
    pub open spec fn request(self, data: FlowDataView) -> FlowRequest {
        match self {
            FlowStageView::FundNative => FlowRequest::FundAccount,
            FlowStageView::FundTreasury => FlowRequest::FundTreasury,
            FlowStageView::BaseFee => FlowRequest::GasPrice,
            FlowStageView::Clock => FlowRequest::NonceAndTime,
            FlowStageView::MonsterConfig => FlowRequest::GetMonsterConfig,
            FlowStageView::DefaultMonsterTable => FlowRequest::DefaultMonsterTable,
            FlowStageView::ParseMonsterTable(_) => FlowRequest::ParseMonsterTable,
            FlowStageView::EnhanceConfig => FlowRequest::GetEnhanceConfig,
            FlowStageView::DefaultEnhanceTable => FlowRequest::DefaultEnhanceTable,
            FlowStageView::ParseEnhanceTable(_) => FlowRequest::ParseEnhanceTable,
            FlowStageView::Assemble(_, a) => FlowRequest::Transaction(a.stage.request()),
            FlowStageView::Submit(_, _, w) => FlowRequest::Submission(w.stage.request()),
            FlowStageView::LatestBlock => FlowRequest::LatestBlock,
            FlowStageView::StableBlock => FlowRequest::BlockByNumber(data.block_number),
            FlowStageView::Seed => FlowRequest::DeriveSeed,
            FlowStageView::Execute => FlowRequest::Execute,
            FlowStageView::Finished(_) => FlowRequest::Nothing,
        }
    }
}

impl FlowView {
    /// A round that has done nothing yet.
    pub open spec fn initial(treasury: Seq<u8>, chain_id: u64) -> FlowView {
        FlowDataView::initial(treasury, chain_id).bare()
    }

    /// The round at another stage.
    pub open spec fn at(self, stage: FlowStageView) -> FlowView {
        FlowView { stage, ..self }
    }

    /// The round, ended by a failure.
    pub open spec fn fail(self, message: Seq<char>) -> FlowView {
        self.at(FlowStageView::Finished(Err(message)))
    }

    /// After the answer to a question for a base fee.
    pub open spec fn after_gas_price(self, answer: Result<JsonView, Seq<char>>) -> FlowView {
        match answer {
            Err(e) => self.fail("gas price: "@ + e),
            Ok(v) => match node::base_fee_of(v) {
                Some(base_fee) => FlowView {
                    data: FlowDataView { base_fee, ..self.data },
                    stage: FlowStageView::Clock,
                },
                None => self.fail(
                    "gas price response missing base_fee: "@ + json::json_text_of(v),
                ),
            },
        }
    }

    /// After a nonce and a time were drawn: the nonce names the session.
    pub open spec fn after_clock(self, nonce: u64, created_at: u64) -> FlowView {
        FlowView {
            data: FlowDataView { nonce, created_at, session_id: session_name(nonce), ..self.data },
            stage: FlowStageView::MonsterConfig,
        }
    }

    /// After the answer to a question for the monster table: a missing table is minted,
    /// and an error is never taken for a missing table.
    pub open spec fn after_monster_object(
        self,
        answer: Result<JsonView, Seq<char>>,
    ) -> FlowView {
        match answer {
            Err(e) => self.fail("get monster config: "@ + e),
            Ok(v) => if v == JsonView::Null {
                self.at(FlowStageView::Assemble(Goal::MintConfig, self.data.mint()))
            } else {
                match node::config_bytes(v, "monster config"@) {
                    Ok(bytes) => self.at(FlowStageView::ParseMonsterTable(bytes)),
                    Err(e) => self.fail(e),
                }
            },
        }
    }

    /// After the answer to a question for the enhancement table: a missing table is
    /// replaced by the default one.
    pub open spec fn after_enhance_object(
        self,
        answer: Result<JsonView, Seq<char>>,
    ) -> FlowView {
        match answer {
            Err(e) => self.fail("get enhance config: "@ + e),
            Ok(v) => if v == JsonView::Null {
                self.at(FlowStageView::DefaultEnhanceTable)
            } else {
                match node::config_bytes(v, "enhance config"@) {
                    Ok(bytes) => self.at(FlowStageView::ParseEnhanceTable(bytes)),
                    Err(e) => self.fail(e),
                }
            },
        }
    }

    /// After the monster table is known: it is kept, and its version binds the session.
    pub open spec fn with_rules(self, version: u64, monsters: Option<Seq<u8>>) -> FlowView {
        FlowView {
            data: FlowDataView { rules_version: version, monsters, ..self.data },
            stage: FlowStageView::EnhanceConfig,
        }
    }

    /// Once both tables are known and kept, the session is started.
    pub open spec fn starting(self, enhance: Option<Seq<u8>>) -> FlowView {
        let data = FlowDataView { enhance, ..self.data };
        FlowView { data, stage: FlowStageView::Assemble(Goal::Start, data.start()) }
    }

    /// After an answer about a transaction: once it is ready, it is submitted.
    pub open spec fn after_assembly(self, goal: Goal, a: AssemblyView) -> FlowView {
        match a.stage {
            StageView::Ready(tx) => self.at(
                FlowStageView::Submit(
                    goal,
                    tx,
                    WaitView {
                        tx_id: encoding::prefixed_hex_of(tx.tx_id),
                        stage: WaitStageView::Submit,
                    },
                ),
            ),
            _ => self.at(FlowStageView::Assemble(goal, a)),
        }
    }

    /// After the result of a transaction.
    pub open spec fn after_result(self, goal: Goal, answer: JsonView) -> FlowView {
        match goal {
            Goal::MintConfig => self.at(FlowStageView::DefaultMonsterTable),
            Goal::Start => self.at(FlowStageView::LatestBlock),
            Goal::Settle => {
                let settled = FlowView {
                    data: FlowDataView { settle_outputs: output_count(answer), ..self.data },
                    ..self
                };
                if self.data.drops.len() > 0 {
                    settled.at(FlowStageView::Assemble(Goal::Sell, settled.data.sale()))
                } else {
                    settled.at(FlowStageView::Finished(Ok(settled.data.summary(Seq::empty()))))
                }
            },
            Goal::Sell => self.at(
                FlowStageView::Finished(
                    Ok(
                        self.data.summary(
                            if self.data.drops.len() > 0 {
                                sold_text(self.data.drops[0], answer)
                            } else {
                                Seq::empty()
                            },
                        ),
                    ),
                ),
            ),
        }
    }

    /// After an answer about a submission: its end decides how the round goes on.
    pub open spec fn after_submission(self, goal: Goal, tx: TxView, w: WaitView) -> FlowView {
        match w.stage {
            WaitStageView::Done(Ok(answer)) => self.after_result(goal, answer),
            WaitStageView::Done(Err(e)) => self.fail(e),
            _ => self.at(FlowStageView::Submit(goal, tx, w)),
        }
    }

    /// After the latest block is known.
    pub open spec fn after_latest_block(self, answer: Result<JsonView, Seq<char>>) -> FlowView {
        match answer {
            Err(e) => self.fail("latest: "@ + e),
            Ok(block) => FlowView {
                data: FlowDataView {
                    block_number: node::stable_number_of(node::block_number(block)),
                    ..self.data
                },
                stage: FlowStageView::StableBlock,
            },
        }
    }

    /// After the random block is known. Where it cannot be had, no other is taken.
    pub open spec fn after_stable_block(self, answer: Result<JsonView, Seq<char>>) -> FlowView {
        match answer {
            Err(e) => self.fail(
                "stable block "@ + text::decimal(self.data.block_number as nat) + ": "@ + e,
            ),
            Ok(block) => match node::stable_hash_of(block, self.data.block_number) {
                Err(e) => self.fail(e),
                Ok(h) => FlowView {
                    data: FlowDataView { block_hash: h.0, block_digest: h.1, ..self.data },
                    stage: FlowStageView::Seed,
                },
            },
        }
    }

    /// After the seed is known.
    pub open spec fn after_seed(self, seed: u64) -> FlowView {
        FlowView { data: FlowDataView { seed, ..self.data }, stage: FlowStageView::Execute }
    }

    /// After the fight.
    pub open spec fn after_outcome(self, outcome: Result<OutcomeView, Seq<char>>) -> FlowView {
        match outcome {
            Err(e) => self.fail("execute: "@ + e),
            Ok(o) => {
                let data = FlowDataView { result: o.result, drops: o.drops, ..self.data };
                FlowView { data, stage: FlowStageView::Assemble(Goal::Settle, data.settle()) }
            },
        }
    }

    /// The round after an answer. An answer to another question changes nothing.
    pub open spec fn next(self, reply: FlowReplyView) -> FlowView {
        match (self.stage, reply) {
            (FlowStageView::FundNative, FlowReplyView::Funded(r)) => match r {
                Ok(_) => self.at(FlowStageView::FundTreasury),
                Err(e) => self.fail("fund native: "@ + e),
            },
            (FlowStageView::FundTreasury, FlowReplyView::Funded(r)) => match r {
                Ok(_) => self.at(FlowStageView::BaseFee),
                Err(e) => self.fail("fund treasury: "@ + e),
            },
            (FlowStageView::BaseFee, FlowReplyView::GasPrice(answer)) =>
                self.after_gas_price(answer),
            (FlowStageView::Clock, FlowReplyView::NonceAndTime { nonce, created_at }) =>
                self.after_clock(nonce, created_at),
            (FlowStageView::MonsterConfig, FlowReplyView::Object(answer)) =>
                self.after_monster_object(answer),
            (
                FlowStageView::DefaultMonsterTable,
                FlowReplyView::DefaultMonsterTable { version },
            ) => self.with_rules(version, None),
            (FlowStageView::ParseMonsterTable(bytes), FlowReplyView::MonsterTable(r)) => match r {
                Ok(version) => self.with_rules(version, Some(bytes)),
                Err(e) => self.fail("monster config: state parse: "@ + e),
            },
            (FlowStageView::EnhanceConfig, FlowReplyView::Object(answer)) =>
                self.after_enhance_object(answer),
            (FlowStageView::DefaultEnhanceTable, FlowReplyView::EnhanceTable(_)) =>
                self.starting(None),
            (FlowStageView::ParseEnhanceTable(bytes), FlowReplyView::EnhanceTable(r)) => match r {
                Ok(_) => self.starting(Some(bytes)),
                Err(e) => self.fail("enhance config: state parse: "@ + e),
            },
            (FlowStageView::Assemble(goal, a), FlowReplyView::Transaction(r)) =>
                self.after_assembly(goal, a.next(r)),
            (FlowStageView::Submit(goal, tx, w), FlowReplyView::Submission(r)) =>
                self.after_submission(goal, tx, w.next(r)),
            (FlowStageView::LatestBlock, FlowReplyView::Block(answer)) =>
                self.after_latest_block(answer),
            (FlowStageView::StableBlock, FlowReplyView::Block(answer)) =>
                self.after_stable_block(answer),
            (FlowStageView::Seed, FlowReplyView::Seed(seed)) => self.after_seed(seed),
            (FlowStageView::Execute, FlowReplyView::Outcome(outcome)) =>
                self.after_outcome(outcome),
            _ => self,
        }
    }

    /// The later nonces of the round can be formed.
    pub open spec fn well_formed(self) -> bool {
        self.data.nonce <= u64::MAX - 2
    }
}

/// A nonce that an answer brings leaves room for the two after it.
pub open spec fn nonce_has_room(reply: FlowReplyView) -> bool {
    reply matches FlowReplyView::NonceAndTime { nonce, .. } ==> nonce <= u64::MAX - 2
}

/// The text of a prefix and a message.
fn message(prefix: &str, e: String) -> (r: String)
    ensures
        r@ == prefix@ + e@,
{
    let mut s = prefix.to_string();
    s.append(e.as_str());
    s
}

/// The name of the round's session.
fn session_text(nonce: u64) -> (r: String)
    ensures
        r@ == session_name(nonce),
{
    message("client-", decimal_text(nonce))
}

/// What the round's session commits to.
fn goblin_battle() -> (r: ActionInput)
    ensures
        r@ == battle_inputs(),
{
    let mut team: Vec<TeamUnit> = Vec::new();
    team.push(TeamUnit { atk: 60, def: 20, hp: 500 });
    assert(team@ =~= battle_team());
    ActionInput::Battle { monster_id: "goblin".to_string(), team }
}

/// How many outputs an answer to a settlement reports.
fn count_outputs(answer: &Json) -> (r: u64)
    ensures
        r == output_count(answer@),
{
    match answer.get("output_refs") {
        Some(refs) => match refs.array_len() {
            Some(n) => n as u64,
            None => 0,
        },
        None => 0,
    }
}

/// What is shown for a sold drop.
fn sold_line(drop: &ActionDrop, answer: &Json) -> (r: String)
    ensures
        r@ == sold_text(drop@, answer@),
{
    let mut s = drop.item_id.clone();
    s.append("x");
    s.append(decimal_text(drop.count).as_str());
    s.append(":");
    match answer.text_member("status") {
        Some(status) => s.append(status.as_str()),
        None => s.append("?"),
    }
    s
}

impl FlowData {
    /// What a round knows at its beginning.
    fn new(treasury: Address, chain_id: u64) -> (r: FlowData)
        ensures
            r@ == FlowDataView::initial(treasury@, chain_id),
    {
        let seed: [u8; 32] = [0x11u8; 32];
        assert(seed@ =~= master_seed());
        let r = FlowData {
            player: PlayerWallet::derive(&seed, PLAYER_ID),
            treasury,
            chain_id,
            base_fee: 0,
            nonce: 0,
            created_at: 0,
            session_id: "".to_string(),
            rules_version: 0,
            monsters: None,
            enhance: None,
            block_number: 0,
            block_hash: "".to_string(),
            block_digest: Digest::zero(),
            seed: 0,
            result: Json::Null,
            drops: Vec::new(),
            settle_outputs: 0,
        };
        assert(r@.drops =~= Seq::empty());
        r
    }

    /// The round's session, as it is started.
    pub fn session(&self) -> (r: ActionSession)
        ensures
            r@ == self@.session(),
    {
        new_session(
            &self.player,
            self.session_id.as_str(),
            ActionKind::Battle,
            goblin_battle(),
            self.created_at,
            self.rules_version,
        )
    }

    /// The minting of the monster table.
    fn mint(&self) -> (r: TxAssembly)
        ensures
            r@ == self@.mint(),
    {
        build_mint_monster_config_tx(&self.player, self.nonce, self.chain_id)
    }

    /// The start of the session.
    fn start(&self) -> (r: TxAssembly)
        ensures
            r@ == self@.start(),
    {
        build_action_start_tx(
            &self.player,
            self.session_id.as_str(),
            ActionKind::Battle,
            goblin_battle(),
            self.created_at,
            self.rules_version,
            self.nonce,
            self.chain_id,
        )
    }

    /// The settlement of the session.
    fn settle(&self) -> (r: TxAssembly)
        requires
            self.nonce <= u64::MAX - 2,
        ensures
            r@ == self@.settle(),
    {
        build_action_settle_tx(
            &self.player,
            &self.session(),
            self.seed,
            self.block_hash.as_str(),
            self.result.copy(),
            copy_drops(&self.drops),
            self.player.address(),
            self.nonce + 1,
            self.chain_id,
            self.base_fee,
        )
    }

    /// The sale of the first drop.
    fn sale(&self) -> (r: TxAssembly)
        requires
            self.nonce <= u64::MAX - 2,
            self.drops@.len() > 0,
        ensures
            r@ == self@.sale(),
    {
        build_sell_drop_tx(
            &self.player,
            self.session_id.as_str(),
            self.drops[0].item_id.as_str(),
            self.nonce + 2,
            self.chain_id,
            self.base_fee,
        )
    }

    /// The report of a round that went through.
    fn summary(&self, sold: &str) -> (r: String)
        ensures
            r@ == self@.summary(sold@),
    {
        let mut s = "start=OK settle_outputs=".to_string();
        s.append(decimal_text(self.settle_outputs).as_str());
        s.append(" sell=[");
        s.append(sold);
        s.append("] session=");
        s.append(self.session_id.as_str());
        s.append(" seed=");
        s.append(decimal_text(self.seed).as_str());
        s.append(" player=");
        s.append(player_name(&self.player).as_str());
        s
    }

    /// The round at a stage.
    fn at(self, stage: FlowStage) -> (r: ChainFlow)
        requires
            self.nonce <= u64::MAX - 2,
        ensures
            r@ == (FlowView { data: self@, stage: stage@ }),
    {
        ChainFlow { data: self, stage }
    }

    /// The round, ended by a failure.
    fn fail(self, e: String) -> (r: ChainFlow)
        requires
            self.nonce <= u64::MAX - 2,
        ensures
            r@ == (FlowView { data: self@, stage: FlowStageView::Finished(Err(e@)) }),
    {
        ChainFlow { data: self, stage: FlowStage::Finished(Err(e)) }
    }

    /// After the answer to a question for a base fee.
    fn after_gas_price(self, answer: Result<Json, String>) -> (r: ChainFlow)
        requires
            self.nonce <= u64::MAX - 2,
        ensures
            r@ == self@.bare().after_gas_price(submit::answer_view(answer)),
    {
        match answer {
            Err(e) => self.fail(message("gas price: ", e)),
            Ok(v) => match base_fee(&v) {
                Some(fee) => {
                    let mut data = self;
                    data.base_fee = fee;
                    data.at(FlowStage::Clock)
                },
                None => self.fail(message("gas price response missing base_fee: ", v.text())),
            },
        }
    }

    /// After a nonce and a time were drawn.
    fn after_clock(self, nonce: u64, created_at: u64) -> (r: ChainFlow)
        requires
            nonce <= u64::MAX - 2,
        ensures
            r@ == self@.bare().after_clock(nonce, created_at),
    {
        let mut data = self;
        data.nonce = nonce;
        data.created_at = created_at;
        data.session_id = session_text(nonce);
        data.at(FlowStage::MonsterConfig)
    }

    /// After the answer to a question for the monster table.
    fn after_monster_object(self, answer: Result<Json, String>) -> (r: ChainFlow)
        requires
            self.nonce <= u64::MAX - 2,
        ensures
            r@ == self@.bare().after_monster_object(submit::answer_view(answer)),
    {
        match answer {
            Err(e) => self.fail(message("get monster config: ", e)),
            Ok(v) => if v.is_null() {
                let mint = self.mint();
                self.at(FlowStage::Assemble(Goal::MintConfig, mint))
            } else {
                match parse_config_obj(&v, "monster config") {
                    Ok(bytes) => self.at(FlowStage::ParseMonsterTable(bytes)),
                    Err(e) => self.fail(e),
                }
            },
        }
    }

    /// After the answer to a question for the enhancement table.
    fn after_enhance_object(self, answer: Result<Json, String>) -> (r: ChainFlow)
        requires
            self.nonce <= u64::MAX - 2,
        ensures
            r@ == self@.bare().after_enhance_object(submit::answer_view(answer)),
    {
        match answer {
            Err(e) => self.fail(message("get enhance config: ", e)),
            Ok(v) => if v.is_null() {
                self.at(FlowStage::DefaultEnhanceTable)
            } else {
                match parse_config_obj(&v, "enhance config") {
                    Ok(bytes) => self.at(FlowStage::ParseEnhanceTable(bytes)),
                    Err(e) => self.fail(e),
                }
            },
        }
    }

    /// After the monster table is known.
    fn with_rules(self, version: u64, monsters: Option<Vec<u8>>) -> (r: ChainFlow)
        requires
            self.nonce <= u64::MAX - 2,
        ensures
            r@ == self@.bare().with_rules(version, chain::table_view(monsters)),
    {
        let mut data = self;
        data.rules_version = version;
        data.monsters = monsters;
        data.at(FlowStage::EnhanceConfig)
    }

    /// Once both tables are known.
    fn starting(self, enhance: Option<Vec<u8>>) -> (r: ChainFlow)
        requires
            self.nonce <= u64::MAX - 2,
        ensures
            r@ == self@.bare().starting(chain::table_view(enhance)),
    {
        let mut data = self;
        data.enhance = enhance;
        let start = data.start();
        data.at(FlowStage::Assemble(Goal::Start, start))
    }

    /// After an answer about a transaction.
    fn after_assembly(self, goal: Goal, a: TxAssembly) -> (r: ChainFlow)
        requires
            self.nonce <= u64::MAX - 2,
        ensures
            r@ == self@.bare().after_assembly(goal, a@),
    {
        match a.stage {
            TxStage::Ready(tx) => {
                let wait = SubmitWait::new(encoding::prefixed_hex(&tx.tx_id.0.bytes));
                self.at(FlowStage::Submit(goal, tx, wait))
            },
            _ => self.at(FlowStage::Assemble(goal, a)),
        }
    }

    /// After the result of a transaction.
    fn after_result(self, goal: Goal, answer: Json) -> (r: ChainFlow)
        requires
            self.nonce <= u64::MAX - 2,
        ensures
            r@ == self@.bare().after_result(goal, answer@),
    {
        match goal {
            Goal::MintConfig => self.at(FlowStage::DefaultMonsterTable),
            Goal::Start => self.at(FlowStage::LatestBlock),
            Goal::Settle => {
                let mut data = self;
                data.settle_outputs = count_outputs(&answer);
                if data.drops.len() > 0 {
                    let sale = data.sale();
                    data.at(FlowStage::Assemble(Goal::Sell, sale))
                } else {
                    proof {
                        reveal_strlit("");
                    }
                    assert(""@ =~= Seq::<char>::empty());
                    let summary = data.summary("");
                    data.at(FlowStage::Finished(Ok(summary)))
                }
            },
            Goal::Sell => {
                let sold = if self.drops.len() > 0 {
                    sold_line(&self.drops[0], &answer)
                } else {
                    proof {
                        reveal_strlit("");
                    }
                    assert(""@ =~= Seq::<char>::empty());
                    "".to_string()
                };
                let summary = self.summary(sold.as_str());
                self.at(FlowStage::Finished(Ok(summary)))
            },
        }
    }

    /// After an answer about a submission.
    fn after_submission(self, goal: Goal, tx: ComputeTx, w: SubmitWait) -> (r: ChainFlow)
        requires
            self.nonce <= u64::MAX - 2,
        ensures
            r@ == self@.bare().after_submission(goal, tx@, w@),
    {
        match w.stage {
            WaitStage::Done(Ok(answer)) => self.after_result(goal, answer),
            WaitStage::Done(Err(e)) => self.fail(e),
            _ => self.at(FlowStage::Submit(goal, tx, w)),
        }
    }

    /// After the latest block is known.
    fn after_latest_block(self, answer: Result<Json, String>) -> (r: ChainFlow)
        requires
            self.nonce <= u64::MAX - 2,
        ensures
            r@ == self@.bare().after_latest_block(submit::answer_view(answer)),
    {
        match answer {
            Err(e) => self.fail(message("latest: ", e)),
            Ok(block) => {
                let mut data = self;
                data.block_number = stable_number(latest_number(&block));
                data.at(FlowStage::StableBlock)
            },
        }
    }

    /// After the random block is known.
    fn after_stable_block(self, answer: Result<Json, String>) -> (r: ChainFlow)
        requires
            self.nonce <= u64::MAX - 2,
        ensures
            r@ == self@.bare().after_stable_block(submit::answer_view(answer)),
    {
        match answer {
            Err(e) => {
                let mut s = "stable block ".to_string();
                s.append(decimal_text(self.block_number).as_str());
                s.append(": ");
                s.append(e.as_str());
                self.fail(s)
            },
            Ok(block) => match stable_block_hash(&block, self.block_number) {
                Err(e) => self.fail(e),
                Ok((hash, digest)) => {
                    let mut data = self;
                    data.block_hash = hash;
                    data.block_digest = digest;
                    data.at(FlowStage::Seed)
                },
            },
        }
    }

    /// After the seed is known.
    fn after_seed(self, seed: u64) -> (r: ChainFlow)
        requires
            self.nonce <= u64::MAX - 2,
        ensures
            r@ == self@.bare().after_seed(seed),
    {
        let mut data = self;
        data.seed = seed;
        data.at(FlowStage::Execute)
    }

    /// After the fight.
    fn after_outcome(self, outcome: Result<ActionOutcome, String>) -> (r: ChainFlow)
        requires
            self.nonce <= u64::MAX - 2,
        ensures
            r@ == self@.bare().after_outcome(outcome_view(outcome)),
    {
        match outcome {
            Err(e) => self.fail(message("execute: ", e)),
            Ok(o) => {
                let mut data = self;
                data.result = o.result;
                data.drops = o.drops;
                let settle = data.settle();
                data.at(FlowStage::Assemble(Goal::Settle, settle))
            },
        }
    }
}

impl ChainFlow {
    #[verifier::type_invariant]
    spec fn nonces_fit(self) -> bool {
        self.data.nonce <= u64::MAX - 2
    }

    /// A round that has done nothing yet, on the chain with that number.
    pub fn new(treasury: Address, chain_id: u64) -> (r: ChainFlow)
        ensures
            r@ == FlowView::initial(treasury@, chain_id),
    {
        ChainFlow { data: FlowData::new(treasury, chain_id), stage: FlowStage::FundNative }
    }

    /// What is wanted next.
    pub fn request(&self) -> (r: FlowRequest)
        ensures
            r == self@.stage.request(self@.data),
    {
        match &self.stage {
            FlowStage::FundNative => FlowRequest::FundAccount,
            FlowStage::FundTreasury => FlowRequest::FundTreasury,
            FlowStage::BaseFee => FlowRequest::GasPrice,
            FlowStage::Clock => FlowRequest::NonceAndTime,
            FlowStage::MonsterConfig => FlowRequest::GetMonsterConfig,
            FlowStage::DefaultMonsterTable => FlowRequest::DefaultMonsterTable,
            FlowStage::ParseMonsterTable(_) => FlowRequest::ParseMonsterTable,
            FlowStage::EnhanceConfig => FlowRequest::GetEnhanceConfig,
            FlowStage::DefaultEnhanceTable => FlowRequest::DefaultEnhanceTable,
            FlowStage::ParseEnhanceTable(_) => FlowRequest::ParseEnhanceTable,
            FlowStage::Assemble(_, a) => FlowRequest::Transaction(a.request()),
            FlowStage::Submit(_, _, w) => FlowRequest::Submission(w.request()),
            FlowStage::LatestBlock => FlowRequest::LatestBlock,
            FlowStage::StableBlock => FlowRequest::BlockByNumber(self.data.block_number),
            FlowStage::Seed => FlowRequest::DeriveSeed,
            FlowStage::Execute => FlowRequest::Execute,
            FlowStage::Finished(_) => FlowRequest::Nothing,
        }
    }

    /// The account that is given gas.
    pub fn player_account(&self) -> (r: String)
        ensures
            r@ == chain::account_name(self@.data.secret),
    {
        player_name(&self.data.player)
    }

    /// The account that drops are bought from.
    pub fn treasury_account(&self) -> (r: String)
        ensures
            r@ == encoding::prefixed_hex_of(self@.data.treasury),
    {
        encoding::prefixed_hex(&self.data.treasury.bytes)
    }

    /// What the round knows.
    pub fn data(&self) -> (r: &FlowData)
        ensures
            r@ == self@.data,
    {
        &self.data
    }

    /// How far the round has come.
    pub fn stage(&self) -> (r: &FlowStage)
        ensures
            r@ == self@.stage,
    {
        &self.stage
    }

    /// How the round ended; the round itself where it has not.
    pub fn into_end(self) -> (r: Result<Result<String, String>, ChainFlow>)
        ensures
            match r {
                Ok(end) => self@.stage == FlowStageView::Finished(end_view(end)),
                Err(flow) => !(self@.stage is Finished) && flow == self,
            },
    {
        match self.stage {
            FlowStage::Finished(end) => Ok(end),
            _ => Err(self),
        }
    }

    /// What the rules engine is to be run on: the session as it was started, the seed,
    /// and the tables that were kept.
    pub fn execution(&self) -> (r: Execution)
        ensures
            r@ == self@.data.execution(),
    {
        execute_locally(
            &self.data.session(),
            self.data.seed,
            &self.data.enhance,
            &self.data.monsters,
        )
    }

    /// Takes the answer to what was asked.
    pub fn step(self, reply: FlowReply) -> (r: ChainFlow)
        requires
            nonce_has_room(reply@),
        ensures
            r@ == self@.next(reply@),
    {
        proof {
            use_type_invariant(&self);
        }
        let ChainFlow { data, stage } = self;
        match (stage, reply) {
            (FlowStage::FundNative, FlowReply::Funded(r)) => match r {
                Ok(_) => data.at(FlowStage::FundTreasury),
                Err(e) => data.fail(message("fund native: ", e)),
            },
            (FlowStage::FundTreasury, FlowReply::Funded(r)) => match r {
                Ok(_) => data.at(FlowStage::BaseFee),
                Err(e) => data.fail(message("fund treasury: ", e)),
            },
            (FlowStage::BaseFee, FlowReply::GasPrice(answer)) => data.after_gas_price(answer),
            (FlowStage::Clock, FlowReply::NonceAndTime { nonce, created_at }) =>
                data.after_clock(nonce, created_at),
            (FlowStage::MonsterConfig, FlowReply::Object(answer)) =>
                data.after_monster_object(answer),
            (FlowStage::DefaultMonsterTable, FlowReply::DefaultMonsterTable { version }) =>
                data.with_rules(version, None),
            (FlowStage::ParseMonsterTable(bytes), FlowReply::MonsterTable(r)) => match r {
                Ok(version) => data.with_rules(version, Some(bytes)),
                Err(e) => data.fail(message("monster config: state parse: ", e)),
            },
            (FlowStage::EnhanceConfig, FlowReply::Object(answer)) =>
                data.after_enhance_object(answer),
            (FlowStage::DefaultEnhanceTable, FlowReply::EnhanceTable(_)) => data.starting(None),
            (FlowStage::ParseEnhanceTable(bytes), FlowReply::EnhanceTable(r)) => match r {
                Ok(_) => data.starting(Some(bytes)),
                Err(e) => data.fail(message("enhance config: state parse: ", e)),
            },
            (FlowStage::Assemble(goal, a), FlowReply::Transaction(r)) =>
                data.after_assembly(goal, a.step(r)),
            (FlowStage::Submit(goal, tx, w), FlowReply::Submission(r)) =>
                data.after_submission(goal, tx, w.step(r)),
            (FlowStage::LatestBlock, FlowReply::Block(answer)) => data.after_latest_block(answer),
            (FlowStage::StableBlock, FlowReply::Block(answer)) => data.after_stable_block(answer),
            (FlowStage::Seed, FlowReply::Seed(seed)) => data.after_seed(seed),
            (FlowStage::Execute, FlowReply::Outcome(outcome)) => data.after_outcome(outcome),
            (stage, _) => ChainFlow { data, stage },
        }
    }
}

/// How far the nonce of a transaction lies after the round's first.
pub open spec fn nonce_offset(goal: Goal) -> int {
    match goal {
        Goal::MintConfig => 0,
        Goal::Start => 0,
        Goal::Settle => 1,
        Goal::Sell => 2,
    }
}

/// A transaction of that kind pays for its gas.
pub open spec fn pays(goal: Goal) -> bool {
    goal is Settle || goal is Sell
}

impl FlowDataView {
    /// The transaction of that kind, before anything is known of its encoding.
    pub open spec fn planned(self, goal: Goal) -> AssemblyView {
        match goal {
            Goal::MintConfig => self.mint(),
            Goal::Start => self.start(),
            Goal::Settle => self.settle(),
            Goal::Sell => self.sale(),
        }
    }

    /// A transaction belongs to the round: it is for the round's chain, and its nonce
    /// is the round's, one on for the settlement and two on for the sale.
    pub open spec fn numbered(self, goal: Goal, tx: TxView) -> bool {
        &&& tx.chain_id == Some(self.chain_id)
        &&& tx.nonce == Some((self.nonce + nonce_offset(goal)) as u64)
    }

    /// A transaction offers what it owes: nothing for what is minted, else its whole
    /// gas limit at the base fee that the node stated.
    pub open spec fn budgeted(self, goal: Goal, tx: TxView) -> bool {
        if pays(goal) {
            &&& tx.gas_limit >= chain::MIN_GAS_LIMIT
            &&& tx.max_fee == chain::saturating_product(tx.gas_limit, self.base_fee)
            &&& tx.priority_fee == 0
        } else {
            &&& tx.gas_limit == 0
            &&& tx.max_fee == 0
            &&& tx.priority_fee == 0
        }
    }

    /// A transaction carries the one signature of the round's player.
    pub open spec fn authorised(self, tx: TxView) -> bool {
        &&& tx.signatures.len() == 1
        &&& tx.signatures[0].public_key == crypto::public_key_of(self.secret)
        &&& exists|preimage: Seq<u8>|
            tx.signatures[0].signature == #[trigger] crypto::signature_of(self.secret, preimage)
    }
}

impl FlowView {
    /// The round's nonce has been drawn. Of a round that failed this is not known.
    pub open spec fn nonce_drawn(self) -> bool {
        match self.stage {
            FlowStageView::FundNative => false,
            FlowStageView::FundTreasury => false,
            FlowStageView::BaseFee => false,
            FlowStageView::Clock => false,
            FlowStageView::Finished(end) => end is Ok,
            _ => true,
        }
    }

    /// What holds of a round at every moment: it is played by its own player, its session
    /// is named after its nonce, and each transaction that is made or submitted comes from
    /// what the round knows.
    pub open spec fn coherent(self) -> bool {
        &&& self.data.secret == player_secret()
        &&& self.well_formed()
        &&& self.nonce_drawn() ==> self.data.session_id == session_name(self.data.nonce)
        &&& match self.stage {
            FlowStageView::Assemble(goal, a) => {
                &&& a == AssemblyView { stage: a.stage, ..self.data.planned(goal) }
                &&& a.sound()
                &&& !(a.stage is Ready)
                &&& goal is Sell ==> self.data.drops.len() > 0
            },
            FlowStageView::Submit(goal, tx, w) => {
                &&& AssemblyView { stage: StageView::Ready(tx), ..self.data.planned(goal) }.sound()
                &&& w.tx_id == encoding::prefixed_hex_of(tx.tx_id)
                &&& !(w.stage is Done)
                &&& goal is Sell ==> self.data.drops.len() > 0
            },
            _ => true,
        }
    }

    /// The session has been committed to.
    pub open spec fn committed(self) -> bool {
        match self.stage {
            FlowStageView::Assemble(goal, _) => !(goal is MintConfig),
            FlowStageView::Submit(goal, _, _) => !(goal is MintConfig),
            FlowStageView::LatestBlock => true,
            FlowStageView::StableBlock => true,
            FlowStageView::Seed => true,
            FlowStageView::Execute => true,
            FlowStageView::Finished(_) => true,
            _ => false,
        }
    }

    /// An answer is to the question that was asked, and reports a failure.
    pub open spec fn failure(self, reply: FlowReplyView) -> Option<Seq<char>> {
        match (self.stage, reply) {
            (FlowStageView::FundNative, FlowReplyView::Funded(Err(e))) => Some(e),
            (FlowStageView::FundTreasury, FlowReplyView::Funded(Err(e))) => Some(e),
            (FlowStageView::BaseFee, FlowReplyView::GasPrice(Err(e))) => Some(e),
            (FlowStageView::MonsterConfig, FlowReplyView::Object(Err(e))) => Some(e),
            (FlowStageView::ParseMonsterTable(_), FlowReplyView::MonsterTable(Err(e))) => Some(e),
            (FlowStageView::EnhanceConfig, FlowReplyView::Object(Err(e))) => Some(e),
            (FlowStageView::ParseEnhanceTable(_), FlowReplyView::EnhanceTable(Err(e))) => Some(e),
            (FlowStageView::LatestBlock, FlowReplyView::Block(Err(e))) => Some(e),
            (FlowStageView::StableBlock, FlowReplyView::Block(Err(e))) => Some(e),
            (FlowStageView::Execute, FlowReplyView::Outcome(Err(e))) => Some(e),
            (
                FlowStageView::Submit(_, _, WaitView { stage: WaitStageView::Submit, .. }),
                FlowReplyView::Submission(WaitReplyView::Submitted(Err(e))),
            ) => Some(e),
            (
                FlowStageView::Submit(_, _, WaitView { stage: WaitStageView::Poll, .. }),
                FlowReplyView::Submission(WaitReplyView::Polled(Err(e))),
            ) => Some(e),
            _ => None,
        }
    }
}

/// A round is coherent at its beginning.
pub proof fn law_round_begins_coherent(treasury: Seq<u8>, chain_id: u64)
    ensures
        FlowView::initial(treasury, chain_id).coherent(),
{
}

/// Whatever is answered, a coherent round stays coherent, on the same chain and with
/// the same treasury.
#[verifier::spinoff_prover]
pub proof fn law_round_stays_coherent(f: FlowView, reply: FlowReplyView)
    requires
        f.coherent(),
        nonce_has_room(reply),
    ensures
        f.next(reply).coherent(),
        f.next(reply).data.chain_id == f.data.chain_id,
        f.next(reply).data.treasury == f.data.treasury,
{
    if let (FlowStageView::Assemble(goal, a), FlowReplyView::Transaction(r)) = (f.stage, reply) {
        assembly::law_assembly_stays_sound(a, r);
    }
}

/// The round after a list of answers, one after the other.
pub open spec fn played(f: FlowView, replies: Seq<FlowReplyView>) -> FlowView
    decreases replies.len(),
{
    if replies.len() == 0 {
        f
    } else {
        played(f, replies.drop_last()).next(replies.last())
    }
}

/// However a round is answered from its beginning, it is coherent, and on the chain
/// that it was begun for.
pub proof fn law_every_round_is_coherent(
    treasury: Seq<u8>,
    chain_id: u64,
    replies: Seq<FlowReplyView>,
)
    requires
        forall|i: int| 0 <= i < replies.len() ==> nonce_has_room(#[trigger] replies[i]),
    ensures
        played(FlowView::initial(treasury, chain_id), replies).coherent(),
        played(FlowView::initial(treasury, chain_id), replies).data.chain_id == chain_id,
        played(FlowView::initial(treasury, chain_id), replies).data.treasury == treasury,
    decreases replies.len(),
{
    if replies.len() > 0 {
        law_every_round_is_coherent(treasury, chain_id, replies.drop_last());
        law_round_stays_coherent(
            played(FlowView::initial(treasury, chain_id), replies.drop_last()),
            replies.last(),
        );
    }
}

/// A transaction that a coherent round submits is for its own chain, under its turn of
/// the nonces, with the fee budget that the node's base fee asks for, and signed by its
/// own player; and its result is asked for under its own identity.
pub proof fn law_submitted_transaction(f: FlowView, goal: Goal, tx: TxView, w: WaitView)
    requires
        f.coherent(),
        f.stage == FlowStageView::Submit(goal, tx, w),
    ensures
        f.data.numbered(goal, tx),
        f.data.budgeted(goal, tx),
        f.data.authorised(tx),
        w.tx_id == encoding::prefixed_hex_of(tx.tx_id),
{
    let a = AssemblyView { stage: StageView::Ready(tx), ..f.data.planned(goal) };
    let (e, gas, p) = choose|e: EncodedView, gas: u64, p: Seq<u8>| a.signs(tx, e, gas, p);
    assert(tx.signatures[0].signature == crypto::signature_of(f.data.secret, p));
}

/// A coherent round that has not ended always wants something.
pub proof fn law_round_never_stalls(f: FlowView)
    requires
        f.coherent(),
        !(f.stage is Finished),
    ensures
        f.stage.request(f.data) != FlowRequest::Nothing,
        f.stage.request(f.data) != FlowRequest::Transaction(TxRequest::Nothing),
        f.stage.request(f.data) != FlowRequest::Submission(WaitRequest::Nothing),
{
}

/// A round that has ended stays as it is, whatever is still answered.
pub proof fn law_round_ends_for_good(f: FlowView, reply: FlowReplyView)
    requires
        f.stage is Finished,
    ensures
        f.next(reply) == f,
{
}

/// A failure ends the round at once, and its message is the last part of the round's.
pub proof fn law_failure_ends_the_round(f: FlowView, reply: FlowReplyView, e: Seq<char>)
    requires
        f.failure(reply) == Some(e),
    ensures
        f.next(reply).stage matches FlowStageView::Finished(Err(m)) && e.is_suffix_of(m),
{
    let m = f.next(reply).stage->Finished_0->Err_0;
    assert(m.skip(m.len() - e.len()) =~= e);
    assert(m.subrange(m.len() - e.len(), m.len() as int) =~= e);
}

/// A missing monster table is minted under its default contents; an error in place of
/// an answer is never taken for a missing table, nor is a broken table.
pub proof fn law_only_a_missing_table_is_minted(f: FlowView, answer: Result<JsonView, Seq<char>>)
    requires
        f.stage is MonsterConfig,
    ensures
        f.next(FlowReplyView::Object(answer)).stage is Assemble <==> answer
            == Ok::<JsonView, Seq<char>>(JsonView::Null),
        f.next(FlowReplyView::Object(answer)).stage is Assemble ==> f.next(
            FlowReplyView::Object(answer),
        ).stage == FlowStageView::Assemble(Goal::MintConfig, f.data.mint()),
{
}

/// The session is bound to the version of the monster table that the chain holds.
pub proof fn law_session_is_bound_to_the_rules(f: FlowView, reply: FlowReplyView, version: u64)
    requires
        (f.stage is DefaultMonsterTable && reply == FlowReplyView::DefaultMonsterTable { version })
            || (f.stage is ParseMonsterTable && reply == FlowReplyView::MonsterTable(Ok(version))),
    ensures
        f.next(reply).stage is EnhanceConfig,
        f.next(reply).data.session().rules_version == version,
        f.next(reply).data.start().plan->Start_session.rules_version == version,
{
}

/// The random block is asked for only once the node has accepted the session's start.
pub proof fn law_commitment_comes_before_the_random_block(f: FlowView, reply: FlowReplyView)
    requires
        !(f.stage is LatestBlock),
        f.next(reply).stage is LatestBlock,
    ensures
        f.stage matches FlowStageView::Submit(Goal::Start, _, w) && reply matches
            FlowReplyView::Submission(r) && w.next(r).stage matches WaitStageView::Done(Ok(_)),
{
}

/// A missing enhancement table is replaced by the default one; an error in place of an
/// answer is never taken for a missing table, nor is a broken table.
pub proof fn law_only_a_missing_table_is_replaced(
    f: FlowView,
    answer: Result<JsonView, Seq<char>>,
)
    requires
        f.stage is EnhanceConfig,
    ensures
        f.next(FlowReplyView::Object(answer)).stage is DefaultEnhanceTable <==> answer
            == Ok::<JsonView, Seq<char>>(JsonView::Null),
{
}

/// Without a base fee there is no round: none is made up.
pub proof fn law_no_base_fee_no_round(f: FlowView, answer: JsonView)
    requires
        f.stage is BaseFee,
        node::base_fee_of(answer) is None,
    ensures
        f.next(FlowReplyView::GasPrice(Ok(answer))).stage == FlowStageView::Finished(
            Err("gas price response missing base_fee: "@ + json::json_text_of(answer)),
        ),
{
}

/// From its start on, what the session commits to no longer changes, and neither do
/// its nonce, the base fee, and the tables that the fight goes by.
pub proof fn law_commitment_is_fixed(f: FlowView, reply: FlowReplyView)
    requires
        f.committed(),
    ensures
        f.next(reply).committed(),
        f.next(reply).data.session() == f.data.session(),
        f.next(reply).data.nonce == f.data.nonce,
        f.next(reply).data.base_fee == f.data.base_fee,
        f.next(reply).data.monsters == f.data.monsters,
        f.next(reply).data.enhance == f.data.enhance,
{
}

/// However the round goes on after its start, what the session commits to stays.
pub proof fn law_commitment_outlasts_the_round(f: FlowView, replies: Seq<FlowReplyView>)
    requires
        f.committed(),
    ensures
        played(f, replies).committed(),
        played(f, replies).data.session() == f.data.session(),
        played(f, replies).data.nonce == f.data.nonce,
        played(f, replies).data.base_fee == f.data.base_fee,
        played(f, replies).data.monsters == f.data.monsters,
        played(f, replies).data.enhance == f.data.enhance,
    decreases replies.len(),
{
    if replies.len() > 0 {
        law_commitment_outlasts_the_round(f, replies.drop_last());
        law_commitment_is_fixed(played(f, replies.drop_last()), replies.last());
    }
}

/// The settlement claims exactly what the rules engine gave, for the session that was
/// started, under the seed and the hash of the random block; the player owns the drops.
pub proof fn law_settlement_claims_the_outcome(f: FlowView, outcome: OutcomeView)
    requires
        f.stage is Execute,
    ensures
        f.next(FlowReplyView::Outcome(Ok(outcome))).stage matches FlowStageView::Assemble(
            Goal::Settle,
            a,
        ) && a.plan == (PlanView::Settle {
            op: OpView::ActionSettle {
                session_id: f.data.session_id,
                seed: f.data.seed,
                random_block_hash: f.data.block_hash,
                claimed: outcome.result,
                drops: outcome.drops,
            },
            settled: chain::settled_session(f.data.session(), outcome.result),
            drops: outcome.drops,
            drop_owner: crypto::address_of(f.data.secret),
        }),
{
}

/// A settled round sells its first drop, and ends where there is none.
pub proof fn law_first_drop_is_sold(f: FlowView, answer: JsonView)
    ensures
        ({
            let after = f.after_result(Goal::Settle, answer);
            if f.data.drops.len() > 0 {
                after.stage matches FlowStageView::Assemble(Goal::Sell, a) && a.plan matches
                    PlanView::SellDrop { session_id, item_id, .. } && session_id
                    == f.data.session_id && item_id == f.data.drops[0].item_id
            } else {
                after.stage matches FlowStageView::Finished(Ok(_))
            }
        }),
{
}

/// Sessions of different nonces have different names.
pub proof fn law_session_names_differ(first: u64, second: u64)
    requires
        first != second,
    ensures
        session_name(first) != session_name(second),
{
    let prefix = "client-"@;
    text::law_decimal_round_trip(first as nat, u64::MAX as int);
    text::law_decimal_round_trip(second as nat, u64::MAX as int);
    assert(session_name(first).skip(prefix.len() as int) =~= text::decimal(first as nat));
    assert(session_name(second).skip(prefix.len() as int) =~= text::decimal(second as nat));
}

/// The monster table that the fight goes by is the chain's, byte for byte; the default
/// one is taken only where the table was missing and has been minted.
pub proof fn law_monster_table_is_the_chains(
    f: FlowView,
    object: JsonView,
    bytes: Seq<u8>,
    version: u64,
)
    requires
        f.stage is MonsterConfig,
        object != JsonView::Null,
        node::config_bytes(object, "monster config"@) == Ok::<Seq<u8>, Seq<char>>(bytes),
    ensures
        ({
            let read = f.next(FlowReplyView::Object(Ok(object)));
            let kept = read.next(FlowReplyView::MonsterTable(Ok(version)));
            &&& read.stage == FlowStageView::ParseMonsterTable(bytes)
            &&& kept.stage is EnhanceConfig
            &&& kept.data.monsters == Some(bytes)
            &&& kept.data.session().rules_version == version
        }),
        f.at(FlowStageView::DefaultMonsterTable).next(
            FlowReplyView::DefaultMonsterTable { version },
        ).data.monsters is None,
{
}

/// The enhancement table that the fight goes by is the chain's, byte for byte; the
/// default one is taken only where the table is missing.
pub proof fn law_enhance_table_is_the_chains(f: FlowView, object: JsonView, bytes: Seq<u8>)
    requires
        f.stage is EnhanceConfig,
        object != JsonView::Null,
        node::config_bytes(object, "enhance config"@) == Ok::<Seq<u8>, Seq<char>>(bytes),
    ensures
        ({
            let read = f.next(FlowReplyView::Object(Ok(object)));
            let kept = read.next(FlowReplyView::EnhanceTable(Ok(())));
            &&& read.stage == FlowStageView::ParseEnhanceTable(bytes)
            &&& kept.stage matches FlowStageView::Assemble(Goal::Start, _)
            &&& kept.data.enhance == Some(bytes)
            &&& kept.data.monsters == f.data.monsters
        }),
        ({
            let missing = f.next(FlowReplyView::Object(Ok(JsonView::Null)));
            let kept = missing.next(FlowReplyView::EnhanceTable(Ok(())));
            &&& kept.stage matches FlowStageView::Assemble(Goal::Start, _)
            &&& kept.data.enhance is None
            &&& kept.data.monsters == f.data.monsters
        }),
{
}

/// However the round goes on after its start, the fight that it asks for is that of the
/// session as it was started, under the two tables that were kept then.
pub proof fn law_fight_goes_by_the_kept_tables(f: FlowView, replies: Seq<FlowReplyView>)
    requires
        f.committed(),
    ensures
        played(f, replies).data.execution() == (ExecutionView {
            action_type: KindView::Battle,
            inputs: battle_inputs(),
            seed: played(f, replies).data.seed,
            enhance: f.data.enhance,
            monsters: f.data.monsters,
        }),
{
    law_commitment_outlasts_the_round(f, replies);
}

/// On a chain that holds both tables, the round is bound to the version of its monster
/// table, fights under exactly the two tables that it holds, and claims what that
/// fight came to.
pub proof fn law_claim_goes_by_the_chains_tables(
    f: FlowView,
    monsters: JsonView,
    monster_bytes: Seq<u8>,
    version: u64,
    enhance: JsonView,
    enhance_bytes: Seq<u8>,
    replies: Seq<FlowReplyView>,
    outcome: OutcomeView,
)
    requires
        f.stage is MonsterConfig,
        monsters != JsonView::Null,
        enhance != JsonView::Null,
        node::config_bytes(monsters, "monster config"@) == Ok::<Seq<u8>, Seq<char>>(monster_bytes),
        node::config_bytes(enhance, "enhance config"@) == Ok::<Seq<u8>, Seq<char>>(enhance_bytes),
    ensures
        ({
            let started = f.next(FlowReplyView::Object(Ok(monsters))).next(
                FlowReplyView::MonsterTable(Ok(version)),
            ).next(FlowReplyView::Object(Ok(enhance))).next(FlowReplyView::EnhanceTable(Ok(())));
            let fighting = played(started, replies);
            fighting.stage is Execute ==> {
                &&& fighting.data.execution() == ExecutionView {
                    action_type: KindView::Battle,
                    inputs: battle_inputs(),
                    seed: fighting.data.seed,
                    enhance: Some(enhance_bytes),
                    monsters: Some(monster_bytes),
                }
                &&& fighting.data.session().rules_version == version
                &&& fighting.next(FlowReplyView::Outcome(Ok(outcome))).stage matches
                    FlowStageView::Assemble(Goal::Settle, a)
                &&& a.plan matches PlanView::Settle { op, settled, drops, drop_owner }
                &&& op == OpView::ActionSettle {
                    session_id: fighting.data.session_id,
                    seed: fighting.data.seed,
                    random_block_hash: fighting.data.block_hash,
                    claimed: outcome.result,
                    drops: outcome.drops,
                }
                &&& settled.rules_version == version
                &&& drops == outcome.drops
                &&& drop_owner == crypto::address_of(fighting.data.secret)
            }
        }),
{
    law_monster_table_is_the_chains(f, monsters, monster_bytes, version);
    let loaded = f.next(FlowReplyView::Object(Ok(monsters))).next(
        FlowReplyView::MonsterTable(Ok(version)),
    );
    law_enhance_table_is_the_chains(loaded, enhance, enhance_bytes);
    let started = loaded.next(FlowReplyView::Object(Ok(enhance))).next(
        FlowReplyView::EnhanceTable(Ok(())),
    );
    law_commitment_outlasts_the_round(started, replies);
    law_fight_goes_by_the_kept_tables(started, replies);
}

/// Where a stage stands in the order of a round.
pub open spec fn position(stage: FlowStageView) -> int {
    match stage {
        FlowStageView::FundNative => 0,
        FlowStageView::FundTreasury => 1,
        FlowStageView::BaseFee => 2,
        FlowStageView::Clock => 3,
        FlowStageView::MonsterConfig => 4,
        FlowStageView::Assemble(Goal::MintConfig, _) => 5,
        FlowStageView::Submit(Goal::MintConfig, _, _) => 6,
        FlowStageView::DefaultMonsterTable => 7,
        FlowStageView::ParseMonsterTable(_) => 7,
        FlowStageView::EnhanceConfig => 8,
        FlowStageView::DefaultEnhanceTable => 9,
        FlowStageView::ParseEnhanceTable(_) => 9,
        FlowStageView::Assemble(Goal::Start, _) => 10,
        FlowStageView::Submit(Goal::Start, _, _) => 11,
        FlowStageView::LatestBlock => 12,
        FlowStageView::StableBlock => 13,
        FlowStageView::Seed => 14,
        FlowStageView::Execute => 15,
        FlowStageView::Assemble(Goal::Settle, _) => 16,
        FlowStageView::Submit(Goal::Settle, _, _) => 17,
        FlowStageView::Assemble(Goal::Sell, _) => 18,
        FlowStageView::Submit(Goal::Sell, _, _) => 19,
        FlowStageView::Finished(_) => 20,
    }
}

/// One stage comes directly before another. A failure may come before the end at any
/// stage; a report comes only after a settlement or a sale.
pub open spec fn comes_before(from: FlowStageView, to: FlowStageView) -> bool {
    match (from, to) {
        (FlowStageView::MonsterConfig, FlowStageView::Assemble(goal, _)) => goal is MintConfig,
        (FlowStageView::MonsterConfig, FlowStageView::ParseMonsterTable(_)) => true,
        (_, FlowStageView::ParseMonsterTable(_)) => false,
        (FlowStageView::Submit(goal, _, _), FlowStageView::Assemble(next, _)) => goal is Settle
            && next is Sell,
        (_, FlowStageView::Finished(Err(_))) => true,
        (FlowStageView::Submit(goal, _, _), FlowStageView::Finished(Ok(_))) => goal is Settle
            || goal is Sell,
        (_, FlowStageView::Finished(Ok(_))) => false,
        _ => position(to) == position(from) + 1,
    }
}

/// An answer about a transaction leaves the round at it, or has it submitted.
proof fn lemma_assembly_in_order(f: FlowView, reply: FlowReplyView, goal: Goal, a: AssemblyView)
    requires
        f.stage == FlowStageView::Assemble(goal, a),
    ensures
        position(f.next(reply).stage) == position(f.stage) || comes_before(
            f.stage,
            f.next(reply).stage,
        ),
        position(f.next(reply).stage) >= position(f.stage),
{
}

/// An answer about a submission leaves the round at it, ends the round, or has it go on
/// with what comes after that transaction.
proof fn lemma_submission_in_order(
    f: FlowView,
    reply: FlowReplyView,
    goal: Goal,
    tx: TxView,
    w: WaitView,
)
    requires
        f.stage == FlowStageView::Submit(goal, tx, w),
    ensures
        position(f.next(reply).stage) == position(f.stage) || comes_before(
            f.stage,
            f.next(reply).stage,
        ),
        position(f.next(reply).stage) >= position(f.stage),
{
}

/// A round goes forward one stage at a time: minting (where it is needed), start, random
/// block, fight, settlement, sale. Each is reached only through the one before.
#[verifier::spinoff_prover]
pub proof fn law_round_goes_in_order(f: FlowView, reply: FlowReplyView)
    requires
        !(f.stage is Finished),
    ensures
        position(f.next(reply).stage) == position(f.stage) || comes_before(
            f.stage,
            f.next(reply).stage,
        ),
        position(f.next(reply).stage) >= position(f.stage),
{
    match f.stage {
        FlowStageView::Assemble(goal, a) => lemma_assembly_in_order(f, reply, goal, a),
        FlowStageView::Submit(goal, tx, w) => lemma_submission_in_order(f, reply, goal, tx, w),
        _ => {},
    }
}

/// However it is answered, a round never goes back.
pub proof fn law_round_never_goes_back(f: FlowView, replies: Seq<FlowReplyView>)
    ensures
        position(played(f, replies).stage) >= position(f.stage),
    decreases replies.len(),
{
    if replies.len() > 0 {
        law_round_never_goes_back(f, replies.drop_last());
        let g = played(f, replies.drop_last());
        if !(g.stage is Finished) {
            law_round_goes_in_order(g, replies.last());
        }
    }
}

/// The session that a round starts, the operation that starts it, and the fight that is
/// executed for it, all have one fighter of attack 60, defence 20 and 500 hit points
/// against the goblin.
pub proof fn law_round_fights_a_goblin(d: FlowDataView)
    ensures
        ({
            let a_goblin_fight = |inputs: InputView|
                inputs matches InputView::Battle { monster_id, team } && monster_id == "goblin"@
                    && team.len() == 1 && team[0].atk == 60 && team[0].def == 20 && team[0].hp
                    == 500;
            &&& a_goblin_fight(d.session().inputs)
            &&& a_goblin_fight(d.execution().inputs)
            &&& d.start().plan matches PlanView::Start { op, session }
            &&& a_goblin_fight(session.inputs)
            &&& op matches OpView::ActionStart { inputs, .. }
            &&& a_goblin_fight(inputs)
            &&& d.settle().plan matches PlanView::Settle { settled, .. }
            &&& a_goblin_fight(settled.inputs)
            &&& d.session().action_type == KindView::Battle
            &&& d.execution().action_type == KindView::Battle
        }),
{
}

/// The player of a round is number 9001 of the master seed whose 32 bytes are all 0x11.
pub proof fn law_player_of_the_round(data: Seq<u8>, treasury: Seq<u8>, chain_id: u64)
    requires
        data.len() == 46,
        forall|i: int| 0 <= i < 32 ==> #[trigger] data[i] == 0x11,
        data.subrange(32, 38) == seq![0x70u8, 0x6c, 0x61, 0x79, 0x65, 0x72],
        vstd::bytes::spec_u64_from_le_bytes(data.skip(38)) == 9001,
    ensures
        FlowView::initial(treasury, chain_id).data.secret == crypto::keccak256_of(data),
{
    let seed = crypto::wallet_seed(master_seed(), PLAYER_ID);
    crypto::law_wallet_seed_holds_seed_and_number(master_seed(), PLAYER_ID);
    vstd::bytes::lemma_auto_spec_u64_to_from_le_bytes();
    let a = seed.skip(38);
    let b = data.skip(38);
    assert(vstd::bytes::spec_u64_to_le_bytes(vstd::bytes::spec_u64_from_le_bytes(a)) == a);
    assert(vstd::bytes::spec_u64_to_le_bytes(vstd::bytes::spec_u64_from_le_bytes(b)) == b);
    assert forall|i: int| 0 <= i < 46 implies seed[i] == data[i] by {
        if i < 32 {
            assert(seed.take(32)[i] == master_seed()[i]);
        } else if i < 38 {
            assert(seed.subrange(32, 38)[i - 32] == data.subrange(32, 38)[i - 32]);
        } else {
            assert(a[i - 38] == b[i - 38]);
        }
    }
    assert(seed =~= data);
}

/// What is given to the player's account and to the treasury.
pub proof fn law_funds()
    ensures
        NATIVE_FUNDS == 10_000_000,
        TREASURY_FUNDS == 10_000,
        TREASURY_TOKEN == 1,
{
}

/// A round begins with funding, on the chain and with the treasury that it was given, and
/// knows nothing else yet.
pub proof fn law_round_begins_with_nothing(treasury: Seq<u8>, chain_id: u64)
    ensures
        ({
            let f = FlowView::initial(treasury, chain_id);
            &&& f.stage == FlowStageView::FundNative
            &&& f.data.treasury == treasury
            &&& f.data.chain_id == chain_id
            &&& f.data.monsters is None
            &&& f.data.enhance is None
            &&& f.data.drops.len() == 0
        }),
{
}

/// The round's session has the round's own name, time and rules, and the player's account
/// as its creator, and is open.
pub proof fn law_session_is_the_rounds(d: FlowDataView)
    ensures
        d.session().session_id == d.session_id,
        d.session().created_at_unix == d.created_at,
        d.session().rules_version == d.rules_version,
        d.session().creator == encoding::prefixed_hex_of(crypto::address_of(d.secret)),
        !d.session().settled,
        d.session().result is None,
        d.execution().seed == d.seed,
        d.execution().enhance == d.enhance,
        d.execution().monsters == d.monsters,
{
}

/// The transactions of a round are all the player's and for the round's chain. Minting and
/// the start take the round's nonce and pay nothing; the settlement takes the next and the
/// sale the one after, and both pay at the round's base fee.
pub proof fn law_transactions_take_their_turn(d: FlowDataView)
    requires
        d.nonce <= u64::MAX - 2,
    ensures
        d.mint().nonce == d.nonce && d.mint().base_fee is None,
        d.start().nonce == d.nonce && d.start().base_fee is None,
        d.settle().nonce == d.nonce + 1 && d.settle().base_fee == Some(d.base_fee),
        d.sale().nonce == d.nonce + 2 && d.sale().base_fee == Some(d.base_fee),
        forall|goal: Goal|
            (#[trigger] d.planned(goal)).secret == d.secret && d.planned(goal).chain_id
                == d.chain_id && d.planned(goal).stage is Encode,
        d.planned(Goal::MintConfig) == d.mint(),
        d.planned(Goal::Start) == d.start(),
        d.planned(Goal::Settle) == d.settle(),
        d.planned(Goal::Sell) == d.sale(),
        d.mint().plan is MintMonsterConfig,
{
}

/// The start commits to the round's session, as an operation and as an object.
pub proof fn law_start_commits_to_the_session(d: FlowDataView)
    ensures
        d.start().plan == (PlanView::Start {
            op: OpView::ActionStart {
                session_id: d.session_id,
                action_type: KindView::Battle,
                inputs: d.session().inputs,
                rules_version: d.rules_version,
                creator: encoding::prefixed_hex_of(crypto::address_of(d.secret)),
                created_at_unix: d.created_at,
            },
            session: d.session(),
        }),
{
}

/// The settlement claims the result and the drops that the round holds, under its seed and
/// block, for its own session, which it marks as settled with that result; and the sale is
/// of the first of these drops, in the same session.
pub proof fn law_settlement_and_sale_are_of_the_round(d: FlowDataView)
    ensures
        d.settle().plan == (PlanView::Settle {
            op: OpView::ActionSettle {
                session_id: d.session_id,
                seed: d.seed,
                random_block_hash: d.block_hash,
                claimed: d.result,
                drops: d.drops,
            },
            settled: SessionView { settled: true, result: Some(d.result), ..d.session() },
            drops: d.drops,
            drop_owner: crypto::address_of(d.secret),
        }),
        d.sale().plan == (PlanView::SellDrop {
            op: OpView::SellDrop { session_id: d.session_id, item_id: d.drops[0].item_id },
            session_id: d.session_id,
            item_id: d.drops[0].item_id,
        }),
{
}

/// An answer changes only what it is about. In particular no answer changes whose round it
/// is, its treasury or its chain.
pub proof fn law_answers_change_only_their_own(f: FlowView, reply: FlowReplyView)
    ensures
        ({
            let before = f.data;
            let after = f.next(reply).data;
            &&& after.secret == before.secret
            &&& after.treasury == before.treasury
            &&& after.chain_id == before.chain_id
            &&& !(f.stage is BaseFee) ==> after.base_fee == before.base_fee
            &&& !(f.stage is Clock) ==> after.nonce == before.nonce && after.created_at
                == before.created_at && after.session_id == before.session_id
            &&& !(f.stage is DefaultMonsterTable || f.stage is ParseMonsterTable)
                ==> after.rules_version == before.rules_version && after.monsters
                == before.monsters
            &&& !(f.stage is DefaultEnhanceTable || f.stage is ParseEnhanceTable) ==> after.enhance
                == before.enhance
            &&& !(f.stage is LatestBlock) ==> after.block_number == before.block_number
            &&& !(f.stage is StableBlock) ==> after.block_hash == before.block_hash
                && after.block_digest == before.block_digest
            &&& !(f.stage is Seed) ==> after.seed == before.seed
            &&& !(f.stage is Execute) ==> after.result == before.result && after.drops
                == before.drops
            &&& !(f.stage matches FlowStageView::Submit(Goal::Settle, _, _))
                ==> after.settle_outputs == before.settle_outputs
        }),
{
}

/// A good answer takes the round to its next stage: funding, funding, base fee, time and
/// nonce, tables.
pub proof fn law_good_answers_lead_to_the_start(
    f: FlowView,
    v: JsonView,
    fee: u64,
    nonce: u64,
    created_at: u64,
    version: u64,
)
    ensures
        f.stage is FundNative ==> f.next(FlowReplyView::Funded(Ok(()))).stage is FundTreasury,
        f.stage is FundTreasury ==> f.next(FlowReplyView::Funded(Ok(()))).stage is BaseFee,
        f.stage is BaseFee && node::base_fee_of(v) == Some(fee) ==> {
            let g = f.next(FlowReplyView::GasPrice(Ok(v)));
            g.stage is Clock && g.data.base_fee == fee
        },
        f.stage is Clock ==> {
            let g = f.next(FlowReplyView::NonceAndTime { nonce, created_at });
            &&& g.stage is MonsterConfig
            &&& g.data.nonce == nonce
            &&& g.data.created_at == created_at
            &&& g.data.session_id == "client-"@ + text::decimal(nonce as nat)
        },
        f.stage is DefaultMonsterTable ==> {
            let g = f.next(FlowReplyView::DefaultMonsterTable { version });
            g.stage is EnhanceConfig && g.data.rules_version == version && g.data.monsters is None
        },
        f.stage matches FlowStageView::ParseMonsterTable(bytes) ==> {
            let g = f.next(FlowReplyView::MonsterTable(Ok(version)));
            g.stage is EnhanceConfig && g.data.rules_version == version && g.data.monsters == Some(
                bytes,
            )
        },
        f.stage is DefaultEnhanceTable ==> {
            let g = f.next(FlowReplyView::EnhanceTable(Ok(())));
            g.data.enhance is None && g.stage == FlowStageView::Assemble(
                Goal::Start,
                g.data.start(),
            )
        },
        f.stage matches FlowStageView::ParseEnhanceTable(bytes) ==> {
            let g = f.next(FlowReplyView::EnhanceTable(Ok(())));
            g.data.enhance == Some(bytes) && g.stage == FlowStageView::Assemble(
                Goal::Start,
                g.data.start(),
            )
        },
{
}

/// The random block is the one two below the latest: it is the one that is asked for, and
/// its whole hash, as text and as bytes, is what the round goes on with, then the seed
/// that it gives, then the outcome of the fight.
pub proof fn law_random_block_leads_to_the_fight(
    f: FlowView,
    block: JsonView,
    data: Seq<u8>,
    seed: u64,
    outcome: OutcomeView,
)
    ensures
        f.stage is LatestBlock ==> {
            let g = f.next(FlowReplyView::Block(Ok(block)));
            let latest = node::block_number(block);
            &&& g.stage is StableBlock
            &&& g.stage.request(g.data) == FlowRequest::BlockByNumber(g.data.block_number)
            &&& latest >= 3 ==> g.data.block_number == latest - 2
            &&& latest < 3 ==> g.data.block_number == 1
        },
        f.stage is StableBlock && data.len() == 32 && block.text_member("hash"@) == Some(
            encoding::prefixed_hex_of(data),
        ) ==> {
            let g = f.next(FlowReplyView::Block(Ok(block)));
            &&& g.stage is Seed
            &&& g.data.block_hash == encoding::prefixed_hex_of(data)
            &&& g.data.block_digest == data
        },
        f.stage is Seed ==> {
            let g = f.next(FlowReplyView::Seed(seed));
            g.stage is Execute && g.data.seed == seed
        },
        f.stage is Execute ==> {
            let g = f.next(FlowReplyView::Outcome(Ok(outcome)));
            &&& g.data.result == outcome.result
            &&& g.data.drops == outcome.drops
            &&& g.stage == FlowStageView::Assemble(Goal::Settle, g.data.settle())
        },
{
    if f.stage is StableBlock && data.len() == 32 && block.text_member("hash"@) == Some(
        encoding::prefixed_hex_of(data),
    ) {
        node::law_block_hash_round_trip(block, f.data.block_number, data);
    }
}

/// A transaction that is ready is submitted as it is, and its result is asked for by its
/// own identity.
pub proof fn law_ready_transaction_is_submitted(
    f: FlowView,
    goal: Goal,
    a: AssemblyView,
    reply: TxReplyView,
    tx: TxView,
)
    requires
        f.stage == FlowStageView::Assemble(goal, a),
    ensures
        a.next(reply).stage == StageView::Ready(tx) ==> (f.next(
            FlowReplyView::Transaction(reply),
        ).stage matches FlowStageView::Submit(g, t, w) && g == goal && t == tx && w.stage
            is Submit && w.tx_id == encoding::prefixed_hex_of(tx.tx_id)),
        !(a.next(reply).stage is Ready) ==> f.next(FlowReplyView::Transaction(reply)).stage
            == FlowStageView::Assemble(goal, a.next(reply)),
{
}

/// A submission goes on as its wait does. Its result takes the round on: after minting the
/// default table holds, after the start the blocks are asked for, after the settlement
/// comes the sale of the first drop or the report, and after the sale the report.
pub proof fn law_results_take_the_round_on(
    f: FlowView,
    goal: Goal,
    tx: TxView,
    w: WaitView,
    reply: WaitReplyView,
)
    requires
        f.stage == FlowStageView::Submit(goal, tx, w),
    ensures
        ({
            let g = f.next(FlowReplyView::Submission(reply));
            match w.next(reply).stage {
                WaitStageView::Done(Ok(v)) => match goal {
                    Goal::MintConfig => g.stage is DefaultMonsterTable,
                    Goal::Start => g.stage is LatestBlock,
                    Goal::Settle => {
                        &&& g.data.settle_outputs == output_count(v)
                        &&& f.data.drops.len() > 0 ==> g.stage == FlowStageView::Assemble(
                            Goal::Sell,
                            g.data.sale(),
                        )
                        &&& f.data.drops.len() == 0 ==> g.stage == FlowStageView::Finished(
                            Ok(g.data.summary(Seq::empty())),
                        )
                    },
                    Goal::Sell => f.data.drops.len() > 0 ==> g.stage == FlowStageView::Finished(
                        Ok(f.data.summary(sold_text(f.data.drops[0], v))),
                    ),
                },
                WaitStageView::Done(Err(e)) => g.stage == FlowStageView::Finished(Err(e)),
                _ => g.stage == FlowStageView::Submit(goal, tx, w.next(reply)),
            }
        }),
{
}

/// The node's outputs of a settlement are counted as it lists them; none are where it
/// lists none.
pub proof fn law_outputs_are_counted_as_listed(answer: JsonView, items: Seq<JsonView>)
    ensures
        answer.get("output_refs"@) == Some(JsonView::Array(items)) && items.len() <= u64::MAX
            ==> output_count(answer) == items.len(),
        !(answer.get("output_refs"@) is Some && answer.get("output_refs"@)->0 is Array)
            ==> output_count(answer) == 0,
{
}

/// A sold drop is shown with its item, its count and the status that the node gave, or a
/// question mark without one.
pub proof fn law_sale_is_shown_with_its_status(drop: DropView, answer: JsonView, s: Seq<char>)
    ensures
        answer.text_member("status"@) == Some(s) ==> sold_text(drop, answer) == drop.item_id + "x"@
            + text::decimal(drop.count as nat) + ":"@ + s,
        answer.text_member("status"@) is None ==> sold_text(drop, answer) == drop.item_id + "x"@
            + text::decimal(drop.count as nat) + ":"@ + "?"@,
{
}

/// The report of a round says how many outputs were settled, what was sold, and which
/// session, seed and player it was.
pub proof fn law_report_tells_the_round(d: FlowDataView, sold: Seq<char>)
    ensures
        d.summary(sold) == "start=OK settle_outputs="@ + text::decimal(d.settle_outputs as nat)
            + " sell=["@ + sold + "] session="@ + d.session_id + " seed="@ + text::decimal(
            d.seed as nat,
        ) + " player="@ + encoding::prefixed_hex_of(crypto::address_of(d.secret)),
{
}

/// A failure is reported with the words that say where it happened.
pub proof fn law_failure_says_where(f: FlowView, e: Seq<char>)
    ensures
        f.stage is FundNative ==> f.next(FlowReplyView::Funded(Err(e))).stage
            == FlowStageView::Finished(Err("fund native: "@ + e)),
        f.stage is FundTreasury ==> f.next(FlowReplyView::Funded(Err(e))).stage
            == FlowStageView::Finished(Err("fund treasury: "@ + e)),
        f.stage is BaseFee ==> f.next(FlowReplyView::GasPrice(Err(e))).stage
            == FlowStageView::Finished(Err("gas price: "@ + e)),
        f.stage is MonsterConfig ==> f.next(FlowReplyView::Object(Err(e))).stage
            == FlowStageView::Finished(Err("get monster config: "@ + e)),
        f.stage is ParseMonsterTable ==> f.next(FlowReplyView::MonsterTable(Err(e))).stage
            == FlowStageView::Finished(Err("monster config: state parse: "@ + e)),
        f.stage is EnhanceConfig ==> f.next(FlowReplyView::Object(Err(e))).stage
            == FlowStageView::Finished(Err("get enhance config: "@ + e)),
        f.stage is ParseEnhanceTable ==> f.next(FlowReplyView::EnhanceTable(Err(e))).stage
            == FlowStageView::Finished(Err("enhance config: state parse: "@ + e)),
        f.stage is LatestBlock ==> f.next(FlowReplyView::Block(Err(e))).stage
            == FlowStageView::Finished(Err("latest: "@ + e)),
        f.stage is StableBlock ==> f.next(FlowReplyView::Block(Err(e))).stage
            == FlowStageView::Finished(
            Err("stable block "@ + text::decimal(f.data.block_number as nat) + ": "@ + e),
        ),
        f.stage is Execute ==> f.next(FlowReplyView::Outcome(Err(e))).stage
            == FlowStageView::Finished(Err("execute: "@ + e)),
{
}

/// A table that is there but broken, or a random block without a proper hash, ends the
/// round with what is wrong with it.
pub proof fn law_broken_answers_end_the_round(f: FlowView, v: JsonView, e: Seq<char>)
    ensures
        f.stage is MonsterConfig && v != JsonView::Null && node::config_bytes(
            v,
            "monster config"@,
        ) == Err::<Seq<u8>, Seq<char>>(e) ==> f.next(FlowReplyView::Object(Ok(v))).stage
            == FlowStageView::Finished(Err(e)),
        f.stage is EnhanceConfig && v != JsonView::Null && node::config_bytes(
            v,
            "enhance config"@,
        ) == Err::<Seq<u8>, Seq<char>>(e) ==> f.next(FlowReplyView::Object(Ok(v))).stage
            == FlowStageView::Finished(Err(e)),
        f.stage is StableBlock && node::stable_hash_of(v, f.data.block_number) == Err::<
            (Seq<char>, Seq<u8>),
            Seq<char>,
        >(e) ==> f.next(FlowReplyView::Block(Ok(v))).stage == FlowStageView::Finished(Err(e)),
{
}

/// An answer to another question than the one that was asked changes nothing.
pub proof fn law_unasked_answers_change_no_round(f: FlowView, reply: FlowReplyView)
    requires
        match reply {
            FlowReplyView::Funded(_) => !(f.stage is FundNative || f.stage is FundTreasury),
            FlowReplyView::GasPrice(_) => !(f.stage is BaseFee),
            FlowReplyView::NonceAndTime { .. } => !(f.stage is Clock),
            FlowReplyView::Object(_) => !(f.stage is MonsterConfig || f.stage is EnhanceConfig),
            FlowReplyView::DefaultMonsterTable { .. } => !(f.stage is DefaultMonsterTable),
            FlowReplyView::MonsterTable(_) => !(f.stage is ParseMonsterTable),
            FlowReplyView::EnhanceTable(_) => !(f.stage is DefaultEnhanceTable || f.stage
                is ParseEnhanceTable),
            FlowReplyView::Transaction(_) => !(f.stage is Assemble),
            FlowReplyView::Submission(_) => !(f.stage is Submit),
            FlowReplyView::Block(_) => !(f.stage is LatestBlock || f.stage is StableBlock),
            FlowReplyView::Seed(_) => !(f.stage is Seed),
            FlowReplyView::Outcome(_) => !(f.stage is Execute),
        },
    ensures
        f.next(reply) == f,
{
}

/// Each stage asks for what it waits for.
pub proof fn law_each_stage_of_a_round_asks(f: FlowView)
    ensures
        f.stage.request(f.data) == match f.stage {
            FlowStageView::FundNative => FlowRequest::FundAccount,
            FlowStageView::FundTreasury => FlowRequest::FundTreasury,
            FlowStageView::BaseFee => FlowRequest::GasPrice,
            FlowStageView::Clock => FlowRequest::NonceAndTime,
            FlowStageView::MonsterConfig => FlowRequest::GetMonsterConfig,
            FlowStageView::DefaultMonsterTable => FlowRequest::DefaultMonsterTable,
            FlowStageView::ParseMonsterTable(_) => FlowRequest::ParseMonsterTable,
            FlowStageView::EnhanceConfig => FlowRequest::GetEnhanceConfig,
            FlowStageView::DefaultEnhanceTable => FlowRequest::DefaultEnhanceTable,
            FlowStageView::ParseEnhanceTable(_) => FlowRequest::ParseEnhanceTable,
            FlowStageView::Assemble(_, a) => FlowRequest::Transaction(a.stage.request()),
            FlowStageView::Submit(_, _, w) => FlowRequest::Submission(w.stage.request()),
            FlowStageView::LatestBlock => FlowRequest::LatestBlock,
            FlowStageView::StableBlock => FlowRequest::BlockByNumber(f.data.block_number),
            FlowStageView::Seed => FlowRequest::DeriveSeed,
            FlowStageView::Execute => FlowRequest::Execute,
            FlowStageView::Finished(_) => FlowRequest::Nothing,
        },
{
}

/// What a round knows stands for its fields.
pub proof fn law_knowledge_stands_for_its_fields(d: FlowData)
    ensures
        d@.secret == d.player@,
        d@.treasury == d.treasury.bytes@,
        d@.chain_id == d.chain_id,
        d@.base_fee == d.base_fee,
        d@.nonce == d.nonce,
        d@.created_at == d.created_at,
        d@.session_id == d.session_id@,
        d@.rules_version == d.rules_version,
        d@.monsters is Some <==> d.monsters is Some,
        d.monsters matches Some(b) ==> d@.monsters == Some(b@),
        d@.enhance is Some <==> d.enhance is Some,
        d.enhance matches Some(b) ==> d@.enhance == Some(b@),
        d@.block_number == d.block_number,
        d@.block_hash == d.block_hash@,
        d@.block_digest == d.block_digest.bytes@,
        d@.seed == d.seed,
        d@.result == d.result@,
        d@.drops.len() == d.drops@.len(),
        forall|i: int| 0 <= i < d.drops@.len() ==> #[trigger] d@.drops[i] == d.drops@[i]@,
        d@.settle_outputs == d.settle_outputs,
{
}

/// A stage stands for what it holds.
pub proof fn law_stage_stands_for_what_it_holds(stage: FlowStage)
    ensures
        match stage {
            FlowStage::FundNative => stage@ == FlowStageView::FundNative,
            FlowStage::FundTreasury => stage@ == FlowStageView::FundTreasury,
            FlowStage::BaseFee => stage@ == FlowStageView::BaseFee,
            FlowStage::Clock => stage@ == FlowStageView::Clock,
            FlowStage::MonsterConfig => stage@ == FlowStageView::MonsterConfig,
            FlowStage::DefaultMonsterTable => stage@ == FlowStageView::DefaultMonsterTable,
            FlowStage::ParseMonsterTable(b) => stage@ == FlowStageView::ParseMonsterTable(b@),
            FlowStage::EnhanceConfig => stage@ == FlowStageView::EnhanceConfig,
            FlowStage::DefaultEnhanceTable => stage@ == FlowStageView::DefaultEnhanceTable,
            FlowStage::ParseEnhanceTable(b) => stage@ == FlowStageView::ParseEnhanceTable(b@),
            FlowStage::Assemble(g, a) => stage@ == FlowStageView::Assemble(g, a@),
            FlowStage::Submit(g, tx, w) => stage@ == FlowStageView::Submit(g, tx@, w@),
            FlowStage::LatestBlock => stage@ == FlowStageView::LatestBlock,
            FlowStage::StableBlock => stage@ == FlowStageView::StableBlock,
            FlowStage::Seed => stage@ == FlowStageView::Seed,
            FlowStage::Execute => stage@ == FlowStageView::Execute,
            FlowStage::Finished(Ok(s)) => stage@ == FlowStageView::Finished(Ok(s@)),
            FlowStage::Finished(Err(e)) => stage@ == FlowStageView::Finished(Err(e@)),
        },
{
}

/// An answer stands for what it holds.
pub proof fn law_reply_stands_for_what_it_holds(reply: FlowReply)
    ensures
        match reply {
            FlowReply::Funded(Ok(_)) => reply@ == FlowReplyView::Funded(Ok(())),
            FlowReply::Funded(Err(e)) => reply@ == FlowReplyView::Funded(Err(e@)),
            FlowReply::GasPrice(Ok(v)) => reply@ == FlowReplyView::GasPrice(Ok(v@)),
            FlowReply::GasPrice(Err(e)) => reply@ == FlowReplyView::GasPrice(Err(e@)),
            FlowReply::NonceAndTime { nonce, created_at } => reply@
                == (FlowReplyView::NonceAndTime { nonce, created_at }),
            FlowReply::Object(Ok(v)) => reply@ == FlowReplyView::Object(Ok(v@)),
            FlowReply::Object(Err(e)) => reply@ == FlowReplyView::Object(Err(e@)),
            FlowReply::DefaultMonsterTable { version } => reply@
                == (FlowReplyView::DefaultMonsterTable { version }),
            FlowReply::MonsterTable(Ok(n)) => reply@ == FlowReplyView::MonsterTable(Ok(n)),
            FlowReply::MonsterTable(Err(e)) => reply@ == FlowReplyView::MonsterTable(Err(e@)),
            FlowReply::EnhanceTable(Ok(_)) => reply@ == FlowReplyView::EnhanceTable(Ok(())),
            FlowReply::EnhanceTable(Err(e)) => reply@ == FlowReplyView::EnhanceTable(Err(e@)),
            FlowReply::Transaction(r) => reply@ == FlowReplyView::Transaction(r@),
            FlowReply::Submission(r) => reply@ == FlowReplyView::Submission(r@),
            FlowReply::Block(Ok(v)) => reply@ == FlowReplyView::Block(Ok(v@)),
            FlowReply::Block(Err(e)) => reply@ == FlowReplyView::Block(Err(e@)),
            FlowReply::Seed(s) => reply@ == FlowReplyView::Seed(s),
            FlowReply::Outcome(Ok(o)) => reply@ == FlowReplyView::Outcome(Ok(o@)),
            FlowReply::Outcome(Err(e)) => reply@ == FlowReplyView::Outcome(Err(e@)),
        },
{
}

/// The end of a round stands for its report or its failure.
pub proof fn law_end_stands_for_what_it_says(end: Result<String, String>)
    ensures
        end matches Ok(s) ==> end_view(end) == Ok::<Seq<char>, Seq<char>>(s@),
        end matches Err(e) ==> end_view(end) == Err::<Seq<char>, Seq<char>>(e@),
{
}

} // verus!
