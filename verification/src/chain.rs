//! The player's transactions: `ActionStart`, `ActionSettle`, `SellDrop`, and the
//! minting of the monster table.
//!
//! A transaction is put together in a fixed order. Its parts that the chain's own
//! encoding decides (object identities, encoded states and payloads, the gas
//! estimate, the bytes to sign, the final identity) are asked for one at a time
//! through a [`TxAssembly`]; everything else about it is decided here.

use crate::assembly::{AssemblyView, StageView, TxAssembly, TxStage};
use crate::compute;
pub use crate::compute::{output_id_for, proposal_owned};
use crate::compute::{
    Command, ComputeTx, Domain, ObjectId, OutputId, OutputProposal, ProposalView, SignatureView,
    TxId, TxSignature, TxView, TxWitness,
};
use crate::crypto;
pub use crate::crypto::PlayerWallet;
use crate::crypto::{Address, Digest, SigningKey};
use crate::encoding;
use crate::game;
use crate::game::{
    copy_drops, ActionDrop, ActionInput, ActionKind, ActionSession, DropView, GameOp, InputView,
    KindView, OpView, SessionView,
};
use crate::json;
use crate::json::{Json, JsonView};
use vstd::prelude::*;
use vstd::slice::slice_to_vec;
use vstd::utf8;

verus! {

/// The least gas limit that a transaction asks for.
pub const MIN_GAS_LIMIT: u64 = 21_000;

/// A transaction of this client before fees, signature and identity.
pub open spec fn unsigned_tx(
    command: Command,
    input_set: Seq<Seq<u8>>,
    output_proposals: Seq<ProposalView>,
    nonce: u64,
    payload: Seq<u8>,
    chain_id: u64,
) -> TxView {
    TxView {
        tx_id: Digest::zero_view(),
        domain_id: Domain::Game,
        command,
        input_set,
        read_set: Seq::empty(),
        output_proposals,
        fee: 0,
        nonce: Some(nonce),
        metadata: Seq::empty(),
        payload,
        deadline_unix_secs: None,
        chain_id: Some(chain_id),
        network_id: Some((chain_id % 0x1_0000_0000) as u32),
        signatures: Seq::empty(),
        threshold: None,
        max_fee: 0,
        priority_fee: 0,
        gas_limit: 0,
    }
}

/// The transaction with its witness replaced by one signature of all zero bytes.
pub open spec fn probe_of(tx: TxView) -> TxView {
    TxView {
        signatures: seq![
            SignatureView {
                signature: Seq::new(64, |i: int| 0u8),
                public_key: Seq::new(32, |i: int| 0u8),
            },
        ],
        ..tx
    }
}

/// The gas limit that a gas estimate leads to.
pub open spec fn gas_limit_for(gas_estimate: u64) -> u64 {
    if gas_estimate > MIN_GAS_LIMIT {
        gas_estimate
    } else {
        MIN_GAS_LIMIT
    }
}

/// The product, or the largest `u64` where it does not fit.
pub open spec fn saturating_product(a: u64, b: u64) -> u64 {
    if a * b > u64::MAX {
        u64::MAX
    } else {
        (a * b) as u64
    }
}

/// The transaction with its fee fields filled in.
pub open spec fn priced(tx: TxView, gas_estimate: u64, base_fee: u64) -> TxView {
    TxView {
        max_fee: saturating_product(gas_limit_for(gas_estimate), base_fee),
        priority_fee: 0,
        gas_limit: gas_limit_for(gas_estimate),
        ..tx
    }
}

/// The transaction with the one signature of that key over those bytes.
pub open spec fn signed(tx: TxView, secret: Seq<u8>, preimage: Seq<u8>) -> TxView {
    TxView {
        signatures: seq![
            SignatureView {
                signature: crypto::signature_of(secret, preimage),
                public_key: crypto::public_key_of(secret),
            },
        ],
        ..tx
    }
}

/// The transaction under its final identity.
pub open spec fn identified(tx: TxView, tx_id: Seq<u8>) -> TxView {
    TxView { tx_id, ..tx }
}

/// A transaction before fees, signature and identity.
fn new_tx(
    command: Command,
    input_set: Vec<OutputId>,
    output_proposals: Vec<OutputProposal>,
    nonce: u64,
    payload: Vec<u8>,
    chain_id: u64,
) -> (r: ComputeTx)
    ensures
        r@ == unsigned_tx(
            command,
            compute::outputs_view(input_set@),
            compute::proposals_view(output_proposals@),
            nonce,
            payload@,
            chain_id,
        ),
{
    assert(#[verifier::truncate] (chain_id as u32) == chain_id % 0x1_0000_0000) by (bit_vector);
    let r = ComputeTx {
        tx_id: TxId(Digest::zero()),
        domain_id: Domain::Game,
        command,
        input_set,
        read_set: Vec::new(),
        output_proposals,
        fee: 0,
        nonce: Some(nonce),
        metadata: Vec::new(),
        payload,
        deadline_unix_secs: None,
        chain_id: Some(chain_id),
        network_id: Some(#[verifier::truncate] (chain_id as u32)),
        witness: TxWitness { signatures: Vec::new(), threshold: None },
        max_fee: 0,
        priority_fee: 0,
        gas_limit: 0,
    };
    assert(r@.read_set =~= Seq::empty());
    assert(r@.signatures =~= Seq::empty());
    r
}

/// What a gas estimate is taken of: the transaction with a signature in place.
pub fn fee_probe(tx: &ComputeTx) -> (r: ComputeTx)
    ensures
        r@ == probe_of(tx@),
{
    let mut probe = tx.copy();
    let blank = TxSignature { signature: [0u8; 64], public_key: [0u8; 32] };
    let mut signatures: Vec<TxSignature> = Vec::new();
    signatures.push(blank);
    probe.witness.signatures = signatures;
    assert(blank@.signature =~= Seq::new(64, |i: int| 0u8));
    assert(blank@.public_key =~= Seq::new(32, |i: int| 0u8));
    assert(probe@.signatures =~= probe_of(tx@).signatures);
    probe
}

/// Fills in the fee fields, given the gas estimate of the probe. The fields are part
/// of what is signed, so this comes before the signature.
pub fn apply_fee_fields(tx: &mut ComputeTx, gas_estimate: u64, base_fee: u64)
    ensures
        final(tx)@ == priced(old(tx)@, gas_estimate, base_fee),
{
    let gas_limit: u64 = if gas_estimate > MIN_GAS_LIMIT {
        gas_estimate
    } else {
        MIN_GAS_LIMIT
    };
    tx.max_fee = match gas_limit.checked_mul(base_fee) {
        Some(product) => product,
        None => u64::MAX,
    };
    tx.priority_fee = 0;
    tx.gas_limit = gas_limit;
}

/// Signs the transaction, given the bytes that are to be signed for it. Whatever
/// signatures it had are replaced.
pub fn sign_tx_with(tx: ComputeTx, signer: &SigningKey, preimage: &[u8]) -> (r: ComputeTx)
    ensures
        r@ == signed(tx@, signer@, preimage@),
{
    let mut tx = tx;
    let signature = TxSignature {
        signature: signer.sign(preimage),
        public_key: signer.public_key(),
    };
    let mut signatures: Vec<TxSignature> = Vec::new();
    signatures.push(signature);
    let ghost before = tx@;
    tx.witness.signatures = signatures;
    assert(tx@.signatures =~= signed(before, signer@, preimage@).signatures);
    tx
}

/// What the state of a drop's object says.
pub open spec fn drop_object(session_id: Seq<char>, drop: DropView) -> JsonView {
    JsonView::Object(
        seq![
            ("kind"@, JsonView::Text("action_drop"@)),
            ("session_id"@, JsonView::Text(session_id)),
            ("item_id"@, JsonView::Text(drop.item_id)),
            ("count"@, JsonView::Unsigned(drop.count)),
            ("price_shc"@, JsonView::Unsigned(drop.price_shc)),
        ],
    )
}

/// The state of a drop's object.
pub open spec fn drop_state(session_id: Seq<char>, drop: DropView) -> Seq<u8> {
    utf8::encode_utf8(json::json_text_of(drop_object(session_id, drop)))
}

/// What the receipt for a sold drop says.
pub open spec fn receipt_object(session_id: Seq<char>, item_id: Seq<char>) -> JsonView {
    JsonView::Object(
        seq![
            ("kind"@, JsonView::Text("action_drop_redeemed"@)),
            ("session_id"@, JsonView::Text(session_id)),
            ("item_id"@, JsonView::Text(item_id)),
        ],
    )
}

/// The receipt for a sold drop.
pub open spec fn receipt_state(session_id: Seq<char>, item_id: Seq<char>) -> Seq<u8> {
    utf8::encode_utf8(json::json_text_of(receipt_object(session_id, item_id)))
}

/// The state of a drop's object.
pub fn drop_state_bytes(session_id: &str, drop: &ActionDrop) -> (r: Vec<u8>)
    ensures
        r@ == drop_state(session_id@, drop@),
{
    let mut members: Vec<(String, Json)> = Vec::new();
    members.push(("kind".to_string(), Json::Text("action_drop".to_string())));
    members.push(("session_id".to_string(), Json::Text(session_id.to_string())));
    members.push(("item_id".to_string(), Json::Text(drop.item_id.clone())));
    members.push(("count".to_string(), Json::Unsigned(drop.count)));
    members.push(("price_shc".to_string(), Json::Unsigned(drop.price_shc)));
    let object = Json::Object(members);
    proof {
        reveal_with_fuel(json::json_view, 2);
    }
    assert(object@->Object_0 =~= drop_object(session_id@, drop@)->Object_0);
    object.text().as_str().as_bytes_vec()
}

/// The receipt for a sold drop.
pub fn receipt_state_bytes(session_id: &str, item_id: &str) -> (r: Vec<u8>)
    ensures
        r@ == receipt_state(session_id@, item_id@),
{
    let mut members: Vec<(String, Json)> = Vec::new();
    members.push(("kind".to_string(), Json::Text("action_drop_redeemed".to_string())));
    members.push(("session_id".to_string(), Json::Text(session_id.to_string())));
    members.push(("item_id".to_string(), Json::Text(item_id.to_string())));
    let object = Json::Object(members);
    proof {
        reveal_with_fuel(json::json_view, 2);
    }
    assert(object@->Object_0 =~= receipt_object(session_id@, item_id@)->Object_0);
    object.text().as_str().as_bytes_vec()
}

/// What a transaction is to carry, before the chain's encoding of it is known.
#[derive(Debug, PartialEq)]
pub enum TxPlan {
    /// Create a session object.
    Start { op: GameOp, session: ActionSession },
    /// Consume the first version of a session, and create an object for each drop.
    Settle {
        op: GameOp,
        settled: ActionSession,
        drops: Vec<ActionDrop>,
        drop_owner: Address,
    },
    /// Consume a drop's object for its price.
    SellDrop { op: GameOp, session_id: String, item_id: String },
    /// Create the monster table with its default contents.
    MintMonsterConfig,
}

/// What a transaction is to carry, mathematically.
pub enum PlanView {
    Start { op: OpView, session: SessionView },
    Settle { op: OpView, settled: SessionView, drops: Seq<DropView>, drop_owner: Seq<u8> },
    SellDrop { op: OpView, session_id: Seq<char>, item_id: Seq<char> },
    MintMonsterConfig,
}

impl View for TxPlan {
    type V = PlanView;

    open spec fn view(&self) -> PlanView {
        match self {
            TxPlan::Start { op, session } => PlanView::Start { op: op@, session: session@ },
            TxPlan::Settle { op, settled, drops, drop_owner } => PlanView::Settle {
                op: op@,
                settled: settled@,
                drops: game::drops_view(drops@),
                drop_owner: drop_owner@,
            },
            TxPlan::SellDrop { op, session_id, item_id } => PlanView::SellDrop {
                op: op@,
                session_id: session_id@,
                item_id: item_id@,
            },
            TxPlan::MintMonsterConfig => PlanView::MintMonsterConfig,
        }
    }
}

/// The chain's encoding of a plan.
#[derive(Debug, PartialEq, Eq)]
pub struct Encoded {
    /// The identity of the object that the transaction creates or consumes.
    pub object_id: ObjectId,
    /// The encoded state of the session, or of the monster table.
    pub state: Vec<u8>,
    /// The encoded operation.
    pub payload: Vec<u8>,
    /// For a settlement, the identities of the drops' objects, in the order of the drops.
    pub drop_object_ids: Vec<ObjectId>,
}

/// The chain's encoding of a plan, mathematically.
#[verifier::ext_equal]
pub struct EncodedView {
    pub object_id: Seq<u8>,
    pub state: Seq<u8>,
    pub payload: Seq<u8>,
    pub drop_object_ids: Seq<Seq<u8>>,
}

/// A list of object identities, mathematically.
pub open spec fn objects_view(v: Seq<ObjectId>) -> Seq<Seq<u8>> {
    v.map_values(|o: ObjectId| o@)
}

impl View for Encoded {
    type V = EncodedView;

    open spec fn view(&self) -> EncodedView {
        EncodedView {
            object_id: self.object_id@,
            state: self.state@,
            payload: self.payload@,
            drop_object_ids: objects_view(self.drop_object_ids@),
        }
    }
}

/// An encoding goes with a plan: a settlement has one object for each drop.
pub open spec fn encoding_fits(plan: PlanView, encoded: EncodedView) -> bool {
    plan matches PlanView::Settle { drops, .. } ==> encoded.drop_object_ids.len() == drops.len()
}

/// The outputs that a settlement creates for its drops, one each, at version one.
pub open spec fn drop_outputs(
    session_id: Seq<char>,
    drops: Seq<DropView>,
    ids: Seq<Seq<u8>>,
    owner: Seq<u8>,
) -> Seq<ProposalView> {
    Seq::new(
        drops.len(),
        |i: int|
            compute::owned_proposal(owner, ids[i], None, 1, drop_state(session_id, drops[i])),
    )
}

/// The transaction of a plan before fees, signature and identity.
pub open spec fn draft_tx(
    plan: PlanView,
    owner: Seq<u8>,
    nonce: u64,
    chain_id: u64,
    encoded: EncodedView,
) -> TxView {
    let object = encoded.object_id;
    let first = compute::output_id_of(object, 1);
    match plan {
        PlanView::Start { .. } => unsigned_tx(
            Command::Mint,
            Seq::empty(),
            seq![compute::owned_proposal(owner, object, None, 1, encoded.state)],
            nonce,
            encoded.payload,
            chain_id,
        ),
        PlanView::Settle { settled, drops, drop_owner, .. } => unsigned_tx(
            Command::Invoke,
            seq![first],
            seq![compute::owned_proposal(owner, object, Some(first), 2, encoded.state)]
                + drop_outputs(settled.session_id, drops, encoded.drop_object_ids, drop_owner),
            nonce,
            encoded.payload,
            chain_id,
        ),
        PlanView::SellDrop { session_id, item_id, .. } => unsigned_tx(
            Command::Invoke,
            seq![first],
            seq![
                compute::owned_proposal(
                    owner,
                    object,
                    Some(first),
                    2,
                    receipt_state(session_id, item_id),
                ),
            ],
            nonce,
            encoded.payload,
            chain_id,
        ),
        PlanView::MintMonsterConfig => unsigned_tx(
            Command::Mint,
            Seq::empty(),
            seq![compute::owned_proposal(owner, object, None, 1, encoded.state)],
            nonce,
            Seq::empty(),
            chain_id,
        ),
    }
}

/// A list of one output.
fn one_output(id: OutputId) -> (r: Vec<OutputId>)
    ensures
        compute::outputs_view(r@) == seq![id@],
{
    let mut v: Vec<OutputId> = Vec::new();
    v.push(id);
    assert(compute::outputs_view(v@) =~= seq![id@]);
    v
}

/// A list of one proposal.
fn one_proposal(p: OutputProposal) -> (r: Vec<OutputProposal>)
    ensures
        compute::proposals_view(r@) == seq![p@],
{
    let mut v: Vec<OutputProposal> = Vec::new();
    v.push(p);
    assert(compute::proposals_view(v@) =~= seq![p@]);
    v
}

/// A list of no outputs.
fn no_outputs() -> (r: Vec<OutputId>)
    ensures
        compute::outputs_view(r@) == Seq::<Seq<u8>>::empty(),
{
    let v: Vec<OutputId> = Vec::new();
    assert(compute::outputs_view(v@) =~= Seq::<Seq<u8>>::empty());
    v
}

/// The outputs of a settlement: the session's second version, then one output for
/// each drop.
fn settle_outputs(
    session: OutputProposal,
    session_id: &str,
    drops: &Vec<ActionDrop>,
    ids: &Vec<ObjectId>,
    drop_owner: &Address,
) -> (r: Vec<OutputProposal>)
    requires
        ids@.len() == drops@.len(),
    ensures
        compute::proposals_view(r@) == seq![session@] + drop_outputs(
            session_id@,
            game::drops_view(drops@),
            objects_view(ids@),
            drop_owner@,
        ),
{
    let ghost first = session@;
    let ghost expected = drop_outputs(
        session_id@,
        game::drops_view(drops@),
        objects_view(ids@),
        drop_owner@,
    );
    let mut out = one_proposal(session);
    let mut i: usize = 0;
    assert(compute::proposals_view(out@) =~= seq![first] + expected.take(0));
    while i < drops.len()
        invariant
            i <= drops@.len(),
            ids@.len() == drops@.len(),
            expected == drop_outputs(
                session_id@,
                game::drops_view(drops@),
                objects_view(ids@),
                drop_owner@,
            ),
            compute::proposals_view(out@) == seq![first] + expected.take(i as int),
        decreases drops@.len() - i,
    {
        let state = drop_state_bytes(session_id, &drops[i]);
        let ghost before = out@;
        let output = proposal_owned(*drop_owner, ids[i], None, 1, state);
        assert(output@ == expected[i as int]);
        out.push(output);
        assert(compute::proposals_view(out@) =~= compute::proposals_view(before).push(output@));
        assert(expected.take(i + 1) =~= expected.take(i as int).push(expected[i as int]));
        i = i + 1;
        assert(compute::proposals_view(out@) =~= seq![first] + expected.take(i as int));
    }
    assert(expected.take(drops@.len() as int) =~= expected);
    out
}

/// The transaction of a plan before fees, signature and identity; nothing where the
/// encoding does not go with the plan.
pub fn draft(
    plan: &TxPlan,
    player: &PlayerWallet,
    nonce: u64,
    chain_id: u64,
    encoded: Encoded,
) -> (r: Option<ComputeTx>)
    ensures
        match r {
            Some(tx) => encoding_fits(plan@, encoded@) && tx@ == draft_tx(
                plan@,
                crypto::address_of(player@),
                nonce,
                chain_id,
                encoded@,
            ),
            None => !encoding_fits(plan@, encoded@),
        },
{
    let owner = *player.address();
    let object_id = encoded.object_id;
    let first = output_id_for(&object_id, 1);
    match plan {
        TxPlan::Start { .. } => {
            let output = proposal_owned(owner, object_id, None, 1, encoded.state);
            Some(
                new_tx(
                    Command::Mint,
                    no_outputs(),
                    one_proposal(output),
                    nonce,
                    encoded.payload,
                    chain_id,
                ),
            )
        },
        TxPlan::Settle { settled, drops, drop_owner, .. } => {
            if encoded.drop_object_ids.len() != drops.len() {
                return None;
            }
            let session = proposal_owned(owner, object_id, Some(first), 2, encoded.state);
            let outputs = settle_outputs(
                session,
                settled.session_id.as_str(),
                drops,
                &encoded.drop_object_ids,
                drop_owner,
            );
            Some(
                new_tx(
                    Command::Invoke,
                    one_output(first),
                    outputs,
                    nonce,
                    encoded.payload,
                    chain_id,
                ),
            )
        },
        TxPlan::SellDrop { session_id, item_id, .. } => {
            // An `Invoke` without an output would be refused, so the sale leaves a receipt.
            let receipt = receipt_state_bytes(session_id.as_str(), item_id.as_str());
            let output = proposal_owned(owner, object_id, Some(first), 2, receipt);
            Some(
                new_tx(
                    Command::Invoke,
                    one_output(first),
                    one_proposal(output),
                    nonce,
                    encoded.payload,
                    chain_id,
                ),
            )
        },
        TxPlan::MintMonsterConfig => {
            let output = proposal_owned(owner, object_id, None, 1, encoded.state);
            Some(
                new_tx(
                    Command::Mint,
                    no_outputs(),
                    one_proposal(output),
                    nonce,
                    Vec::new(),
                    chain_id,
                ),
            )
        },
    }
}

/// The account name of a key: its address in hexadecimal with a prefix.
pub open spec fn account_name(secret: Seq<u8>) -> Seq<char> {
    encoding::prefixed_hex_of(crypto::address_of(secret))
}

/// An open session as its creator commits to it.
pub open spec fn open_session(
    creator: Seq<u8>,
    session_id: Seq<char>,
    action_type: KindView,
    inputs: InputView,
    created_at_unix: u64,
    rules_version: u64,
) -> SessionView {
    SessionView {
        session_id,
        action_type,
        inputs,
        rules_version,
        creator: account_name(creator),
        created_at_unix,
        settled: false,
        result: None,
    }
}

/// The operation that starts a session.
pub open spec fn start_op(session: SessionView) -> OpView {
    OpView::ActionStart {
        session_id: session.session_id,
        action_type: session.action_type,
        inputs: session.inputs,
        rules_version: session.rules_version,
        creator: session.creator,
        created_at_unix: session.created_at_unix,
    }
}

/// A session once its result is claimed.
pub open spec fn settled_session(session: SessionView, claimed: JsonView) -> SessionView {
    SessionView { settled: true, result: Some(claimed), ..session }
}

/// The account name of a player.
pub fn player_name(player: &PlayerWallet) -> (r: String)
    ensures
        r@ == account_name(player@),
{
    encoding::prefixed_hex(&player.address().bytes)
}

/// An open session whose creator is the player.
pub fn new_session(
    player: &PlayerWallet,
    session_id: &str,
    action_type: ActionKind,
    inputs: ActionInput,
    created_at_unix: u64,
    rules_version: u64,
) -> (r: ActionSession)
    ensures
        r@ == open_session(
            player@,
            session_id@,
            action_type@,
            inputs@,
            created_at_unix,
            rules_version,
        ),
{
    ActionSession {
        session_id: session_id.to_string(),
        action_type,
        inputs,
        rules_version,
        creator: player_name(player),
        created_at_unix,
        settled: false,
        result: None,
    }
}

/// Starts a session: mints its object, which the player creates and owns. Minting is
/// free of gas.
pub fn build_action_start_tx(
    player: &PlayerWallet,
    session_id: &str,
    action_type: ActionKind,
    inputs: ActionInput,
    created_at_unix: u64,
    rules_version: u64,
    nonce: u64,
    chain_id: u64,
) -> (r: TxAssembly)
    ensures
        ({
            let session = open_session(
                player@,
                session_id@,
                action_type@,
                inputs@,
                created_at_unix,
                rules_version,
            );
            r@ == AssemblyView {
                plan: PlanView::Start { op: start_op(session), session },
                secret: player@,
                nonce,
                chain_id,
                base_fee: None,
                stage: StageView::Encode,
            }
        }),
{
    let op = GameOp::ActionStart {
        session_id: session_id.to_string(),
        action_type: action_type.copy(),
        inputs: inputs.copy(),
        rules_version,
        creator: player_name(player),
        created_at_unix,
    };
    let session = new_session(
        player,
        session_id,
        action_type,
        inputs,
        created_at_unix,
        rules_version,
    );
    TxAssembly {
        plan: TxPlan::Start { op, session },
        player: *player,
        nonce,
        chain_id,
        base_fee: None,
        stage: TxStage::Encode,
    }
}

/// Settles a session: consumes its first version, and creates its settled second
/// version and one object for each drop.
pub fn build_action_settle_tx(
    player: &PlayerWallet,
    session: &ActionSession,
    seed: u64,
    random_block_hash: &str,
    claimed: Json,
    drops: Vec<ActionDrop>,
    drop_owner: &Address,
    nonce: u64,
    chain_id: u64,
    base_fee: u64,
) -> (r: TxAssembly)
    ensures
        r@ == (AssemblyView {
            plan: PlanView::Settle {
                op: OpView::ActionSettle {
                    session_id: session@.session_id,
                    seed,
                    random_block_hash: random_block_hash@,
                    claimed: claimed@,
                    drops: game::drops_view(drops@),
                },
                settled: settled_session(session@, claimed@),
                drops: game::drops_view(drops@),
                drop_owner: drop_owner@,
            },
            secret: player@,
            nonce,
            chain_id,
            base_fee: Some(base_fee),
            stage: StageView::Encode,
        }),
{
    let op = GameOp::ActionSettle {
        session_id: session.session_id.clone(),
        seed,
        random_block_hash: random_block_hash.to_string(),
        claimed: claimed.copy(),
        drops: copy_drops(&drops),
    };
    let mut settled = session.copy();
    settled.settled = true;
    settled.result = Some(claimed);
    TxAssembly {
        plan: TxPlan::Settle { op, settled, drops, drop_owner: *drop_owner },
        player: *player,
        nonce,
        chain_id,
        base_fee: Some(base_fee),
        stage: TxStage::Encode,
    }
}

/// Sells a drop: consumes its object for its price, and leaves a receipt.
pub fn build_sell_drop_tx(
    player: &PlayerWallet,
    session_id: &str,
    item_id: &str,
    nonce: u64,
    chain_id: u64,
    base_fee: u64,
) -> (r: TxAssembly)
    ensures
        r@ == (AssemblyView {
            plan: PlanView::SellDrop {
                op: OpView::SellDrop { session_id: session_id@, item_id: item_id@ },
                session_id: session_id@,
                item_id: item_id@,
            },
            secret: player@,
            nonce,
            chain_id,
            base_fee: Some(base_fee),
            stage: StageView::Encode,
        }),
{
    let op = GameOp::SellDrop {
        session_id: session_id.to_string(),
        item_id: item_id.to_string(),
    };
    TxAssembly {
        plan: TxPlan::SellDrop {
            op,
            session_id: session_id.to_string(),
            item_id: item_id.to_string(),
        },
        player: *player,
        nonce,
        chain_id,
        base_fee: Some(base_fee),
        stage: TxStage::Encode,
    }
}

/// Mints the monster table with its default contents. Any account may do so, and
/// minting is free of gas.
pub fn build_mint_monster_config_tx(
    player: &PlayerWallet,
    nonce: u64,
    chain_id: u64,
) -> (r: TxAssembly)
    ensures
        r@ == (AssemblyView {
            plan: PlanView::MintMonsterConfig,
            secret: player@,
            nonce,
            chain_id,
            base_fee: None,
            stage: StageView::Encode,
        }),
{
    TxAssembly {
        plan: TxPlan::MintMonsterConfig,
        player: *player,
        nonce,
        chain_id,
        base_fee: None,
        stage: TxStage::Encode,
    }
}

/// What the rules engine is run on. A table is given by the bytes that the chain holds
/// for it, or is the default one where the chain holds none.
#[derive(Debug, PartialEq)]
pub struct Execution {
    pub action_type: ActionKind,
    pub inputs: ActionInput,
    pub seed: u64,
    pub enhance: Option<Vec<u8>>,
    pub monsters: Option<Vec<u8>>,
}

/// What the rules engine is run on, mathematically.
pub struct ExecutionView {
    pub action_type: KindView,
    pub inputs: InputView,
    pub seed: u64,
    pub enhance: Option<Seq<u8>>,
    pub monsters: Option<Seq<u8>>,
}

/// A rule table, mathematically.
pub open spec fn table_view(table: Option<Vec<u8>>) -> Option<Seq<u8>> {
    match table {
        Some(bytes) => Some(bytes@),
        None => None,
    }
}

impl View for Execution {
    type V = ExecutionView;

    open spec fn view(&self) -> ExecutionView {
        ExecutionView {
            action_type: self.action_type@,
            inputs: self.inputs@,
            seed: self.seed,
            enhance: table_view(self.enhance),
            monsters: table_view(self.monsters),
        }
    }
}

/// What a session's action is computed from.
pub open spec fn execution_of(
    session: SessionView,
    seed: u64,
    enhance: Option<Seq<u8>>,
    monsters: Option<Seq<u8>>,
) -> ExecutionView {
    ExecutionView {
        action_type: session.action_type,
        inputs: session.inputs,
        seed,
        enhance,
        monsters,
    }
}

/// A separate copy of a rule table.
fn copy_table(table: &Option<Vec<u8>>) -> (r: Option<Vec<u8>>)
    ensures
        table_view(r) == table_view(*table),
{
    match table {
        Some(bytes) => Some(slice_to_vec(bytes.as_slice())),
        None => None,
    }
}

/// What a session's action is computed from: the kind and the inputs that the session
/// committed to, the seed, and the two rule tables. The tables have to be those of the
/// chain, or the outcome is not the one that the chain computes.
pub fn execute_locally(
    session: &ActionSession,
    seed: u64,
    enhance: &Option<Vec<u8>>,
    monsters: &Option<Vec<u8>>,
) -> (r: Execution)
    ensures
        r@ == execution_of(session@, seed, table_view(*enhance), table_view(*monsters)),
{
    Execution {
        action_type: session.action_type.copy(),
        inputs: session.inputs.copy(),
        seed,
        enhance: copy_table(enhance),
        monsters: copy_table(monsters),
    }
}

/// Sessions of one kind and one input come to the same under the same seed and tables,
/// whatever else they hold.
pub proof fn law_only_the_commitment_counts(
    first: SessionView,
    second: SessionView,
    seed: u64,
    enhance: Option<Seq<u8>>,
    monsters: Option<Seq<u8>>,
)
    requires
        first.action_type == second.action_type,
        first.inputs == second.inputs,
    ensures
        execution_of(first, seed, enhance, monsters) == execution_of(
            second,
            seed,
            enhance,
            monsters,
        ),
{
}

/// A settlement consumes exactly the output that starting the session created, and its
/// first output is the next version of that object, under the same owner.
pub proof fn law_settle_consumes_what_start_created(
    start: PlanView,
    settle: PlanView,
    owner: Seq<u8>,
    start_nonce: u64,
    settle_nonce: u64,
    chain_id: u64,
    start_encoded: EncodedView,
    settle_encoded: EncodedView,
)
    requires
        start is Start,
        settle is Settle,
        start_encoded.object_id == settle_encoded.object_id,
    ensures
        ({
            let created = draft_tx(start, owner, start_nonce, chain_id, start_encoded);
            let consumer = draft_tx(settle, owner, settle_nonce, chain_id, settle_encoded);
            &&& created.output_proposals.len() == 1
            &&& consumer.input_set == seq![created.output_proposals[0].output_id]
            &&& consumer.output_proposals[0].predecessor == Some(
                created.output_proposals[0].output_id,
            )
            &&& consumer.output_proposals[0].object_id == created.output_proposals[0].object_id
            &&& consumer.output_proposals[0].version == created.output_proposals[0].version + 1
            &&& consumer.output_proposals[0].owner == created.output_proposals[0].owner
            &&& created.output_proposals[0].owner == compute::OwnerView::Address(owner)
        }),
{
}

/// Selling a drop consumes exactly the output that the settlement created for it, and
/// leaves as its receipt the next version of that object, which the seller owns.
pub proof fn law_sale_consumes_what_settlement_created(
    settle: PlanView,
    sale: PlanView,
    owner: Seq<u8>,
    settle_nonce: u64,
    sale_nonce: u64,
    chain_id: u64,
    settle_encoded: EncodedView,
    sale_encoded: EncodedView,
    i: int,
)
    requires
        settle is Settle,
        sale is SellDrop,
        encoding_fits(settle, settle_encoded),
        0 <= i < settle->Settle_drops.len(),
        sale_encoded.object_id == settle_encoded.drop_object_ids[i],
    ensures
        ({
            let created = draft_tx(settle, owner, settle_nonce, chain_id, settle_encoded);
            let consumer = draft_tx(sale, owner, sale_nonce, chain_id, sale_encoded);
            &&& created.output_proposals.len() == 1 + settle->Settle_drops.len()
            &&& consumer.input_set == seq![created.output_proposals[1 + i].output_id]
            &&& created.output_proposals[1 + i].version == 1
            &&& created.output_proposals[1 + i].owner == compute::OwnerView::Address(
                settle->drop_owner,
            )
            &&& consumer.output_proposals.len() == 1
            &&& consumer.output_proposals[0].object_id == created.output_proposals[1
                + i].object_id
            &&& consumer.output_proposals[0].predecessor == Some(
                created.output_proposals[1 + i].output_id,
            )
            &&& consumer.output_proposals[0].version == 2
            &&& consumer.output_proposals[0].owner == compute::OwnerView::Address(owner)
        }),
{
}

/// Every transaction has an output, and each output's identity is that of its object
/// at its version.
pub proof fn law_outputs_are_named_by_object_and_version(
    plan: PlanView,
    owner: Seq<u8>,
    nonce: u64,
    chain_id: u64,
    encoded: EncodedView,
)
    ensures
        ({
            let tx = draft_tx(plan, owner, nonce, chain_id, encoded);
            &&& tx.output_proposals.len() >= 1
            &&& forall|k: int|
                0 <= k < tx.output_proposals.len() ==> (#[trigger] tx.output_proposals[k]).output_id
                    == compute::output_id_of(
                    tx.output_proposals[k].object_id,
                    tx.output_proposals[k].version,
                )
        }),
{
}

/// The fee budget covers the whole gas limit at the base fee unless that product is
/// too large for its field, and at a base fee of one it is the gas limit.
pub proof fn law_fee_budget(tx: TxView, gas_estimate: u64, base_fee: u64)
    ensures
        ({
            let p = priced(tx, gas_estimate, base_fee);
            &&& p.gas_limit >= MIN_GAS_LIMIT
            &&& p.gas_limit >= gas_estimate
            &&& p.gas_limit * base_fee <= u64::MAX ==> p.max_fee == p.gas_limit * base_fee
            &&& p.gas_limit * base_fee > u64::MAX ==> p.max_fee == u64::MAX
            &&& base_fee == 1 ==> p.max_fee == p.gas_limit
        }),
{
    let limit = gas_limit_for(gas_estimate);
    assert(limit * base_fee >= 0) by (nonlinear_arith);
    assert(base_fee == 1 ==> limit * base_fee == limit) by (nonlinear_arith);
}

/// Whatever it carries, a transaction is drafted for the chain and under the nonce that
/// were asked for, free of fees, and without signature and identity.
pub proof fn law_draft_is_for_its_chain_and_nonce(
    plan: PlanView,
    owner: Seq<u8>,
    nonce: u64,
    chain_id: u64,
    encoded: EncodedView,
)
    ensures
        ({
            let tx = draft_tx(plan, owner, nonce, chain_id, encoded);
            &&& tx.nonce == Some(nonce)
            &&& tx.chain_id == Some(chain_id)
            &&& tx.network_id matches Some(n) && n as int == chain_id as int % 0x1_0000_0000
            &&& tx.domain_id == Domain::Game
            &&& tx.tx_id.len() == 32 && forall|i: int|
                0 <= i < 32 ==> #[trigger] tx.tx_id[i] == 0
            &&& tx.read_set.len() == 0 && tx.metadata.len() == 0 && tx.signatures.len() == 0
            &&& tx.deadline_unix_secs is None && tx.threshold is None
            &&& tx.fee == 0 && tx.max_fee == 0 && tx.priority_fee == 0 && tx.gas_limit == 0
        }),
{
}

/// Every transaction carries the encoded operation as its payload; only the minting of
/// the monster table, which has no operation, has an empty one.
pub proof fn law_payload_is_the_operation(
    plan: PlanView,
    owner: Seq<u8>,
    nonce: u64,
    chain_id: u64,
    encoded: EncodedView,
)
    ensures
        !(plan is MintMonsterConfig) ==> draft_tx(plan, owner, nonce, chain_id, encoded).payload
            == encoded.payload,
        plan is MintMonsterConfig ==> draft_tx(plan, owner, nonce, chain_id, encoded).payload.len()
            == 0,
{
}

/// What is minted, a session or the monster table, consumes nothing and is one new
/// object of the player, whose state is the encoded one.
pub proof fn law_mint_creates_the_encoded_state(
    plan: PlanView,
    owner: Seq<u8>,
    nonce: u64,
    chain_id: u64,
    encoded: EncodedView,
)
    requires
        plan is Start || plan is MintMonsterConfig,
    ensures
        ({
            let tx = draft_tx(plan, owner, nonce, chain_id, encoded);
            &&& tx.command == Command::Mint
            &&& tx.input_set.len() == 0
            &&& tx.output_proposals.len() == 1
            &&& tx.output_proposals[0].object_id == encoded.object_id
            &&& tx.output_proposals[0].version == 1
            &&& tx.output_proposals[0].predecessor is None
            &&& tx.output_proposals[0].owner == compute::OwnerView::Address(owner)
            &&& tx.output_proposals[0].state == encoded.state
        }),
{
}

/// A settlement puts the encoded settled session on the chain as the session's second
/// version, and for each drop, in order, a new object of the drops' owner.
pub proof fn law_settlement_creates_session_and_drops(
    plan: PlanView,
    owner: Seq<u8>,
    nonce: u64,
    chain_id: u64,
    encoded: EncodedView,
    i: int,
)
    requires
        plan is Settle,
        0 <= i < plan->Settle_drops.len(),
    ensures
        ({
            let tx = draft_tx(plan, owner, nonce, chain_id, encoded);
            let drop = tx.output_proposals[1 + i];
            &&& tx.command == Command::Invoke
            &&& tx.output_proposals.len() == 1 + plan->Settle_drops.len()
            &&& drop.object_id == encoded.drop_object_ids[i]
            &&& drop.version == 1
            &&& drop.predecessor is None
            &&& drop.owner == compute::OwnerView::Address(plan->drop_owner)
            &&& drop.state == drop_state(plan->settled.session_id, plan->Settle_drops[i])
        }),
{
}

/// The settled session is there whether or not there are drops: its state is the encoded
/// one, it follows the session's first version, which is all that is consumed, and it
/// stays with the player.
pub proof fn law_settlement_holds_the_settled_session(
    plan: PlanView,
    owner: Seq<u8>,
    nonce: u64,
    chain_id: u64,
    encoded: EncodedView,
)
    requires
        plan is Settle,
    ensures
        ({
            let tx = draft_tx(plan, owner, nonce, chain_id, encoded);
            let first = compute::output_id_of(encoded.object_id, 1);
            &&& tx.command == Command::Invoke
            &&& tx.input_set.len() == 1 && tx.input_set[0] == first
            &&& tx.output_proposals.len() == 1 + plan->Settle_drops.len()
            &&& tx.output_proposals[0].state == encoded.state
            &&& tx.output_proposals[0].object_id == encoded.object_id
            &&& tx.output_proposals[0].version == 2
            &&& tx.output_proposals[0].predecessor == Some(first)
            &&& tx.output_proposals[0].owner == compute::OwnerView::Address(owner)
        }),
{
}

/// A sale consumes the drop's first version alone, and leaves the receipt for it as the
/// second, with the player.
pub proof fn law_sale_leaves_a_receipt(
    plan: PlanView,
    owner: Seq<u8>,
    nonce: u64,
    chain_id: u64,
    encoded: EncodedView,
)
    requires
        plan is SellDrop,
    ensures
        ({
            let tx = draft_tx(plan, owner, nonce, chain_id, encoded);
            let first = compute::output_id_of(encoded.object_id, 1);
            &&& tx.command == Command::Invoke
            &&& tx.input_set.len() == 1 && tx.input_set[0] == first
            &&& tx.output_proposals.len() == 1
            &&& tx.output_proposals[0].object_id == encoded.object_id
            &&& tx.output_proposals[0].version == 2
            &&& tx.output_proposals[0].predecessor == Some(first)
            &&& tx.output_proposals[0].owner == compute::OwnerView::Address(owner)
            &&& tx.output_proposals[0].state == receipt_state(
                plan->SellDrop_session_id,
                plan->SellDrop_item_id,
            )
        }),
{
}

/// The state of a drop's object is the text, in UTF-8, of an object that says what it is,
/// whose session it comes from, what the item is, how many there are, and what it sells
/// for, and nothing else.
pub proof fn law_drop_state_tells_the_drop(session_id: Seq<char>, drop: DropView)
    ensures
        ({
            let o = drop_object(session_id, drop);
            &&& utf8::decode_utf8(drop_state(session_id, drop)) == json::json_text_of(o)
            &&& o.get("kind"@) == Some(JsonView::Text("action_drop"@))
            &&& o.get("session_id"@) == Some(JsonView::Text(session_id))
            &&& o.get("item_id"@) == Some(JsonView::Text(drop.item_id))
            &&& o.get("count"@) == Some(JsonView::Unsigned(drop.count))
            &&& o.get("price_shc"@) == Some(JsonView::Unsigned(drop.price_shc))
            &&& o is Object && o->Object_0.len() == 5
        }),
{
    let o = drop_object(session_id, drop);
    utf8::encode_utf8_decode_utf8(json::json_text_of(o));
    reveal_strlit("kind");
    reveal_strlit("session_id");
    reveal_strlit("item_id");
    reveal_strlit("count");
    reveal_strlit("price_shc");
    assert("kind"@.len() == 4 && "session_id"@.len() == 10 && "item_id"@.len() == 7);
    assert("count"@.len() == 5 && "price_shc"@.len() == 9);
    json::law_first_of_its_name(o->Object_0, 0);
    json::law_first_of_its_name(o->Object_0, 1);
    json::law_first_of_its_name(o->Object_0, 2);
    json::law_first_of_its_name(o->Object_0, 3);
    json::law_first_of_its_name(o->Object_0, 4);
}

/// The receipt for a sold drop is the text, in UTF-8, of an object that says what it is,
/// whose session the drop came from, and what the item was, and nothing else.
pub proof fn law_receipt_tells_the_sale(session_id: Seq<char>, item_id: Seq<char>)
    ensures
        ({
            let o = receipt_object(session_id, item_id);
            &&& utf8::decode_utf8(receipt_state(session_id, item_id)) == json::json_text_of(o)
            &&& o.get("kind"@) == Some(JsonView::Text("action_drop_redeemed"@))
            &&& o.get("session_id"@) == Some(JsonView::Text(session_id))
            &&& o.get("item_id"@) == Some(JsonView::Text(item_id))
            &&& o is Object && o->Object_0.len() == 3
        }),
{
    let o = receipt_object(session_id, item_id);
    utf8::encode_utf8_decode_utf8(json::json_text_of(o));
    reveal_strlit("kind");
    reveal_strlit("session_id");
    reveal_strlit("item_id");
    assert("kind"@.len() == 4 && "session_id"@.len() == 10 && "item_id"@.len() == 7);
    json::law_first_of_its_name(o->Object_0, 0);
    json::law_first_of_its_name(o->Object_0, 1);
    json::law_first_of_its_name(o->Object_0, 2);
}

/// The gas limit is the estimate or the least one, whichever is larger, and nothing but
/// the fee fields is touched.
pub proof fn law_only_fees_are_filled_in(tx: TxView, gas_estimate: u64, base_fee: u64)
    ensures
        ({
            let p = priced(tx, gas_estimate, base_fee);
            &&& gas_estimate >= 21_000 ==> p.gas_limit == gas_estimate
            &&& gas_estimate < 21_000 ==> p.gas_limit == 21_000
            &&& p.gas_limit * base_fee <= u64::MAX ==> p.max_fee == p.gas_limit * base_fee
            &&& p.gas_limit * base_fee > u64::MAX ==> p.max_fee == u64::MAX
            &&& p.priority_fee == 0
            &&& tx == (TxView {
                max_fee: tx.max_fee,
                priority_fee: tx.priority_fee,
                gas_limit: tx.gas_limit,
                ..p
            })
        }),
{
}

/// Signing puts exactly one signature in place, that of the key over the given bytes, and
/// touches nothing else; the probe differs from its transaction in one blank signature.
pub proof fn law_only_the_signature_is_put_in_place(
    tx: TxView,
    secret: Seq<u8>,
    preimage: Seq<u8>,
    i: int,
)
    ensures
        ({
            let s = signed(tx, secret, preimage);
            &&& s.signatures.len() == 1
            &&& s.signatures[0].signature == crypto::signature_of(secret, preimage)
            &&& s.signatures[0].public_key == crypto::public_key_of(secret)
            &&& tx == TxView { signatures: tx.signatures, ..s }
        }),
        ({
            let p = probe_of(tx);
            &&& p.signatures.len() == 1
            &&& p.signatures[0].signature.len() == 64
            &&& p.signatures[0].public_key.len() == 32
            &&& 0 <= i < 64 ==> p.signatures[0].signature[i] == 0
            &&& 0 <= i < 32 ==> p.signatures[0].public_key[i] == 0
            &&& tx == TxView { signatures: tx.signatures, ..p }
        }),
{
}

/// Naming a transaction gives it that identity, and touches nothing else.
pub proof fn law_only_the_identity_is_given(tx: TxView, tx_id: Seq<u8>)
    ensures
        identified(tx, tx_id).tx_id == tx_id,
        tx == (TxView { tx_id: tx.tx_id, ..identified(tx, tx_id) }),
{
}

/// A settlement takes an encoding with one object for each drop and no other; any other
/// transaction takes every encoding.
pub proof fn law_encoding_has_an_object_for_each_drop(plan: PlanView, encoded: EncodedView)
    ensures
        plan matches PlanView::Settle { drops, .. } ==> (encoding_fits(plan, encoded)
            <==> drops.len() == encoded.drop_object_ids.len()),
        !(plan is Settle) ==> encoding_fits(plan, encoded),
{
}

/// An account is named by its address, in hexadecimal behind `0x`.
pub proof fn law_account_is_named_by_its_address(secret: Seq<u8>)
    ensures
        account_name(secret).len() == 2 + 2 * crypto::address_of(secret).len(),
        account_name(secret)[0] == '0' && account_name(secret)[1] == 'x',
        account_name(secret).skip(2) == encoding::hex_of(crypto::address_of(secret)),
{
    encoding::law_prefix_stands_before_the_digits(crypto::address_of(secret));
}

/// A session is opened with what was given for it, under its creator's account, unsettled
/// and without a result; the operation that starts it says the same of it.
pub proof fn law_session_opens_as_given(
    creator: Seq<u8>,
    session_id: Seq<char>,
    action_type: KindView,
    inputs: InputView,
    created_at_unix: u64,
    rules_version: u64,
)
    ensures
        ({
            let s = open_session(
                creator,
                session_id,
                action_type,
                inputs,
                created_at_unix,
                rules_version,
            );
            &&& s.session_id == session_id
            &&& s.action_type == action_type
            &&& s.inputs == inputs
            &&& s.rules_version == rules_version
            &&& s.created_at_unix == created_at_unix
            &&& s.creator == encoding::prefixed_hex_of(crypto::address_of(creator))
            &&& !s.settled
            &&& s.result is None
            &&& start_op(s) == (OpView::ActionStart {
                session_id,
                action_type,
                inputs,
                rules_version,
                creator: encoding::prefixed_hex_of(crypto::address_of(creator)),
                created_at_unix,
            })
        }),
{
}

/// Settling marks a session as settled with the claimed result, and changes nothing that
/// it committed to.
pub proof fn law_settling_keeps_the_commitment(session: SessionView, claimed: JsonView)
    ensures
        ({
            let s = settled_session(session, claimed);
            &&& s.settled
            &&& s.result == Some(claimed)
            &&& session == SessionView { settled: session.settled, result: session.result, ..s }
        }),
{
}

/// The rules engine is run on the session's own kind and inputs, under the given seed and
/// the given tables.
pub proof fn law_execution_is_of_the_session(
    session: SessionView,
    seed: u64,
    enhance: Option<Seq<u8>>,
    monsters: Option<Seq<u8>>,
)
    ensures
        ({
            let e = execution_of(session, seed, enhance, monsters);
            &&& e.action_type == session.action_type
            &&& e.inputs == session.inputs
            &&& e.seed == seed
            &&& e.enhance == enhance
            &&& e.monsters == monsters
        }),
{
}

/// A plan, its encoding and an execution stand for what they hold.
pub proof fn law_plans_stand_for_what_they_hold(plan: TxPlan, encoded: Encoded, e: Execution)
    ensures
        match plan {
            TxPlan::Start { op, session } => plan@ == (PlanView::Start {
                op: op@,
                session: session@,
            }),
            TxPlan::Settle { op, settled, drops, drop_owner } => plan@ == (PlanView::Settle {
                op: op@,
                settled: settled@,
                drops: game::drops_view(drops@),
                drop_owner: drop_owner.bytes@,
            }),
            TxPlan::SellDrop { op, session_id, item_id } => plan@ == (PlanView::SellDrop {
                op: op@,
                session_id: session_id@,
                item_id: item_id@,
            }),
            TxPlan::MintMonsterConfig => plan@ == PlanView::MintMonsterConfig,
        },
        encoded@.object_id == encoded.object_id.0.bytes@,
        encoded@.state == encoded.state@,
        encoded@.payload == encoded.payload@,
        encoded@.drop_object_ids.len() == encoded.drop_object_ids@.len(),
        forall|i: int|
            0 <= i < encoded.drop_object_ids@.len() ==> #[trigger] encoded@.drop_object_ids[i]
                == encoded.drop_object_ids@[i].0.bytes@,
        e@.action_type == e.action_type@,
        e@.inputs == e.inputs@,
        e@.seed == e.seed,
        e@.enhance is Some <==> e.enhance is Some,
        e.enhance matches Some(b) ==> e@.enhance == Some(b@),
        e@.monsters is Some <==> e.monsters is Some,
        e.monsters matches Some(b) ==> e@.monsters == Some(b@),
{
}

/// Each output of a transaction is an ordinary one: it is owned by an address, and holds
/// nothing but its object, predecessor, version and state.
pub proof fn law_outputs_are_ordinary(
    plan: PlanView,
    owner: Seq<u8>,
    nonce: u64,
    chain_id: u64,
    encoded: EncodedView,
    k: int,
)
    requires
        0 <= k < draft_tx(plan, owner, nonce, chain_id, encoded).output_proposals.len(),
    ensures
        ({
            let p = draft_tx(plan, owner, nonce, chain_id, encoded).output_proposals[k];
            &&& p.owner == compute::OwnerView::Address(owner) || (plan is Settle && k > 0 && p.owner
                == compute::OwnerView::Address(plan->drop_owner))
            &&& p.output_id == compute::output_id_of(p.object_id, p.version)
            &&& p.domain_id == Domain::Game && p.kind == compute::ObjectKind::State && p.lock
                == compute::Script::Standard
            &&& p.state_root is None && p.logic is None && p.ttl is None && p.rent_reserve is None
            &&& p.resources.len() == 0 && p.extensions.len() == 0
            &&& p.created_at == 0 && p.flags == 0
        }),
{
}

} // verus!
