use ed25519_dalek::{Signature, Verifier, VerifyingKey};
use shanhai_client::assembly::{TxAssembly, TxReply, TxRequest, TxStage};
use shanhai_client::chain::{
    apply_fee_fields, build_action_settle_tx, build_action_start_tx, build_mint_monster_config_tx,
    build_sell_drop_tx, drop_state_bytes, execute_locally, new_session, output_id_for,
    receipt_state_bytes, sign_tx_with, Encoded, PlayerWallet, TxPlan,
};
use shanhai_client::compute::{Command, ComputeTx, ObjectId, Ownership, TxId, Version};
use shanhai_client::crypto::{Address, Digest};
use shanhai_client::game::{
    ActionDrop, ActionInput, ActionKind, ActionSession, GameOp, TeamUnit,
};
use shanhai_client::json::Json;

fn demo_wallet() -> PlayerWallet {
    PlayerWallet::derive(&hex::decode("11".repeat(32)).unwrap(), 9001)
}

fn demo_inputs() -> ActionInput {
    ActionInput::Battle {
        monster_id: "goblin".to_string(),
        team: vec![TeamUnit { atk: 60, def: 20, hp: 500 }],
    }
}

fn demo_session(wallet: &PlayerWallet) -> ActionSession {
    new_session(wallet, "client-demo-1", ActionKind::Battle, demo_inputs(), 1_700_000_000, 1)
}

fn object(byte: u8) -> ObjectId {
    ObjectId(Digest { bytes: [byte; 32] })
}

fn encoded(id: u8, drops: &[u8]) -> Encoded {
    Encoded {
        object_id: object(id),
        state: b"state".to_vec(),
        payload: b"payload".to_vec(),
        drop_object_ids: drops.iter().map(|b| object(*b)).collect(),
    }
}

fn coin() -> ActionDrop {
    ActionDrop { item_id: "goblin_coin".to_string(), count: 2, price_shc: 3 }
}

/// Answers every question of an assembly.
fn complete(mut a: TxAssembly, e: Encoded, gas: u64) -> ComputeTx {
    let mut e = Some(e);
    loop {
        let reply = match a.request() {
            TxRequest::Encoding => TxReply::Encoding(e.take().expect("encoded once")),
            TxRequest::GasEstimate => TxReply::GasEstimate(gas),
            TxRequest::SigningPreimage => TxReply::SigningPreimage(b"preimage".to_vec()),
            TxRequest::ExpectedTxId => TxReply::ExpectedTxId(Digest { bytes: [0xee; 32] }),
            TxRequest::Nothing => return a.tx().expect("a transaction").copy(),
        };
        a = a.step(reply);
    }
}

fn start_assembly() -> TxAssembly {
    let wallet = demo_wallet();
    let session = demo_session(&wallet);
    build_action_start_tx(
        &wallet,
        &session.session_id,
        ActionKind::Battle,
        demo_inputs(),
        session.created_at_unix,
        session.rules_version,
        1,
        10088,
    )
}

fn settle_assembly(drops: Vec<ActionDrop>) -> TxAssembly {
    let wallet = demo_wallet();
    build_action_settle_tx(
        &wallet,
        &demo_session(&wallet),
        42,
        "0xabab",
        Json::Text("won".to_string()),
        drops,
        wallet.address(),
        2,
        10088,
        1,
    )
}

#[test]
fn start_tx_is_player_owned_mint() {
    let wallet = demo_wallet();
    let a = start_assembly();
    assert_eq!(
        a.plan,
        TxPlan::Start {
            op: GameOp::ActionStart {
                session_id: "client-demo-1".to_string(),
                action_type: ActionKind::Battle,
                inputs: demo_inputs(),
                rules_version: 1,
                creator: format!("0x{}", hex::encode(wallet.address().bytes)),
                created_at_unix: 1_700_000_000,
            },
            session: demo_session(&wallet),
        }
    );
    let tx = complete(a, encoded(1, &[]), 0);
    assert_eq!(tx.command, Command::Mint);
    assert_eq!(tx.output_proposals.len(), 1);
    let p = &tx.output_proposals[0];
    assert_eq!(p.owner, Ownership::Address(*wallet.address()));
    assert_eq!(p.version, Version(1));
    assert_eq!(p.predecessor, None);
    assert_eq!(p.state, b"state".to_vec());
    assert_eq!(tx.payload, b"payload".to_vec());
    assert!(tx.input_set.is_empty());
    assert_eq!((tx.max_fee, tx.priority_fee, tx.gas_limit), (0, 0, 0));
}

#[test]
fn settle_tx_consumes_session_v1_and_produces_drops() {
    let wallet = demo_wallet();
    let a = settle_assembly(vec![coin()]);
    match &a.plan {
        TxPlan::Settle { op, settled, drops, drop_owner } => {
            assert_eq!(
                op,
                &GameOp::ActionSettle {
                    session_id: "client-demo-1".to_string(),
                    seed: 42,
                    random_block_hash: "0xabab".to_string(),
                    claimed: Json::Text("won".to_string()),
                    drops: vec![coin()],
                }
            );
            assert!(settled.settled);
            assert_eq!(settled.result, Some(Json::Text("won".to_string())));
            assert_eq!(drops, &vec![coin()]);
            assert_eq!(drop_owner, wallet.address());
        }
        _ => panic!("not a settlement"),
    }
    let tx = complete(a, encoded(1, &[2]), 30_000);
    assert_eq!(tx.command, Command::Invoke);
    assert_eq!(tx.input_set.len(), 1);
    assert_eq!(tx.input_set[0], output_id_for(&object(1), 1));
    assert!(tx.output_proposals.len() >= 1);
    assert_eq!(tx.output_proposals[0].version, Version(2));
    assert_eq!(tx.output_proposals[0].predecessor, Some(output_id_for(&object(1), 1)));
    let drop_obj = object(2);
    assert!(tx
        .output_proposals
        .iter()
        .any(|p| p.object_id == drop_obj && p.version == Version(1)));
    assert_eq!(tx.output_proposals.len(), 2);
    assert_eq!(
        tx.output_proposals[1].state,
        drop_state_bytes("client-demo-1", &coin())
    );
}

#[test]
fn sell_drop_tx_is_invoke_with_fee_and_receipt() {
    let wallet = demo_wallet();
    let a = build_sell_drop_tx(&wallet, "client-demo-1", "goblin_coin", 3, 10088, 1);
    assert_eq!(
        a.plan,
        TxPlan::SellDrop {
            op: GameOp::SellDrop {
                session_id: "client-demo-1".to_string(),
                item_id: "goblin_coin".to_string(),
            },
            session_id: "client-demo-1".to_string(),
            item_id: "goblin_coin".to_string(),
        }
    );
    let tx = complete(a, encoded(2, &[]), 25_000);
    assert_eq!(tx.command, Command::Invoke);
    assert_eq!(tx.input_set.len(), 1);
    assert_eq!(tx.gas_limit, tx.max_fee);
    assert!(tx.max_fee > 0);
    assert_eq!(tx.gas_limit, 25_000);
    assert_eq!(tx.output_proposals.len(), 1);
    assert_eq!(tx.output_proposals[0].version, Version(2));
    assert_eq!(
        tx.output_proposals[0].state,
        receipt_state_bytes("client-demo-1", "goblin_coin")
    );
}

#[test]
fn minting_the_monster_table_has_no_payload() {
    let tx = complete(
        build_mint_monster_config_tx(&demo_wallet(), 5, 31337),
        encoded(9, &[]),
        0,
    );
    assert_eq!(tx.command, Command::Mint);
    assert!(tx.payload.is_empty());
    assert_eq!(tx.nonce, Some(5));
    assert_eq!(tx.chain_id, Some(31337));
    assert_eq!(tx.network_id, Some(31337));
    assert_eq!(tx.output_proposals[0].state, b"state".to_vec());
}

#[test]
fn network_id_is_the_low_half_of_the_chain_id() {
    let tx = complete(
        build_mint_monster_config_tx(&demo_wallet(), 5, 0x7_0000_0005),
        encoded(9, &[]),
        0,
    );
    assert_eq!(tx.chain_id, Some(0x7_0000_0005));
    assert_eq!(tx.network_id, Some(5));
}

#[test]
fn states_of_drops_and_receipts_are_compact_objects() {
    assert_eq!(
        String::from_utf8(drop_state_bytes("s\"1", &coin())).unwrap(),
        r#"{"count":2,"item_id":"goblin_coin","kind":"action_drop","price_shc":3,"session_id":"s\"1"}"#
    );
    assert_eq!(
        String::from_utf8(receipt_state_bytes("s1", "goblin_coin")).unwrap(),
        r#"{"item_id":"goblin_coin","kind":"action_drop_redeemed","session_id":"s1"}"#
    );
}

#[test]
fn fee_fields_follow_the_estimate() {
    let mut tx = complete(start_assembly(), encoded(1, &[]), 0);
    apply_fee_fields(&mut tx, 20_999, 7);
    assert_eq!((tx.gas_limit, tx.max_fee, tx.priority_fee), (21_000, 147_000, 0));
    apply_fee_fields(&mut tx, 21_001, 7);
    assert_eq!((tx.gas_limit, tx.max_fee), (21_001, 147_007));
    apply_fee_fields(&mut tx, u64::MAX, 2);
    assert_eq!((tx.gas_limit, tx.max_fee), (u64::MAX, u64::MAX));
    apply_fee_fields(&mut tx, 0, 0);
    assert_eq!((tx.gas_limit, tx.max_fee), (21_000, 0));
}

#[test]
fn gas_is_estimated_with_one_blank_signature() {
    let a = settle_assembly(vec![coin()]).step(TxReply::Encoding(encoded(1, &[2])));
    assert_eq!(a.request(), TxRequest::GasEstimate);
    let probe = a.probe().expect("a probe");
    assert_eq!(probe.witness.signatures.len(), 1);
    assert_eq!(probe.witness.signatures[0].signature, [0; 64]);
    assert_eq!(probe.witness.signatures[0].public_key, [0; 32]);
    assert!(a.tx().unwrap().witness.signatures.is_empty());
    assert!(start_assembly().probe().is_none());
}

#[test]
fn signature_verifies_over_the_given_bytes() {
    let wallet = demo_wallet();
    let tx = complete(settle_assembly(vec![]), encoded(1, &[]), 1);
    assert_eq!(tx.witness.signatures.len(), 1);
    let s = &tx.witness.signatures[0];
    assert_eq!(s.public_key, wallet.signing_key().public_key());
    let key = VerifyingKey::from_bytes(&s.public_key).unwrap();
    assert!(key.verify(b"preimage", &Signature::from_bytes(&s.signature)).is_ok());
    assert!(key.verify(b"another", &Signature::from_bytes(&s.signature)).is_err());
    assert_eq!(tx.tx_id, TxId(Digest { bytes: [0xee; 32] }));
}

#[test]
fn signing_again_replaces_the_signature() {
    let wallet = demo_wallet();
    let tx = complete(start_assembly(), encoded(1, &[]), 0);
    let first = tx.witness.signatures[0];
    let tx = sign_tx_with(tx, wallet.signing_key(), b"another");
    assert_eq!(tx.witness.signatures.len(), 1);
    assert_ne!(tx.witness.signatures[0].signature, first.signature);
    assert_eq!(tx.witness.signatures[0].public_key, first.public_key);
}

#[test]
fn assembly_ignores_what_it_did_not_ask_for() {
    let a = settle_assembly(vec![coin()]);
    let a = a.step(TxReply::GasEstimate(5));
    assert_eq!(a.stage, TxStage::Encode);
    // One drop, but no object for it.
    let a = a.step(TxReply::Encoding(encoded(1, &[])));
    assert_eq!(a.stage, TxStage::Encode);
    let a = a.step(TxReply::Encoding(encoded(1, &[2])));
    let a = a.step(TxReply::SigningPreimage(vec![1]));
    assert_eq!(a.request(), TxRequest::GasEstimate);
}

#[test]
fn sale_consumes_what_the_settlement_created() {
    let owner = Address { bytes: [1; 20] };
    let wallet = demo_wallet();
    let settle = build_action_settle_tx(
        &wallet,
        &demo_session(&wallet),
        1,
        "0x00",
        Json::Null,
        vec![coin()],
        &owner,
        2,
        10088,
        1,
    );
    let settled = complete(settle, encoded(1, &[2]), 0);
    let sale = build_sell_drop_tx(&wallet, "client-demo-1", "goblin_coin", 3, 10088, 1);
    let sold = complete(sale, encoded(2, &[]), 0);
    assert_eq!(sold.input_set, vec![settled.output_proposals[1].output_id]);
    assert_eq!(settled.output_proposals[1].owner, Ownership::Address(owner));
    let receipt = &sold.output_proposals[0];
    assert_eq!(receipt.object_id, settled.output_proposals[1].object_id);
    assert_eq!(receipt.predecessor, Some(settled.output_proposals[1].output_id));
    assert_eq!(receipt.owner, Ownership::Address(*wallet.address()));
    let started = complete(start_assembly(), encoded(1, &[]), 0);
    assert_eq!(settled.input_set, vec![started.output_proposals[0].output_id]);
    assert_eq!(settled.output_proposals[0].owner, started.output_proposals[0].owner);
}

#[test]
fn execution_takes_the_commitment_the_seed_and_the_tables() {
    let wallet = demo_wallet();
    let e = execute_locally(&demo_session(&wallet), 77, &Some(vec![1]), &None);
    let mut other = demo_session(&wallet);
    other.session_id = "another".to_string();
    other.rules_version = 9;
    other.settled = true;
    assert_eq!(execute_locally(&other, 77, &Some(vec![1]), &None), e);
    assert_eq!((&e.enhance, &e.monsters), (&Some(vec![1]), &None));
    assert_eq!(e.action_type, ActionKind::Battle);
    assert_eq!(e.inputs, demo_inputs());
    assert_eq!(e.seed, 77);
}

#[test]
fn signed_content_is_fixed() {
    let a = settle_assembly(vec![coin()])
        .step(TxReply::Encoding(encoded(1, &[2])))
        .step(TxReply::GasEstimate(30_000))
        .step(TxReply::SigningPreimage(b"preimage".to_vec()));
    let signed = a.tx().unwrap().copy();
    let a = a
        .step(TxReply::GasEstimate(90_000))
        .step(TxReply::Encoding(encoded(7, &[8])))
        .step(TxReply::SigningPreimage(b"another".to_vec()));
    assert_eq!(a.tx().unwrap(), &signed);
    let a = a.step(TxReply::ExpectedTxId(Digest { bytes: [5; 32] }));
    assert_eq!(a.request(), TxRequest::Nothing);
    let mut named = signed;
    named.tx_id = TxId(Digest { bytes: [5; 32] });
    assert_eq!(a.tx().unwrap(), &named);
}

#[test]
fn key_is_not_in_the_transaction() {
    let secret = demo_wallet().signing_key().secret;
    let tx = complete(settle_assembly(vec![coin()]), encoded(1, &[2]), 30_000);
    let s = &tx.witness.signatures[0];
    let mut parts: Vec<&[u8]> = vec![&s.signature, &s.public_key, &tx.payload, &tx.tx_id.0.bytes];
    for p in &tx.output_proposals {
        parts.push(&p.state);
        parts.push(&p.output_id.0.bytes);
        parts.push(&p.object_id.0.bytes);
    }
    for part in parts {
        assert!(!part.windows(32).any(|w| w == secret));
    }
}
