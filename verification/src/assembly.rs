//! Putting a transaction together, step by step.
//!
//! A [`TxAssembly`] asks for one thing at a time and takes the answer: the encoding
//! of its plan, then (for a transaction that pays) a gas estimate, then the bytes to
//! sign, then the identity. Fees are thus always settled before the signature.

use crate::chain;
use crate::chain::{apply_fee_fields, draft, fee_probe, sign_tx_with};
use crate::chain::{Encoded, EncodedView, PlanView, TxPlan};
use crate::compute;
use crate::compute::{ComputeTx, TxId, TxView};
use crate::crypto;
use crate::crypto::{Digest, PlayerWallet};
use vstd::prelude::*;

verus! {

/// How far a transaction has come.
#[derive(Debug, PartialEq, Eq)]
pub enum TxStage {
    /// The plan's encoding is wanted.
    Encode,
    /// The gas estimate of the probe is wanted.
    Price(ComputeTx),
    /// The bytes to sign are wanted.
    Sign(ComputeTx),
    /// The identity is wanted.
    Identify(ComputeTx),
    /// The transaction can be submitted.
    Ready(ComputeTx),
}

/// A transaction in the making.
#[derive(Debug, PartialEq)]
pub struct TxAssembly {
    pub plan: TxPlan,
    pub player: PlayerWallet,
    pub nonce: u64,
    pub chain_id: u64,
    /// The base fee of a transaction that pays for its gas.
    pub base_fee: Option<u64>,
    pub stage: TxStage,
}

/// What an assembly wants next.
#[derive(Clone, Copy, Debug, PartialEq, Eq, Structural)]
pub enum TxRequest {
    Encoding,
    GasEstimate,
    SigningPreimage,
    ExpectedTxId,
    Nothing,
}

/// The answer to a request.
#[derive(Debug, PartialEq, Eq)]
pub enum TxReply {
    Encoding(Encoded),
    GasEstimate(u64),
    SigningPreimage(Vec<u8>),
    ExpectedTxId(Digest),
}

/// How far a transaction has come, mathematically.
pub enum StageView {
    Encode,
    Price(TxView),
    Sign(TxView),
    Identify(TxView),
    Ready(TxView),
}

/// A transaction in the making, mathematically.
pub struct AssemblyView {
    pub plan: PlanView,
    pub secret: Seq<u8>,
    pub nonce: u64,
    pub chain_id: u64,
    pub base_fee: Option<u64>,
    pub stage: StageView,
}

/// The answer to a request, mathematically.
pub enum TxReplyView {
    Encoding(EncodedView),
    GasEstimate(u64),
    SigningPreimage(Seq<u8>),
    ExpectedTxId(Seq<u8>),
}

impl View for TxStage {
    type V = StageView;

    open spec fn view(&self) -> StageView {
        match self {
            TxStage::Encode => StageView::Encode,
            TxStage::Price(tx) => StageView::Price(tx@),
            TxStage::Sign(tx) => StageView::Sign(tx@),
            TxStage::Identify(tx) => StageView::Identify(tx@),
            TxStage::Ready(tx) => StageView::Ready(tx@),
        }
    }
}

impl View for TxAssembly {
    type V = AssemblyView;

    open spec fn view(&self) -> AssemblyView {
        AssemblyView {
            plan: self.plan@,
            secret: self.player@,
            nonce: self.nonce,
            chain_id: self.chain_id,
            base_fee: self.base_fee,
            stage: self.stage@,
        }
    }
}

impl View for TxReply {
    type V = TxReplyView;

    open spec fn view(&self) -> TxReplyView {
        match self {
            TxReply::Encoding(e) => TxReplyView::Encoding(e@),
            TxReply::GasEstimate(g) => TxReplyView::GasEstimate(*g),
            TxReply::SigningPreimage(p) => TxReplyView::SigningPreimage(p@),
            TxReply::ExpectedTxId(id) => TxReplyView::ExpectedTxId(id@),
        }
    }
}

impl StageView {
    /// What is wanted at this stage.
    pub open spec fn request(self) -> TxRequest {
        match self {
            StageView::Encode => TxRequest::Encoding,
            StageView::Price(_) => TxRequest::GasEstimate,
            StageView::Sign(_) => TxRequest::SigningPreimage,
            StageView::Identify(_) => TxRequest::ExpectedTxId,
            StageView::Ready(_) => TxRequest::Nothing,
        }
    }

    /// The transaction as far as it has come.
    pub open spec fn tx(self) -> Option<TxView> {
        match self {
            StageView::Encode => None,
            StageView::Price(tx) => Some(tx),
            StageView::Sign(tx) => Some(tx),
            StageView::Identify(tx) => Some(tx),
            StageView::Ready(tx) => Some(tx),
        }
    }
}

impl AssemblyView {
    /// The transaction that the plan comes to under an encoding, before fees.
    pub open spec fn draft(self, encoded: EncodedView) -> TxView {
        chain::draft_tx(
            self.plan,
            crypto::address_of(self.secret),
            self.nonce,
            self.chain_id,
            encoded,
        )
    }

    /// The stage after an answer. An answer to another question than the one asked,
    /// or an encoding that does not go with the plan, changes nothing.
    pub open spec fn next_stage(self, reply: TxReplyView) -> StageView {
        match (self.stage, reply) {
            (StageView::Encode, TxReplyView::Encoding(e)) => if chain::encoding_fits(self.plan, e) {
                if self.base_fee is Some {
                    StageView::Price(self.draft(e))
                } else {
                    StageView::Sign(self.draft(e))
                }
            } else {
                self.stage
            },
            (StageView::Price(tx), TxReplyView::GasEstimate(g)) => match self.base_fee {
                Some(base_fee) => StageView::Sign(chain::priced(tx, g, base_fee)),
                None => self.stage,
            },
            (StageView::Sign(tx), TxReplyView::SigningPreimage(p)) => StageView::Identify(
                chain::signed(tx, self.secret, p),
            ),
            (StageView::Identify(tx), TxReplyView::ExpectedTxId(id)) => StageView::Ready(
                chain::identified(tx, id),
            ),
            _ => self.stage,
        }
    }

    /// The assembly after an answer.
    pub open spec fn next(self, reply: TxReplyView) -> AssemblyView {
        AssemblyView { stage: self.next_stage(reply), ..self }
    }
}

impl AssemblyView {
    /// The plan's transaction under an encoding and a gas estimate, as it is to be
    /// signed: with its fees filled in where it pays.
    pub open spec fn to_sign(self, encoded: EncodedView, gas: u64) -> TxView {
        match self.base_fee {
            Some(base_fee) => chain::priced(self.draft(encoded), gas, base_fee),
            None => self.draft(encoded),
        }
    }

    /// A transaction is the plan's draft under that encoding.
    pub open spec fn drafts(self, tx: TxView, encoded: EncodedView) -> bool {
        chain::encoding_fits(self.plan, encoded) && tx == self.draft(encoded)
    }

    /// A transaction is what is to be signed under that encoding and gas estimate.
    pub open spec fn completes(self, tx: TxView, encoded: EncodedView, gas: u64) -> bool {
        chain::encoding_fits(self.plan, encoded) && tx == self.to_sign(encoded, gas)
    }

    /// A transaction is what was to be signed under that encoding and gas estimate,
    /// with the player's signature over those bytes; its identity is left open.
    pub open spec fn signs(
        self,
        tx: TxView,
        encoded: EncodedView,
        gas: u64,
        preimage: Seq<u8>,
    ) -> bool {
        &&& chain::encoding_fits(self.plan, encoded)
        &&& tx == chain::identified(
            chain::signed(self.to_sign(encoded, gas), self.secret, preimage),
            tx.tx_id,
        )
    }

    /// The transaction so far comes from the plan and the answers, and from nothing else.
    pub open spec fn sound(self) -> bool {
        match self.stage {
            StageView::Encode => true,
            StageView::Price(tx) => self.base_fee is Some && exists|e: EncodedView|
                self.drafts(tx, e),
            StageView::Sign(tx) => exists|e: EncodedView, gas: u64| self.completes(tx, e, gas),
            StageView::Identify(tx) => exists|e: EncodedView, gas: u64, p: Seq<u8>|
                self.signs(tx, e, gas, p),
            StageView::Ready(tx) => exists|e: EncodedView, gas: u64, p: Seq<u8>|
                self.signs(tx, e, gas, p),
        }
    }
}

impl TxAssembly {
    /// What is wanted next.
    pub fn request(&self) -> (r: TxRequest)
        ensures
            r == self@.stage.request(),
    {
        match &self.stage {
            TxStage::Encode => TxRequest::Encoding,
            TxStage::Price(_) => TxRequest::GasEstimate,
            TxStage::Sign(_) => TxRequest::SigningPreimage,
            TxStage::Identify(_) => TxRequest::ExpectedTxId,
            TxStage::Ready(_) => TxRequest::Nothing,
        }
    }

    /// The transaction as far as it has come.
    pub fn tx(&self) -> (r: Option<&ComputeTx>)
        ensures
            match r {
                Some(tx) => self@.stage.tx() == Some(tx@),
                None => self@.stage.tx() is None,
            },
    {
        match &self.stage {
            TxStage::Encode => None,
            TxStage::Price(tx) => Some(tx),
            TxStage::Sign(tx) => Some(tx),
            TxStage::Identify(tx) => Some(tx),
            TxStage::Ready(tx) => Some(tx),
        }
    }

    /// The transaction that a gas estimate is to be taken of, where one is wanted.
    pub fn probe(&self) -> (r: Option<ComputeTx>)
        ensures
            match self@.stage {
                StageView::Price(tx) => r matches Some(p) && p@ == chain::probe_of(tx),
                _ => r is None,
            },
    {
        match &self.stage {
            TxStage::Price(tx) => Some(fee_probe(tx)),
            _ => None,
        }
    }

    /// Takes the answer to what was asked.
    pub fn step(self, reply: TxReply) -> (r: TxAssembly)
        ensures
            r@ == self@.next(reply@),
    {
        let TxAssembly { plan, player, nonce, chain_id, base_fee, stage } = self;
        let stage = match (stage, reply) {
            (TxStage::Encode, TxReply::Encoding(encoded)) => {
                match draft(&plan, &player, nonce, chain_id, encoded) {
                    Some(tx) => if base_fee.is_some() {
                        TxStage::Price(tx)
                    } else {
                        TxStage::Sign(tx)
                    },
                    None => TxStage::Encode,
                }
            },
            (TxStage::Price(tx), TxReply::GasEstimate(gas)) => match base_fee {
                Some(fee) => {
                    let mut tx = tx;
                    apply_fee_fields(&mut tx, gas, fee);
                    TxStage::Sign(tx)
                },
                None => TxStage::Price(tx),
            },
            (TxStage::Sign(tx), TxReply::SigningPreimage(preimage)) => TxStage::Identify(
                sign_tx_with(tx, player.signing_key(), preimage.as_slice()),
            ),
            (TxStage::Identify(tx), TxReply::ExpectedTxId(id)) => {
                let mut tx = tx;
                tx.tx_id = TxId(id);
                TxStage::Ready(tx)
            },
            (stage, _) => stage,
        };
        TxAssembly { plan, player, nonce, chain_id, base_fee, stage }
    }
}

/// A transaction that pays is complete after four answers. It is the plan's
/// transaction with its fees filled in, then signed over the bytes given for exactly
/// that, then named.
pub proof fn law_paying_assembly(
    a: AssemblyView,
    base_fee: u64,
    encoded: EncodedView,
    gas: u64,
    preimage: Seq<u8>,
    id: Seq<u8>,
)
    requires
        a.stage is Encode,
        a.base_fee == Some(base_fee),
        chain::encoding_fits(a.plan, encoded),
    ensures
        ({
            let encoded_a = a.next(TxReplyView::Encoding(encoded));
            let priced_a = encoded_a.next(TxReplyView::GasEstimate(gas));
            let signed_a = priced_a.next(TxReplyView::SigningPreimage(preimage));
            let ready_a = signed_a.next(TxReplyView::ExpectedTxId(id));
            let to_sign = chain::priced(a.draft(encoded), gas, base_fee);
            &&& encoded_a.stage == StageView::Price(a.draft(encoded))
            &&& priced_a.stage == StageView::Sign(to_sign)
            &&& ready_a.stage == StageView::Ready(
                chain::identified(chain::signed(to_sign, a.secret, preimage), id),
            )
        }),
{
}

/// A transaction that mints pays nothing: it is signed as drafted, with all fee
/// fields zero.
pub proof fn law_free_assembly(
    a: AssemblyView,
    encoded: EncodedView,
    preimage: Seq<u8>,
    id: Seq<u8>,
)
    requires
        a.stage is Encode,
        a.base_fee is None,
        chain::encoding_fits(a.plan, encoded),
    ensures
        ({
            let encoded_a = a.next(TxReplyView::Encoding(encoded));
            let signed_a = encoded_a.next(TxReplyView::SigningPreimage(preimage));
            let ready_a = signed_a.next(TxReplyView::ExpectedTxId(id));
            &&& encoded_a.stage == StageView::Sign(a.draft(encoded))
            &&& ready_a.stage == StageView::Ready(
                chain::identified(chain::signed(a.draft(encoded), a.secret, preimage), id),
            )
            &&& a.draft(encoded).max_fee == 0
            &&& a.draft(encoded).priority_fee == 0
            &&& a.draft(encoded).gas_limit == 0
        }),
{
}

/// After the signature nothing that was signed changes any more: whatever answer
/// comes, the fees, the inputs, the outputs and the payload stay.
pub proof fn law_signed_content_is_fixed(a: AssemblyView, reply: TxReplyView)
    requires
        a.stage is Identify || a.stage is Ready,
    ensures
        ({
            let before = a.stage.tx()->0;
            let after = a.next(reply).stage.tx()->0;
            &&& a.next(reply).stage is Identify || a.next(reply).stage is Ready
            &&& after == chain::identified(before, after.tx_id)
        }),
{
}

/// Whatever is answered, a transaction in the making comes from its plan and the
/// answers, and from nothing else; and its plan, key, nonce, chain and base fee stay.
pub proof fn law_assembly_stays_sound(a: AssemblyView, reply: TxReplyView)
    requires
        a.sound(),
    ensures
        a.next(reply).sound(),
        a.next(reply) == (AssemblyView { stage: a.next(reply).stage, ..a }),
{
    let after = a.next(reply);
    match (a.stage, reply) {
        (StageView::Encode, TxReplyView::Encoding(e)) => {
            if chain::encoding_fits(a.plan, e) {
                assert(after.drafts(a.draft(e), e));
                assert(a.base_fee is None ==> after.completes(a.draft(e), e, 0));
            }
        },
        (StageView::Price(tx), TxReplyView::GasEstimate(g)) => {
            let e = choose|e: EncodedView| a.drafts(tx, e);
            assert(after.completes(a.to_sign(e, g), e, g));
        },
        (StageView::Sign(tx), TxReplyView::SigningPreimage(p)) => {
            let (e, gas) = choose|e: EncodedView, gas: u64| a.completes(tx, e, gas);
            assert(after.signs(chain::signed(tx, a.secret, p), e, gas, p));
        },
        (StageView::Identify(tx), TxReplyView::ExpectedTxId(id)) => {
            let (e, gas, p) = choose|e: EncodedView, gas: u64, p: Seq<u8>| a.signs(tx, e, gas, p);
            assert(after.signs(chain::identified(tx, id), e, gas, p));
        },
        _ => {},
    }
}

/// The key never leaves the client: a transaction holds of it no more than the address,
/// the public key and signatures. Under two keys that agree in these, every answer leads
/// to the same transaction.
pub proof fn law_key_stays_with_the_player(a: AssemblyView, other: Seq<u8>, reply: TxReplyView)
    requires
        crypto::address_of(other) == crypto::address_of(a.secret),
        crypto::public_key_of(other) == crypto::public_key_of(a.secret),
        forall|message: Seq<u8>| #[trigger]
            crypto::signature_of(other, message) == crypto::signature_of(a.secret, message),
    ensures
        (AssemblyView { secret: other, ..a }).next(reply).stage == a.next(reply).stage,
{
}

/// An assembly drafts its own plan, for its own player, nonce and chain, with the encoded
/// operation as payload where there is one.
pub proof fn law_draft_is_the_assemblys(a: AssemblyView, encoded: EncodedView)
    ensures
        ({
            let tx = a.draft(encoded);
            &&& tx.nonce == Some(a.nonce)
            &&& tx.chain_id == Some(a.chain_id)
            &&& !(a.plan is MintMonsterConfig) ==> tx.payload == encoded.payload
            &&& tx.output_proposals.len() >= 1
            &&& tx.output_proposals[0].object_id == encoded.object_id
            &&& tx.output_proposals[0].owner == compute::OwnerView::Address(
                crypto::address_of(a.secret),
            )
            &&& !(a.plan is SellDrop) ==> tx.output_proposals[0].state == encoded.state
            &&& tx == chain::draft_tx(
                a.plan,
                crypto::address_of(a.secret),
                a.nonce,
                a.chain_id,
                encoded,
            )
        }),
{
}

/// What is ready to be submitted keeps what was drafted: the same operation, inputs and
/// outputs, under the same nonce and chain.
pub proof fn law_ready_transaction_keeps_its_draft(a: AssemblyView, tx: TxView)
    requires
        a.sound(),
        a.stage == StageView::Ready(tx),
    ensures
        exists|e: EncodedView|
            chain::encoding_fits(a.plan, e) && ({
                let draft = #[trigger] a.draft(e);
                &&& tx.command == draft.command
                &&& tx.input_set == draft.input_set
                &&& tx.output_proposals == draft.output_proposals
                &&& tx.payload == draft.payload
                &&& tx.nonce == Some(a.nonce)
                &&& tx.chain_id == Some(a.chain_id)
                &&& tx.network_id == draft.network_id
            }),
{
    let (e, gas, p) = choose|e: EncodedView, gas: u64, p: Seq<u8>| a.signs(tx, e, gas, p);
    let draft = a.draft(e);
    assert(chain::encoding_fits(a.plan, e));
    assert(tx.payload == draft.payload);
}

/// An assembly, its stage and an answer stand for what they hold.
pub proof fn law_assembly_stands_for_what_it_holds(a: TxAssembly, reply: TxReply)
    ensures
        a@.plan == a.plan@,
        a@.secret == a.player@,
        a@.nonce == a.nonce,
        a@.chain_id == a.chain_id,
        a@.base_fee == a.base_fee,
        match a.stage {
            TxStage::Encode => a@.stage == StageView::Encode,
            TxStage::Price(tx) => a@.stage == StageView::Price(tx@),
            TxStage::Sign(tx) => a@.stage == StageView::Sign(tx@),
            TxStage::Identify(tx) => a@.stage == StageView::Identify(tx@),
            TxStage::Ready(tx) => a@.stage == StageView::Ready(tx@),
        },
        match reply {
            TxReply::Encoding(e) => reply@ == TxReplyView::Encoding(e@),
            TxReply::GasEstimate(g) => reply@ == TxReplyView::GasEstimate(g),
            TxReply::SigningPreimage(p) => reply@ == TxReplyView::SigningPreimage(p@),
            TxReply::ExpectedTxId(id) => reply@ == TxReplyView::ExpectedTxId(id.bytes@),
        },
{
}

/// Each stage asks for what the next one is made of, and shows the transaction so far.
pub proof fn law_each_stage_asks_for_what_it_lacks(tx: TxView)
    ensures
        StageView::Encode.request() == TxRequest::Encoding,
        StageView::Price(tx).request() == TxRequest::GasEstimate,
        StageView::Sign(tx).request() == TxRequest::SigningPreimage,
        StageView::Identify(tx).request() == TxRequest::ExpectedTxId,
        StageView::Ready(tx).request() == TxRequest::Nothing,
        StageView::Encode.tx() is None,
        StageView::Price(tx).tx() == Some(tx),
        StageView::Sign(tx).tx() == Some(tx),
        StageView::Identify(tx).tx() == Some(tx),
        StageView::Ready(tx).tx() == Some(tx),
{
}

/// An answer to another question than the one that was asked changes nothing, and neither
/// does an encoding that does not go with the plan.
pub proof fn law_unasked_answers_change_nothing(a: AssemblyView, reply: TxReplyView)
    requires
        match reply {
            TxReplyView::Encoding(e) => !(a.stage is Encode) || !chain::encoding_fits(a.plan, e),
            TxReplyView::GasEstimate(_) => !(a.stage is Price) || a.base_fee is None,
            TxReplyView::SigningPreimage(_) => !(a.stage is Sign),
            TxReplyView::ExpectedTxId(_) => !(a.stage is Identify),
        },
    ensures
        a.next(reply) == a,
{
}

} // verus!
