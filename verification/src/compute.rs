//! Transactions and the outputs that they propose.

use crate::crypto;
use crate::crypto::{Address, Digest};
use vstd::bytes;
use vstd::prelude::*;
use vstd::slice::slice_to_vec;

verus! {

/// The identity of a logical object.
#[derive(Clone, Copy, Debug, PartialEq, Eq)]
pub struct ObjectId(pub Digest);

/// The identity of one version of an object.
#[derive(Clone, Copy, Debug, PartialEq, Eq)]
pub struct OutputId(pub Digest);

/// The identity of a transaction.
#[derive(Clone, Copy, Debug, PartialEq, Eq)]
pub struct TxId(pub Digest);

/// The number of a version of an object.
#[derive(Clone, Copy, Debug, PartialEq, Eq, Structural)]
pub struct Version(pub u64);

/// The domain that a transaction belongs to.
#[derive(Clone, Copy, Debug, PartialEq, Eq, Structural)]
pub enum Domain {
    Game,
}

/// What a transaction does: create an object, or consume outputs.
#[derive(Clone, Copy, Debug, PartialEq, Eq, Structural)]
pub enum Command {
    Mint,
    Invoke,
}

/// What an object holds.
#[derive(Clone, Copy, Debug, PartialEq, Eq, Structural)]
pub enum ObjectKind {
    State,
}

/// Who may spend an output.
#[derive(Clone, Copy, Debug, PartialEq, Eq)]
pub enum Ownership {
    Address(Address),
}

/// The lock script that every output of this client carries: the default one.
#[derive(Clone, Copy, Debug, PartialEq, Eq, Structural)]
pub enum Script {
    Standard,
}

/// An ed25519 signature and the public key that it is checked with.
#[derive(Clone, Copy, Debug, PartialEq, Eq)]
pub struct TxSignature {
    pub signature: [u8; 64],
    pub public_key: [u8; 32],
}

/// What proves that a transaction was authorised.
#[derive(Debug, PartialEq, Eq)]
pub struct TxWitness {
    pub signatures: Vec<TxSignature>,
    pub threshold: Option<u32>,
}

/// An output that a transaction proposes.
#[derive(Debug, PartialEq, Eq)]
pub struct OutputProposal {
    pub output_id: OutputId,
    pub object_id: ObjectId,
    pub domain_id: Domain,
    pub kind: ObjectKind,
    pub owner: Ownership,
    pub predecessor: Option<OutputId>,
    pub version: Version,
    pub state: Vec<u8>,
    pub state_root: Option<Digest>,
    pub resources: Vec<Vec<u8>>,
    pub lock: Script,
    pub logic: Option<Digest>,
    pub created_at: u64,
    pub ttl: Option<u64>,
    pub rent_reserve: Option<u64>,
    pub flags: u64,
    pub extensions: Vec<Vec<u8>>,
}

/// A transaction.
#[derive(Debug, PartialEq, Eq)]
pub struct ComputeTx {
    pub tx_id: TxId,
    pub domain_id: Domain,
    pub command: Command,
    pub input_set: Vec<OutputId>,
    pub read_set: Vec<OutputId>,
    pub output_proposals: Vec<OutputProposal>,
    pub fee: u64,
    pub nonce: Option<u64>,
    pub metadata: Vec<u8>,
    pub payload: Vec<u8>,
    pub deadline_unix_secs: Option<u64>,
    pub chain_id: Option<u64>,
    pub network_id: Option<u32>,
    pub witness: TxWitness,
    pub max_fee: u64,
    pub priority_fee: u64,
    pub gas_limit: u64,
}

/// Who may spend an output, mathematically.
pub enum OwnerView {
    Address(Seq<u8>),
}

/// A signature, mathematically.
#[verifier::ext_equal]
pub struct SignatureView {
    pub signature: Seq<u8>,
    pub public_key: Seq<u8>,
}

/// A proposed output, mathematically.
#[verifier::ext_equal]
pub struct ProposalView {
    pub output_id: Seq<u8>,
    pub object_id: Seq<u8>,
    pub domain_id: Domain,
    pub kind: ObjectKind,
    pub owner: OwnerView,
    pub predecessor: Option<Seq<u8>>,
    pub version: u64,
    pub state: Seq<u8>,
    pub state_root: Option<Seq<u8>>,
    pub resources: Seq<Seq<u8>>,
    pub lock: Script,
    pub logic: Option<Seq<u8>>,
    pub created_at: u64,
    pub ttl: Option<u64>,
    pub rent_reserve: Option<u64>,
    pub flags: u64,
    pub extensions: Seq<Seq<u8>>,
}

/// A transaction, mathematically.
#[verifier::ext_equal]
pub struct TxView {
    pub tx_id: Seq<u8>,
    pub domain_id: Domain,
    pub command: Command,
    pub input_set: Seq<Seq<u8>>,
    pub read_set: Seq<Seq<u8>>,
    pub output_proposals: Seq<ProposalView>,
    pub fee: u64,
    pub nonce: Option<u64>,
    pub metadata: Seq<u8>,
    pub payload: Seq<u8>,
    pub deadline_unix_secs: Option<u64>,
    pub chain_id: Option<u64>,
    pub network_id: Option<u32>,
    pub signatures: Seq<SignatureView>,
    pub threshold: Option<u32>,
    pub max_fee: u64,
    pub priority_fee: u64,
    pub gas_limit: u64,
}

impl View for ObjectId {
    type V = Seq<u8>;

    open spec fn view(&self) -> Seq<u8> {
        self.0@
    }
}

impl View for OutputId {
    type V = Seq<u8>;

    open spec fn view(&self) -> Seq<u8> {
        self.0@
    }
}

impl View for TxId {
    type V = Seq<u8>;

    open spec fn view(&self) -> Seq<u8> {
        self.0@
    }
}

impl View for Ownership {
    type V = OwnerView;

    open spec fn view(&self) -> OwnerView {
        match self {
            Ownership::Address(a) => OwnerView::Address(a@),
        }
    }
}

impl View for TxSignature {
    type V = SignatureView;

    open spec fn view(&self) -> SignatureView {
        SignatureView { signature: self.signature@, public_key: self.public_key@ }
    }
}

/// An optional hash, mathematically.
pub open spec fn hash_option_view(h: Option<Digest>) -> Option<Seq<u8>> {
    match h {
        Some(h) => Some(h@),
        None => None,
    }
}

/// An optional output, mathematically.
pub open spec fn output_option_view(o: Option<OutputId>) -> Option<Seq<u8>> {
    match o {
        Some(o) => Some(o@),
        None => None,
    }
}

/// A list of byte strings, mathematically.
pub open spec fn byte_lists_view(v: Seq<Vec<u8>>) -> Seq<Seq<u8>> {
    v.map_values(|b: Vec<u8>| b@)
}

/// A list of outputs, mathematically.
pub open spec fn outputs_view(v: Seq<OutputId>) -> Seq<Seq<u8>> {
    v.map_values(|o: OutputId| o@)
}

/// A list of proposals, mathematically.
pub open spec fn proposals_view(v: Seq<OutputProposal>) -> Seq<ProposalView> {
    v.map_values(|p: OutputProposal| p@)
}

/// A list of signatures, mathematically.
pub open spec fn signatures_view(v: Seq<TxSignature>) -> Seq<SignatureView> {
    v.map_values(|s: TxSignature| s@)
}

impl View for OutputProposal {
    type V = ProposalView;

    open spec fn view(&self) -> ProposalView {
        ProposalView {
            output_id: self.output_id@,
            object_id: self.object_id@,
            domain_id: self.domain_id,
            kind: self.kind,
            owner: self.owner@,
            predecessor: output_option_view(self.predecessor),
            version: self.version.0,
            state: self.state@,
            state_root: hash_option_view(self.state_root),
            resources: byte_lists_view(self.resources@),
            lock: self.lock,
            logic: hash_option_view(self.logic),
            created_at: self.created_at,
            ttl: self.ttl,
            rent_reserve: self.rent_reserve,
            flags: self.flags,
            extensions: byte_lists_view(self.extensions@),
        }
    }
}

impl View for ComputeTx {
    type V = TxView;

    open spec fn view(&self) -> TxView {
        TxView {
            tx_id: self.tx_id@,
            domain_id: self.domain_id,
            command: self.command,
            input_set: outputs_view(self.input_set@),
            read_set: outputs_view(self.read_set@),
            output_proposals: proposals_view(self.output_proposals@),
            fee: self.fee,
            nonce: self.nonce,
            metadata: self.metadata@,
            payload: self.payload@,
            deadline_unix_secs: self.deadline_unix_secs,
            chain_id: self.chain_id,
            network_id: self.network_id,
            signatures: signatures_view(self.witness.signatures@),
            threshold: self.witness.threshold,
            max_fee: self.max_fee,
            priority_fee: self.priority_fee,
            gas_limit: self.gas_limit,
        }
    }
}

/// A number as eight bytes, the highest first.
pub open spec fn be_bytes(n: u64) -> Seq<u8> {
    bytes::spec_u64_to_le_bytes(n).reverse()
}

/// The identity of a version of an object: the digest of the object's identity and
/// the version's number.
pub open spec fn output_id_of(object_id: Seq<u8>, version: u64) -> Seq<u8> {
    crypto::keccak256_of(object_id + be_bytes(version))
}

/// The output that an address owns at some version of an object.
pub open spec fn owned_proposal(
    owner: Seq<u8>,
    object_id: Seq<u8>,
    predecessor: Option<Seq<u8>>,
    version: u64,
    state: Seq<u8>,
) -> ProposalView {
    ProposalView {
        output_id: output_id_of(object_id, version),
        object_id,
        domain_id: Domain::Game,
        kind: ObjectKind::State,
        owner: OwnerView::Address(owner),
        predecessor,
        version,
        state,
        state_root: None,
        resources: Seq::empty(),
        lock: Script::Standard,
        logic: None,
        created_at: 0,
        ttl: None,
        rent_reserve: None,
        flags: 0,
        extensions: Seq::empty(),
    }
}

/// The identity of a version of an object.
pub fn output_id_for(object_id: &ObjectId, version: u64) -> (r: OutputId)
    ensures
        r@ == output_id_of(object_id@, version),
{
    let mut data = slice_to_vec(&object_id.0.bytes);
    let number = bytes::u64_to_le_bytes(version);
    let mut i: usize = 0;
    while i < 8
        invariant
            i <= 8,
            number@.len() == 8,
            data@ == object_id@ + number@.reverse().take(i as int),
        decreases 8 - i,
    {
        data.push(number[7 - i]);
        i = i + 1;
        assert(number@.reverse().take(i as int) =~= number@.reverse().take(i - 1).push(
            number@[8 - i],
        ));
    }
    assert(data@ =~= object_id@ + be_bytes(version));
    OutputId(Digest { bytes: crypto::keccak256(data.as_slice()) })
}

/// The output that an address owns at some version of an object; spending it takes
/// the owner's signature.
pub fn proposal_owned(
    owner: Address,
    object_id: ObjectId,
    predecessor: Option<OutputId>,
    version: u64,
    state: Vec<u8>,
) -> (r: OutputProposal)
    ensures
        r@ == owned_proposal(
            owner@,
            object_id@,
            output_option_view(predecessor),
            version,
            state@,
        ),
{
    let r = OutputProposal {
        output_id: output_id_for(&object_id, version),
        object_id,
        domain_id: Domain::Game,
        kind: ObjectKind::State,
        owner: Ownership::Address(owner),
        predecessor,
        version: Version(version),
        state,
        state_root: None,
        resources: Vec::new(),
        lock: Script::Standard,
        logic: None,
        created_at: 0,
        ttl: None,
        rent_reserve: None,
        flags: 0,
        extensions: Vec::new(),
    };
    assert(r@.resources =~= Seq::empty());
    assert(r@.extensions =~= Seq::empty());
    r
}

/// Separate copies of byte strings.
fn copy_byte_lists(lists: &Vec<Vec<u8>>) -> (r: Vec<Vec<u8>>)
    ensures
        byte_lists_view(r@) == byte_lists_view(lists@),
{
    let mut out: Vec<Vec<u8>> = Vec::new();
    let mut i: usize = 0;
    while i < lists.len()
        invariant
            i <= lists@.len(),
            out@.len() == i,
            forall|k: int| 0 <= k < i ==> (#[trigger] out@[k])@ == lists@[k]@,
        decreases lists@.len() - i,
    {
        out.push(slice_to_vec(lists[i].as_slice()));
        i = i + 1;
    }
    assert(byte_lists_view(out@) =~= byte_lists_view(lists@));
    out
}

impl OutputProposal {
    /// A separate copy of the proposal.
    pub fn copy(&self) -> (r: OutputProposal)
        ensures
            r@ == self@,
    {
        OutputProposal {
            output_id: self.output_id,
            object_id: self.object_id,
            domain_id: self.domain_id,
            kind: self.kind,
            owner: self.owner,
            predecessor: self.predecessor,
            version: self.version,
            state: slice_to_vec(self.state.as_slice()),
            state_root: self.state_root,
            resources: copy_byte_lists(&self.resources),
            lock: self.lock,
            logic: self.logic,
            created_at: self.created_at,
            ttl: self.ttl,
            rent_reserve: self.rent_reserve,
            flags: self.flags,
            extensions: copy_byte_lists(&self.extensions),
        }
    }
}

impl ComputeTx {
    /// A separate copy of the transaction.
    pub fn copy(&self) -> (r: ComputeTx)
        ensures
            r@ == self@,
    {
        let mut output_proposals: Vec<OutputProposal> = Vec::new();
        let mut i: usize = 0;
        while i < self.output_proposals.len()
            invariant
                i <= self.output_proposals@.len(),
                output_proposals@.len() == i,
                forall|k: int|
                    0 <= k < i ==> (#[trigger] output_proposals@[k])@
                        == self.output_proposals@[k]@,
            decreases self.output_proposals@.len() - i,
        {
            output_proposals.push(self.output_proposals[i].copy());
            i = i + 1;
        }
        assert(proposals_view(output_proposals@) =~= proposals_view(self.output_proposals@));
        ComputeTx {
            tx_id: self.tx_id,
            domain_id: self.domain_id,
            command: self.command,
            input_set: slice_to_vec(self.input_set.as_slice()),
            read_set: slice_to_vec(self.read_set.as_slice()),
            output_proposals,
            fee: self.fee,
            nonce: self.nonce,
            metadata: slice_to_vec(self.metadata.as_slice()),
            payload: slice_to_vec(self.payload.as_slice()),
            deadline_unix_secs: self.deadline_unix_secs,
            chain_id: self.chain_id,
            network_id: self.network_id,
            witness: TxWitness {
                signatures: slice_to_vec(self.witness.signatures.as_slice()),
                threshold: self.witness.threshold,
            },
            max_fee: self.max_fee,
            priority_fee: self.priority_fee,
            gas_limit: self.gas_limit,
        }
    }
}

/// An output is named by the digest of its object's whole identity and then its version
/// in eight bytes, the highest first.
pub proof fn law_output_id_names_object_and_version(
    object_id: Seq<u8>,
    version: u64,
    data: Seq<u8>,
)
    requires
        data.len() == object_id.len() + 8,
        data.take(object_id.len() as int) == object_id,
        bytes::spec_u64_from_le_bytes(data.skip(object_id.len() as int).reverse()) == version,
    ensures
        output_id_of(object_id, version) == crypto::keccak256_of(data),
{
    let n = object_id.len() as int;
    bytes::lemma_auto_spec_u64_to_from_le_bytes();
    let tail = data.skip(n).reverse();
    assert(bytes::spec_u64_to_le_bytes(bytes::spec_u64_from_le_bytes(tail)) == tail);
    assert(be_bytes(version) =~= data.skip(n));
    assert(object_id + be_bytes(version) =~= data);
}

/// A proposal holds exactly the owner, object, predecessor, version and state that it was
/// made of; the rest of it is empty.
pub proof fn law_proposal_holds_what_it_was_made_of(
    owner: Seq<u8>,
    object_id: Seq<u8>,
    predecessor: Option<Seq<u8>>,
    version: u64,
    state: Seq<u8>,
)
    ensures
        ({
            let p = owned_proposal(owner, object_id, predecessor, version, state);
            &&& p.owner == OwnerView::Address(owner)
            &&& p.object_id == object_id
            &&& p.predecessor == predecessor
            &&& p.version == version
            &&& p.state == state
            &&& p.output_id == output_id_of(object_id, version)
            &&& p.domain_id == Domain::Game && p.kind == ObjectKind::State && p.lock
                == Script::Standard
            &&& p.state_root is None && p.logic is None && p.ttl is None && p.rent_reserve is None
            &&& p.resources.len() == 0 && p.extensions.len() == 0
            &&& p.created_at == 0 && p.flags == 0
        }),
{
}

/// A proposal stands for its fields.
pub proof fn law_proposal_stands_for_its_fields(p: OutputProposal)
    ensures
        p@.output_id == p.output_id.0.bytes@,
        p@.object_id == p.object_id.0.bytes@,
        p@.domain_id == p.domain_id,
        p@.kind == p.kind,
        p.owner matches Ownership::Address(a) && p@.owner == OwnerView::Address(a.bytes@),
        p@.predecessor is Some <==> p.predecessor is Some,
        p.predecessor matches Some(o) ==> p@.predecessor == Some(o.0.bytes@),
        p@.version == p.version.0,
        p@.state == p.state@,
        p@.state_root is Some <==> p.state_root is Some,
        p.state_root matches Some(h) ==> p@.state_root == Some(h.bytes@),
        p@.resources.len() == p.resources@.len(),
        forall|i: int|
            0 <= i < p.resources@.len() ==> #[trigger] p@.resources[i] == p.resources@[i]@,
        p@.lock == p.lock,
        p@.logic is Some <==> p.logic is Some,
        p.logic matches Some(h) ==> p@.logic == Some(h.bytes@),
        p@.created_at == p.created_at,
        p@.ttl == p.ttl,
        p@.rent_reserve == p.rent_reserve,
        p@.flags == p.flags,
        p@.extensions.len() == p.extensions@.len(),
        forall|i: int|
            0 <= i < p.extensions@.len() ==> #[trigger] p@.extensions[i] == p.extensions@[i]@,
{
}

/// A transaction stands for its fields.
pub proof fn law_transaction_stands_for_its_fields(tx: ComputeTx)
    ensures
        tx@.tx_id == tx.tx_id.0.bytes@,
        tx@.domain_id == tx.domain_id,
        tx@.command == tx.command,
        tx@.input_set.len() == tx.input_set@.len(),
        forall|i: int|
            0 <= i < tx.input_set@.len() ==> #[trigger] tx@.input_set[i]
                == tx.input_set@[i].0.bytes@,
        tx@.read_set.len() == tx.read_set@.len(),
        forall|i: int|
            0 <= i < tx.read_set@.len() ==> #[trigger] tx@.read_set[i] == tx.read_set@[i].0.bytes@,
        tx@.output_proposals.len() == tx.output_proposals@.len(),
        forall|i: int|
            0 <= i < tx.output_proposals@.len() ==> #[trigger] tx@.output_proposals[i]
                == tx.output_proposals@[i]@,
        tx@.fee == tx.fee,
        tx@.nonce == tx.nonce,
        tx@.metadata == tx.metadata@,
        tx@.payload == tx.payload@,
        tx@.deadline_unix_secs == tx.deadline_unix_secs,
        tx@.chain_id == tx.chain_id,
        tx@.network_id == tx.network_id,
        tx@.signatures.len() == tx.witness.signatures@.len(),
        forall|i: int|
            0 <= i < tx.witness.signatures@.len() ==> (#[trigger] tx@.signatures[i]).signature
                == tx.witness.signatures@[i].signature@ && tx@.signatures[i].public_key
                == tx.witness.signatures@[i].public_key@,
        tx@.threshold == tx.witness.threshold,
        tx@.max_fee == tx.max_fee,
        tx@.priority_fee == tx.priority_fee,
        tx@.gas_limit == tx.gas_limit,
{
}

} // verus!
