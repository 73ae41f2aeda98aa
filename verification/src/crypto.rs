//! Hashes, addresses and the player's signing key.

use vstd::bytes;
use vstd::prelude::*;
use vstd::slice::slice_subrange;
use vstd::slice::slice_to_vec;
use vstd::utf8;

verus! {

/// A 32-byte digest.
#[derive(Clone, Copy, Debug, PartialEq, Eq)]
pub struct Digest {
    pub bytes: [u8; 32],
}

/// A 20-byte account address.
#[derive(Clone, Copy, Debug, PartialEq, Eq)]
pub struct Address {
    pub bytes: [u8; 20],
}

/// An ed25519 private key.
#[derive(Clone, Copy, Debug, PartialEq, Eq)]
pub struct SigningKey {
    pub secret: [u8; 32],
}

impl View for Digest {
    type V = Seq<u8>;

    open spec fn view(&self) -> Seq<u8> {
        self.bytes@
    }
}

impl View for Address {
    type V = Seq<u8>;

    open spec fn view(&self) -> Seq<u8> {
        self.bytes@
    }
}

impl View for SigningKey {
    type V = Seq<u8>;

    open spec fn view(&self) -> Seq<u8> {
        self.secret@
    }
}

/// The Keccak-256 digest of a byte string.
pub uninterp spec fn keccak256_of(data: Seq<u8>) -> Seq<u8>;

/// The ed25519 public key of a private key.
pub uninterp spec fn public_key_of(secret: Seq<u8>) -> Seq<u8>;

/// The ed25519 signature of a message under a private key.
pub uninterp spec fn signature_of(secret: Seq<u8>, message: Seq<u8>) -> Seq<u8>;

/// Calls `Keccak256::digest` of the crate `sha3`. Claims that the digest depends on
/// the data alone; its length is that of its type.
#[verifier::external_body]
pub(crate) fn keccak256(data: &[u8]) -> (r: [u8; 32])
    ensures
        r@ == keccak256_of(data@),
{
    <sha3::Keccak256 as sha3::Digest>::digest(data).into()
}

/// Calls `SigningKey::from_bytes` and `verifying_key` of the crate `ed25519_dalek`.
/// Claims that the public key depends on the private key alone.
#[verifier::external_body]
fn ed25519_public_key(secret: &[u8; 32]) -> (r: [u8; 32])
    ensures
        r@ == public_key_of(secret@),
{
    ed25519_dalek::SigningKey::from_bytes(secret).verifying_key().to_bytes()
}

/// Calls `SigningKey::from_bytes` and `Signer::sign` of the crate `ed25519_dalek`.
/// Claims that the signature depends on the private key and the message alone.
#[verifier::external_body]
fn ed25519_sign(secret: &[u8; 32], message: &[u8]) -> (r: [u8; 64])
    ensures
        r@ == signature_of(secret@, message@),
{
    ed25519_dalek::Signer::sign(&ed25519_dalek::SigningKey::from_bytes(secret), message).to_bytes()
}

impl Digest {
    /// The digest of 32 zero bytes.
    pub open spec fn zero_view() -> Seq<u8> {
        Seq::new(32, |i: int| 0u8)
    }

    /// The hash whose bytes are all zero.
    pub fn zero() -> (r: Digest)
        ensures
            r@ == Digest::zero_view(),
    {
        let r = Digest { bytes: [0u8; 32] };
        assert(r@ =~= Digest::zero_view());
        r
    }

    /// The hash with exactly those bytes; nothing unless there are 32 of them.
    pub fn from_slice(data: &[u8]) -> (r: Option<Digest>)
        ensures
            match r {
                Some(h) => data@.len() == 32 && h@ == data@,
                None => data@.len() != 32,
            },
    {
        if data.len() != 32 {
            return None;
        }
        let mut bytes: [u8; 32] = [0u8; 32];
        let mut i: usize = 0;
        while i < 32
            invariant
                i <= 32,
                data@.len() == 32,
                forall|k: int| 0 <= k < i ==> bytes@[k] == data@[k],
            decreases 32 - i,
        {
            bytes[i] = data[i];
            i = i + 1;
        }
        assert(bytes@ =~= data@);
        Some(Digest { bytes })
    }
}

impl Address {
    /// The address with exactly those bytes; nothing unless there are 20 of them.
    pub fn from_slice(data: &[u8]) -> (r: Option<Address>)
        ensures
            match r {
                Some(a) => data@.len() == 20 && a@ == data@,
                None => data@.len() != 20,
            },
    {
        if data.len() != 20 {
            return None;
        }
        let mut bytes: [u8; 20] = [0u8; 20];
        let mut i: usize = 0;
        while i < 20
            invariant
                i <= 20,
                data@.len() == 20,
                forall|k: int| 0 <= k < i ==> bytes@[k] == data@[k],
            decreases 20 - i,
        {
            bytes[i] = data[i];
            i = i + 1;
        }
        assert(bytes@ =~= data@);
        Some(Address { bytes })
    }
}

impl SigningKey {
    /// The public key that belongs to this private key.
    pub fn public_key(&self) -> (r: [u8; 32])
        ensures
            r@ == public_key_of(self@),
    {
        ed25519_public_key(&self.secret)
    }

    /// The signature of a message.
    pub fn sign(&self, message: &[u8]) -> (r: [u8; 64])
        ensures
            r@ == signature_of(self@, message@),
    {
        ed25519_sign(&self.secret, message)
    }
}

/// The bytes that a player's private key is the digest of: the master seed, the
/// word `player`, and the player's number with its lowest byte first.
pub open spec fn wallet_seed(master_seed: Seq<u8>, player_id: u64) -> Seq<u8> {
    master_seed + utf8::encode_utf8("player"@) + bytes::spec_u64_to_le_bytes(player_id)
}

/// The address of a private key: the last twenty bytes of the digest of its public key.
pub open spec fn address_of(secret: Seq<u8>) -> Seq<u8> {
    keccak256_of(public_key_of(secret)).skip(12)
}

/// A player's wallet: a private key and the address that goes with it.
#[derive(Clone, Copy, Debug, PartialEq, Eq)]
pub struct PlayerWallet {
    signing_key: SigningKey,
    address: Address,
}

impl View for PlayerWallet {
    type V = Seq<u8>;

    /// The private key, which determines the wallet.
    closed spec fn view(&self) -> Seq<u8> {
        self.signing_key@
    }
}

impl PlayerWallet {
    #[verifier::type_invariant]
    spec fn well_formed(self) -> bool {
        self.address@ == address_of(self.signing_key@)
    }

    /// The wallet of a player under a master seed.
    pub fn derive(master_seed: &[u8], player_id: u64) -> (r: PlayerWallet)
        ensures
            r@ == keccak256_of(wallet_seed(master_seed@, player_id)),
    {
        let mut data = slice_to_vec(master_seed);
        data.extend_from_slice("player".as_bytes());
        data.extend_from_slice(bytes::u64_to_le_bytes(player_id).as_slice());
        assert(data@ =~= wallet_seed(master_seed@, player_id));
        let signing_key = SigningKey { secret: keccak256(data.as_slice()) };
        let public_key = signing_key.public_key();
        let digest = keccak256(&public_key);
        let tail = slice_subrange(&digest, 12, 32);
        assert(tail@ =~= address_of(signing_key@));
        PlayerWallet { signing_key, address: Address::from_slice(tail).unwrap() }
    }

    /// The player's address.
    pub fn address(&self) -> (r: &Address)
        ensures
            r@ == address_of(self@),
    {
        proof {
            use_type_invariant(self);
        }
        &self.address
    }

    /// The player's private key.
    pub fn signing_key(&self) -> (r: &SigningKey)
        ensures
            r@ == self@,
    {
        &self.signing_key
    }
}

/// What a player's private key is the digest of begins with the whole master seed, then
/// comes the word `player`, then the player's number, lowest byte first, and nothing else.
pub proof fn law_wallet_seed_holds_seed_and_number(master_seed: Seq<u8>, player_id: u64)
    ensures
        ({
            let n = master_seed.len() as int;
            let data = wallet_seed(master_seed, player_id);
            &&& data.len() == n + 14
            &&& data.take(n) == master_seed
            &&& data.subrange(n, n + 6) == seq![0x70u8, 0x6c, 0x61, 0x79, 0x65, 0x72]
            &&& bytes::spec_u64_from_le_bytes(data.skip(n + 6)) == player_id
        }),
{
    let n = master_seed.len() as int;
    let data = wallet_seed(master_seed, player_id);
    reveal_strlit("player");
    assert(utf8::is_ascii_chars("player"@));
    utf8::is_ascii_chars_encode_utf8("player"@);
    bytes::lemma_auto_spec_u64_to_from_le_bytes();
    let number = bytes::spec_u64_to_le_bytes(player_id);
    assert(number.len() == 8);
    assert(data.take(n) =~= master_seed);
    assert(data.subrange(n, n + 6) =~= seq![0x70u8, 0x6c, 0x61, 0x79, 0x65, 0x72]);
    assert(data.skip(n + 6) =~= number);
}

/// Different seeds, and different players of one seed, never lead to the same bytes.
pub proof fn law_wallet_seeds_differ(
    first_seed: Seq<u8>,
    first_player: u64,
    second_seed: Seq<u8>,
    second_player: u64,
)
    requires
        first_seed != second_seed || first_player != second_player,
    ensures
        wallet_seed(first_seed, first_player) != wallet_seed(second_seed, second_player),
{
    law_wallet_seed_holds_seed_and_number(first_seed, first_player);
    law_wallet_seed_holds_seed_and_number(second_seed, second_player);
}

/// An address is what follows the first twelve bytes of the digest of the public key:
/// all of its other twenty.
pub proof fn law_address_ends_the_digest(secret: Seq<u8>)
    requires
        keccak256_of(public_key_of(secret)).len() == 32,
    ensures
        address_of(secret).len() == 20,
        forall|i: int|
            0 <= i < 20 ==> #[trigger] address_of(secret)[i] == keccak256_of(
                public_key_of(secret),
            )[12 + i],
{
}

/// The zero digest is 32 zero bytes, and digests, addresses and keys stand for their bytes.
pub proof fn law_bytes_stand_for_themselves(digest: Digest, address: Address, key: SigningKey)
    ensures
        Digest::zero_view().len() == 32,
        forall|i: int| 0 <= i < 32 ==> #[trigger] Digest::zero_view()[i] == 0,
        digest@ == digest.bytes@,
        address@ == address.bytes@,
        key@ == key.secret@,
{
}

} // verus!
