use shanhai_client::chain::{output_id_for, proposal_owned, PlayerWallet};
use shanhai_client::compute::{Domain, ObjectId, ObjectKind, OutputId, Ownership, Script, Version};
use shanhai_client::crypto::{Address, Digest, SigningKey};

fn seed() -> Vec<u8> {
    hex::decode("11".repeat(32)).unwrap()
}

fn digest(byte: u8) -> Digest {
    Digest { bytes: [byte; 32] }
}

#[test]
fn player_wallet_derivation_is_deterministic() {
    let a = PlayerWallet::derive(&seed(), 7);
    let b = PlayerWallet::derive(&seed(), 7);
    let c = PlayerWallet::derive(&seed(), 8);
    assert_eq!(a.address(), b.address());
    assert_ne!(a.address(), c.address());
}

#[test]
fn player_wallet_has_known_key_and_address() {
    let wallet = PlayerWallet::derive(&seed(), 9001);
    assert_eq!(
        hex::encode(wallet.signing_key().secret),
        "9270f91fdea6b18589d1497e4a054a3ee4c6cb613891efe7ebab1c3b491948f8"
    );
    assert_eq!(
        hex::encode(wallet.signing_key().public_key()),
        "5265b07517b50c470e4b748c373868a23900803777843c02343021c08d657711"
    );
    assert_eq!(
        hex::encode(wallet.address().bytes),
        "1fefa0228a67afa987c6be20afc061321584f501"
    );
    assert_eq!(
        hex::encode(PlayerWallet::derive(&seed(), 8).address().bytes),
        "073459b2879ea8bf49a4186c1670f2135308d6b3"
    );
}

#[test]
fn signing_key_matches_the_published_vector() {
    let secret = hex::decode("9d61b19deffd5a60ba844af492ec2cc44449c5697b326919703bac031cae7f60")
        .unwrap();
    let key = SigningKey { secret: secret.try_into().unwrap() };
    assert_eq!(
        hex::encode(key.public_key()),
        "d75a980182b10ab7d54bfed3c964073a0ee172f3daa62325af021a68f707511a"
    );
    assert_eq!(
        hex::encode(key.sign(&[])),
        "e5564300c360ac729086e2cc806e828a84877f1eb8e5d974d873e065224901555fb8821590a33bacc61e39701cf9b46bd25bf5f0595bbe24655141438e7a100b"
    );
}

#[test]
fn output_id_is_the_digest_of_object_and_version() {
    assert_eq!(
        hex::encode(output_id_for(&ObjectId(Digest::zero()), 1).0.bytes),
        "1cf395c0cd58ef248dc39cbdb14948280ffdfcc9ac3aedbd8cb5d1d4bb9997be"
    );
    assert_eq!(
        hex::encode(output_id_for(&ObjectId(digest(0x22)), 258).0.bytes),
        "1a73a22d4b9d5e7a902dd5274d729188db9c896e269ea8cf53ed44260dceb81b"
    );
}

#[test]
fn proposal_is_owned_and_otherwise_plain() {
    let owner = Address { bytes: [7; 20] };
    let object = ObjectId(digest(3));
    let before = OutputId(digest(4));
    let p = proposal_owned(owner, object, Some(before), 2, vec![1, 2]);
    assert_eq!(p.output_id, output_id_for(&object, 2));
    assert_eq!(p.object_id, object);
    assert_eq!(p.domain_id, Domain::Game);
    assert_eq!(p.kind, ObjectKind::State);
    assert_eq!(p.owner, Ownership::Address(owner));
    assert_eq!(p.predecessor, Some(before));
    assert_eq!(p.version, Version(2));
    assert_eq!(p.state, vec![1, 2]);
    assert_eq!(p.state_root, None);
    assert!(p.resources.is_empty());
    assert_eq!(p.lock, Script::Standard);
    assert_eq!(p.logic, None);
    assert_eq!((p.created_at, p.ttl, p.rent_reserve, p.flags), (0, None, None, 0));
    assert!(p.extensions.is_empty());
    assert_eq!(p.copy(), p);
}

#[test]
fn slices_of_the_wrong_length_are_refused() {
    assert_eq!(Digest::from_slice(&[9; 32]), Some(digest(9)));
    assert_eq!(Digest::from_slice(&[9; 31]), None);
    assert_eq!(Digest::from_slice(&[9; 33]), None);
    assert_eq!(Address::from_slice(&[5; 20]), Some(Address { bytes: [5; 20] }));
    assert_eq!(Address::from_slice(&[5; 19]), None);
    assert_eq!(Address::from_slice(&[5; 21]), None);
}
