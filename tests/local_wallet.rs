use starknet_core::crypto::{ecdsa_verify, EcdsaSignError};
use starknet_core::types::Felt;
use starknet_signers::{
    Call, FieldElement, LocalWallet, SignError, Signer, SignerInteractivityContext, SigningKey,
    VerifyingKey,
};

const SECRET: &str = "0139fe4d6f02e666e86a6f58e65060f115cd3c185bd9e98bd829636931458f79";
const PUBLIC: &str = "02c5dbad71c92a45cc4b40573ae661f8147869a91d57b8d9b8f48c8af7f83159";
const HASH: &str = "06fea80189363a786037ed3e7ba546dad0ef7de49fccae0e31eb658b7dd4ea76";
const SIG_R: &str = "061ec782f76a66f6984efc3a1b6d152a124c701c00abdd2bf76641b4135c770f";
const SIG_S: &str = "04e44e759cea02c23568bb4d8a09929bbca8768ab68270d50c18d214166ccd9a";
const CURVE_ORDER: &str = "0800000000000010ffffffffffffffffb781126dcae7b2321e66a241adc64d2f";
const FIELD_PRIME: &str = "0800000000000011000000000000000000000000000000000000000000000001";

fn hex_bytes(hex: &str) -> [u8; 32] {
    let mut out = [0u8; 32];
    for i in 0..32 {
        out[i] = u8::from_str_radix(&hex[2 * i..2 * i + 2], 16).unwrap();
    }
    out
}

fn felt(hex: &str) -> FieldElement {
    FieldElement::from_bytes_be(hex_bytes(hex)).unwrap()
}

fn small(n: u64) -> FieldElement {
    let mut bytes = [0u8; 32];
    bytes[24..].copy_from_slice(&n.to_be_bytes());
    FieldElement::from_bytes_be(bytes).unwrap()
}

fn to_felt(x: &FieldElement) -> Felt {
    Felt::from_bytes_be(&x.to_bytes_be())
}

fn key(hex: &str) -> SigningKey {
    SigningKey::from_secret_scalar(felt(hex)).unwrap()
}

fn verifies(pk: &VerifyingKey, hash: &FieldElement, r: &FieldElement, s: &FieldElement) -> bool {
    let sig = starknet_core::crypto::Signature { r: to_felt(r), s: to_felt(s) };
    ecdsa_verify(&to_felt(&pk.scalar()), &to_felt(hash), &sig).unwrap()
}

#[test]
fn field_element_round_trips_its_bytes() {
    let bytes = hex_bytes(HASH);
    assert_eq!(FieldElement::from_bytes_be(bytes).unwrap().to_bytes_be(), bytes);
}

#[test]
fn field_element_rejects_the_prime_and_above() {
    assert!(FieldElement::from_bytes_be(hex_bytes(FIELD_PRIME)).is_none());
    assert!(FieldElement::from_bytes_be([0xff; 32]).is_none());
    let mut below = hex_bytes(FIELD_PRIME);
    below[31] = 0;
    assert!(FieldElement::from_bytes_be(below).is_some());
    assert!(FieldElement::from_bytes_be([0u8; 32]).is_some());
}

#[test]
fn signing_key_rejects_zero_and_curve_order() {
    assert!(SigningKey::from_secret_scalar(small(0)).is_none());
    assert!(SigningKey::from_secret_scalar(felt(CURVE_ORDER)).is_none());
    assert!(SigningKey::from_secret_scalar(small(1)).is_some());
    let mut above = hex_bytes(CURVE_ORDER);
    above[31] += 1;
    assert!(SigningKey::from_secret_scalar(felt_from(above)).is_some());
}

fn felt_from(bytes: [u8; 32]) -> FieldElement {
    FieldElement::from_bytes_be(bytes).unwrap()
}

#[test]
fn signing_key_keeps_its_secret() {
    assert_eq!(key(SECRET).secret_scalar(), felt(SECRET));
}

#[test]
fn verifying_key_matches_known_vector() {
    assert_eq!(key(SECRET).verifying_key().scalar(), felt(PUBLIC));
}

#[test]
fn public_key_of_one_is_the_generator_x() {
    let generator_x = "01ef15c18599971b7beced415a40f0c7deacfd9b0d1819e03d723d8bc943cfca";
    let k = SigningKey::from_secret_scalar(small(1)).unwrap();
    assert_eq!(k.verifying_key().scalar(), felt(generator_x));
}

#[test]
fn wallet_public_key_equals_key_public_key() {
    let k = key(SECRET);
    let expected = k.verifying_key();
    let wallet = LocalWallet::from_signing_key(k);
    assert_eq!(wallet.get_public_key().unwrap(), expected);
}

#[test]
fn wallet_from_key_round_trips_public_key() {
    let k = key(SECRET);
    let wallet: LocalWallet = k.clone().into();
    assert_eq!(wallet.get_public_key().unwrap(), k.verifying_key());
    assert_eq!(wallet.get_public_key().unwrap().scalar(), felt(PUBLIC));
}

#[test]
fn wallet_signs_known_vector() {
    let wallet = LocalWallet::from_signing_key(key(SECRET));
    let sig = wallet.sign_hash(&felt(HASH)).unwrap();
    assert_eq!(sig.r, felt(SIG_R));
    assert_eq!(sig.s, felt(SIG_S));
}

#[test]
fn wallet_signature_verifies_against_public_key() {
    for (secret, hash) in [(SECRET, HASH), (HASH, SECRET), (CURVE_ORDER, HASH)] {
        let mut secret_bytes = hex_bytes(secret);
        secret_bytes[31] ^= 1;
        let wallet = LocalWallet::from_signing_key(SigningKey::from_secret_scalar(felt_from(secret_bytes)).unwrap());
        let h = felt(hash);
        let sig = wallet.sign_hash(&h).unwrap();
        let pk = wallet.get_public_key().unwrap();
        assert!(verifies(&pk, &h, &sig.r, &sig.s));
        assert!(!verifies(&pk, &small(1), &sig.r, &sig.s));
    }
}

#[test]
fn wallet_signs_as_its_key() {
    let k = key(SECRET);
    let direct = k.sign(&felt(HASH)).unwrap();
    let wallet = LocalWallet::from_signing_key(k);
    assert_eq!(wallet.sign_hash(&felt(HASH)).unwrap(), direct);
}

#[test]
fn sign_hash_rejects_hash_out_of_range() {
    let wallet = LocalWallet::from_signing_key(key(SECRET));
    let mut bound = [0u8; 32];
    bound[0] = 0x08;
    match wallet.sign_hash(&felt_from(bound)) {
        Err(SignError::EcdsaSignError(EcdsaSignError::MessageHashOutOfRange)) => {}
        other => panic!("unexpected result: {:?}", other),
    }
    let mut below = [0xffu8; 32];
    below[0] = 0x07;
    assert!(wallet.sign_hash(&felt_from(below)).is_ok());
}

#[test]
fn sign_error_wraps_ecdsa_error() {
    let e: SignError = EcdsaSignError::MessageHashOutOfRange.into();
    assert!(matches!(e, SignError::EcdsaSignError(EcdsaSignError::MessageHashOutOfRange)));
}

#[test]
fn local_wallet_is_never_interactive() {
    let wallet = LocalWallet::from_signing_key(key(SECRET));
    assert!(!wallet.is_interactive(SignerInteractivityContext::Other));
    assert!(!wallet.is_interactive(SignerInteractivityContext::Execution { calls: &[] }));
    let calls = vec![Call { to: small(1), selector: small(2), calldata: vec![small(3), small(4)] }];
    assert!(!wallet.is_interactive(SignerInteractivityContext::Execution { calls: &calls }));
}

#[test]
fn cloned_wallet_signs_verifiably() {
    let wallet = LocalWallet::from_signing_key(key(SECRET));
    let copy = wallet.clone();
    let h = felt(HASH);
    let sig = copy.sign_hash(&h).unwrap();
    let pk = wallet.get_public_key().unwrap();
    assert_eq!(copy.get_public_key().unwrap(), pk);
    assert!(verifies(&pk, &h, &sig.r, &sig.s));
    assert_eq!(sig, wallet.sign_hash(&h).unwrap());
}

#[test]
fn public_key_differs_from_secret() {
    let k = key(SECRET);
    assert_ne!(k.verifying_key().scalar(), k.secret_scalar());
}
