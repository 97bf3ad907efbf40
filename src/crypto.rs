use crate::field::{be_nat, field_prime, pow256};
use starknet_core::crypto::{ecdsa_sign, EcdsaSignError};
use starknet_core::types::Felt;
use starknet_crypto::get_public_key;
use vstd::prelude::*;

verus! {

/// `2^251`: ECDSA on the STARK curve signs only message hashes below it.
pub open spec fn message_hash_bound() -> nat {
    8 * pow256(31)
}

/// Big-endian bytes of the order of the STARK curve's generator.
pub open spec fn curve_order_bytes() -> Seq<u8> {
    seq![
        0x08u8, 0x00, 0x00, 0x00, 0x00, 0x00, 0x00, 0x10, 0xff, 0xff, 0xff, 0xff, 0xff, 0xff,
        0xff, 0xff, 0xb7, 0x81, 0x12, 0x6d, 0xca, 0xe7, 0xb2, 0x32, 0x1e, 0x66, 0xa2, 0x41,
        0xad, 0xc6, 0x4d, 0x2f,
    ]
}

/// The order of the STARK curve's generator.
pub open spec fn curve_order() -> nat {
    be_nat(curve_order_bytes())
}

/// A field element that can serve as a private key: its multiple of the
/// generator is a point of the curve, not the point at infinity. Below the
/// field prime, the multiples of the curve order are zero and the order itself.
pub open spec fn valid_secret_scalar(k: nat) -> bool {
    k != 0 && k != curve_order()
}

/// The public key of `secret`: the x coordinate of `secret` times the
/// generator of the STARK curve.
pub uninterp spec fn stark_public_key(secret: nat) -> nat;

/// The `(r, s)` pair of the deterministic (RFC 6979) ECDSA signature on the
/// STARK curve of `hash` under `secret`.
pub uninterp spec fn stark_signature(secret: nat, hash: nat) -> (nat, nat);

/// The error of starknet_core::crypto::ecdsa_sign, carried through as it is.
/// Its one variant, `MessageHashOutOfRange`, is visible to proofs.
#[verifier::external_type_specification]
pub struct ExEcdsaSignError(EcdsaSignError);

/// Relies on starknet_crypto::get_public_key, which multiplies the generator
/// by the key and returns the x coordinate of the result (and panics on the
/// point at infinity). Felt::from_bytes_be and Felt::to_bytes_be convert
/// canonical encodings both ways.
#[verifier::external_body]
pub(crate) fn public_key_bytes(secret: &[u8; 32]) -> (r: [u8; 32])
    requires
        be_nat(secret@) < field_prime(),
        valid_secret_scalar(be_nat(secret@)),
    ensures
        be_nat(r@) == stark_public_key(be_nat(secret@)),
        be_nat(r@) < field_prime(),
{
    get_public_key(&Felt::from_bytes_be(secret)).to_bytes_be()
}

/// Relies on starknet_core::crypto::ecdsa_sign: deterministic ECDSA, which
/// fails with `MessageHashOutOfRange` exactly when the hash is not below
/// `2^251`, and otherwise retries its nonce until it returns a signature.
#[verifier::external_body]
pub(crate) fn sign_bytes(secret: &[u8; 32], hash: &[u8; 32]) -> (r: Result<
    ([u8; 32], [u8; 32]),
    EcdsaSignError,
>)
    requires
        be_nat(secret@) < field_prime(),
        valid_secret_scalar(be_nat(secret@)),
        be_nat(hash@) < field_prime(),
    ensures
        r is Err <==> be_nat(hash@) >= message_hash_bound(),
        r matches Err(e) ==> e == EcdsaSignError::MessageHashOutOfRange,
        r matches Ok(sig) ==> (be_nat(sig.0@), be_nat(sig.1@)) == stark_signature(
            be_nat(secret@),
            be_nat(hash@),
        ),
        r matches Ok(sig) ==> be_nat(sig.0@) < field_prime() && be_nat(sig.1@) < field_prime(),
{
    match ecdsa_sign(&Felt::from_bytes_be(secret), &Felt::from_bytes_be(hash)) {
        Ok(sig) => Ok((sig.r.to_bytes_be(), sig.s.to_bytes_be())),
        Err(e) => Err(e),
    }
}

} // verus!
