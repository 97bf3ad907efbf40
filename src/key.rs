use crate::crypto::{
    curve_order_bytes, message_hash_bound, public_key_bytes, sign_bytes, stark_public_key,
    stark_signature, valid_secret_scalar,
};
use crate::field::{compare_be, lemma_be_nat_zeros, FieldElement};
use starknet_core::crypto::EcdsaSignError;
use std::cmp::Ordering;
use vstd::prelude::*;

verus! {

/// Big-endian bytes of the order of the STARK curve's generator.
fn curve_order_array() -> (r: [u8; 32])
    ensures
        r@ == curve_order_bytes(),
{
    let r: [u8; 32] = [
        0x08, 0x00, 0x00, 0x00, 0x00, 0x00, 0x00, 0x10, 0xff, 0xff, 0xff, 0xff, 0xff, 0xff, 0xff,
        0xff, 0xb7, 0x81, 0x12, 0x6d, 0xca, 0xe7, 0xb2, 0x32, 0x1e, 0x66, 0xa2, 0x41, 0xad, 0xc6,
        0x4d, 0x2f,
    ];
    assert(r@ =~= curve_order_bytes());
    r
}

/// Whether `k` can serve as a private key.
pub fn is_valid_secret_scalar(k: &FieldElement) -> (r: bool)
    ensures
        r == valid_secret_scalar(k@),
{
    let bytes = k.to_bytes_be();
    let zero: [u8; 32] = [0u8; 32];
    proof {
        lemma_be_nat_zeros(zero@);
    }
    let order = curve_order_array();
    let is_zero = match compare_be(&bytes, &zero) {
        Ordering::Equal => true,
        _ => false,
    };
    let is_order = match compare_be(&bytes, &order) {
        Ordering::Equal => true,
        _ => false,
    };
    !is_zero && !is_order
}

/// A STARK private key. Its view is its secret scalar, which is never zero
/// nor the curve order.
#[derive(Debug)]
pub struct SigningKey {
    secret_scalar: FieldElement,
}

impl View for SigningKey {
    type V = nat;

    closed spec fn view(&self) -> nat {
        self.secret_scalar@
    }
}

impl SigningKey {
    #[verifier::type_invariant]
    spec fn valid(&self) -> bool {
        valid_secret_scalar(self.secret_scalar@)
    }

    /// The key with secret scalar `secret_scalar`; `None` where no public key
    /// can be derived from it (zero, or the curve order).
    pub fn from_secret_scalar(secret_scalar: FieldElement) -> (r: Option<SigningKey>)
        ensures
            r is Some <==> valid_secret_scalar(secret_scalar@),
            r matches Some(key) ==> key@ == secret_scalar@,
    {
        if is_valid_secret_scalar(&secret_scalar) {
            Some(SigningKey { secret_scalar })
        } else {
            None
        }
    }

    /// The secret scalar of this key.
    pub fn secret_scalar(&self) -> (r: FieldElement)
        ensures
            r@ == self@,
            valid_secret_scalar(r@),
    {
        proof {
            use_type_invariant(self);
        }
        self.secret_scalar
    }

    /// The public key derived from this key.
    pub fn verifying_key(&self) -> (r: VerifyingKey)
        ensures
            r@ == stark_public_key(self@),
    {
        proof {
            use_type_invariant(self);
        }
        let bytes = self.secret_scalar.to_bytes_be();
        let pk = public_key_bytes(&bytes);
        VerifyingKey { scalar: FieldElement::from_canonical_bytes(pk) }
    }

    /// Signs `hash`. Fails exactly when `hash` is not below `2^251`.
    pub fn sign(&self, hash: &FieldElement) -> (r: Result<Signature, EcdsaSignError>)
        ensures
            r is Err <==> hash@ >= message_hash_bound(),
            r matches Err(e) ==> e == EcdsaSignError::MessageHashOutOfRange,
            r matches Ok(sig) ==> sig@ == stark_signature(self@, hash@),
    {
        proof {
            use_type_invariant(self);
        }
        let secret = self.secret_scalar.to_bytes_be();
        let h = hash.to_bytes_be();
        match sign_bytes(&secret, &h) {
            Ok((r, s)) => Ok(
                Signature {
                    r: FieldElement::from_canonical_bytes(r),
                    s: FieldElement::from_canonical_bytes(s),
                },
            ),
            Err(e) => Err(e),
        }
    }
}

impl Clone for SigningKey {
    fn clone(&self) -> (r: SigningKey)
        ensures
            r@ == self@,
    {
        proof {
            use_type_invariant(self);
        }
        SigningKey { secret_scalar: self.secret_scalar }
    }
}

/// A STARK public key. Its view is the number it stands for.
#[derive(Debug, Clone, Copy, PartialEq, Eq)]
pub struct VerifyingKey {
    scalar: FieldElement,
}

impl View for VerifyingKey {
    type V = nat;

    closed spec fn view(&self) -> nat {
        self.scalar@
    }
}

impl VerifyingKey {
    /// The public key that `scalar` stands for.
    pub fn from_scalar(scalar: FieldElement) -> (r: VerifyingKey)
        ensures
            r@ == scalar@,
    {
        VerifyingKey { scalar }
    }

    /// The number that this key stands for.
    pub fn scalar(&self) -> (r: FieldElement)
        ensures
            r@ == self@,
    {
        self.scalar
    }
}

/// An ECDSA signature on the STARK curve. Its view is the pair `(r, s)`.
#[derive(Debug, Clone, Copy, PartialEq, Eq)]
pub struct Signature {
    pub r: FieldElement,
    pub s: FieldElement,
}

impl View for Signature {
    type V = (nat, nat);

    open spec fn view(&self) -> (nat, nat) {
        (self.r@, self.s@)
    }
}

} // verus!
