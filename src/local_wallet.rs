use crate::crypto::{message_hash_bound, stark_public_key, stark_signature};
use crate::field::FieldElement;
use crate::key::{Signature, SigningKey, VerifyingKey};
use crate::signer::{Signer, SignerInteractivityContext};
use starknet_core::crypto::EcdsaSignError;
use std::convert::Infallible;
use vstd::prelude::*;

verus! {

/// A signer that holds its signing (private) key in memory. Its view is the
/// secret scalar of that key.
#[derive(Debug)]
pub struct LocalWallet {
    private_key: SigningKey,
}

/// Errors of [`LocalWallet`].
#[derive(Debug)]
pub enum SignError {
    /// ECDSA signature error.
    EcdsaSignError(EcdsaSignError),
}

impl View for LocalWallet {
    type V = nat;

    closed spec fn view(&self) -> nat {
        self.private_key@
    }
}

impl LocalWallet {
    /// Constructs a [`LocalWallet`] from a [`SigningKey`].
    pub fn from_signing_key(key: SigningKey) -> (r: LocalWallet)
        ensures
            r@ == key@,
    {
        key.into()
    }
}

impl Signer for LocalWallet {
    type GetPublicKeyError = Infallible;

    type SignError = SignError;

    fn get_public_key(&self) -> (r: Result<VerifyingKey, Infallible>)
        ensures
            r matches Ok(pk) && pk@ == stark_public_key(self@),
    {
        Ok(self.private_key.verifying_key())
    }

    fn sign_hash(&self, hash: &FieldElement) -> (r: Result<Signature, SignError>)
        ensures
            r is Err <==> hash@ >= message_hash_bound(),
            r matches Err(e) ==> e == SignError::EcdsaSignError(
                EcdsaSignError::MessageHashOutOfRange,
            ),
            r matches Ok(sig) ==> sig@ == stark_signature(self@, hash@),
    {
        match self.private_key.sign(hash) {
            Ok(sig) => Ok(sig),
            Err(e) => Err(SignError::from(e)),
        }
    }

    fn is_interactive(&self, context: SignerInteractivityContext<'_>) -> (r: bool)
        ensures
            !r,
    {
        false
    }
}

impl Clone for LocalWallet {
    fn clone(&self) -> (r: LocalWallet)
        ensures
            r@ == self@,
    {
        LocalWallet { private_key: self.private_key.clone() }
    }
}

impl From<SigningKey> for LocalWallet {
    fn from(value: SigningKey) -> (r: LocalWallet)
        ensures
            r@ == value@,
    {
        LocalWallet { private_key: value }
    }
}

impl vstd::std_specs::convert::FromSpecImpl<SigningKey> for LocalWallet {
    open spec fn obeys_from_spec() -> bool {
        true
    }

    closed spec fn from_spec(v: SigningKey) -> LocalWallet {
        LocalWallet { private_key: v }
    }
}

impl From<EcdsaSignError> for SignError {
    fn from(value: EcdsaSignError) -> (r: SignError)
        ensures
            r == SignError::EcdsaSignError(value),
    {
        SignError::EcdsaSignError(value)
    }
}

impl vstd::std_specs::convert::FromSpecImpl<EcdsaSignError> for SignError {
    open spec fn obeys_from_spec() -> bool {
        true
    }

    open spec fn from_spec(v: EcdsaSignError) -> SignError {
        SignError::EcdsaSignError(v)
    }
}

/// Wallets holding the same secret as a signing key have the key's public
/// key: `get_public_key` of a wallet and `verifying_key` of a key both return
/// `stark_public_key` of their secret, and `from_signing_key` and `from` keep
/// the key's secret.
pub proof fn lemma_wallet_public_key_is_key_public_key(key: SigningKey, wallet: LocalWallet)
    requires
        wallet@ == key@,
    ensures
        stark_public_key(wallet@) == stark_public_key(key@),
{
}

/// A wallet holding the same secret as a signing key names the same
/// signature of each hash as the key: `sign_hash` and `sign` both return
/// `stark_signature` of their secret and the hash when they succeed.
pub proof fn lemma_wallet_signs_as_key(key: SigningKey, wallet: LocalWallet, hash: FieldElement)
    requires
        wallet@ == key@,
    ensures
        stark_signature(wallet@, hash@) == stark_signature(key@, hash@),
{
}

/// A wallet and its clone (which `clone` gives the same secret) name the same
/// public key and the same signature of each hash.
pub proof fn lemma_clone_signs_alike(wallet: LocalWallet, copy: LocalWallet, hash: FieldElement)
    requires
        copy@ == wallet@,
    ensures
        stark_public_key(copy@) == stark_public_key(wallet@),
        stark_signature(copy@, hash@) == stark_signature(wallet@, hash@),
{
}

} // verus!
