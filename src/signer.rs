use crate::field::FieldElement;
use crate::key::{Signature, VerifyingKey};
use vstd::prelude::*;

verus! {

/// A call to a contract: its address, the selector of the entry point, and
/// the arguments.
#[derive(Debug, Clone)]
pub struct Call {
    pub to: FieldElement,
    pub selector: FieldElement,
    pub calldata: Vec<FieldElement>,
}

/// What a signer is asked to sign for, so that it can decide whether a user
/// must approve.
#[derive(Debug, Clone, Copy)]
pub enum SignerInteractivityContext<'a> {
    /// Signing a transaction that executes `calls`.
    Execution { calls: &'a [Call] },
    /// Signing anything else.
    Other,
}

/// Something that holds a STARK key and signs with it: in memory, on a
/// hardware device, or on a remote service.
pub trait Signer {
    /// The error of `get_public_key`.
    type GetPublicKeyError;

    /// The error of `sign_hash`.
    type SignError;

    /// The public key of this signer.
    fn get_public_key(&self) -> Result<VerifyingKey, Self::GetPublicKeyError>;

    /// Signs `hash` with this signer's key.
    fn sign_hash(&self, hash: &FieldElement) -> Result<Signature, Self::SignError>;

    /// Whether signing in `context` waits for a user's approval.
    fn is_interactive(&self, context: SignerInteractivityContext<'_>) -> bool;
}

} // verus!
