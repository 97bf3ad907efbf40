pub mod crypto;
pub mod field;
pub mod key;
pub mod local_wallet;
pub mod signer;

pub use field::FieldElement;
pub use key::{Signature, SigningKey, VerifyingKey};
pub use local_wallet::{LocalWallet, SignError};
pub use signer::{Call, Signer, SignerInteractivityContext};
