//! A BLS12-381 signing core for consensus-layer payloads.
//!
//! Any payload that can produce a 32-byte digest of itself can be signed and
//! verified under the Ethereum proof-of-possession domain-separation tag.

mod backend;
mod bls;
mod sig;

pub use bls::RawDigest;
pub use bls::SignableBLS;
pub use bls::Signer;
pub use bls::SignerBLS;
pub use bls::random_bls_secret;
pub use sig::BLSSig;
pub use sig::BlsError;
pub use sig::BlsSignature;
pub use sig::from_bls_signature_to_consensus_signature;
pub use sig::try_from_bls_signature_to_consensus_signature;
