//! Trusted bindings to the blst pairing library and to the system's
//! cryptographically secure randomness source.
//!
//! Verus believes the contracts in this module without proof. They state only
//! what the blst source and documentation show of the named operations, and
//! every verified contract in this crate rests on them.
//!
//! The fixed domain-separation tag of the scheme is the BLS Domain Separator
//! used in Ethereum 2.0, `BLS_SIG_BLS12381G2_XMD:SHA-256_SSWU_RO_POP_`. The
//! two wrappers that sign and verify are the only call sites that pass it on,
//! so no other code can drift from it.

use vstd::prelude::*;

verus! {

#[verifier::external_type_specification]
#[verifier::external_body]
pub struct ExSecretKey(blst::min_pk::SecretKey);

#[verifier::external_type_specification]
#[verifier::external_body]
pub struct ExPublicKey(blst::min_pk::PublicKey);

#[verifier::external_type_specification]
#[verifier::external_body]
pub struct ExSignature(blst::min_pk::Signature);

/// The scalar a blst secret key holds, as its 32-byte serialization.
pub uninterp spec fn sk_bytes(sk: blst::min_pk::SecretKey) -> Seq<u8>;

/// The curve point a blst public key holds, as its 48-byte compressed
/// serialization.
pub uninterp spec fn pk_bytes(pk: blst::min_pk::PublicKey) -> Seq<u8>;

/// The curve point a blst signature holds, as its 96-byte compressed
/// serialization.
pub uninterp spec fn sig_bytes(sig: blst::min_pk::Signature) -> Seq<u8>;

/// The secret key that key derivation produces from the given input key
/// material and an empty key-info string, as its serialization.
pub uninterp spec fn key_gen_bytes(ikm: Seq<u8>) -> Seq<u8>;

/// The public key derived from a secret key, both as serializations.
pub uninterp spec fn pubkey_of(sk: Seq<u8>) -> Seq<u8>;

/// The BLS signature over a message under the given secret key and the fixed
/// domain-separation tag, with an empty augmentation string, all as
/// serializations.
pub uninterp spec fn signature_of(sk: Seq<u8>, msg: Seq<u8>) -> Seq<u8>;

/// Whether pairing-based verification accepts the signature over the message
/// under the given public key and the fixed domain-separation tag, with an
/// empty augmentation string.
pub uninterp spec fn bls_verify_ok(sig: Seq<u8>, msg: Seq<u8>, pk: Seq<u8>) -> bool;

/// Whether a serialized secret key is a well-formed signing key: a fully
/// reduced, nonzero scalar. Key derivation only ever produces such keys (its
/// rejection-sampling loop retries until the scalar is nonzero); the zero
/// scalar is not one, and signatures made with it do not verify.
pub uninterp spec fn sk_well_formed(sk: Seq<u8>) -> bool;

/// Relies on `blst::min_pk::SecretKey::key_gen`: deterministic key derivation
/// from input key material (called here with an empty key-info string), which
/// fails exactly when fewer than 32 bytes of key material are given. The key
/// it derives is always a well-formed signing key: the derivation loops until
/// the reduced scalar is nonzero.
#[verifier::external_body]
pub(crate) fn bls_key_gen(ikm: &[u8]) -> (r: Option<blst::min_pk::SecretKey>)
    ensures
        r is Some <==> ikm@.len() >= 32,
        r is Some ==> sk_bytes(r.unwrap()) == key_gen_bytes(ikm@),
        r is Some ==> sk_well_formed(sk_bytes(r.unwrap())),
{
    match blst::min_pk::SecretKey::key_gen(ikm, &[]) {
        Ok(k) => Some(k),
        Err(_) => None,
    }
}

/// Relies on `blst::min_pk::SecretKey::sk_to_pk`: deterministic derivation of
/// the public key from the secret key.
#[verifier::external_body]
pub(crate) fn sk_to_pk(key: &blst::min_pk::SecretKey) -> (pk: blst::min_pk::PublicKey)
    ensures
        pk_bytes(pk) == pubkey_of(sk_bytes(*key)),
{
    key.sk_to_pk()
}

/// Relies on `blst::min_pk::SecretKey::sign`: deterministic BLS signing of
/// the message under the fixed domain-separation tag with an empty
/// augmentation string. For a well-formed (nonzero) key the signature it
/// produces verifies, under the same tag, against the public key derived from
/// the signing key — the defining round-trip property of the scheme blst
/// implements. The zero scalar is excepted: it signs to the infinity point
/// and derives the infinity public key, which verification rejects.
#[verifier::external_body]
pub(crate) fn sign_with_prefix(
    key: &blst::min_pk::SecretKey,
    data: &[u8],
) -> (sig: blst::min_pk::Signature)
    ensures
        sig_bytes(sig) == signature_of(sk_bytes(*key), data@),
        sk_well_formed(sk_bytes(*key)) ==> bls_verify_ok(
            sig_bytes(sig),
            data@,
            pubkey_of(sk_bytes(*key)),
        ),
{
    key.sign(data, b"BLS_SIG_BLS12381G2_XMD:SHA-256_SSWU_RO_POP_", &[])
}

/// Relies on `blst::min_pk::Signature::verify`: pairing-based verification of
/// the signature over the message under the fixed domain-separation tag, with
/// an empty augmentation string, validating the public key and skipping the
/// separate signature group check; deterministic in the signature, message
/// and public-key values.
#[verifier::external_body]
pub(crate) fn verify_signature(
    signature: &blst::min_pk::Signature,
    msg: &[u8],
    pubkey: &blst::min_pk::PublicKey,
) -> (r: bool)
    ensures
        r == bls_verify_ok(sig_bytes(*signature), msg@, pk_bytes(*pubkey)),
{
    signature.verify(false, msg, b"BLS_SIG_BLS12381G2_XMD:SHA-256_SSWU_RO_POP_", &[], pubkey, true)
        == blst::BLST_ERROR::BLST_SUCCESS
}

/// Relies on `blst::min_pk::Signature::to_bytes`: the 96-byte compressed
/// serialization of the signature.
#[verifier::external_body]
pub(crate) fn signature_to_bytes(sig: &blst::min_pk::Signature) -> (r: [u8; 96])
    ensures
        r@ == sig_bytes(*sig),
{
    sig.to_bytes()
}

/// Relies on `blst::min_pk::SecretKey::clone`, which copies the held scalar.
#[verifier::external_body]
pub(crate) fn clone_secret_key(key: &blst::min_pk::SecretKey) -> (r: blst::min_pk::SecretKey)
    ensures
        sk_bytes(r) == sk_bytes(*key),
{
    key.clone()
}

/// Relies on `rand::rngs::ThreadRng::fill_bytes`, a cryptographically secure
/// random-number generator: fills the array with fresh randomness. Nothing
/// can be promised of the values that come back.
#[verifier::external_body]
pub(crate) fn random_ikm() -> (r: [u8; 32])
{
    let mut rng = rand::thread_rng();
    let mut ikm = [0u8; 32];
    rand::RngCore::fill_bytes(&mut rng, &mut ikm);
    ikm
}

} // verus!
