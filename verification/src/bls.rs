//! Signing and verification of arbitrary signable payloads with BLS12-381.

use vstd::prelude::*;

use crate::backend::bls_key_gen;
use crate::backend::bls_verify_ok;
use crate::backend::clone_secret_key;
use crate::backend::pk_bytes;
use crate::backend::pubkey_of;
use crate::backend::random_ikm;
use crate::backend::sig_bytes;
use crate::backend::sign_with_prefix;
use crate::backend::signature_of;
use crate::backend::signature_to_bytes;
use crate::backend::key_gen_bytes;
use crate::backend::sk_bytes;
use crate::backend::sk_to_pk;
use crate::backend::sk_well_formed;
use crate::backend::verify_signature;
use crate::sig::BLSSig;
use crate::sig::BlsError;

verus! {

/// Trait for any types that can be signed and verified with BLS.
/// This trait is used to abstract over the signing and verification of
/// different types: a payload only supplies its digest, and the provided
/// operations handle the domain-separation tag and the curve in one place.
pub trait SignableBLS {
    /// The digest of the object, as specification-level bytes.
    spec fn digest_spec(&self) -> Seq<u8>;

    /// Create a digest of the object that can be signed.
    /// This API doesn't enforce a specific hash or encoding method, but it
    /// must be a pure function of the object's content.
    fn digest(&self) -> (r: [u8; 32])
        ensures
            r@ == self.digest_spec(),
    ;

    /// Sign the object with the given key. Returns the BLS signature over the
    /// object's digest under the fixed domain-separation tag; for a
    /// well-formed key, that signature verifies against the public key
    /// derived from the signing key.
    fn sign(&self, key: &blst::min_pk::SecretKey) -> (sig: blst::min_pk::Signature)
        ensures
            sig_bytes(sig) == signature_of(sk_bytes(*key), self.digest_spec()),
            sk_well_formed(sk_bytes(*key)) ==> bls_verify_ok(
                sig_bytes(sig),
                self.digest_spec(),
                pubkey_of(sk_bytes(*key)),
            ),
    {
        let d = self.digest();
        sign_with_prefix(key, d.as_slice())
    }

    /// Verify the signature of the object with the given public key.
    /// Returns exactly whether pairing-based verification accepts the
    /// signature over this object's digest under the fixed tag: a mismatch is
    /// reported as `false`, never as an error.
    fn verify(
        &self,
        signature: &blst::min_pk::Signature,
        pubkey: &blst::min_pk::PublicKey,
    ) -> (r: bool)
        ensures
            r == bls_verify_ok(sig_bytes(*signature), self.digest_spec(), pk_bytes(*pubkey)),
    {
        let d = self.digest();
        verify_signature(signature, d.as_slice(), pubkey)
    }
}

/// A payload that already is a 32-byte digest: signing it signs exactly
/// these bytes.
#[derive(Clone, Copy, Debug, PartialEq, Eq)]
pub struct RawDigest {
    /// The digest bytes themselves.
    pub data: [u8; 32],
}

impl SignableBLS for RawDigest {
    open spec fn digest_spec(&self) -> Seq<u8> {
        self.data@
    }

    fn digest(&self) -> (r: [u8; 32]) {
        self.data
    }
}

/// A generic signing trait to generate BLS signatures over a 32-byte digest.
/// A backend holds no caller-visible mutable state, so one may be shared
/// across concurrent signing requests.
pub trait SignerBLS: Send + core::fmt::Debug {
    /// The serialized secret key this backend signs with.
    spec fn sk(&self) -> Seq<u8>;

    /// Sign the given digest and return the signature bytes.
    ///
    /// A backend whose signing resource is unavailable reports
    /// `BlsError::BackendUnavailable`; when it succeeds, the result is the
    /// BLS signature over the digest under the backend's key and the fixed
    /// domain-separation tag, and it verifies against the corresponding
    /// public key.
    fn sign(&self, data: &[u8; 32]) -> (r: Result<BLSSig, BlsError>)
        ensures
            r is Ok ==> r.unwrap()@ == signature_of(self.sk(), data@),
            r is Ok ==> bls_verify_ok(r.unwrap()@, data@, pubkey_of(self.sk())),
            r is Err ==> r == Err::<BLSSig, BlsError>(BlsError::BackendUnavailable),
    ;
}

/// A BLS signer that can sign any type that implements the [`SignableBLS`]
/// trait. It holds one secret key, set at construction and immutable
/// thereafter, and never exposes it.
#[derive(Debug)]
pub struct Signer {
    key: blst::min_pk::SecretKey,
}

impl Signer {
    /// Every signer holds a well-formed signing key: key derivation only
    /// produces such keys, and construction from a caller-supplied key asks
    /// the same of the caller.
    #[verifier::type_invariant]
    closed spec fn wf(self) -> bool {
        sk_well_formed(sk_bytes(self.key))
    }

    /// Create a new signer with the given BLS secret key. The key must be a
    /// well-formed signing key — one that key derivation produced — which is
    /// all the key type guarantees anyway; no further validation happens
    /// here.
    pub fn new(key: blst::min_pk::SecretKey) -> (r: Self)
        requires
            sk_well_formed(sk_bytes(key)),
        ensures
            r.sk() == sk_bytes(key),
    {
        Signer { key }
    }

    /// Create a signer with a random BLS key: the key derived from a fresh
    /// 32-byte draw of the randomness source. Which draw it was cannot be
    /// promised; two signers made this way hold distinct keys except with
    /// negligible probability.
    pub fn random() -> (r: Self)
        ensures
            exists|ikm: Seq<u8>| ikm.len() == 32 && r.sk() == key_gen_bytes(ikm),
    {
        let key = random_bls_secret();
        let ghost key_view = sk_bytes(key);
        let signer = Signer::new(key);
        proof {
            let w = choose|i: Seq<u8>| i.len() == 32 && key_view == key_gen_bytes(i);
            assert(w.len() == 32 && signer.sk() == key_gen_bytes(w));
        }
        signer
    }

    /// The public key derived from this signer's secret key. It is the key
    /// under which this signer's signatures verify.
    pub fn pubkey(&self) -> (pk: blst::min_pk::PublicKey)
        ensures
            pk_bytes(pk) == pubkey_of(self.sk()),
    {
        sk_to_pk(&self.key)
    }

    /// Verify the signature of the object with the given public key: a
    /// convenience delegation to [`SignableBLS::verify`].
    pub fn verify<T: SignableBLS>(
        &self,
        obj: &T,
        signature: &blst::min_pk::Signature,
        pubkey: &blst::min_pk::PublicKey,
    ) -> (r: bool)
        ensures
            r == bls_verify_ok(sig_bytes(*signature), obj.digest_spec(), pk_bytes(*pubkey)),
    {
        obj.verify(signature, pubkey)
    }

    /// Sign the given digest with the held key. This in-process signer never
    /// fails: the result is the BLS signature over the digest under the fixed
    /// domain-separation tag, and it verifies against this signer's public
    /// key.
    pub fn sign_digest(&self, data: &[u8; 32]) -> (r: BLSSig)
        ensures
            r@ == signature_of(self.sk(), data@),
            bls_verify_ok(r@, data@, pubkey_of(self.sk())),
    {
        proof {
            use_type_invariant(&*self);
        }
        let sig = sign_with_prefix(&self.key, data.as_slice());
        BLSSig { bytes: signature_to_bytes(&sig) }
    }
}

impl Clone for Signer {
    /// The clone holds, and signs with, the same key as the original.
    fn clone(&self) -> (r: Self)
        ensures
            r.sk() == self.sk(),
    {
        proof {
            use_type_invariant(&*self);
        }
        Signer { key: clone_secret_key(&self.key) }
    }
}

impl SignerBLS for Signer {
    closed spec fn sk(&self) -> Seq<u8> {
        sk_bytes(self.key)
    }

    /// The in-process backend: signs with the held key and always succeeds.
    fn sign(&self, data: &[u8; 32]) -> (r: Result<BLSSig, BlsError>)
        ensures
            r is Ok,
    {
        Ok(self.sign_digest(data))
    }
}

/// Generate a random BLS secret key: 32 bytes of cryptographically secure
/// randomness run through the scheme's key derivation. The result is a
/// well-formed signing key, the key-derivation image of the drawn key
/// material; which 32 bytes were drawn cannot be promised.
pub fn random_bls_secret() -> (r: blst::min_pk::SecretKey)
    ensures
        sk_well_formed(sk_bytes(r)),
        exists|ikm: Seq<u8>| ikm.len() == 32 && sk_bytes(r) == key_gen_bytes(ikm),
{
    let ikm = random_ikm();
    match bls_key_gen(ikm.as_slice()) {
        Some(k) => {
            proof {
                assert(ikm@.len() == 32 && sk_bytes(k) == key_gen_bytes(ikm@));
            }
            k
        },
        None => vstd::pervasive::unreached(),
    }
}

} // verus!
