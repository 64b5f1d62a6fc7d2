//! Plain-value representations of BLS signatures and the errors of the core.

use vstd::prelude::*;

verus! {

/// The errors this core can surface.
///
/// A signature that merely fails to verify is reported as a boolean `false`
/// by the verification operations, never as one of these errors.
#[derive(Clone, Copy, Debug, PartialEq, Eq)]
pub enum BlsError {
    /// A byte string does not have the fixed size the scheme demands.
    MalformedInput,
    /// A signing backend could not produce a signature.
    BackendUnavailable,
}

/// A fixed-size (96-byte) compressed BLS signature.
#[derive(Clone, Copy, Debug, PartialEq, Eq)]
pub struct BLSSig {
    /// The 96 compressed signature bytes.
    pub bytes: [u8; 96],
}

impl View for BLSSig {
    type V = Seq<u8>;

    open spec fn view(&self) -> Seq<u8> {
        self.bytes@
    }
}

/// The canonical consensus-layer signature representation: the same 96
/// signature bytes, as they are carried inside consensus data structures.
#[derive(Clone, Copy, Debug, PartialEq, Eq)]
pub struct BlsSignature {
    /// The 96 compressed signature bytes.
    pub bytes: [u8; 96],
}

impl View for BlsSignature {
    type V = Seq<u8>;

    open spec fn view(&self) -> Seq<u8> {
        self.bytes@
    }
}

/// Convert a raw signature byte string into the canonical consensus-layer
/// representation, rejecting any byte string whose length is not exactly 96.
///
/// The conversion is exact in both directions: on success the canonical
/// value holds precisely the input bytes, so reading them back reproduces
/// the original byte string.
pub fn try_from_bls_signature_to_consensus_signature(
    sig_bytes: &[u8],
) -> (r: Result<BlsSignature, BlsError>)
    ensures
        sig_bytes@.len() == 96 ==> r is Ok && r.unwrap()@ == sig_bytes@,
        sig_bytes@.len() != 96 ==> r == Err::<BlsSignature, BlsError>(BlsError::MalformedInput),
{
    if sig_bytes.len() == 96 {
        let mut out: [u8; 96] = [0u8; 96];
        let mut i: usize = 0;
        while i < 96
            invariant
                i <= 96,
                sig_bytes@.len() == 96,
                forall|j: int| 0 <= j < i ==> out@[j] == sig_bytes@[j],
            decreases 96 - i,
        {
            out[i] = sig_bytes[i];
            i = i + 1;
        }
        proof {
            assert(out@ =~= sig_bytes@);
        }
        Ok(BlsSignature { bytes: out })
    } else {
        Err(BlsError::MalformedInput)
    }
}

/// Convert a raw signature byte string, known to be exactly 96 bytes long,
/// into the canonical consensus-layer representation.
///
/// A wrong-length byte string is never silently truncated or padded: this
/// form excludes it by precondition (an unverified caller that passes one
/// fails instead of getting a signature), and
/// [`try_from_bls_signature_to_consensus_signature`] is the form whose
/// contract reports the rejection of every such input as a distinct
/// malformed-input error.
pub fn from_bls_signature_to_consensus_signature(sig_bytes: &[u8]) -> (r: BlsSignature)
    requires
        sig_bytes@.len() == 96,
    ensures
        r@ == sig_bytes@,
{
    match try_from_bls_signature_to_consensus_signature(sig_bytes) {
        Ok(s) => s,
        Err(_) => vstd::pervasive::unreached(),
    }
}

} // verus!
