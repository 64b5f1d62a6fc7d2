use bolt_bls::BlsError;
use bolt_bls::RawDigest;
use bolt_bls::SignableBLS;
use bolt_bls::Signer;
use bolt_bls::SignerBLS;
use bolt_bls::from_bls_signature_to_consensus_signature;
use bolt_bls::random_bls_secret;
use bolt_bls::try_from_bls_signature_to_consensus_signature;

#[test]
fn test_bls_signer() {
    let key = blst::min_pk::SecretKey::key_gen(&[7u8; 32], &[]).unwrap();
    let pubkey = key.sk_to_pk();
    let signer = Signer::new(key);

    // Generate random data for the test
    let mut rng = rand::thread_rng();
    let mut data = [0u8; 32];
    rand::Rng::fill(&mut rng, &mut data[..]);
    let msg = RawDigest { data };

    let signature = SignerBLS::sign(&signer, &msg.digest()).unwrap();
    let sig = blst::min_pk::Signature::from_bytes(&signature.bytes).unwrap();
    assert!(signer.verify(&msg, &sig, &pubkey));
}

#[test]
fn round_trip_with_random_key() {
    let signer = Signer::random();
    let pk = signer.pubkey();
    let msg = RawDigest { data: [0u8; 32] };

    let sig_bytes = signer.sign_digest(&msg.digest());
    let sig = blst::min_pk::Signature::from_bytes(&sig_bytes.bytes).unwrap();
    assert!(msg.verify(&sig, &pk));
    assert!(signer.verify(&msg, &sig, &pk));
}

#[test]
fn tamper_sensitivity() {
    let key = random_bls_secret();
    let pk = key.sk_to_pk();
    let msg = RawDigest { data: [5u8; 32] };
    let sig = msg.sign(&key);
    assert!(msg.verify(&sig, &pk));

    let good = sig.to_bytes();
    for byte_index in [1usize, 47, 95] {
        for bit in 0..8u8 {
            let mut tampered = good;
            tampered[byte_index] ^= 1 << bit;
            match blst::min_pk::Signature::from_bytes(&tampered) {
                // a tampered encoding that still decodes must fail to verify
                Ok(bad) => assert!(!msg.verify(&bad, &pk)),
                // an encoding that no longer decodes cannot verify either
                Err(_) => {}
            }
        }
    }
}

#[test]
fn key_mismatch_fails() {
    let key1 = random_bls_secret();
    let key2 = random_bls_secret();
    assert_ne!(key1.to_bytes(), key2.to_bytes());

    let pk2 = key2.sk_to_pk();
    let msg = RawDigest { data: [9u8; 32] };
    let sig = msg.sign(&key1);
    assert!(!msg.verify(&sig, &pk2));
}

#[test]
fn digest_mismatch_fails() {
    let key = random_bls_secret();
    let pk = key.sk_to_pk();
    let msg1 = RawDigest { data: [1u8; 32] };
    let mut other = [1u8; 32];
    other[31] = 2;
    let msg2 = RawDigest { data: other };

    let sig = msg1.sign(&key);
    assert!(msg1.verify(&sig, &pk));
    assert!(!msg2.verify(&sig, &pk));
}

#[test]
fn random_signers_differ_and_both_verify() {
    let signer1 = Signer::random();
    let signer2 = Signer::random();
    let digest = [3u8; 32];

    let sig1 = signer1.sign_digest(&digest);
    let sig2 = signer2.sign_digest(&digest);
    // distinct random keys give distinct signatures over the same digest
    assert_ne!(sig1.bytes, sig2.bytes);

    let msg = RawDigest { data: digest };
    let s1 = blst::min_pk::Signature::from_bytes(&sig1.bytes).unwrap();
    let s2 = blst::min_pk::Signature::from_bytes(&sig2.bytes).unwrap();
    assert!(msg.verify(&s1, &signer1.pubkey()));
    assert!(msg.verify(&s2, &signer2.pubkey()));
    // and neither verifies under the other's key
    assert!(!msg.verify(&s1, &signer2.pubkey()));
    assert!(!msg.verify(&s2, &signer1.pubkey()));
}

#[test]
fn signer_clone_signs_identically() {
    let signer = Signer::random();
    let copy = signer.clone();
    let digest = [11u8; 32];
    assert_eq!(signer.sign_digest(&digest).bytes, copy.sign_digest(&digest).bytes);
}

#[test]
fn backend_matches_trait_signing() {
    let key = blst::min_pk::SecretKey::key_gen(&[42u8; 32], &[]).unwrap();
    let msg = RawDigest { data: [8u8; 32] };
    let sig = msg.sign(&key);

    let signer = Signer::new(key);
    let backend_sig = SignerBLS::sign(&signer, &msg.digest()).unwrap();
    // the backend returns exactly the compressed bytes of the raw signature
    assert_eq!(backend_sig.bytes, sig.to_bytes());
    assert_eq!(signer.sign_digest(&msg.digest()).bytes, sig.to_bytes());
}

#[test]
fn mismatched_dst_fails() {
    let key = random_bls_secret();
    let pk = key.sk_to_pk();
    let msg = RawDigest { data: [6u8; 32] };

    // a signature over the same digest under a different domain-separation
    // tag must fail verification, without any error being raised
    let foreign = key.sign(&msg.digest(), b"BLS_SIG_BLS12381G2_XMD:SHA-256_SSWU_RO_NUL_", &[]);
    assert!(!msg.verify(&foreign, &pk));

    // while the library's own signature over that digest verifies
    let own = msg.sign(&key);
    assert!(msg.verify(&own, &pk));
}

#[test]
fn conversion_round_trip() {
    let key = random_bls_secret();
    let msg = RawDigest { data: [0u8; 32] };
    let raw = msg.sign(&key).to_bytes();

    let consensus = from_bls_signature_to_consensus_signature(&raw);
    assert_eq!(consensus.bytes, raw);

    let converted = try_from_bls_signature_to_consensus_signature(&raw).unwrap();
    assert_eq!(converted.bytes, raw);
}

#[test]
fn conversion_rejects_wrong_length() {
    assert_eq!(
        try_from_bls_signature_to_consensus_signature(&[0u8; 95]),
        Err(BlsError::MalformedInput)
    );
    assert_eq!(
        try_from_bls_signature_to_consensus_signature(&[0u8; 97]),
        Err(BlsError::MalformedInput)
    );
    assert_eq!(
        try_from_bls_signature_to_consensus_signature(&[]),
        Err(BlsError::MalformedInput)
    );
}
