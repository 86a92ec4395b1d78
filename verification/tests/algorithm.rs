use dpe_crypto::{EcdsaAlgorithm, MldsaAlgorithm, SignatureAlgorithm};

fn all_algorithms() -> Vec<SignatureAlgorithm> {
    vec![
        SignatureAlgorithm::Ecdsa(EcdsaAlgorithm::Bit256),
        SignatureAlgorithm::Ecdsa(EcdsaAlgorithm::Bit384),
        SignatureAlgorithm::MlDsa(MldsaAlgorithm::KL87),
    ]
}

#[test]
fn test_max_alg_len_size() {
    let max_len = all_algorithms()
        .into_iter()
        .map(|x| {
            [
                x.private_key_size(),
                x.public_key_size(),
                x.signature_size(),
            ]
            .into_iter()
            .max()
            .unwrap()
        })
        .max()
        .unwrap();
    assert_eq!(SignatureAlgorithm::MAX_ALG_LEN_BYTES, max_len);
}

#[test]
fn ecdsa_curve_sizes() {
    assert_eq!(EcdsaAlgorithm::Bit256.curve_size(), 32);
    assert_eq!(EcdsaAlgorithm::Bit384.curve_size(), 48);
}

#[test]
fn ecdsa_p256_sizes() {
    let alg = SignatureAlgorithm::Ecdsa(EcdsaAlgorithm::Bit256);
    assert_eq!(alg.digest_size(), 32);
    assert_eq!(alg.signature_size(), 64);
    assert_eq!(alg.public_key_size(), 32);
    assert_eq!(alg.private_key_size(), 32);
}

#[test]
fn ecdsa_p384_sizes() {
    let alg = SignatureAlgorithm::Ecdsa(EcdsaAlgorithm::Bit384);
    assert_eq!(alg.digest_size(), 48);
    assert_eq!(alg.signature_size(), 96);
    assert_eq!(alg.public_key_size(), 48);
    assert_eq!(alg.private_key_size(), 48);
}

#[test]
fn mldsa_sizes() {
    let alg = SignatureAlgorithm::MlDsa(MldsaAlgorithm::KL87);
    assert_eq!(alg.digest_size(), 32);
    assert_eq!(alg.signature_size(), 4627);
    assert_eq!(alg.public_key_size(), 2592);
    assert_eq!(alg.private_key_size(), 4896);
    assert_eq!(MldsaAlgorithm::KL87.seed_size(), 32);
    assert_eq!(MldsaAlgorithm::KL87.signature_size(), 4627);
    assert_eq!(MldsaAlgorithm::KL87.public_key_size(), 2592);
    assert_eq!(MldsaAlgorithm::KL87.private_key_size(), 4896);
}

#[test]
fn max_alg_len_is_mldsa_private_key() {
    assert_eq!(
        SignatureAlgorithm::MAX_ALG_LEN_BYTES,
        SignatureAlgorithm::MlDsa(MldsaAlgorithm::KL87).private_key_size()
    );
    for alg in all_algorithms() {
        assert!(alg.private_key_size() <= SignatureAlgorithm::MAX_ALG_LEN_BYTES);
        assert!(alg.public_key_size() <= SignatureAlgorithm::MAX_ALG_LEN_BYTES);
        assert!(alg.signature_size() <= SignatureAlgorithm::MAX_ALG_LEN_BYTES);
    }
}
