use dpe_crypto::types::{DpeProfile, TciMeasurement, TciNodeData, TCI_SIZE};
use dpe_crypto::{EcdsaAlgorithm, MldsaAlgorithm, SignatureAlgorithm};

#[test]
fn profile_sizes() {
    assert_eq!(DpeProfile::P256Sha256.tci_size(), 32);
    assert_eq!(DpeProfile::P384Sha384.tci_size(), 48);
    assert_eq!(DpeProfile::Mldsa87.tci_size(), 48);
    assert_eq!(DpeProfile::P384Sha384.ecc_int_size(), 48);
    assert_eq!(DpeProfile::P256Sha256.hash_size(), 32);
}

#[test]
fn profile_algorithms() {
    assert_eq!(DpeProfile::P256Sha256.alg(), SignatureAlgorithm::Ecdsa(EcdsaAlgorithm::Bit256));
    assert_eq!(DpeProfile::P384Sha384.alg(), SignatureAlgorithm::Ecdsa(EcdsaAlgorithm::Bit384));
    assert_eq!(DpeProfile::Mldsa87.alg(), SignatureAlgorithm::MlDsa(MldsaAlgorithm::KL87));
}

#[test]
fn profile_key_contexts() {
    assert_eq!(DpeProfile::P256Sha256.key_context(), b"ECC");
    assert_eq!(DpeProfile::P384Sha384.key_context(), b"ECC");
    assert_eq!(DpeProfile::Mldsa87.key_context(), b"MLDSA");
}

#[test]
fn profile_numbers() {
    assert_eq!(u32::from(DpeProfile::P256Sha256), 3);
    assert_eq!(u32::from(DpeProfile::P384Sha384), 4);
    assert_eq!(u32::from(DpeProfile::Mldsa87), 5);
}

#[test]
fn tci_node_data_new_is_zero() {
    let node = TciNodeData::new();
    assert_eq!(node.tci_type, 0);
    assert_eq!(node.tci_cumulative.0, [0u8; TCI_SIZE]);
    assert_eq!(node.tci_current.0, [0u8; TCI_SIZE]);
    assert_eq!(node.locality, 0);
    assert_eq!(node.svn, 0);
    assert!(node == TciNodeData::default());
}

#[test]
fn tci_measurement_default_is_zero() {
    assert_eq!(TciMeasurement::default(), TciMeasurement([0; TCI_SIZE]));
}
