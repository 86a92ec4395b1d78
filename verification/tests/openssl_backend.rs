use openssl::bn::{BigNum, BigNumContext};
use openssl::ec::{EcGroup, EcKey, EcPoint};
use openssl::nid::Nid;
use dpe_crypto::ecdsa::curve_256::EcdsaPub256;
use dpe_crypto::{
    CryptoBuf, CryptoError, EcdsaAlgorithm, EcdsaPubKey, ExportedPubKey, Hasher, OpensslCrypto,
    Signature, SignatureAlgorithm,
};

fn hex_of(buf: &CryptoBuf) -> String {
    let mut text = vec![0u8; 2 * buf.len()];
    buf.write_hex_str(&mut text).unwrap();
    String::from_utf8(text).unwrap()
}

fn test_key() -> ExportedPubKey {
    ExportedPubKey::Ecdsa(EcdsaPubKey::Ecdsa256(
        EcdsaPub256::from_slice(&[0x22; 32], &[0x33; 32]).unwrap(),
    ))
}

#[test]
fn openssl_sha256_hash() {
    let mut crypto = OpensslCrypto::new();
    let mut hasher = crypto
        .hash_initialize(SignatureAlgorithm::Ecdsa(EcdsaAlgorithm::Bit256))
        .unwrap();
    hasher.update(b"ab").unwrap();
    hasher.update(b"c").unwrap();
    let digest = hasher.finish().unwrap();
    assert_eq!(
        hex_of(&digest),
        "BA7816BF8F01CFEA414140DE5DAE2223B00361A396177A9CB410FF61F20015AD"
    );
}

#[test]
fn openssl_sha384_hash_length() {
    let mut crypto = OpensslCrypto::default();
    let hasher = crypto
        .hash_initialize(SignatureAlgorithm::Ecdsa(EcdsaAlgorithm::Bit384))
        .unwrap();
    let digest = hasher.finish().unwrap();
    assert_eq!(digest.len(), 48);
    assert_eq!(
        hex_of(&digest),
        "38B060A751AC96384CD9327EB1B1E36A21FDB71114BE07434C0CC7BF63F6E1DA274EDEBFE76F65FBD51AD2F14898B95B"
    );
}

#[test]
fn openssl_rand_bytes_fill() {
    let mut crypto = OpensslCrypto::new();
    let mut a = [0u8; 32];
    let mut b = [0u8; 32];
    assert_eq!(crypto.rand_bytes(&mut a), Ok(()));
    assert_eq!(crypto.rand_bytes(&mut b), Ok(()));
    assert_ne!(a, b);
}

#[test]
fn openssl_exported_cdi_round_trip() {
    let mut crypto = OpensslCrypto::new();
    let handle = crypto.store_exported_cdi(vec![9, 8, 7]).unwrap();
    assert_eq!(crypto.exported_cdi(&handle), Ok(vec![9, 8, 7]));
    assert_eq!(
        crypto.store_exported_cdi(vec![9, 8, 7]),
        Err(CryptoError::ExportedCdiHandleDuplicateCdi)
    );
    assert_eq!(
        crypto.store_exported_cdi(vec![1]),
        Err(CryptoError::ExportedCdiHandleLimitExceeded)
    );
    let mut other = handle;
    other[31] ^= 0xff;
    assert_eq!(crypto.exported_cdi(&other), Err(CryptoError::InvalidExportedCdiHandle));
}

#[test]
fn openssl_sign_with_derived_p256() {
    let mut crypto = OpensslCrypto::new();
    let priv_key = CryptoBuf::new(&[0x11u8; 32]).unwrap();
    let digest = CryptoBuf::new(&[0x5au8; 32]).unwrap();
    let alg = SignatureAlgorithm::Ecdsa(EcdsaAlgorithm::Bit256);
    let Signature::Ecdsa(sig) = crypto
        .sign_with_derived(alg, &digest, &priv_key, &test_key())
        .unwrap();
    assert_eq!(sig.r.len(), 32);
    assert_eq!(sig.s.len(), 32);

    // The signature checks out against the public point of the private key.
    let group = EcGroup::from_curve_name(Nid::X9_62_PRIME256V1).unwrap();
    let mut ctx = BigNumContext::new().unwrap();
    let d = BigNum::from_slice(&[0x11u8; 32]).unwrap();
    let mut point = EcPoint::new(&group).unwrap();
    point.mul_generator2(&group, &d, &mut ctx).unwrap();
    let public = EcKey::from_public_key(&group, &point).unwrap();
    let checked = openssl::ecdsa::EcdsaSig::from_private_components(
        BigNum::from_slice(sig.r.bytes()).unwrap(),
        BigNum::from_slice(sig.s.bytes()).unwrap(),
    )
    .unwrap();
    assert!(checked.verify(digest.bytes(), &public).unwrap());
}

#[test]
fn openssl_sign_with_derived_p384() {
    let mut crypto = OpensslCrypto::new();
    let priv_key = CryptoBuf::new(&[0x22u8; 48]).unwrap();
    let digest = CryptoBuf::new(&[0x5au8; 48]).unwrap();
    let alg = SignatureAlgorithm::Ecdsa(EcdsaAlgorithm::Bit384);
    let Signature::Ecdsa(sig) = crypto
        .sign_with_derived(alg, &digest, &priv_key, &test_key())
        .unwrap();
    assert_eq!(sig.r.len(), 48);
    assert_eq!(sig.s.len(), 48);
}

#[test]
fn openssl_export_public_key_copies() {
    let crypto = OpensslCrypto::new();
    let ExportedPubKey::Ecdsa(key) = crypto.export_public_key(&test_key()).unwrap();
    assert_eq!(key.as_slice().unwrap(), (&[0x22u8; 32][..], &[0x33u8; 32][..]));
}

#[test]
fn openssl_empty_error_stack_is_code_zero() {
    let empty = openssl::error::ErrorStack::get();
    assert_eq!(CryptoError::from(empty), CryptoError::CryptoLibError(0));
}

fn p256_pub_from_priv(d: &[u8]) -> (Vec<u8>, Vec<u8>) {
    let group = EcGroup::from_curve_name(Nid::X9_62_PRIME256V1).unwrap();
    let mut ctx = BigNumContext::new().unwrap();
    let n = BigNum::from_slice(d).unwrap();
    let mut point = EcPoint::new(&group).unwrap();
    point.mul_generator2(&group, &n, &mut ctx).unwrap();
    let mut x = BigNum::new().unwrap();
    let mut y = BigNum::new().unwrap();
    point.affine_coordinates(&group, &mut x, &mut y, &mut ctx).unwrap();
    (x.to_vec_padded(32).unwrap(), y.to_vec_padded(32).unwrap())
}

#[test]
fn openssl_derive_pub_key_p256() {
    let priv_key = CryptoBuf::new(&[0x11u8; 32]).unwrap();
    let alg = SignatureAlgorithm::Ecdsa(EcdsaAlgorithm::Bit256);
    let ExportedPubKey::Ecdsa(key) = OpensslCrypto::derive_pub_key(alg, &priv_key).unwrap();
    assert_eq!(key.curve_size(), 32);
    let (x, y) = key.as_slice().unwrap();
    let (ex, ey) = p256_pub_from_priv(&[0x11u8; 32]);
    assert_eq!(x, &ex[..]);
    assert_eq!(y, &ey[..]);
}

#[test]
fn openssl_derive_pub_key_p384() {
    let priv_key = CryptoBuf::new(&[0x22u8; 48]).unwrap();
    let alg = SignatureAlgorithm::Ecdsa(EcdsaAlgorithm::Bit384);
    let ExportedPubKey::Ecdsa(key) = OpensslCrypto::derive_pub_key(alg, &priv_key).unwrap();
    assert_eq!(key.curve_size(), 48);
    let (x, y) = key.as_slice().unwrap();
    assert_eq!(x.len(), 48);
    assert_eq!(y.len(), 48);
}

fn verifies(group_nid: Nid, x: &[u8], y: &[u8], digest: &[u8], r: &[u8], s: &[u8]) -> bool {
    let group = EcGroup::from_curve_name(group_nid).unwrap();
    let public = EcKey::from_public_key_affine_coordinates(
        &group,
        &BigNum::from_slice(x).unwrap(),
        &BigNum::from_slice(y).unwrap(),
    )
    .unwrap();
    let sig = openssl::ecdsa::EcdsaSig::from_private_components(
        BigNum::from_slice(r).unwrap(),
        BigNum::from_slice(s).unwrap(),
    )
    .unwrap();
    sig.verify(digest, &public).unwrap()
}

#[test]
fn openssl_signature_verifies_under_derived_key() {
    let mut crypto = OpensslCrypto::new();
    let alg = SignatureAlgorithm::Ecdsa(EcdsaAlgorithm::Bit384);
    let priv_key = CryptoBuf::new(&[0x33u8; 48]).unwrap();
    let pub_key = OpensslCrypto::derive_pub_key(alg, &priv_key).unwrap();
    let digest = CryptoBuf::new(&[0x77u8; 48]).unwrap();
    let Signature::Ecdsa(sig) = crypto.sign_with_derived(alg, &digest, &priv_key, &pub_key).unwrap();
    let ExportedPubKey::Ecdsa(key) = pub_key;
    let (x, y) = key.as_slice().unwrap();
    assert!(verifies(Nid::SECP384R1, x, y, digest.bytes(), sig.r.bytes(), sig.s.bytes()));
}

#[test]
fn openssl_sign_with_alias_pem() {
    let group = EcGroup::from_curve_name(Nid::X9_62_PRIME256V1).unwrap();
    let alias = EcKey::generate(&group).unwrap();
    let pem = alias.private_key_to_pem().unwrap();
    let mut crypto = OpensslCrypto::new();
    let alg = SignatureAlgorithm::Ecdsa(EcdsaAlgorithm::Bit256);
    let digest = CryptoBuf::new(&[0x42u8; 32]).unwrap();
    let Signature::Ecdsa(sig) = crypto.sign_with_alias(alg, &pem, &digest).unwrap();
    assert_eq!(sig.r.len(), 32);
    assert_eq!(sig.s.len(), 32);
    let mut ctx = BigNumContext::new().unwrap();
    let mut x = BigNum::new().unwrap();
    let mut y = BigNum::new().unwrap();
    alias.public_key().affine_coordinates(&group, &mut x, &mut y, &mut ctx).unwrap();
    assert!(verifies(
        Nid::X9_62_PRIME256V1,
        &x.to_vec(),
        &y.to_vec(),
        digest.bytes(),
        sig.r.bytes(),
        sig.s.bytes()
    ));
}

#[test]
fn openssl_sign_with_alias_bad_pem() {
    let mut crypto = OpensslCrypto::new();
    let alg = SignatureAlgorithm::Ecdsa(EcdsaAlgorithm::Bit256);
    let digest = CryptoBuf::new(&[0x42u8; 32]).unwrap();
    assert!(matches!(
        crypto.sign_with_alias(alg, b"not a key", &digest),
        Err(CryptoError::CryptoLibError(_))
    ));
}
