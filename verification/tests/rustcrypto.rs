use dpe_crypto::ecdsa::curve_256::EcdsaPub256;
use dpe_crypto::ecdsa::curve_384::EcdsaPub384;
use dpe_crypto::EcdsaAlgorithm;
use dpe_crypto::{
    CryptoError, Ecdsa256RustCrypto, Ecdsa384RustCrypto, EcdsaPubKey, ExportedPubKey, Hasher,
    RustCryptoHasher,
};

fn hex(text: &str) -> Vec<u8> {
    text.as_bytes().to_vec()
}

#[test]
fn hasher_sha256_of_pieces() {
    let mut hasher = RustCryptoHasher::new(EcdsaAlgorithm::Bit256);
    assert_eq!(hasher.update(b"a"), Ok(()));
    assert_eq!(hasher.update(b""), Ok(()));
    assert_eq!(hasher.update(b"bc"), Ok(()));
    let digest = hasher.finish().unwrap();
    let mut text = [0u8; 64];
    digest.write_hex_str(&mut text).unwrap();
    assert_eq!(
        text.to_vec(),
        hex("BA7816BF8F01CFEA414140DE5DAE2223B00361A396177A9CB410FF61F20015AD")
    );
}

#[test]
fn hash_initialize_starts_empty() {
    let mut crypto = Ecdsa256RustCrypto::new();
    let hasher = crypto.hash_initialize().unwrap();
    let digest = hasher.finish().unwrap();
    let mut text = [0u8; 64];
    digest.write_hex_str(&mut text).unwrap();
    assert_eq!(
        text.to_vec(),
        hex("E3B0C44298FC1C149AFBF4C8996FB92427AE41E4649B934CA495991B7852B855")
    );
}

fn test_key() -> ExportedPubKey {
    ExportedPubKey::Ecdsa(EcdsaPubKey::Ecdsa256(
        EcdsaPub256::from_slice(&[0x22; 32], &[0x33; 32]).unwrap(),
    ))
}

#[test]
fn pubkey_serial_is_hex_of_point_hash() {
    let mut crypto = Ecdsa256RustCrypto::new();
    let mut serial = [0u8; 64];
    assert_eq!(crypto.get_pubkey_serial(&test_key(), &mut serial), Ok(()));
    assert_eq!(
        serial.to_vec(),
        hex("B72FBF8FED93D4E99E81C011A792A140A242F1C432DF98940981C2F432BA95CC")
    );
}

#[test]
fn pubkey_serial_too_short() {
    let mut crypto = Ecdsa256RustCrypto::new();
    let mut serial = [9u8; 31];
    assert_eq!(crypto.get_pubkey_serial(&test_key(), &mut serial), Err(CryptoError::Size));
    assert_eq!(serial, [9u8; 31]);
}

#[test]
fn pubkey_serial_not_hex_length() {
    let mut crypto = Ecdsa256RustCrypto::new();
    let mut serial = [9u8; 40];
    assert_eq!(crypto.get_pubkey_serial(&test_key(), &mut serial), Err(CryptoError::Size));
    assert_eq!(serial, [9u8; 40]);
}

#[test]
fn pubkey_serial_p384_short_buffer() {
    let mut crypto = Ecdsa384RustCrypto::new();
    let mut serial = [0u8; 47];
    assert_eq!(crypto.get_pubkey_serial(&test_key(), &mut serial), Err(CryptoError::Size));
}

#[test]
fn rand_bytes_fill() {
    let mut crypto = Ecdsa256RustCrypto::new();
    let mut a = [0u8; 32];
    let mut b = [0u8; 32];
    assert_eq!(crypto.rand_bytes(&mut a), Ok(()));
    assert_eq!(crypto.rand_bytes(&mut b), Ok(()));
    assert_ne!(a, [0u8; 32]);
    assert_ne!(a, b);
}

#[test]
fn rand_bytes_reproducible_across_back_ends() {
    let mut first = Ecdsa256RustCrypto::new();
    let mut second = Ecdsa384RustCrypto::new();
    let mut a = [0u8; 5];
    let mut b = [0u8; 5];
    assert_eq!(first.rand_bytes(&mut a), Ok(()));
    assert_eq!(second.rand_bytes(&mut b), Ok(()));
    assert_eq!(a, b);
    let mut c = [0u8; 40];
    let mut d = [0u8; 40];
    assert_eq!(first.rand_bytes(&mut c), Ok(()));
    assert_eq!(second.rand_bytes(&mut d), Ok(()));
    assert_eq!(c, d);
}

#[test]
fn exported_handle_is_next_random_bytes() {
    let mut crypto = Ecdsa256RustCrypto::new();
    let mut twin = Ecdsa256RustCrypto::new();
    let handle = crypto.store_exported_cdi(vec![9u8; 4]).unwrap();
    let mut expected = [0u8; 32];
    assert_eq!(twin.rand_bytes(&mut expected), Ok(()));
    assert_eq!(handle, expected);
    assert_ne!(handle, [0u8; 32]);
}

#[test]
fn refused_export_keeps_generator() {
    let mut crypto = Ecdsa256RustCrypto::new();
    let mut twin = Ecdsa256RustCrypto::new();
    crypto.store_exported_cdi(vec![1]).unwrap();
    let mut skipped = [0u8; 32];
    twin.rand_bytes(&mut skipped).unwrap();
    assert_eq!(
        crypto.store_exported_cdi(vec![2]),
        Err(CryptoError::ExportedCdiHandleLimitExceeded)
    );
    let mut a = [0u8; 16];
    let mut b = [0u8; 16];
    crypto.rand_bytes(&mut a).unwrap();
    twin.rand_bytes(&mut b).unwrap();
    assert_eq!(a, b);
}

#[test]
fn hasher_many_chunks_same_as_one() {
    let data: Vec<u8> = (0u8..200).collect();
    let mut whole = RustCryptoHasher::new(EcdsaAlgorithm::Bit384);
    whole.update(&data).unwrap();
    let mut pieces = RustCryptoHasher::new(EcdsaAlgorithm::Bit384);
    for chunk in data.chunks(7) {
        pieces.update(chunk).unwrap();
    }
    assert_eq!(whole.finish().unwrap().bytes(), pieces.finish().unwrap().bytes());
}

#[test]
fn exported_cdi_is_found_by_its_handle() {
    let mut crypto = Ecdsa256RustCrypto::new();
    let cdi = vec![1u8, 2, 3, 4];
    let handle = crypto.store_exported_cdi(cdi.clone()).unwrap();
    assert_eq!(crypto.exported_cdi(&handle), Ok(cdi));
}

#[test]
fn exported_cdi_duplicate_is_refused() {
    let mut crypto = Ecdsa256RustCrypto::new();
    let cdi = vec![5u8; 48];
    let handle = crypto.store_exported_cdi(cdi.clone()).unwrap();
    assert_eq!(
        crypto.store_exported_cdi(cdi.clone()),
        Err(CryptoError::ExportedCdiHandleDuplicateCdi)
    );
    assert_eq!(crypto.exported_cdi(&handle), Ok(cdi));
}

#[test]
fn exported_cdi_limit() {
    let mut crypto = Ecdsa256RustCrypto::default();
    let first = crypto.store_exported_cdi(vec![1]).unwrap();
    assert_eq!(
        crypto.store_exported_cdi(vec![2]),
        Err(CryptoError::ExportedCdiHandleLimitExceeded)
    );
    assert_eq!(crypto.exported_cdi(&first), Ok(vec![1]));
}

#[test]
fn unknown_handle_is_refused() {
    let mut crypto = Ecdsa256RustCrypto::new();
    assert_eq!(crypto.exported_cdi(&[0u8; 32]), Err(CryptoError::InvalidExportedCdiHandle));
    let handle = crypto.store_exported_cdi(vec![7]).unwrap();
    let mut other = handle;
    other[0] ^= 1;
    assert_eq!(crypto.exported_cdi(&other), Err(CryptoError::InvalidExportedCdiHandle));
}

#[test]
fn export_public_key_copies() {
    let crypto = Ecdsa256RustCrypto::new();
    let key = test_key();
    let ExportedPubKey::Ecdsa(exported) = crypto.export_public_key(&key).unwrap();
    assert_eq!(exported.as_slice().unwrap(), (&[0x22u8; 32][..], &[0x33u8; 32][..]));
}

#[test]
fn hasher_sha384_of_pieces() {
    let mut crypto = Ecdsa384RustCrypto::new();
    let mut hasher = crypto.hash_initialize().unwrap();
    hasher.update(b"ab").unwrap();
    hasher.update(b"c").unwrap();
    let digest = hasher.finish().unwrap();
    assert_eq!(digest.len(), 48);
    let mut text = [0u8; 96];
    digest.write_hex_str(&mut text).unwrap();
    assert_eq!(
        text.to_vec(),
        hex("CB00753F45A35E8BB5A03D699AC65007272C32AB0EDED1631A8B605A43FF5BED8086072BA1E7CC2358BAECA134C825A7")
    );
}

#[test]
fn pubkey_serial_p384() {
    let mut crypto = Ecdsa384RustCrypto::new();
    let key = ExportedPubKey::Ecdsa(EcdsaPubKey::Ecdsa384(
        EcdsaPub384::from_slice(&[0x22; 48], &[0x33; 48]).unwrap(),
    ));
    let mut serial = [0u8; 96];
    assert_eq!(crypto.get_pubkey_serial(&key, &mut serial), Ok(()));
    assert_eq!(
        serial.to_vec(),
        hex("4C5D15B98223EE820D65CC929696E6E970103E8DD6E28816372C35F2632EEE41FA44252BD6BF544940800257945C3907")
    );
    let mut wrong = [1u8; 64];
    assert_eq!(crypto.get_pubkey_serial(&key, &mut wrong), Err(CryptoError::Size));
    assert_eq!(wrong, [1u8; 64]);
}
