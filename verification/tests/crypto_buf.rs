use dpe_crypto::signer::EcdsaSig;
use dpe_crypto::{CryptoBuf, CryptoError, EcdsaAlgorithm, SignatureAlgorithm};

#[test]
fn test_crypto_buf_init() {
    let arr = &[1u8; CryptoBuf::MAX_SIZE + 1];

    // array length must not exceed MAX_SIZE
    assert_eq!(CryptoBuf::new(arr), Err(CryptoError::Size));

    let arr = &vec![1u8; SignatureAlgorithm::Ecdsa(EcdsaAlgorithm::Bit256).signature_size()][..];
    // test new
    match CryptoBuf::new(arr) {
        Ok(buf) => {
            assert_eq!(arr, buf.bytes());
            assert_eq!(
                buf.len(),
                SignatureAlgorithm::Ecdsa(EcdsaAlgorithm::Bit256).signature_size()
            );
        }
        Err(_) => panic!("CryptoBuf::new failed"),
    };

    // test default
    let default_buf = CryptoBuf::default();
    assert_eq!(default_buf.bytes(), [0; CryptoBuf::MAX_SIZE]);
}

#[test]
fn crypto_buf_max_size_fits() {
    let arr = [7u8; CryptoBuf::MAX_SIZE];
    let buf = CryptoBuf::new(&arr).unwrap();
    assert_eq!(buf.len(), CryptoBuf::MAX_SIZE);
    assert_eq!(buf.bytes(), &arr[..]);
    assert!(!buf.is_empty());
}

#[test]
fn crypto_buf_empty() {
    let buf = CryptoBuf::new(&[]).unwrap();
    assert_eq!(buf.len(), 0);
    assert!(buf.is_empty());
    assert_eq!(buf.bytes(), &[] as &[u8]);
}

#[test]
fn write_hex_str_upper_case() {
    let buf = CryptoBuf::new(&[0xde, 0xad, 0x01, 0xbe, 0xef, 0x9a]).unwrap();
    let mut dest = [0u8; 12];
    assert_eq!(buf.write_hex_str(&mut dest), Ok(()));
    assert_eq!(&dest, b"DEAD01BEEF9A");
}

#[test]
fn write_hex_str_wrong_size_leaves_dest() {
    let buf = CryptoBuf::new(&[0x12, 0x34]).unwrap();
    let mut short = [0x55u8; 3];
    assert_eq!(buf.write_hex_str(&mut short), Err(CryptoError::Size));
    assert_eq!(short, [0x55u8; 3]);
    let mut long = [0x55u8; 5];
    assert_eq!(buf.write_hex_str(&mut long), Err(CryptoError::Size));
    assert_eq!(long, [0x55u8; 5]);
}

#[test]
fn write_hex_str_empty() {
    let buf = CryptoBuf::new(&[]).unwrap();
    let mut dest: [u8; 0] = [];
    assert_eq!(buf.write_hex_str(&mut dest), Ok(()));
}

fn hex_value(c: u8) -> u8 {
    if c <= b'9' {
        c - b'0'
    } else {
        c - b'A' + 10
    }
}

#[test]
fn hex_text_reads_back() {
    let bytes: Vec<u8> = (0..=255u8).collect();
    let buf = CryptoBuf::new(&bytes).unwrap();
    let mut dest = vec![0u8; 512];
    buf.write_hex_str(&mut dest).unwrap();
    for i in 0..256 {
        assert_eq!(16 * hex_value(dest[2 * i]) + hex_value(dest[2 * i + 1]), bytes[i]);
    }
}

#[test]
fn ecdsa_sig_holds_buffers() {
    let sig = EcdsaSig { r: CryptoBuf::new(&[1, 2]).unwrap(), s: CryptoBuf::new(&[3]).unwrap() };
    assert_eq!(sig.r.bytes(), &[1, 2]);
    assert_eq!(sig.s.bytes(), &[3]);
}
