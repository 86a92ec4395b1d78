use dpe_crypto::ecdsa::curve_256::{EcdsaPub256, EcdsaSignature256};
use dpe_crypto::ecdsa::curve_384::EcdsaPub384;
use dpe_crypto::{EcdsaPubKey, EcdsaSignature, ExportedPubKey};

#[test]
fn ecdsa_pub_round_trip() {
    let x = [0x22u8; 32];
    let y = [0x33u8; 32];
    let key = EcdsaPub256::from_slice(&x, &y).unwrap();
    let (kx, ky) = key.as_slice().unwrap();
    assert_eq!(kx, &x);
    assert_eq!(ky, &y);
    assert_eq!(key.curve_size(), 32);
}

#[test]
fn ecdsa_pub_default_is_zero() {
    let key = EcdsaPub384::default();
    let (x, y) = key.as_slice().unwrap();
    assert_eq!(x, &[0u8; 48]);
    assert_eq!(y, &[0u8; 48]);
    assert_eq!(key.curve_size(), 48);
}

#[test]
fn ecdsa_pub_key_slices() {
    let x: Vec<u8> = (0..48).collect();
    let y: Vec<u8> = (100..148).collect();
    let key = EcdsaPubKey::Ecdsa384(
        EcdsaPub384::from_slice(&x.clone().try_into().unwrap(), &y.clone().try_into().unwrap())
            .unwrap(),
    );
    let (kx, ky) = key.as_slice().unwrap();
    assert_eq!(kx, &x[..]);
    assert_eq!(ky, &y[..]);
    assert_eq!(key.curve_size(), 48);
    let copy = key.clone();
    assert_eq!(copy.as_slice().unwrap(), (&x[..], &y[..]));
}

#[test]
fn ecdsa_pub_key_p256_curve_size() {
    let key = EcdsaPubKey::Ecdsa256(EcdsaPub256::default());
    assert_eq!(key.curve_size(), 32);
    let exported = ExportedPubKey::Ecdsa(key);
    let ExportedPubKey::Ecdsa(inner) = exported.clone();
    assert_eq!(inner.as_slice().unwrap(), (&[0u8; 32][..], &[0u8; 32][..]));
}

#[test]
fn ecdsa_signature_slices() {
    let r = [0xaau8; 32];
    let s = [0xbbu8; 32];
    let sig = EcdsaSignature256::from_slice(&r, &s).unwrap();
    assert_eq!(sig.curve_size(), 32);
    assert_eq!(sig.as_slice().unwrap(), (&r, &s));
    assert_eq!(sig.r, r);
    assert_eq!(sig.s, s);
    let sig = EcdsaSignature::Ecdsa256(sig);
    assert_eq!(sig.curve_size(), 32);
    assert_eq!(sig.as_slice().unwrap(), (&r[..], &s[..]));
}

#[test]
fn ecdsa_signature_default_is_zero() {
    let sig = EcdsaSignature256::default();
    assert_eq!(sig.as_slice().unwrap(), (&[0u8; 32], &[0u8; 32]));
}
