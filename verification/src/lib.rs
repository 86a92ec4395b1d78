//! Cryptographic building blocks of a DICE Protection Environment: algorithm
//! parameters, bounded byte buffers with their hex encoding, ECDSA and ML-DSA
//! key material, error codes, the `Crypto` interface a platform implements,
//! and software back ends built on the RustCrypto crates and on OpenSSL.

pub mod algorithm;
pub mod ecdsa;
pub mod error;
pub mod exported;
pub mod interface;
pub mod ml_dsa;
pub mod openssl_calls;
pub mod openssl_crypto;
pub mod rustcrypto;
pub mod signer;
pub mod types;

pub use algorithm::SignatureAlgorithm;
pub use ecdsa::{EcdsaAlgorithm, EcdsaPubKey, EcdsaSignature};
pub use error::CryptoError;
pub use interface::{
    Crypto, Digest, DpeProfile, ExportedCdiHandle, ExportedPubKey, Hasher, Signature,
    MAX_EXPORTED_CDI_SIZE,
};
pub use ml_dsa::MldsaAlgorithm;
pub use openssl_crypto::{OpensslCrypto, OpensslHasher};
pub use rustcrypto::{
    Ecdsa256RustCrypto, Ecdsa384RustCrypto, RustCryptoHasher, RustCryptoImpl, RustCryptoPrivKey,
};
pub use signer::{CryptoBuf, Curve256, Curve384, EcdsaCurveParams, EcdsaPub, EcdsaSig};
