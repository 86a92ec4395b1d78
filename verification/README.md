# dpe_crypto

Cryptographic building blocks of a DICE Protection Environment, written in
Verus and verified against their contracts.

- `algorithm`, `ecdsa`, `ml_dsa`: the signature algorithms, their key and
  signature sizes, and ECDSA / ML-DSA key material.
- `signer`: `CryptoBuf`, the bounded byte buffer used for digests, keys and
  signature components, and its upper-case hex encoding.
- `error`, `types`: error codes of the crypto layer and of the DPE, profiles
  and TCI measurement data.
- `interface`: the `Crypto` and `Hasher` traits a platform implements.
- `exported`: the table of exported CDIs and their handles.
- `rustcrypto`, `openssl_crypto`: software back ends; the calls into the
  RustCrypto crates, `rand` and OpenSSL sit behind small trusted wrappers.

`app/` holds byte-layout copies of some types, with zerocopy and zeroize
derives, which cannot be attached inside the verified crate.
