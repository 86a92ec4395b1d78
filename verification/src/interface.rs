use vstd::prelude::*;
use crate::algorithm::SignatureAlgorithm;
use crate::ecdsa::EcdsaPubKey;
use crate::error::CryptoError;
use crate::signer::{CryptoBuf, EcdsaSig};

verus! {

/// Size in bytes of the handle of an exported CDI.
pub const MAX_EXPORTED_CDI_SIZE: usize = 32;

/// The handle under which an exported CDI is found again.
pub type ExportedCdiHandle = [u8; MAX_EXPORTED_CDI_SIZE];

/// A message digest.
pub type Digest = CryptoBuf;

/// The signature algorithm that an implementation of `Crypto` is built for.
pub trait DpeProfile {
    /// The profile's signature algorithm.
    spec fn spec_signature_algorithm() -> SignatureAlgorithm;

    /// Returns the profile's signature algorithm.
    fn signature_algorithm() -> (r: SignatureAlgorithm)
        ensures
            r == Self::spec_signature_algorithm(),
    ;
}

/// A public key in the form it is handed out.
pub enum ExportedPubKey {
    Ecdsa(EcdsaPubKey),
}

impl ExportedPubKey {
    /// The ECDSA key inside.
    pub open spec fn ecdsa_key(&self) -> EcdsaPubKey {
        match self {
            ExportedPubKey::Ecdsa(key) => *key,
        }
    }
}

impl Clone for ExportedPubKey {
    fn clone(&self) -> (r: Self)
        ensures
            r.ecdsa_key().coordinates() == self.ecdsa_key().coordinates(),
            r.ecdsa_key().spec_curve_size() == self.ecdsa_key().spec_curve_size(),
    {
        match self {
            ExportedPubKey::Ecdsa(key) => ExportedPubKey::Ecdsa(key.clone()),
        }
    }
}

/// A signature.
pub enum Signature {
    Ecdsa(EcdsaSig),
}

/// A running hash.
pub trait Hasher: Sized {
    /// The bytes fed to the running hash so far, in order.
    spec fn absorbed(&self) -> Seq<u8>;

    /// The digest type of the running hash, by its OpenSSL NID (672 for
    /// SHA-256, 673 for SHA-384).
    spec fn digest_kind(&self) -> int;

    /// Whether every update so far succeeded.
    spec fn intact(&self) -> bool;

    /// Whether the digest this hasher gives is the one `spec_digest` names.
    spec fn obeys_digest_spec() -> bool;

    /// The digest of `data` with the digest type `kind`, for a hasher that
    /// obeys it.
    spec fn spec_digest(kind: int, data: Seq<u8>) -> Seq<u8>;

    /// Adds a chunk to the running hash: on success the chunk follows what
    /// was fed before. The digest type does not change.
    fn update(&mut self, bytes: &[u8]) -> (r: Result<(), CryptoError>)
        ensures
            final(self).digest_kind() == old(self).digest_kind(),
            r is Ok ==> final(self).absorbed() == old(self).absorbed() + bytes@
                && final(self).intact() == old(self).intact(),
    ;

    /// Finishes the running hash and returns the digest of everything fed.
    /// The hasher is used up: more data needs a new one.
    fn finish(self) -> (r: Result<Digest, CryptoError>)
        ensures
            Self::obeys_digest_spec() && self.intact() ==> (r matches Ok(d) ==> d@
                == Self::spec_digest(self.digest_kind(), self.absorbed())),
    ;
}

/// The bytes a running hash holds after `chunks` are fed to it in turn,
/// starting from `start`.
pub open spec fn feed_all(start: Seq<u8>, chunks: Seq<Seq<u8>>) -> Seq<u8>
    decreases chunks.len(),
{
    if chunks.len() == 0 {
        start
    } else {
        feed_all(start + chunks[0], chunks.drop_first())
    }
}

/// How the input is split into chunks does not change what a running hash
/// digests: feeding chunks in turn gives their concatenation.
pub proof fn lemma_chunking_does_not_matter(start: Seq<u8>, chunks: Seq<Seq<u8>>)
    ensures
        feed_all(start, chunks) == start + chunks.flatten(),
    decreases chunks.len(),
{
    if chunks.len() > 0 {
        lemma_chunking_does_not_matter(start + chunks[0], chunks.drop_first());
        assert(chunks.flatten() == chunks[0] + chunks.drop_first().flatten());
        assert(start + chunks[0] + chunks.drop_first().flatten() =~= start + (chunks[0]
            + chunks.drop_first().flatten()));
    } else {
        assert(start + chunks.flatten() =~= start);
    }
}

/// For any running hash that obeys its digest spec, a started hash fed any
/// number of chunks in turn digests to the digest of their concatenation.
pub proof fn lemma_digest_of_chunks<H: Hasher>(kind: int, chunks: Seq<Seq<u8>>)
    ensures
        H::spec_digest(kind, feed_all(Seq::empty(), chunks)) == H::spec_digest(
            kind,
            chunks.flatten(),
        ),
{
    lemma_chunking_does_not_matter(Seq::empty(), chunks);
    assert(Seq::<u8>::empty() + chunks.flatten() =~= chunks.flatten());
}

/// The cryptographic operations that a DICE Protection Environment needs
/// from a platform.
pub trait Crypto: DpeProfile {
    type Cdi;
    type Hasher<'c>: Hasher where Self: 'c;
    type PrivKey;
    type PubKey;

    /// The digest type of the running hashes this platform starts, by its
    /// OpenSSL NID.
    spec fn hash_kind(&self) -> int;

    /// Fills `dst` with random bytes.
    fn rand_bytes(&mut self, dst: &mut [u8]) -> Result<(), CryptoError>;

    /// Hashes `bytes` with a running hash started, fed and finished in turn:
    /// for a hasher that obeys its digest spec, the digest of `bytes` with
    /// the platform's digest type.
    fn hash(&mut self, bytes: &[u8]) -> (r: Result<Digest, CryptoError>)
        ensures
            <Self::Hasher<'_> as Hasher>::obeys_digest_spec() ==> (r matches Ok(d) ==> d@
                == <Self::Hasher<'_> as Hasher>::spec_digest(old(self).hash_kind(), bytes@)),
    {
        let mut hasher = self.hash_initialize()?;
        hasher.update(bytes)?;
        assert(hasher.absorbed() =~= bytes@);
        hasher.finish()
    }

    /// Writes the serial number of an ECDSA public key to `serial`: the hex
    /// text of the hash of the point in uncompressed form.
    fn get_pubkey_serial(
        &mut self,
        pub_key: &ExportedPubKey,
        serial: &mut [u8],
    ) -> Result<(), CryptoError>;

    /// Starts a running hash, fed nothing yet.
    fn hash_initialize(&mut self) -> (r: Result<Self::Hasher<'_>, CryptoError>)
        ensures
            r matches Ok(h) ==> h.absorbed() == Seq::<u8>::empty() && h.intact()
                && h.digest_kind() == old(self).hash_kind(),
    ;

    /// Derives a CDI from the current base CDI, a digest of measurements and
    /// caller-supplied info.
    fn derive_cdi(&mut self, measurement: &Digest, info: &[u8]) -> Result<Self::Cdi, CryptoError>;

    /// Derives a CDI for an exported private key and returns the handle under
    /// which it is kept.
    fn derive_exported_cdi(
        &mut self,
        measurement: &Digest,
        info: &[u8],
    ) -> Result<ExportedCdiHandle, CryptoError>;

    /// Derives a key pair from a CDI, a label and info.
    fn derive_key_pair(
        &mut self,
        cdi: &Self::Cdi,
        label: &[u8],
        info: &[u8],
    ) -> Result<(Self::PrivKey, Self::PubKey), CryptoError>;

    /// Derives a key pair from the CDI kept under an exported handle.
    fn derive_key_pair_exported(
        &mut self,
        exported_handle: &ExportedCdiHandle,
        label: &[u8],
        info: &[u8],
    ) -> Result<(Self::PrivKey, Self::PubKey), CryptoError>;

    /// Signs `digest` with the platform alias key.
    fn sign_with_alias(&mut self, digest: &Digest) -> Result<Signature, CryptoError>;

    /// Signs `digest` with a derived key pair.
    fn sign_with_derived(
        &mut self,
        digest: &Digest,
        priv_key: &Self::PrivKey,
        pub_key: &Self::PubKey,
    ) -> Result<Signature, CryptoError>;

    /// Converts a derived public key into its exported form.
    fn export_public_key(&self, pub_key: &Self::PubKey) -> Result<ExportedPubKey, CryptoError>;
}

} // verus!
