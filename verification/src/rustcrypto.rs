use vstd::prelude::*;
use vstd::std_specs::convert::FromSpecImpl;
use core::marker::PhantomData;
use rand::rngs::StdRng;
use crate::algorithm::SignatureAlgorithm;
use crate::ecdsa::curve_256::Curve256;
use crate::ecdsa::curve_384::Curve384;
use crate::ecdsa::{digest_nid, EcdsaAlgorithm};
use crate::error::CryptoError;
use crate::interface::{Digest, DpeProfile, ExportedCdiHandle, ExportedPubKey, Hasher, MAX_EXPORTED_CDI_SIZE};
use crate::signer::{hex_upper, CryptoBuf};
use crate::exported::{
    distinct_cdis, lemma_store_keeps_invariant, lookup_exported, store_refusal, ExportedCdis,
    ExportedSlots, MAX_CDI_HANDLES,
};

verus! {

#[verifier::external_type_specification]
#[verifier::external_body]
pub struct ExStdRng(StdRng);

/// The bytes `StdRng::fill_bytes` writes into a buffer of `len` bytes, on a
/// generator made by `StdRng::from_seed` with `seed` that has since filled
/// buffers of the lengths in `earlier`, in that order, and done nothing else.
pub uninterp spec fn std_rng_output(seed: Seq<u8>, earlier: Seq<nat>, len: nat) -> Seq<u8>;

/// A seeded generator, with its seed and the lengths of the buffers it has
/// filled, in order.
struct SeededRng {
    rng: StdRng,
    seed: Ghost<Seq<u8>>,
    filled: Ghost<Seq<nat>>,
}

/// `StdRng::from_seed` (through `rand::SeedableRng`): a generator seeded
/// with `seed`, which has filled nothing yet; it never panics.
#[verifier::external_body]
fn std_rng_from_seed(seed: [u8; 32]) -> (r: SeededRng)
    ensures
        r.seed@ == seed@,
        r.filled@ == Seq::<nat>::empty(),
{
    SeededRng {
        rng: <StdRng as rand::SeedableRng>::from_seed(seed),
        seed: Ghost(seed@),
        filled: Ghost(Seq::empty()),
    }
}

/// `StdRng::fill_bytes` (through `rand::RngCore`): overwrites every byte of
/// `dst` with output of the generator. The generator is deterministic: what
/// comes out depends on its seed and on the lengths of the buffers it filled
/// before.
#[verifier::external_body]
fn std_rng_fill_bytes(rng: &mut SeededRng, dst: &mut [u8])
    ensures
        final(dst)@.len() == old(dst)@.len(),
        final(dst)@ == std_rng_output(old(rng).seed@, old(rng).filled@, old(dst)@.len()),
        final(rng).seed@ == old(rng).seed@,
        final(rng).filled@ == old(rng).filled@.push(old(dst)@.len()),
{
    rand::RngCore::fill_bytes(&mut rng.rng, dst)
}

/// The SHA-256 digest of `data`.
pub uninterp spec fn sha256(data: Seq<u8>) -> Seq<u8>;

/// `sha2::Sha256::digest` (through `sha2::Digest`): the SHA-256 digest of
/// `data`, which is 32 bytes long.
#[verifier::external_body]
fn sha256_digest(data: &[u8]) -> (r: Vec<u8>)
    ensures
        r@ == sha256(data@),
        r@.len() == 32,
{
    <sha2::Sha256 as sha2::Digest>::digest(data).to_vec()
}

/// The SHA-384 digest of `data`.
pub uninterp spec fn sha384(data: Seq<u8>) -> Seq<u8>;

/// `sha2::Sha384::digest` (through `sha2::Digest`): the SHA-384 digest of
/// `data`, which is 48 bytes long.
#[verifier::external_body]
fn sha384_digest(data: &[u8]) -> (r: Vec<u8>)
    ensures
        r@ == sha384(data@),
        r@.len() == 48,
{
    <sha2::Sha384 as sha2::Digest>::digest(data).to_vec()
}

/// The digest of `data` with the digest type whose OpenSSL NID is `kind`:
/// SHA-384 for 673, SHA-256 otherwise.
pub open spec fn rust_digest(kind: int, data: Seq<u8>) -> Seq<u8> {
    if kind == 673 {
        sha384(data)
    } else {
        sha256(data)
    }
}

#[verifier::external_type_specification]
#[verifier::external_body]
pub struct ExEcdsaError(::ecdsa::Error);

#[verifier::external_type_specification]
#[verifier::external_body]
pub struct ExSec1Error(::sec1::Error);

impl From<::ecdsa::Error> for CryptoError {
    /// Every ECDSA failure becomes the library error code 1.
    fn from(_value: ::ecdsa::Error) -> (r: CryptoError) {
        CryptoError::CryptoLibError(1)
    }
}

impl FromSpecImpl<::ecdsa::Error> for CryptoError {
    open spec fn obeys_from_spec() -> bool {
        true
    }

    open spec fn from_spec(_value: ::ecdsa::Error) -> CryptoError {
        CryptoError::CryptoLibError(1)
    }
}

impl From<::sec1::Error> for CryptoError {
    /// Every SEC1 encoding failure becomes the library error code 2.
    fn from(_value: ::sec1::Error) -> (r: CryptoError) {
        CryptoError::CryptoLibError(2)
    }
}

impl FromSpecImpl<::sec1::Error> for CryptoError {
    open spec fn obeys_from_spec() -> bool {
        true
    }

    open spec fn from_spec(_value: ::sec1::Error) -> CryptoError {
        CryptoError::CryptoLibError(2)
    }
}

/// The back end built on the RustCrypto crates, for P-256.
pub type Ecdsa256RustCrypto = RustCryptoImpl<Curve256>;

/// The back end built on the RustCrypto crates, for P-384.
pub type Ecdsa384RustCrypto = RustCryptoImpl<Curve384>;

impl DpeProfile for Curve256 {
    open spec fn spec_signature_algorithm() -> SignatureAlgorithm {
        SignatureAlgorithm::Ecdsa(EcdsaAlgorithm::Bit256)
    }

    fn signature_algorithm() -> (r: SignatureAlgorithm) {
        SignatureAlgorithm::Ecdsa(EcdsaAlgorithm::Bit256)
    }
}

impl DpeProfile for Curve384 {
    open spec fn spec_signature_algorithm() -> SignatureAlgorithm {
        SignatureAlgorithm::Ecdsa(EcdsaAlgorithm::Bit384)
    }

    fn signature_algorithm() -> (r: SignatureAlgorithm) {
        SignatureAlgorithm::Ecdsa(EcdsaAlgorithm::Bit384)
    }
}

/// A running SHA-256 or SHA-384 hash: it keeps the bytes fed to it, and
/// the digest is taken over all of them when it is finished.
pub struct RustCryptoHasher {
    absorbed: Vec<u8>,
    alg: EcdsaAlgorithm,
}

impl View for RustCryptoHasher {
    /// The bytes fed to the hash so far, in order.
    type V = Seq<u8>;

    closed spec fn view(&self) -> Seq<u8> {
        self.absorbed@
    }
}

impl RustCryptoHasher {
    /// A hash with the digest of the ECDSA algorithm `alg` (SHA-256 for
    /// P-256, SHA-384 for P-384) that has been fed nothing.
    pub fn new(alg: EcdsaAlgorithm) -> (r: Self)
        ensures
            r@ == Seq::<u8>::empty(),
            r.digest_kind() == digest_nid(alg),
    {
        RustCryptoHasher { absorbed: Vec::new(), alg }
    }
}

impl Hasher for RustCryptoHasher {
    closed spec fn absorbed(&self) -> Seq<u8> {
        self@
    }

    closed spec fn digest_kind(&self) -> int {
        digest_nid(self.alg) as int
    }

    open spec fn intact(&self) -> bool {
        true
    }

    open spec fn obeys_digest_spec() -> bool {
        true
    }

    open spec fn spec_digest(kind: int, data: Seq<u8>) -> Seq<u8> {
        rust_digest(kind, data)
    }

    /// Feeds `bytes` to the hash; it never fails.
    fn update(&mut self, bytes: &[u8]) -> (r: Result<(), CryptoError>)
        ensures
            r is Ok,
            final(self)@ == old(self)@ + bytes@,
    {
        let mut i: usize = 0;
        while i < bytes.len()
            invariant
                i <= bytes@.len(),
                self.absorbed@ == old(self)@ + bytes@.take(i as int),
                self.alg == old(self).alg,
            decreases bytes@.len() - i,
        {
            self.absorbed.push(bytes[i]);
            i += 1;
            assert(self.absorbed@ =~= old(self)@ + bytes@.take(i as int));
        }
        assert(bytes@.take(i as int) =~= bytes@);
        Ok(())
    }

    /// Returns the digest of everything fed to the hash: 32 bytes of
    /// SHA-256 or 48 bytes of SHA-384.
    fn finish(self) -> (r: Result<Digest, CryptoError>)
        ensures
            r matches Ok(d) && d@ == rust_digest(self.digest_kind(), self@) && d@.len() == (
            if self.digest_kind() == 673 {
                48int
            } else {
                32int
            }),
    {
        let digest = match self.alg {
            EcdsaAlgorithm::Bit256 => sha256_digest(self.absorbed.as_slice()),
            EcdsaAlgorithm::Bit384 => sha384_digest(self.absorbed.as_slice()),
        };
        CryptoBuf::new(digest.as_slice())
    }
}

/// A private key derived by the RustCrypto back end.
pub struct RustCryptoPrivKey(Vec<u8>);

/// The software back end built on the RustCrypto crates, for the signature
/// algorithm of the profile `S`.
pub struct RustCryptoImpl<S: DpeProfile> {
    rng: SeededRng,
    export_cdi_slots: ExportedCdis,
    _signature_alg: PhantomData<S>,
}

impl<S: DpeProfile> RustCryptoImpl<S> {
    /// The exported CDIs with their handles, in the order they were
    /// exported.
    pub closed spec fn slots(&self) -> ExportedSlots {
        self.export_cdi_slots@
    }

    /// The seed of the back end's generator.
    pub closed spec fn rng_seed(&self) -> Seq<u8> {
        self.rng.seed@
    }

    /// The lengths of the buffers the back end's generator has filled, in
    /// order.
    pub closed spec fn rng_filled(&self) -> Seq<nat> {
        self.rng.filled@
    }

    /// The bytes the generator gives next for a buffer of `len` bytes.
    pub open spec fn next_random_bytes(&self, len: nat) -> Seq<u8> {
        std_rng_output(self.rng_seed(), self.rng_filled(), len)
    }

    /// A back end with no exported CDI, whose generator is seeded with 32
    /// bytes of 1 and has filled nothing yet: every back end made here gives
    /// the same random bytes for the same requests.
    pub fn new() -> (r: Self)
        ensures
            r.slots() == Seq::<(Seq<u8>, Seq<u8>)>::empty(),
            r.rng_seed() == Seq::new(32, |i: int| 1u8),
            r.rng_filled() == Seq::<nat>::empty(),
    {
        let seed: [u8; 32] = [1; 32];
        assert(seed@ =~= Seq::new(32, |i: int| 1u8));
        Self {
            rng: std_rng_from_seed(seed),
            export_cdi_slots: ExportedCdis::new(),
            _signature_alg: PhantomData,
        }
    }

    /// Fills `dst` with the next output of the generator; it never fails.
    pub fn rand_bytes(&mut self, dst: &mut [u8]) -> (r: Result<(), CryptoError>)
        ensures
            r is Ok,
            final(dst)@.len() == old(dst)@.len(),
            final(dst)@ == old(self).next_random_bytes(old(dst)@.len()),
            final(self).slots() == old(self).slots(),
            final(self).rng_seed() == old(self).rng_seed(),
            final(self).rng_filled() == old(self).rng_filled().push(old(dst)@.len()),
    {
        std_rng_fill_bytes(&mut self.rng, dst);
        Ok(())
    }

    /// Starts a running hash with the digest of the profile's ECDSA
    /// algorithm: SHA-256 for P-256, SHA-384 for P-384. ML-DSA has none here.
    pub fn hash_initialize(&mut self) -> (r: Result<RustCryptoHasher, CryptoError>)
        requires
            S::spec_signature_algorithm() is Ecdsa,
        ensures
            r matches Ok(h) && h@ == Seq::<u8>::empty() && h.digest_kind() == digest_nid(
                S::spec_signature_algorithm()->Ecdsa_0,
            ),
            final(self).slots() == old(self).slots(),
            final(self).rng_seed() == old(self).rng_seed(),
            final(self).rng_filled() == old(self).rng_filled(),
    {
        match S::signature_algorithm() {
            SignatureAlgorithm::Ecdsa(alg) => Ok(RustCryptoHasher::new(alg)),
            SignatureAlgorithm::MlDsa(_) => vstd::pervasive::unreached(),
        }
    }

    /// Writes the serial number of an ECDSA public key to `serial`: the
    /// upper-case hex text of the hash (with the profile's digest) of the
    /// point in uncompressed form (the byte 4, then `x`, then `y`). It fails
    /// with `Size` when `serial` is shorter than a digest of the profile's
    /// algorithm, or when it is not exactly as long as the hex text; `serial`
    /// is then left as it was.
    pub fn get_pubkey_serial(&mut self, pub_key: &ExportedPubKey, serial: &mut [u8]) -> (r:
        Result<(), CryptoError>)
        requires
            old(serial)@.len() < S::spec_signature_algorithm().spec_digest_size()
                || S::spec_signature_algorithm() is Ecdsa,
        ensures
            final(self).slots() == old(self).slots(),
            final(self).rng_seed() == old(self).rng_seed(),
            final(self).rng_filled() == old(self).rng_filled(),
            final(serial)@.len() == old(serial)@.len(),
            old(serial)@.len() < S::spec_signature_algorithm().spec_digest_size() ==> r == Err::<
                (),
                CryptoError,
            >(CryptoError::Size) && final(serial)@ == old(serial)@,
            old(serial)@.len() >= S::spec_signature_algorithm().spec_digest_size() ==> {
                let point = seq![4u8] + pub_key.ecdsa_key().coordinates().0
                    + pub_key.ecdsa_key().coordinates().1;
                let size = S::spec_signature_algorithm().spec_digest_size();
                let kind = digest_nid(S::spec_signature_algorithm()->Ecdsa_0) as int;
                &&& old(serial)@.len() == 2 * size ==> r == Ok::<(), CryptoError>(())
                    && final(serial)@ == hex_upper(rust_digest(kind, point))
                &&& old(serial)@.len() != 2 * size ==> r == Err::<(), CryptoError>(
                    CryptoError::Size,
                ) && final(serial)@ == old(serial)@
            },
    {
        if serial.len() < S::signature_algorithm().digest_size() {
            return Err(CryptoError::Size);
        }
        let mut hasher = self.hash_initialize()?;
        let ExportedPubKey::Ecdsa(pub_key) = pub_key;
        let (x, y) = pub_key.as_slice()?;

        let prefix: [u8; 1] = [0x4u8];
        hasher.update(prefix.as_slice())?;
        hasher.update(x)?;
        hasher.update(y)?;
        assert(hasher@ =~= seq![4u8] + x@ + y@);
        let digest = hasher.finish()?;

        CryptoBuf::write_hex_str(&digest, serial)
    }

    /// Keeps `cdi`, derived for an exported private key, under a fresh
    /// handle of the generator's next 32 bytes and returns the handle. It
    /// fails with `ExportedCdiHandleDuplicateCdi` when the CDI is already
    /// exported, and otherwise with `ExportedCdiHandleLimitExceeded` when
    /// `MAX_CDI_HANDLES` CDIs are; the back end is then left as it was.
    pub fn store_exported_cdi(&mut self, cdi: Vec<u8>) -> (r: Result<ExportedCdiHandle, CryptoError>)
        ensures
            final(self).slots().len() <= MAX_CDI_HANDLES,
            distinct_cdis(final(self).slots()),
            final(self).rng_seed() == old(self).rng_seed(),
            match store_refusal(old(self).slots(), cdi@) {
                Some(e) => r == Err::<ExportedCdiHandle, CryptoError>(e) && final(self).slots()
                    == old(self).slots() && final(self).rng_filled() == old(self).rng_filled(),
                None => r matches Ok(handle) && final(self).slots() == old(self).slots().push(
                    (cdi@, handle@),
                ) && handle@ == old(self).next_random_bytes(MAX_EXPORTED_CDI_SIZE as nat)
                    && final(self).rng_filled() == old(self).rng_filled().push(
                    MAX_EXPORTED_CDI_SIZE as nat,
                ),
            },
    {
        match self.export_cdi_slots.check_storable(cdi.as_slice()) {
            Ok(()) => {},
            Err(e) => {
                return Err(e);
            },
        }
        let mut exported_cdi_handle: ExportedCdiHandle = [0; MAX_EXPORTED_CDI_SIZE];
        self.rand_bytes(&mut exported_cdi_handle)?;
        proof {
            lemma_store_keeps_invariant(self.slots(), cdi@, exported_cdi_handle@);
        }
        self.export_cdi_slots.insert(cdi, exported_cdi_handle);
        Ok(exported_cdi_handle)
    }

    /// Returns a copy of the CDI exported under `handle` (that of the last
    /// slot with this handle), or fails with `InvalidExportedCdiHandle` when
    /// no CDI is exported under it.
    pub fn exported_cdi(&self, handle: &ExportedCdiHandle) -> (r: Result<Vec<u8>, CryptoError>)
        ensures
            lookup_exported(self.slots(), handle@) matches Some(cdi) ==> (r matches Ok(v) && v@
                == cdi),
            lookup_exported(self.slots(), handle@) is None ==> r == Err::<Vec<u8>, CryptoError>(
                CryptoError::InvalidExportedCdiHandle,
            ),
    {
        self.export_cdi_slots.find(handle)
    }

    /// Returns a copy of a derived public key.
    pub fn export_public_key(&self, pub_key: &ExportedPubKey) -> (r: Result<ExportedPubKey, CryptoError>)
        ensures
            (r matches Ok(k) && k.ecdsa_key().coordinates() == pub_key.ecdsa_key().coordinates()
                && k.ecdsa_key().spec_curve_size() == pub_key.ecdsa_key().spec_curve_size()),
    {
        Ok(pub_key.clone())
    }
}

impl<S: DpeProfile> Default for RustCryptoImpl<S> {
    /// The same as `new`.
    fn default() -> (r: Self)
        ensures
            r.slots() == Seq::<(Seq<u8>, Seq<u8>)>::empty(),
            r.rng_seed() == Seq::new(32, |i: int| 1u8),
            r.rng_filled() == Seq::<nat>::empty(),
    {
        Self::new()
    }
}

/// The random bytes of a back end are reproducible: two back ends whose
/// generators have the same seed, and have filled buffers of the same
/// lengths in the same order, give the same bytes next. Every back end that
/// `new` makes has the same seed.
pub proof fn lemma_random_bytes_reproducible<S: DpeProfile, T: DpeProfile>(
    a: RustCryptoImpl<S>,
    b: RustCryptoImpl<T>,
    len: nat,
)
    requires
        a.rng_seed() == b.rng_seed(),
        a.rng_filled() == b.rng_filled(),
    ensures
        a.next_random_bytes(len) == b.next_random_bytes(len),
{
}

} // verus!
