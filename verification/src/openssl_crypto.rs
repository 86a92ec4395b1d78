use vstd::prelude::*;
use ::openssl::error::ErrorStack;
use crate::algorithm::SignatureAlgorithm;
use crate::ecdsa::{digest_nid, EcdsaAlgorithm};
use crate::error::CryptoError;
use crate::exported::{
    distinct_cdis, lemma_store_keeps_invariant, lookup_exported, store_refusal, ExportedCdis,
    ExportedSlots, MAX_CDI_HANDLES,
};
use crate::interface::{Digest, ExportedCdiHandle, ExportedPubKey, Hasher, Signature, MAX_EXPORTED_CDI_SIZE};
use crate::ecdsa::curve_256::EcdsaPub256;
use crate::ecdsa::curve_384::EcdsaPub384;
use crate::ecdsa::EcdsaPubKey;
use crate::signer::{CryptoBuf, EcdsaSig};
use crate::openssl_calls::{
    be_value, big_num_as_ref, big_num_context_new, big_num_from_slice, big_num_new,
    big_num_to_vec_padded, curve_nid, ec_group_from_curve_name, ec_key_from_private_components,
    ec_key_public_key, ec_point_affine_coordinates, ec_point_mul_generator, ec_point_new,
    ec_private_key_from_pem, ec_public_point, ecdsa_sig_r, ecdsa_sig_s, ecdsa_signs,
    message_digest_sha256, message_digest_sha384, openssl_digest, openssl_ecdsa_sign,
    openssl_hasher_finish, openssl_hasher_new, openssl_hasher_update, openssl_rand_bytes,
    pem_ec_private_key, OpensslDigestType, OpensslEcKey, OpensslRecord,
};
pub use crate::openssl_calls::OpensslHasher;

verus! {

impl Hasher for OpensslHasher {
    closed spec fn absorbed(&self) -> Seq<u8> {
        self.fed()
    }

    closed spec fn digest_kind(&self) -> int {
        self.hash_nid() as int
    }

    /// No OpenSSL update of the hash has failed: only OpenSSL can make a
    /// hash lose this.
    closed spec fn intact(&self) -> bool {
        self.no_failed_update()
    }

    open spec fn obeys_digest_spec() -> bool {
        true
    }

    open spec fn spec_digest(kind: int, data: Seq<u8>) -> Seq<u8> {
        openssl_digest(kind as i32, data)
    }

    /// Feeds `bytes`, of any length, to the hash. It fails only when
    /// OpenSSL's update fails, which leaves the hash no longer intact; the
    /// failure becomes `CryptoLibError`.
    fn update(&mut self, bytes: &[u8]) -> (r: Result<(), CryptoError>)
        ensures
            final(self).digest_kind() == old(self).digest_kind(),
            r is Ok ==> final(self).absorbed() == old(self).absorbed() + bytes@
                && final(self).intact() == old(self).intact(),
            r matches Err(e) ==> e is CryptoLibError && !final(self).intact(),
            old(self).intact() && final(self).intact() ==> r is Ok,
    {
        match openssl_hasher_update(self, bytes) {
            Ok(()) => Ok(()),
            Err(e) => Err(CryptoError::from(e)),
        }
    }

    /// Returns the digest of everything fed, of the hash's digest type (at
    /// most 64 bytes). An OpenSSL failure becomes `CryptoLibError`.
    fn finish(self) -> (r: Result<Digest, CryptoError>)
        ensures
            r matches Ok(d) ==> d@.len() <= 64 && (self.intact() ==> d@ == openssl_digest(
                self.digest_kind() as i32,
                self.absorbed(),
            )),
            r matches Err(e) ==> e is CryptoLibError,
    {
        let mut hasher = self;
        match openssl_hasher_finish(&mut hasher) {
            Ok(bytes) => Digest::new(bytes.as_slice()),
            Err(e) => Err(CryptoError::from(e)),
        }
    }
}

/// Copies bytes into an array of their length.
fn to_array<const N: usize>(v: &[u8]) -> (r: [u8; N])
    requires
        v@.len() == N,
    ensures
        r@ == v@,
{
    let mut r: [u8; N] = [0; N];
    let mut i: usize = 0;
    while i < N
        invariant
            v@.len() == N,
            i <= N,
            forall|j: int| 0 <= j < i ==> r@[j] == v@[j],
        decreases N - i,
    {
        r[i] = v[i];
        i += 1;
    }
    assert(r@ =~= v@);
    r
}

/// The back end built on OpenSSL. Random bytes come from OpenSSL's
/// generator.
pub struct OpensslCrypto {
    export_cdi_slots: ExportedCdis,
    openssl: OpensslRecord,
}

impl OpensslCrypto {
    /// The exported CDIs with their handles, in the order they were
    /// exported.
    pub closed spec fn slots(&self) -> ExportedSlots {
        self.export_cdi_slots@
    }

    /// The outputs of OpenSSL's random generator that the back end has
    /// drawn, in order.
    pub closed spec fn random_draws(&self) -> Seq<Seq<u8>> {
        self.openssl.draws()
    }

    /// How many of the back end's OpenSSL calls have failed.
    pub closed spec fn openssl_failures(&self) -> nat {
        self.openssl.failures()
    }

    /// A back end with no exported CDI, that has drawn nothing and seen no
    /// OpenSSL failure.
    pub fn new() -> (r: Self)
        ensures
            r.slots() == Seq::<(Seq<u8>, Seq<u8>)>::empty(),
            r.random_draws() == Seq::<Seq<u8>>::empty(),
            r.openssl_failures() == 0,
    {
        Self { export_cdi_slots: ExportedCdis::new(), openssl: OpensslRecord::new() }
    }

    /// The digest type of an ECDSA algorithm: SHA-256 for P-256, SHA-384
    /// for P-384. ML-DSA has none here.
    fn get_digest(algs: SignatureAlgorithm) -> (r: OpensslDigestType)
        requires
            algs is Ecdsa,
        ensures
            r.nid() == digest_nid(algs->Ecdsa_0),
    {
        match algs {
            SignatureAlgorithm::Ecdsa(EcdsaAlgorithm::Bit256) => message_digest_sha256(),
            SignatureAlgorithm::Ecdsa(EcdsaAlgorithm::Bit384) => message_digest_sha384(),
            SignatureAlgorithm::MlDsa(_) => vstd::pervasive::unreached(),
        }
    }

    /// The NID of the curve of an ECDSA algorithm. ML-DSA uses none.
    fn get_curve(algs: SignatureAlgorithm) -> (r: i32)
        requires
            algs is Ecdsa,
        ensures
            r == curve_nid(algs->Ecdsa_0),
    {
        match algs {
            SignatureAlgorithm::Ecdsa(EcdsaAlgorithm::Bit256) => 415,
            SignatureAlgorithm::Ecdsa(EcdsaAlgorithm::Bit384) => 715,
            SignatureAlgorithm::MlDsa(_) => vstd::pervasive::unreached(),
        }
    }

    /// The key pair on the algorithm's curve whose private scalar is the
    /// big-endian number `priv_key`: the public point is the generator times
    /// that scalar.
    fn ec_key_from_priv_key(algs: SignatureAlgorithm, priv_key: &CryptoBuf) -> (r: Result<
        OpensslEcKey,
        ErrorStack,
    >)
        requires
            algs is Ecdsa,
        ensures
            r matches Ok(k) ==> k.nid() == curve_nid(algs->Ecdsa_0) && k.private() == be_value(
                priv_key@,
            ) && k.public() == Some((curve_nid(algs->Ecdsa_0), be_value(priv_key@) as int)),
    {
        let nid = Self::get_curve(algs);
        let group = ec_group_from_curve_name(nid)?;
        let mut pub_point = ec_point_new(&group)?;
        let mut bn_ctx = big_num_context_new()?;
        let priv_key_bn = big_num_from_slice(priv_key.bytes())?;
        ec_point_mul_generator(&mut pub_point, &group, &priv_key_bn, &mut bn_ctx)?;
        ec_key_from_private_components(&group, &priv_key_bn, &pub_point)
    }

    /// The public key whose private scalar is the big-endian number
    /// `priv_key`, on the curve of the ECDSA algorithm `algs`: the affine
    /// coordinates of the generator times that scalar, each written
    /// big-endian and padded with zeros to the curve size. An OpenSSL failure
    /// becomes `CryptoLibError`.
    pub fn derive_pub_key(algs: SignatureAlgorithm, priv_key: &CryptoBuf) -> (r: Result<
        ExportedPubKey,
        CryptoError,
    >)
        requires
            algs is Ecdsa,
        ensures
            r matches Ok(k) ==> {
                let (x, y) = k.ecdsa_key().coordinates();
                let size = algs->Ecdsa_0.spec_curve_size();
                &&& k.ecdsa_key().spec_curve_size() == size
                &&& x.len() == size && y.len() == size
                &&& (be_value(x) as int, be_value(y) as int) == ec_public_point(
                    curve_nid(algs->Ecdsa_0),
                    be_value(priv_key@) as int,
                )
            },
            r matches Err(e) ==> e is CryptoLibError,
    {
        let curve = match algs {
            SignatureAlgorithm::Ecdsa(curve) => curve,
            SignatureAlgorithm::MlDsa(_) => vstd::pervasive::unreached(),
        };
        let ec_priv_key = match Self::ec_key_from_priv_key(algs, priv_key) {
            Ok(k) => k,
            Err(e) => {
                return Err(CryptoError::from(e));
            },
        };
        let nid = Self::get_curve(algs);
        let group = match ec_group_from_curve_name(nid) {
            Ok(g) => g,
            Err(e) => {
                return Err(CryptoError::from(e));
            },
        };
        let mut bn_ctx = match big_num_context_new() {
            Ok(c) => c,
            Err(e) => {
                return Err(CryptoError::from(e));
            },
        };
        let mut x = match big_num_new() {
            Ok(n) => n,
            Err(e) => {
                return Err(CryptoError::from(e));
            },
        };
        let mut y = match big_num_new() {
            Ok(n) => n,
            Err(e) => {
                return Err(CryptoError::from(e));
            },
        };
        match ec_point_affine_coordinates(
            &ec_key_public_key(&ec_priv_key),
            &group,
            &mut x,
            &mut y,
            &mut bn_ctx,
        ) {
            Ok(()) => {},
            Err(e) => {
                return Err(CryptoError::from(e));
            },
        }
        let pad: usize = curve.curve_size();
        let x_bytes = match big_num_to_vec_padded(&big_num_as_ref(&x), pad as i32) {
            Ok(v) => v,
            Err(e) => {
                return Err(CryptoError::from(e));
            },
        };
        let y_bytes = match big_num_to_vec_padded(&big_num_as_ref(&y), pad as i32) {
            Ok(v) => v,
            Err(e) => {
                return Err(CryptoError::from(e));
            },
        };
        let key = match curve {
            EcdsaAlgorithm::Bit256 => {
                let xa: [u8; 32] = to_array(x_bytes.as_slice());
                let ya: [u8; 32] = to_array(y_bytes.as_slice());
                EcdsaPubKey::Ecdsa256(EcdsaPub256::from_slice(&xa, &ya).unwrap())
            },
            EcdsaAlgorithm::Bit384 => {
                let xa: [u8; 48] = to_array(x_bytes.as_slice());
                let ya: [u8; 48] = to_array(y_bytes.as_slice());
                EcdsaPubKey::Ecdsa384(EcdsaPub384::from_slice(&xa, &ya).unwrap())
            },
        };
        Ok(ExportedPubKey::Ecdsa(key))
    }

    /// Fills the whole of `dst` with the next output of OpenSSL's random
    /// generator, which is logged as the back end's next draw. It fails only
    /// when OpenSSL's generator fails, which is counted; the failure becomes
    /// `CryptoLibError`.
    pub fn rand_bytes(&mut self, dst: &mut [u8]) -> (r: Result<(), CryptoError>)
        requires
            old(dst)@.len() <= i32::MAX,
        ensures
            final(dst)@.len() == old(dst)@.len(),
            final(self).slots() == old(self).slots(),
            r is Ok ==> final(self).random_draws() == old(self).random_draws().push(final(dst)@)
                && final(self).openssl_failures() == old(self).openssl_failures(),
            r matches Err(e) ==> e is CryptoLibError && final(self).random_draws() == old(self).random_draws() && final(self).openssl_failures() == old(self).openssl_failures()
                + 1,
    {
        match openssl_rand_bytes(&mut self.openssl, dst) {
            Ok(()) => Ok(()),
            Err(e) => Err(self.openssl.failed(e)),
        }
    }

    /// Starts a running hash with the digest of an ECDSA algorithm (SHA-256
    /// for P-256, SHA-384 for P-384), fed nothing yet; a failure becomes
    /// `CryptoLibError`.
    pub fn hash_initialize(&mut self, algs: SignatureAlgorithm) -> (r: Result<OpensslHasher, CryptoError>)
        requires
            algs is Ecdsa,
        ensures
            r matches Ok(h) ==> h.absorbed() == Seq::<u8>::empty() && h.intact()
                && h.digest_kind() == digest_nid(algs->Ecdsa_0),
            final(self).slots() == old(self).slots(),
            final(self).random_draws() == old(self).random_draws(),
            r is Ok ==> final(self).openssl_failures() == old(self).openssl_failures(),
            r matches Err(e) ==> e is CryptoLibError && final(self).openssl_failures() == old(self).openssl_failures() + 1,
    {
        let md = Self::get_digest(algs);
        match openssl_hasher_new(&md) {
            Ok(h) => Ok(h),
            Err(e) => Err(self.openssl.failed(e)),
        }
    }

    /// Keeps `cdi`, derived for an exported private key, under a handle
    /// that is the next 32-byte output of OpenSSL's random generator, and
    /// returns the handle. It fails with `ExportedCdiHandleDuplicateCdi` when
    /// the CDI is already exported, otherwise with
    /// `ExportedCdiHandleLimitExceeded` when `MAX_CDI_HANDLES` CDIs are (the
    /// generator is then not asked), and with `CryptoLibError` when the
    /// generator fails; the exported CDIs are then left as they were.
    pub fn store_exported_cdi(&mut self, cdi: Vec<u8>) -> (r: Result<ExportedCdiHandle, CryptoError>)
        ensures
            final(self).slots().len() <= MAX_CDI_HANDLES,
            distinct_cdis(final(self).slots()),
            match store_refusal(old(self).slots(), cdi@) {
                Some(e) => r == Err::<ExportedCdiHandle, CryptoError>(e) && final(self).random_draws() == old(self).random_draws() && final(self).openssl_failures()
                    == old(self).openssl_failures(),
                None => match r {
                    Ok(handle) => final(self).slots() == old(self).slots().push((cdi@, handle@))
                        && final(self).random_draws() == old(self).random_draws().push(handle@)
                        && final(self).openssl_failures() == old(self).openssl_failures(),
                    Err(e) => e is CryptoLibError && final(self).random_draws() == old(self).random_draws() && final(self).openssl_failures() == old(self).openssl_failures() + 1,
                },
            },
            r is Err ==> final(self).slots() == old(self).slots(),
    {
        match self.export_cdi_slots.check_storable(cdi.as_slice()) {
            Ok(()) => {},
            Err(e) => {
                return Err(e);
            },
        }
        let mut exported_cdi_handle: ExportedCdiHandle = [0; MAX_EXPORTED_CDI_SIZE];
        self.rand_bytes(&mut exported_cdi_handle)?;
        proof {
            lemma_store_keeps_invariant(self.slots(), cdi@, exported_cdi_handle@);
        }
        self.export_cdi_slots.insert(cdi, exported_cdi_handle);
        Ok(exported_cdi_handle)
    }

    /// Returns a copy of the CDI exported under `handle` (that of the last
    /// slot with this handle), or fails with `InvalidExportedCdiHandle` when
    /// no CDI is exported under it.
    pub fn exported_cdi(&self, handle: &ExportedCdiHandle) -> (r: Result<Vec<u8>, CryptoError>)
        ensures
            lookup_exported(self.slots(), handle@) matches Some(cdi) ==> (r matches Ok(v) && v@
                == cdi),
            lookup_exported(self.slots(), handle@) is None ==> r == Err::<Vec<u8>, CryptoError>(
                CryptoError::InvalidExportedCdiHandle,
            ),
    {
        self.export_cdi_slots.find(handle)
    }

    /// Signs `digest` with `key`; the components are padded to the size of
    /// `curve`.
    fn sign_digest(
        record: &mut OpensslRecord,
        curve: EcdsaAlgorithm,
        key: &OpensslEcKey,
        digest: &Digest,
    ) -> (r: Result<Signature, CryptoError>)
        ensures
            final(record).draws() == old(record).draws(),
            r is Ok ==> final(record).failures() == old(record).failures(),
            r is Err ==> final(record).failures() == old(record).failures() + 1,
            r matches Ok(Signature::Ecdsa(sig)) ==> sig.r@.len() == curve.spec_curve_size()
                && sig.s@.len() == curve.spec_curve_size() && ecdsa_signs(
                key.nid(),
                key.private(),
                digest@,
                be_value(sig.r@) as int,
                be_value(sig.s@) as int,
            ),
            r matches Err(e) ==> e is CryptoLibError,
    {
        let sig = match openssl_ecdsa_sign(digest.bytes(), key) {
            Ok(sig) => sig,
            Err(e) => {
                return Err(record.failed(e));
            },
        };
        let pad: usize = curve.curve_size();
        let r_bytes = match big_num_to_vec_padded(&ecdsa_sig_r(&sig), pad as i32) {
            Ok(v) => v,
            Err(e) => {
                return Err(record.failed(e));
            },
        };
        let s_bytes = match big_num_to_vec_padded(&ecdsa_sig_s(&sig), pad as i32) {
            Ok(v) => v,
            Err(e) => {
                return Err(record.failed(e));
            },
        };
        let r = CryptoBuf::new(r_bytes.as_slice()).unwrap();
        let s = CryptoBuf::new(s_bytes.as_slice()).unwrap();
        Ok(Signature::Ecdsa(EcdsaSig { r, s }))
    }

    /// Signs `digest` with the platform alias key of the ECDSA algorithm
    /// `algs`, given as PEM text. The components `r` and `s` are each one
    /// coordinate long and satisfy the ECDSA signing equation for the PEM's
    /// key and `digest`. An OpenSSL failure becomes `CryptoLibError`.
    pub fn sign_with_alias(
        &mut self,
        algs: SignatureAlgorithm,
        alias_key_pem: &[u8],
        digest: &Digest,
    ) -> (r: Result<Signature, CryptoError>)
        requires
            algs is Ecdsa,
            alias_key_pem@.len() <= i32::MAX,
        ensures
            final(self).slots() == old(self).slots(),
            final(self).random_draws() == old(self).random_draws(),
            r is Ok ==> final(self).openssl_failures() == old(self).openssl_failures(),
            r is Err ==> final(self).openssl_failures() == old(self).openssl_failures() + 1,
            r matches Ok(Signature::Ecdsa(sig)) ==> sig.r@.len() == algs->Ecdsa_0.spec_curve_size()
                && sig.s@.len() == algs->Ecdsa_0.spec_curve_size() && ecdsa_signs(
                pem_ec_private_key(alias_key_pem@).0,
                pem_ec_private_key(alias_key_pem@).1,
                digest@,
                be_value(sig.r@) as int,
                be_value(sig.s@) as int,
            ),
            r matches Err(e) ==> e is CryptoLibError,
    {
        match algs {
            SignatureAlgorithm::Ecdsa(curve) => {
                let ec_priv = match ec_private_key_from_pem(alias_key_pem) {
                    Ok(k) => k,
                    Err(e) => {
                        return Err(self.openssl.failed(e));
                    },
                };
                Self::sign_digest(&mut self.openssl, curve, &ec_priv, digest)
            },
            SignatureAlgorithm::MlDsa(_) => vstd::pervasive::unreached(),
        }
    }

    /// Signs `digest` with the derived private key `priv_key` on the curve of
    /// the ECDSA algorithm `algs`. The components `r` and `s` are each one
    /// coordinate long and satisfy the ECDSA signing equation for that key and
    /// `digest`. An OpenSSL failure becomes `CryptoLibError`.
    pub fn sign_with_derived(
        &mut self,
        algs: SignatureAlgorithm,
        digest: &Digest,
        priv_key: &CryptoBuf,
        _pub_key: &ExportedPubKey,
    ) -> (r: Result<Signature, CryptoError>)
        requires
            algs is Ecdsa,
        ensures
            final(self).slots() == old(self).slots(),
            final(self).random_draws() == old(self).random_draws(),
            r is Ok ==> final(self).openssl_failures() == old(self).openssl_failures(),
            r is Err ==> final(self).openssl_failures() == old(self).openssl_failures() + 1,
            r matches Ok(Signature::Ecdsa(sig)) ==> sig.r@.len() == algs->Ecdsa_0.spec_curve_size()
                && sig.s@.len() == algs->Ecdsa_0.spec_curve_size() && ecdsa_signs(
                curve_nid(algs->Ecdsa_0),
                be_value(priv_key@) as int,
                digest@,
                be_value(sig.r@) as int,
                be_value(sig.s@) as int,
            ),
            r matches Err(e) ==> e is CryptoLibError,
    {
        match algs {
            SignatureAlgorithm::Ecdsa(curve) => {
                let ec_priv_key = match Self::ec_key_from_priv_key(algs, priv_key) {
                    Ok(k) => k,
                    Err(e) => {
                        return Err(self.openssl.failed(e));
                    },
                };
                Self::sign_digest(&mut self.openssl, curve, &ec_priv_key, digest)
            },
            SignatureAlgorithm::MlDsa(_) => vstd::pervasive::unreached(),
        }
    }

    /// Returns a copy of a derived public key.
    pub fn export_public_key(&self, pub_key: &ExportedPubKey) -> (r: Result<ExportedPubKey, CryptoError>)
        ensures
            (r matches Ok(k) && k.ecdsa_key().coordinates() == pub_key.ecdsa_key().coordinates()
                && k.ecdsa_key().spec_curve_size() == pub_key.ecdsa_key().spec_curve_size()),
    {
        Ok(pub_key.clone())
    }
}

impl Default for OpensslCrypto {
    /// The same as `new`.
    fn default() -> (r: Self)
        ensures
            r.slots() == Seq::<(Seq<u8>, Seq<u8>)>::empty(),
            r.random_draws() == Seq::<Seq<u8>>::empty(),
            r.openssl_failures() == 0,
    {
        Self::new()
    }
}

} // verus!
