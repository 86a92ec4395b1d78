use vstd::prelude::*;
use vstd::std_specs::convert::FromSpecImpl;
use ::openssl::bn::{BigNum, BigNumContext, BigNumRef};
use ::openssl::ec::{EcGroup, EcKey, EcPoint, EcPointRef};
use ::openssl::error::ErrorStack;
use ::openssl::hash::MessageDigest;
use ::openssl::hash::Hasher as OpensslHashState;
use ::openssl::nid::Nid;
use ::openssl::pkey::Private;
use ::openssl::ecdsa::EcdsaSig as OpensslEcdsaSig;
use crate::ecdsa::EcdsaAlgorithm;
use crate::error::CryptoError;

verus! {

#[verifier::external_type_specification]
#[verifier::external_body]
pub struct ExErrorStack(ErrorStack);

#[verifier::external_type_specification]
#[verifier::external_body]
pub struct ExOpensslHasher(OpensslHashState);

#[verifier::external_type_specification]
#[verifier::external_body]
pub struct ExEcGroup(EcGroup);

#[verifier::external_type_specification]
#[verifier::external_body]
pub struct ExEcPoint(EcPoint);

#[verifier::external_type_specification]
#[verifier::external_body]
pub struct ExEcPointRef(EcPointRef);

#[verifier::external_type_specification]
#[verifier::external_body]
pub struct ExBigNum(BigNum);

#[verifier::external_type_specification]
#[verifier::external_body]
pub struct ExBigNumRef(BigNumRef);

#[verifier::external_type_specification]
#[verifier::external_body]
pub struct ExBigNumContext(BigNumContext);

#[verifier::external_type_specification]
#[verifier::external_body]
pub struct ExMessageDigest(MessageDigest);

#[verifier::external_type_specification]
#[verifier::external_body]
pub struct ExPrivate(::openssl::pkey::Private);

#[verifier::external_type_specification]
#[verifier::external_body]
#[verifier::reject_recursive_types(K)]
pub struct ExEcKey<K>(::openssl::ec::EcKey<K>);

#[verifier::external_type_specification]
#[verifier::external_body]
pub struct ExOpensslEcdsaSig(OpensslEcdsaSig);

/// The packed OpenSSL codes of the errors recorded on an error stack, oldest
/// first.
pub uninterp spec fn error_stack_codes(e: ErrorStack) -> Seq<u64>;

/// `ErrorStack::errors`, then its length: how many errors the stack holds.
#[verifier::external_body]
pub(crate) fn error_stack_len(e: &ErrorStack) -> (r: usize)
    ensures
        r == error_stack_codes(*e).len(),
{
    e.errors().len()
}

/// `ErrorStack::errors`, then `openssl::error::Error::code` of the error at
/// `i`: its packed OpenSSL code.
#[verifier::external_body]
pub(crate) fn error_stack_code_at(e: &ErrorStack, i: usize) -> (r: u64)
    requires
        i < error_stack_codes(*e).len(),
    ensures
        r == error_stack_codes(*e)[i as int],
{
    u64::from(e.errors()[i].code())
}

/// The code a `CryptoLibError` keeps of an error stack: the oldest error's
/// code when it fits in 32 bits, and 0 otherwise or for an empty stack.
pub open spec fn kept_code(codes: Seq<u64>) -> u32 {
    if codes.len() != 0 && codes[0] <= 0xffff_ffff {
        codes[0] as u32
    } else {
        0
    }
}

/// `openssl::rand::rand_bytes`: fills the whole of `buf` with output of
/// OpenSSL's random generator, which `record` logs as the next draw, or
/// fails. It panics on a buffer longer than `c_int::MAX`, which the
/// `requires` rules out.
#[verifier::external_body]
pub(crate) fn openssl_rand_bytes(record: &mut OpensslRecord, buf: &mut [u8]) -> (r: Result<
    (),
    ErrorStack,
>)
    requires
        old(buf)@.len() <= i32::MAX,
    ensures
        final(buf)@.len() == old(buf)@.len(),
        final(record).failures() == old(record).failures(),
        r is Ok ==> final(record).draws() == old(record).draws().push(final(buf)@),
        r is Err ==> final(record).draws() == old(record).draws(),
{
    ::openssl::rand::rand_bytes(buf)
}

/// The NID OpenSSL gives the curve of an ECDSA algorithm
/// (`NID_X9_62_prime256v1`, `NID_secp384r1`).
pub open spec fn curve_nid(curve: EcdsaAlgorithm) -> i32 {
    match curve {
        EcdsaAlgorithm::Bit256 => 415,
        EcdsaAlgorithm::Bit384 => 715,
    }
}

/// The number whose big-endian bytes are `bytes`.
pub open spec fn be_value(bytes: Seq<u8>) -> nat
    decreases bytes.len(),
{
    if bytes.len() == 0 {
        0
    } else {
        be_value(bytes.drop_last()) * 256 + bytes.last() as nat
    }
}

/// The digest that OpenSSL computes over `data` with the digest type whose
/// NID is `nid`.
pub uninterp spec fn openssl_digest(nid: i32, data: Seq<u8>) -> Seq<u8>;

/// That `(r, s)` is an ECDSA signature of `digest` made with the private
/// scalar `d` on the curve whose NID is `nid`: for some nonce `k`, `r` is the
/// x coordinate of `k·G` modulo the group order `n` and `s` is
/// `k⁻¹·(e + r·d)` modulo `n`, where `e` is the digest as ECDSA reads it.
pub uninterp spec fn ecdsa_signs(nid: i32, d: int, digest: Seq<u8>, r: int, s: int) -> bool;

/// The curve NID and the private scalar of the EC private key that the PEM
/// text `pem` holds.
pub uninterp spec fn pem_ec_private_key(pem: Seq<u8>) -> (i32, int);

/// The affine coordinates `(x, y)` of `d·G` on the curve whose NID is `nid`.
pub uninterp spec fn ec_public_point(nid: i32, d: int) -> (int, int);

/// An OpenSSL digest type, with its NID.
pub(crate) struct OpensslDigestType {
    md: MessageDigest,
    nid: Ghost<i32>,
}

/// An OpenSSL group of a named curve, with the curve's NID.
pub(crate) struct OpensslGroup {
    group: EcGroup,
    nid: i32,
}

/// An OpenSSL big number, with its value.
pub(crate) struct OpensslNumber {
    bn: BigNum,
    value: Ghost<int>,
}

/// A borrowed OpenSSL big number, with its value.
pub(crate) struct OpensslNumberRef<'a> {
    bn: &'a BigNumRef,
    value: Ghost<int>,
}

/// An OpenSSL curve point, with what it is known to be: the generator of
/// the curve with the given NID times the given scalar.
pub(crate) struct OpensslPoint {
    point: EcPoint,
    multiple: Ghost<Option<(i32, int)>>,
}

/// A borrowed OpenSSL curve point, with what it is known to be, as for
/// `OpensslPoint`.
pub(crate) struct OpensslPointRef<'a> {
    point: &'a EcPointRef,
    multiple: Ghost<Option<(i32, int)>>,
}

/// An OpenSSL EC private key, with its curve's NID, its private scalar and
/// what its public point is known to be.
pub(crate) struct OpensslEcKey {
    key: EcKey<Private>,
    nid: Ghost<i32>,
    private: Ghost<int>,
    public: Ghost<Option<(i32, int)>>,
}

/// An OpenSSL ECDSA signature, with its components `r` and `s`.
pub(crate) struct OpensslSignature {
    sig: OpensslEcdsaSig,
    r: Ghost<int>,
    s: Ghost<int>,
}

/// `MessageDigest::sha256`: the SHA-256 digest type (NID 672).
#[verifier::external_body]
pub(crate) fn message_digest_sha256() -> (r: OpensslDigestType)
    ensures
        r.nid() == 672,
{
    OpensslDigestType { md: MessageDigest::sha256(), nid: Ghost(672) }
}

/// `MessageDigest::sha384`: the SHA-384 digest type (NID 673).
#[verifier::external_body]
pub(crate) fn message_digest_sha384() -> (r: OpensslDigestType)
    ensures
        r.nid() == 673,
{
    OpensslDigestType { md: MessageDigest::sha384(), nid: Ghost(673) }
}

/// `openssl::hash::Hasher::new`: a running hash of the digest type, fed
/// nothing yet, or a failure.
#[verifier::external_body]
pub(crate) fn openssl_hasher_new(md: &OpensslDigestType) -> (r: Result<OpensslHasher, ErrorStack>)
    ensures
        r matches Ok(h) ==> h.hash_nid() == md.nid() && h.fed() == Seq::<u8>::empty()
            && h.no_failed_update(),
{
    match OpensslHashState::new(md.md) {
        Ok(state) => Ok(OpensslHasher { state, nid: Ghost(md.nid@), fed: Ghost(Seq::empty()), intact: Ghost(true) }),
        Err(e) => Err(e),
    }
}

/// `openssl::hash::Hasher::update`: feeds `data` to the running hash, or
/// fails, after which the hash's state is not known.
#[verifier::external_body]
pub(crate) fn openssl_hasher_update(h: &mut OpensslHasher, data: &[u8]) -> (r: Result<(), ErrorStack>)
    ensures
        final(h).hash_nid() == old(h).hash_nid(),
        r is Ok ==> final(h).fed() == old(h).fed() + data@ && final(h).no_failed_update()
            == old(h).no_failed_update(),
        r is Err ==> !final(h).no_failed_update(),
{
    h.state.update(data)
}

/// `openssl::hash::Hasher::finish`: the digest of the data fed, as bytes; it
/// is at most `EVP_MAX_MD_SIZE` (64) bytes long.
#[verifier::external_body]
pub(crate) fn openssl_hasher_finish(h: &mut OpensslHasher) -> (r: Result<Vec<u8>, ErrorStack>)
    ensures
        r matches Ok(v) ==> v@.len() <= 64 && (old(h).no_failed_update() ==> v@ == openssl_digest(
            old(h).hash_nid(),
            old(h).fed(),
        )),
{
    match h.state.finish() {
        Ok(d) => Ok(d.to_vec()),
        Err(e) => Err(e),
    }
}

/// `EcGroup::from_curve_name` (of `Nid::from_raw(nid)`): the group of the
/// named curve, or a failure.
#[verifier::external_body]
pub(crate) fn ec_group_from_curve_name(nid: i32) -> (r: Result<OpensslGroup, ErrorStack>)
    ensures
        r matches Ok(g) ==> g.nid() == nid,
{
    match EcGroup::from_curve_name(Nid::from_raw(nid)) {
        Ok(group) => Ok(OpensslGroup { group, nid }),
        Err(e) => Err(e),
    }
}

/// `EcPoint::new`: a new point of the group, or a failure.
#[verifier::external_body]
pub(crate) fn ec_point_new(group: &OpensslGroup) -> (r: Result<OpensslPoint, ErrorStack>)
    ensures
        r matches Ok(p) ==> p.multiple() is None,
{
    match EcPoint::new(&group.group) {
        Ok(point) => Ok(OpensslPoint { point, multiple: Ghost(None) }),
        Err(e) => Err(e),
    }
}

/// `BigNumContext::new`: a scratch context for big number arithmetic, or a
/// failure.
#[verifier::external_body]
pub(crate) fn big_num_context_new() -> (r: Result<BigNumContext, ErrorStack>) {
    BigNumContext::new()
}

/// `BigNum::new`: a big number of value 0, or a failure.
#[verifier::external_body]
pub(crate) fn big_num_new() -> (r: Result<OpensslNumber, ErrorStack>)
    ensures
        r matches Ok(b) ==> b.value() == 0,
{
    match BigNum::new() {
        Ok(bn) => Ok(OpensslNumber { bn, value: Ghost(0) }),
        Err(e) => Err(e),
    }
}

/// `BigNum::from_slice`: the number whose big-endian bytes are `n`, or a
/// failure. It panics on more than `c_int::MAX` bytes, which the `requires`
/// rules out.
#[verifier::external_body]
pub(crate) fn big_num_from_slice(n: &[u8]) -> (r: Result<OpensslNumber, ErrorStack>)
    requires
        n@.len() <= i32::MAX,
    ensures
        r matches Ok(b) ==> b.value() == be_value(n@),
{
    match BigNum::from_slice(n) {
        Ok(bn) => Ok(OpensslNumber { bn, value: Ghost(be_value(n@) as int) }),
        Err(e) => Err(e),
    }
}

/// `Deref::deref` of `BigNum`: the number, borrowed as a `BigNumRef`.
#[verifier::external_body]
pub(crate) fn big_num_as_ref(n: &OpensslNumber) -> (r: OpensslNumberRef<'_>)
    ensures
        r.value() == n.value(),
{
    OpensslNumberRef { bn: ::core::ops::Deref::deref(&n.bn), value: Ghost(n.value@) }
}

/// `BigNumRef::to_vec_padded`: the number as big-endian bytes left-padded
/// with zeros to exactly `pad_to` bytes; it fails when the number needs
/// more.
#[verifier::external_body]
pub(crate) fn big_num_to_vec_padded(n: &OpensslNumberRef, pad_to: i32) -> (r: Result<Vec<u8>, ErrorStack>)
    requires
        pad_to >= 0,
    ensures
        r matches Ok(v) ==> v@.len() == pad_to && be_value(v@) == n.value(),
{
    n.bn.to_vec_padded(pad_to)
}

/// `EcPointRef::mul_generator2`: sets `point` to the group's generator
/// times `n`, or fails, after which the point is not known.
#[verifier::external_body]
pub(crate) fn ec_point_mul_generator(
    point: &mut OpensslPoint,
    group: &OpensslGroup,
    n: &OpensslNumber,
    ctx: &mut BigNumContext,
) -> (r: Result<(), ErrorStack>)
    ensures
        r is Ok ==> final(point).multiple() == Some((group.nid(), n.value())),
        r is Err ==> final(point).multiple() is None,
{
    point.point.mul_generator2(&group.group, &n.bn, ctx)
}

/// `EcPointRef::affine_coordinates`: sets `x` and `y` to the affine
/// coordinates of the point on the group, or fails.
#[verifier::external_body]
pub(crate) fn ec_point_affine_coordinates(
    point: &OpensslPointRef,
    group: &OpensslGroup,
    x: &mut OpensslNumber,
    y: &mut OpensslNumber,
    ctx: &mut BigNumContext,
) -> (r: Result<(), ErrorStack>)
    ensures
        r is Ok ==> match point.multiple() {
            Some((nid, d)) => nid == group.nid() ==> (final(x).value(), final(y).value())
                == ec_public_point(nid, d),
            None => true,
        },
{
    point.point.affine_coordinates(&group.group, &mut x.bn, &mut y.bn, ctx)
}

/// `EcKey::from_private_components`: the key pair made of the private
/// number `n` and the public point on the group, or a failure.
#[verifier::external_body]
pub(crate) fn ec_key_from_private_components(
    group: &OpensslGroup,
    n: &OpensslNumber,
    public_key: &OpensslPoint,
) -> (r: Result<OpensslEcKey, ErrorStack>)
    ensures
        r matches Ok(k) ==> k.nid() == group.nid() && k.private() == n.value() && k.public()
            == public_key.multiple(),
{
    match EcKey::from_private_components(&group.group, &n.bn, &public_key.point) {
        Ok(key) => Ok(OpensslEcKey {
            key,
            nid: Ghost(group.nid),
            private: Ghost(n.value@),
            public: Ghost(public_key.multiple@),
        }),
        Err(e) => Err(e),
    }
}

/// `EcKey::private_key_from_pem`: the EC private key in the PEM text, or a
/// failure. It panics on more than `c_int::MAX` bytes, which the `requires`
/// rules out.
#[verifier::external_body]
pub(crate) fn ec_private_key_from_pem(pem: &[u8]) -> (r: Result<OpensslEcKey, ErrorStack>)
    requires
        pem@.len() <= i32::MAX,
    ensures
        r matches Ok(k) ==> (k.nid(), k.private()) == pem_ec_private_key(pem@),
{
    match EcKey::private_key_from_pem(pem) {
        Ok(key) => Ok(OpensslEcKey {
            key,
            nid: Ghost(pem_ec_private_key(pem@).0),
            private: Ghost(pem_ec_private_key(pem@).1),
            public: Ghost(None),
        }),
        Err(e) => Err(e),
    }
}

/// `EcKeyRef::public_key`: the key's public point.
#[verifier::external_body]
pub(crate) fn ec_key_public_key(k: &OpensslEcKey) -> (r: OpensslPointRef<'_>)
    ensures
        r.multiple() == k.public(),
{
    OpensslPointRef { point: k.key.public_key(), multiple: Ghost(k.public@) }
}

/// `openssl::ecdsa::EcdsaSig::sign`: an ECDSA signature of `data` with the
/// key, whose components satisfy the signing equation for the key's curve
/// and scalar, or a failure. It panics on more than `c_int::MAX` bytes,
/// which the `requires` rules out.
#[verifier::external_body]
pub(crate) fn openssl_ecdsa_sign(data: &[u8], key: &OpensslEcKey) -> (r: Result<OpensslSignature, ErrorStack>)
    requires
        data@.len() <= i32::MAX,
    ensures
        r matches Ok(sig) ==> ecdsa_signs(key.nid(), key.private(), data@, sig.r_value(), sig.s_value()),
{
    match OpensslEcdsaSig::sign(data, &key.key) {
        Ok(sig) => Ok(OpensslSignature {
            sig,
            r: Ghost(vstd::pervasive::arbitrary()),
            s: Ghost(vstd::pervasive::arbitrary()),
        }),
        Err(e) => Err(e),
    }
}

/// `EcdsaSigRef::r`: the component `r` of the signature.
#[verifier::external_body]
pub(crate) fn ecdsa_sig_r(sig: &OpensslSignature) -> (r: OpensslNumberRef<'_>)
    ensures
        r.value() == sig.r_value(),
{
    OpensslNumberRef { bn: sig.sig.r(), value: Ghost(sig.r@) }
}

/// `EcdsaSigRef::s`: the component `s` of the signature.
#[verifier::external_body]
pub(crate) fn ecdsa_sig_s(sig: &OpensslSignature) -> (r: OpensslNumberRef<'_>)
    ensures
        r.value() == sig.s_value(),
{
    OpensslNumberRef { bn: sig.sig.s(), value: Ghost(sig.s@) }
}

impl From<ErrorStack> for CryptoError {
    /// Keeps the code of the oldest error on the stack, or 0 when the stack
    /// is empty or the code does not fit in 32 bits.
    fn from(e: ErrorStack) -> (r: CryptoError) {
        let e_code: u32 = if error_stack_len(&e) != 0 {
            let code = error_stack_code_at(&e, 0);
            if code <= 0xffff_ffff {
                code as u32
            } else {
                0u32
            }
        } else {
            0u32
        };
        CryptoError::CryptoLibError(e_code)
    }
}

impl FromSpecImpl<ErrorStack> for CryptoError {
    open spec fn obeys_from_spec() -> bool {
        true
    }

    open spec fn from_spec(e: ErrorStack) -> CryptoError {
        CryptoError::CryptoLibError(kept_code(error_stack_codes(e)))
    }
}

/// A running hash kept by OpenSSL, with the NID of its digest type, a
/// record of the bytes fed to it, and whether every update of it succeeded.
/// Only the calls into OpenSSL in this module change what is recorded.
pub struct OpensslHasher {
    state: OpensslHashState,
    nid: Ghost<i32>,
    fed: Ghost<Seq<u8>>,
    intact: Ghost<bool>,
}

impl OpensslHasher {
    /// The NID of the hash's digest type.
    pub closed spec fn hash_nid(&self) -> i32 {
        self.nid@
    }

    /// The bytes fed to the hash so far, in order.
    pub closed spec fn fed(&self) -> Seq<u8> {
        self.fed@
    }

    /// Whether no OpenSSL update of the hash has failed.
    pub closed spec fn no_failed_update(&self) -> bool {
        self.intact@
    }
}

impl OpensslDigestType {
    /// The NID of the digest type.
    pub(crate) closed spec fn nid(&self) -> i32 {
        self.nid@
    }
}

impl OpensslGroup {
    /// The NID of the group's curve.
    pub(crate) closed spec fn nid(&self) -> i32 {
        self.nid
    }
}

impl OpensslNumber {
    /// The number's value.
    pub(crate) closed spec fn value(&self) -> int {
        self.value@
    }
}

impl<'a> OpensslNumberRef<'a> {
    /// The number's value.
    pub(crate) closed spec fn value(&self) -> int {
        self.value@
    }
}

impl OpensslPoint {
    /// The curve NID and scalar whose multiple of the generator the point
    /// is known to be, if any.
    pub(crate) closed spec fn multiple(&self) -> Option<(i32, int)> {
        self.multiple@
    }
}

impl<'a> OpensslPointRef<'a> {
    /// As for `OpensslPoint::multiple`.
    pub(crate) closed spec fn multiple(&self) -> Option<(i32, int)> {
        self.multiple@
    }
}

impl OpensslEcKey {
    /// The NID of the key's curve.
    pub(crate) closed spec fn nid(&self) -> i32 {
        self.nid@
    }

    /// The key's private scalar.
    pub(crate) closed spec fn private(&self) -> int {
        self.private@
    }

    /// What the key's public point is known to be, as for
    /// `OpensslPoint::multiple`.
    pub(crate) closed spec fn public(&self) -> Option<(i32, int)> {
        self.public@
    }
}

impl OpensslSignature {
    /// The component `r` of the signature.
    pub(crate) closed spec fn r_value(&self) -> int {
        self.r@
    }

    /// The component `s` of the signature.
    pub(crate) closed spec fn s_value(&self) -> int {
        self.s@
    }
}

/// What a back end has had from OpenSSL: the outputs of OpenSSL's random
/// generator it drew, in order, and how many of its OpenSSL calls failed.
/// Only the call into OpenSSL's generator in this module adds a draw, and
/// only an error stack, which a failed OpenSSL call alone returns, adds a
/// failure.
pub(crate) struct OpensslRecord {
    draws: Ghost<Seq<Seq<u8>>>,
    failures: Ghost<nat>,
}

impl OpensslRecord {
    /// The outputs of the random generator drawn so far, in order.
    pub(crate) closed spec fn draws(&self) -> Seq<Seq<u8>> {
        self.draws@
    }

    /// How many OpenSSL calls have failed so far.
    pub(crate) closed spec fn failures(&self) -> nat {
        self.failures@
    }

    /// Nothing drawn, nothing failed.
    pub(crate) fn new() -> (r: Self)
        ensures
            r.draws() == Seq::<Seq<u8>>::empty(),
            r.failures() == 0,
    {
        OpensslRecord { draws: Ghost(Seq::empty()), failures: Ghost(0) }
    }

    /// Notes the failure whose error stack is `e` and returns the library
    /// error for it: the code of the oldest error on the stack.
    pub(crate) fn failed(&mut self, e: ErrorStack) -> (r: CryptoError)
        ensures
            r == CryptoError::CryptoLibError(kept_code(error_stack_codes(e))),
            final(self).failures() == old(self).failures() + 1,
            final(self).draws() == old(self).draws(),
    {
        self.failures = Ghost(self.failures@ + 1);
        CryptoError::from(e)
    }
}

} // verus!
