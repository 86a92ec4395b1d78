use vstd::prelude::*;
use vstd::std_specs::convert::FromSpecImpl;
use crate::algorithm::SignatureAlgorithm;
use crate::ecdsa::EcdsaAlgorithm;
use crate::error::CryptoError;
use crate::ml_dsa::MldsaAlgorithm;

verus! {

/// The profiles of a DICE Protection Environment: which signature
/// algorithm and hash it uses.
#[derive(Copy, Clone, Debug, PartialEq, Eq, Structural)]
pub enum DpeProfile {
    P256Sha256,
    P384Sha384,
    Mldsa87,
}

/// Key derivation context of the ECDSA profiles: the text "ECC".
pub const ECC_KEY_CONTEXT: [u8; 3] = [0x45, 0x43, 0x43];

/// Key derivation context of the ML-DSA profile: the text "MLDSA".
pub const MLDSA_KEY_CONTEXT: [u8; 5] = [0x4d, 0x4c, 0x44, 0x53, 0x41];

impl DpeProfile {
    /// The profile's number on the wire.
    pub open spec fn number(self) -> u32 {
        match self {
            DpeProfile::P256Sha256 => 3,
            DpeProfile::P384Sha384 => 4,
            DpeProfile::Mldsa87 => 5,
        }
    }

    pub open spec fn spec_tci_size(self) -> usize {
        match self {
            DpeProfile::P256Sha256 => 32,
            DpeProfile::P384Sha384 => 48,
            DpeProfile::Mldsa87 => 48,
        }
    }

    pub open spec fn spec_alg(self) -> SignatureAlgorithm {
        match self {
            DpeProfile::P256Sha256 => SignatureAlgorithm::Ecdsa(EcdsaAlgorithm::Bit256),
            DpeProfile::P384Sha384 => SignatureAlgorithm::Ecdsa(EcdsaAlgorithm::Bit384),
            DpeProfile::Mldsa87 => SignatureAlgorithm::MlDsa(MldsaAlgorithm::KL87),
        }
    }

    pub open spec fn spec_key_context(self) -> Seq<u8> {
        match self {
            DpeProfile::P256Sha256 | DpeProfile::P384Sha384 => seq![0x45u8, 0x43, 0x43],
            DpeProfile::Mldsa87 => seq![0x4du8, 0x4c, 0x44, 0x53, 0x41],
        }
    }

    /// Size in bytes of a TCI measurement.
    pub fn tci_size(&self) -> (r: usize)
        ensures
            r == self.spec_tci_size(),
    {
        match self {
            DpeProfile::P256Sha256 => 32,
            DpeProfile::P384Sha384 => 48,
            DpeProfile::Mldsa87 => 48,
        }
    }

    /// Size in bytes of an ECC integer; the same as a TCI measurement.
    pub fn ecc_int_size(&self) -> (r: usize)
        ensures
            r == self.spec_tci_size(),
    {
        self.tci_size()
    }

    /// Size in bytes of a hash; the same as a TCI measurement.
    pub fn hash_size(&self) -> (r: usize)
        ensures
            r == self.spec_tci_size(),
    {
        self.tci_size()
    }

    /// The signature algorithm of the profile.
    pub fn alg(&self) -> (r: SignatureAlgorithm)
        ensures
            r == self.spec_alg(),
    {
        match self {
            DpeProfile::P256Sha256 => SignatureAlgorithm::Ecdsa(EcdsaAlgorithm::Bit256),
            DpeProfile::P384Sha384 => SignatureAlgorithm::Ecdsa(EcdsaAlgorithm::Bit384),
            DpeProfile::Mldsa87 => SignatureAlgorithm::MlDsa(MldsaAlgorithm::KL87),
        }
    }

    /// The context that keys of the profile are derived with.
    pub fn key_context(&self) -> (r: &'static [u8])
        ensures
            r@ == self.spec_key_context(),
    {
        match self {
            DpeProfile::P256Sha256 | DpeProfile::P384Sha384 => {
                let r = ECC_KEY_CONTEXT.as_slice();
                assert(r@ =~= seq![0x45u8, 0x43, 0x43]);
                r
            },
            DpeProfile::Mldsa87 => {
                let r = MLDSA_KEY_CONTEXT.as_slice();
                assert(r@ =~= seq![0x4du8, 0x4c, 0x44, 0x53, 0x41]);
                r
            },
        }
    }
}

impl From<DpeProfile> for u32 {
    /// The profile's number on the wire.
    fn from(item: DpeProfile) -> (r: u32) {
        match item {
            DpeProfile::P256Sha256 => 3,
            DpeProfile::P384Sha384 => 4,
            DpeProfile::Mldsa87 => 5,
        }
    }
}

impl FromSpecImpl<DpeProfile> for u32 {
    open spec fn obeys_from_spec() -> bool {
        true
    }

    open spec fn from_spec(item: DpeProfile) -> u32 {
        item.number()
    }
}

/// The ECDSA profiles hash with a digest as long as their measurements.
pub proof fn lemma_ecdsa_profile_sizes_agree(profile: DpeProfile)
    requires
        profile != DpeProfile::Mldsa87,
    ensures
        profile.spec_alg().spec_digest_size() == profile.spec_tci_size(),
        profile.spec_alg().spec_public_key_size() == profile.spec_tci_size(),
{
}

/// The wire number identifies the profile.
pub proof fn lemma_profile_number_injective(a: DpeProfile, b: DpeProfile)
    ensures
        a.number() == b.number() <==> a == b,
{
}

/// Size in bytes of a TCI measurement.
pub const TCI_SIZE: usize = 48;

/// A TCI measurement.
#[derive(Copy, Clone, Debug, PartialEq, Eq)]
pub struct TciMeasurement(pub [u8; TCI_SIZE]);

impl Default for TciMeasurement {
    /// The measurement of all zero bytes.
    fn default() -> (r: Self)
        ensures
            r.0@ == Seq::new(TCI_SIZE as nat, |i: int| 0u8),
    {
        let r = Self([0; TCI_SIZE]);
        assert(r.0@ =~= Seq::new(TCI_SIZE as nat, |i: int| 0u8));
        r
    }
}

/// The data of a node of the TCI tree.
#[derive(Default, Copy, Clone, PartialEq, Eq)]
pub struct TciNodeData {
    pub tci_type: u32,
    pub tci_cumulative: TciMeasurement,
    pub tci_current: TciMeasurement,
    pub locality: u32,
    pub svn: u32,
}

impl TciNodeData {
    /// A node whose fields are all zero.
    pub fn new() -> (r: TciNodeData)
        ensures
            r.tci_type == 0,
            r.tci_cumulative.0@ == Seq::new(TCI_SIZE as nat, |i: int| 0u8),
            r.tci_current.0@ == Seq::new(TCI_SIZE as nat, |i: int| 0u8),
            r.locality == 0,
            r.svn == 0,
    {
        let r = TciNodeData {
            tci_type: 0,
            tci_cumulative: TciMeasurement([0; TCI_SIZE]),
            tci_current: TciMeasurement([0; TCI_SIZE]),
            locality: 0,
            svn: 0,
        };
        assert(r.tci_cumulative.0@ =~= Seq::new(TCI_SIZE as nat, |i: int| 0u8));
        assert(r.tci_current.0@ =~= Seq::new(TCI_SIZE as nat, |i: int| 0u8));
        r
    }
}

/// An error of the platform layer, as the error codes read it: the
/// platform's numeric code and, where the platform gives one, its extended
/// detail.
#[derive(Debug, PartialEq, Eq, Clone, Copy, Structural)]
pub struct PlatformError {
    pub code: u16,
    pub detail: Option<u32>,
}

impl PlatformError {
    /// The platform's numeric code.
    pub fn discriminant(&self) -> (r: u16)
        ensures
            r == self.code,
    {
        self.code
    }

    /// The platform's extended detail, where it gives one.
    pub fn get_error_detail(&self) -> (r: Option<u32>)
        ensures
            r == self.detail,
    {
        self.detail
    }
}

/// Errors found when checking the TCI tree.
#[derive(Debug, PartialEq, Eq, Clone, Copy, Structural)]
pub enum ValidationError {
    MultipleNormalConnectedComponents,
    CyclesInTree,
    InactiveContextInvalidParent,
    InactiveContextWithChildren,
    BadContextState,
    BadContextType,
    InactiveContextWithMeasurement,
    MixedContextLocality,
    MultipleDefaultContexts,
    SimulationNotSupported,
    ParentDoesNotExist,
    InternalDiceNotSupported,
    InternalInfoNotSupported,
    ChildDoesNotExist,
    InactiveContextWithFlagSet,
    LocalityMismatch,
    DanglingRetiredContext,
    MixedContextTypeConnectedComponents,
    ChildWithMultipleParents,
    ParentChildLinksCorrupted,
    AllowCaNotSupported,
    AllowX509NotSupported,
    InactiveParent,
    InactiveChild,
    DpeNotMarkedInitialized,
    InvalidMarker,
    VersionMismatch,
}

impl ValidationError {
    /// The numeric code of each variant.
    pub open spec fn code(self) -> u16 {
        match self {
            ValidationError::MultipleNormalConnectedComponents => 0x0,
            ValidationError::CyclesInTree => 0x1,
            ValidationError::InactiveContextInvalidParent => 0x2,
            ValidationError::InactiveContextWithChildren => 0x3,
            ValidationError::BadContextState => 0x4,
            ValidationError::BadContextType => 0x5,
            ValidationError::InactiveContextWithMeasurement => 0x6,
            ValidationError::MixedContextLocality => 0x7,
            ValidationError::MultipleDefaultContexts => 0x8,
            ValidationError::SimulationNotSupported => 0x9,
            ValidationError::ParentDoesNotExist => 0xA,
            ValidationError::InternalDiceNotSupported => 0xB,
            ValidationError::InternalInfoNotSupported => 0xC,
            ValidationError::ChildDoesNotExist => 0xD,
            ValidationError::InactiveContextWithFlagSet => 0xE,
            ValidationError::LocalityMismatch => 0xF,
            ValidationError::DanglingRetiredContext => 0x10,
            ValidationError::MixedContextTypeConnectedComponents => 0x11,
            ValidationError::ChildWithMultipleParents => 0x12,
            ValidationError::ParentChildLinksCorrupted => 0x13,
            ValidationError::AllowCaNotSupported => 0x14,
            ValidationError::AllowX509NotSupported => 0x15,
            ValidationError::InactiveParent => 0x16,
            ValidationError::InactiveChild => 0x17,
            ValidationError::DpeNotMarkedInitialized => 0x18,
            ValidationError::InvalidMarker => 0x19,
            ValidationError::VersionMismatch => 0x1A,
        }
    }

    /// Returns the numeric code of the variant.
    pub fn discriminant(&self) -> (r: u16)
        ensures
            r == self.code(),
    {
        match self {
            ValidationError::MultipleNormalConnectedComponents => 0x0,
            ValidationError::CyclesInTree => 0x1,
            ValidationError::InactiveContextInvalidParent => 0x2,
            ValidationError::InactiveContextWithChildren => 0x3,
            ValidationError::BadContextState => 0x4,
            ValidationError::BadContextType => 0x5,
            ValidationError::InactiveContextWithMeasurement => 0x6,
            ValidationError::MixedContextLocality => 0x7,
            ValidationError::MultipleDefaultContexts => 0x8,
            ValidationError::SimulationNotSupported => 0x9,
            ValidationError::ParentDoesNotExist => 0xA,
            ValidationError::InternalDiceNotSupported => 0xB,
            ValidationError::InternalInfoNotSupported => 0xC,
            ValidationError::ChildDoesNotExist => 0xD,
            ValidationError::InactiveContextWithFlagSet => 0xE,
            ValidationError::LocalityMismatch => 0xF,
            ValidationError::DanglingRetiredContext => 0x10,
            ValidationError::MixedContextTypeConnectedComponents => 0x11,
            ValidationError::ChildWithMultipleParents => 0x12,
            ValidationError::ParentChildLinksCorrupted => 0x13,
            ValidationError::AllowCaNotSupported => 0x14,
            ValidationError::AllowX509NotSupported => 0x15,
            ValidationError::InactiveParent => 0x16,
            ValidationError::InactiveChild => 0x17,
            ValidationError::DpeNotMarkedInitialized => 0x18,
            ValidationError::InvalidMarker => 0x19,
            ValidationError::VersionMismatch => 0x1A,
        }
    }
}

/// Error codes of a DICE Protection Environment.
#[derive(Debug, PartialEq, Eq, Clone, Copy, Structural)]
pub enum DpeErrorCode {
    NoError,
    InternalError,
    InvalidCommand,
    InvalidArgument,
    ArgumentNotSupported,
    X509CsrUnset,
    X509InvalidState,
    X509SkipsExhausted,
    X509InvalidWidth,
    X509AlgorithmMismatch,
    InvalidHandle,
    InvalidLocality,
    MaxTcis,
    InvalidMutRefBuf,
    InvalidResponseBuf,
    UninitializedResponseHeader,
    InvalidParentLocality,
    Platform(PlatformError),
    Crypto(CryptoError),
    Validation(ValidationError),
}

impl DpeErrorCode {
    /// The code defined for each variant, without the extended code of the
    /// layer below.
    pub open spec fn code(self) -> u32 {
        match self {
            DpeErrorCode::NoError => 0x0,
            DpeErrorCode::InternalError => 0x1,
            DpeErrorCode::InvalidCommand => 0x2,
            DpeErrorCode::InvalidArgument => 0x3,
            DpeErrorCode::ArgumentNotSupported => 0x4,
            DpeErrorCode::X509CsrUnset => 0x5,
            DpeErrorCode::X509InvalidState => 0x6,
            DpeErrorCode::X509SkipsExhausted => 0x7,
            DpeErrorCode::X509InvalidWidth => 0x8,
            DpeErrorCode::X509AlgorithmMismatch => 0x9,
            DpeErrorCode::InvalidHandle => 0x1000,
            DpeErrorCode::InvalidLocality => 0x1001,
            DpeErrorCode::MaxTcis => 0x1003,
            DpeErrorCode::InvalidMutRefBuf => 0x1004,
            DpeErrorCode::InvalidResponseBuf => 0x1005,
            DpeErrorCode::UninitializedResponseHeader => 0x1006,
            DpeErrorCode::InvalidParentLocality => 0x85,
            DpeErrorCode::Platform(_) => 0x01000000,
            DpeErrorCode::Crypto(_) => 0x02000000,
            DpeErrorCode::Validation(_) => 0x03000000,
        }
    }

    /// The full error code: the variant's code, with the code of the wrapped
    /// error of the layer below in its low bits.
    pub open spec fn full_code(self) -> u32 {
        match self {
            DpeErrorCode::Platform(e) => (self.code() | e.code as u32) as u32,
            DpeErrorCode::Crypto(e) => (self.code() | e.code() as u32) as u32,
            DpeErrorCode::Validation(e) => (self.code() | e.code() as u32) as u32,
            _ => self.code(),
        }
    }

    /// The extended detail that the platform or the cryptographic layer
    /// reported.
    pub open spec fn detail(self) -> Option<u32> {
        match self {
            DpeErrorCode::Platform(e) => e.detail,
            DpeErrorCode::Crypto(e) => e.detail(),
            _ => None,
        }
    }

    /// Returns the code defined for the variant. This does not include the
    /// extended code of the layer below.
    pub fn discriminant(&self) -> (r: u32)
        ensures
            r == self.code(),
    {
        match self {
            DpeErrorCode::NoError => 0x0,
            DpeErrorCode::InternalError => 0x1,
            DpeErrorCode::InvalidCommand => 0x2,
            DpeErrorCode::InvalidArgument => 0x3,
            DpeErrorCode::ArgumentNotSupported => 0x4,
            DpeErrorCode::X509CsrUnset => 0x5,
            DpeErrorCode::X509InvalidState => 0x6,
            DpeErrorCode::X509SkipsExhausted => 0x7,
            DpeErrorCode::X509InvalidWidth => 0x8,
            DpeErrorCode::X509AlgorithmMismatch => 0x9,
            DpeErrorCode::InvalidHandle => 0x1000,
            DpeErrorCode::InvalidLocality => 0x1001,
            DpeErrorCode::MaxTcis => 0x1003,
            DpeErrorCode::InvalidMutRefBuf => 0x1004,
            DpeErrorCode::InvalidResponseBuf => 0x1005,
            DpeErrorCode::UninitializedResponseHeader => 0x1006,
            DpeErrorCode::InvalidParentLocality => 0x85,
            DpeErrorCode::Platform(_) => 0x01000000,
            DpeErrorCode::Crypto(_) => 0x02000000,
            DpeErrorCode::Validation(_) => 0x03000000,
        }
    }

    /// Returns the full error code. For an error wrapped from the layer
    /// below, the variant's code sits in the high bits and the wrapped
    /// error's code in the low sixteen, so the two are added.
    pub fn get_error_code(&self) -> (r: u32)
        ensures
            r == self.full_code(),
            self matches DpeErrorCode::Platform(e) ==> r == 0x01000000 + e.code,
            self matches DpeErrorCode::Crypto(e) ==> r == 0x02000000 + e.code(),
            self matches DpeErrorCode::Validation(e) ==> r == 0x03000000 + e.code(),
    {
        match self {
            DpeErrorCode::Platform(e) => {
                let low = e.discriminant();
                let r = self.discriminant() | low as u32;
                proof {
                    lemma_or_is_add(0x01000000, low);
                }
                r
            },
            DpeErrorCode::Crypto(e) => {
                let low = e.discriminant();
                let r = self.discriminant() | low as u32;
                proof {
                    lemma_or_is_add(0x02000000, low);
                }
                r
            },
            DpeErrorCode::Validation(e) => {
                let low = e.discriminant();
                let r = self.discriminant() | low as u32;
                proof {
                    lemma_or_is_add(0x03000000, low);
                }
                r
            },
            _ => self.discriminant(),
        }
    }

    /// For errors of the platform and cryptographic layers, returns the
    /// extended detail they reported; for all other variants, `None`.
    pub fn get_error_detail(&self) -> (r: Option<u32>)
        ensures
            r == self.detail(),
    {
        match self {
            DpeErrorCode::Platform(e) => e.get_error_detail(),
            DpeErrorCode::Crypto(e) => e.get_error_detail(),
            _ => None,
        }
    }
}

/// The numeric code identifies the validation error.
pub proof fn lemma_validation_code_injective(a: ValidationError, b: ValidationError)
    ensures
        a.code() == b.code() <==> a == b,
        a.code() <= 0x1A,
{
}

/// The codes defined for the DPE errors identify them, apart from the
/// wrapped error of a lower layer.
pub proof fn lemma_dpe_code_identifies_variant(a: DpeErrorCode, b: DpeErrorCode)
    requires
        !(a is Platform || a is Crypto || a is Validation),
    ensures
        a.code() == b.code() <==> a == b,
{
}

proof fn lemma_or_is_add(high: u32, low: u16)
    requires
        high == 0x01000000 || high == 0x02000000 || high == 0x03000000,
    ensures
        (high | low as u32) == high + low,
{
    let l = low as u32;
    assert(l < 0x10000);
    assert((high == 0x01000000 || high == 0x02000000 || high == 0x03000000) && l < 0x10000
        ==> (high | l) == high + l) by (bit_vector);
}

/// Wrapped errors of different layers never share a full error code, and the
/// full code gives back the wrapped error's own code.
pub proof fn lemma_full_code_layers(e: DpeErrorCode)
    ensures
        e matches DpeErrorCode::Platform(p) ==> e.full_code() / 0x01000000 == 1
            && e.full_code() % 0x01000000 == p.code,
        e matches DpeErrorCode::Crypto(c) ==> e.full_code() / 0x01000000 == 2
            && e.full_code() % 0x01000000 == c.code(),
        e matches DpeErrorCode::Validation(v) ==> e.full_code() / 0x01000000 == 3
            && e.full_code() % 0x01000000 == v.code(),
        !(e is Platform || e is Crypto || e is Validation) ==> e.full_code() < 0x01000000,
{
    match e {
        DpeErrorCode::Platform(p) => lemma_or_is_add(0x01000000, p.code),
        DpeErrorCode::Crypto(c) => lemma_or_is_add(0x02000000, c.code()),
        DpeErrorCode::Validation(v) => lemma_or_is_add(0x03000000, v.code()),
        _ => {},
    }
}

impl From<PlatformError> for DpeErrorCode {
    fn from(e: PlatformError) -> (r: DpeErrorCode) {
        DpeErrorCode::Platform(e)
    }
}

impl FromSpecImpl<PlatformError> for DpeErrorCode {
    open spec fn obeys_from_spec() -> bool {
        true
    }

    open spec fn from_spec(e: PlatformError) -> DpeErrorCode {
        DpeErrorCode::Platform(e)
    }
}

impl From<CryptoError> for DpeErrorCode {
    fn from(e: CryptoError) -> (r: DpeErrorCode) {
        DpeErrorCode::Crypto(e)
    }
}

impl FromSpecImpl<CryptoError> for DpeErrorCode {
    open spec fn obeys_from_spec() -> bool {
        true
    }

    open spec fn from_spec(e: CryptoError) -> DpeErrorCode {
        DpeErrorCode::Crypto(e)
    }
}

impl From<ValidationError> for DpeErrorCode {
    fn from(e: ValidationError) -> (r: DpeErrorCode) {
        DpeErrorCode::Validation(e)
    }
}

impl FromSpecImpl<ValidationError> for DpeErrorCode {
    open spec fn obeys_from_spec() -> bool {
        true
    }

    open spec fn from_spec(e: ValidationError) -> DpeErrorCode {
        DpeErrorCode::Validation(e)
    }
}

} // verus!
