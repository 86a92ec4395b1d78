use vstd::prelude::*;

verus! {

/// Errors reported by the cryptographic layer.
///
/// Errors that come from a lower layer carry the error code that the
/// platform library returned.
#[derive(Debug, PartialEq, Eq, Clone, Copy, Structural)]
pub enum CryptoError {
    AbstractionLayer(u32),
    CryptoLibError(u32),
    Size,
    NotImplemented,
    HashError(u32),
    InvalidExportedCdiHandle,
    ExportedCdiHandleDuplicateCdi,
    ExportedCdiHandleLimitExceeded,
}

impl CryptoError {
    /// The numeric code of each variant; it does not include the extended
    /// detail that some variants carry.
    pub open spec fn code(self) -> u16 {
        match self {
            CryptoError::AbstractionLayer(_) => 0x1,
            CryptoError::CryptoLibError(_) => 0x2,
            CryptoError::Size => 0x3,
            CryptoError::NotImplemented => 0x4,
            CryptoError::HashError(_) => 0x5,
            CryptoError::InvalidExportedCdiHandle => 0x6,
            CryptoError::ExportedCdiHandleDuplicateCdi => 0x7,
            CryptoError::ExportedCdiHandleLimitExceeded => 0x8,
        }
    }

    /// The extended detail of a variant that carries one.
    pub open spec fn detail(self) -> Option<u32> {
        match self {
            CryptoError::AbstractionLayer(code) => Some(code),
            CryptoError::CryptoLibError(code) => Some(code),
            CryptoError::HashError(code) => Some(code),
            _ => None,
        }
    }

    /// Returns the numeric code of the variant.
    pub fn discriminant(&self) -> (r: u16)
        ensures
            r == self.code(),
    {
        match self {
            CryptoError::AbstractionLayer(_) => 0x1,
            CryptoError::CryptoLibError(_) => 0x2,
            CryptoError::Size => 0x3,
            CryptoError::NotImplemented => 0x4,
            CryptoError::HashError(_) => 0x5,
            CryptoError::InvalidExportedCdiHandle => 0x6,
            CryptoError::ExportedCdiHandleDuplicateCdi => 0x7,
            CryptoError::ExportedCdiHandleLimitExceeded => 0x8,
        }
    }

    /// Returns the code that a lower layer reported, for the variants that
    /// carry one.
    pub fn get_error_detail(&self) -> (r: Option<u32>)
        ensures
            r == self.detail(),
    {
        match self {
            CryptoError::AbstractionLayer(code)
            | CryptoError::CryptoLibError(code)
            | CryptoError::HashError(code) => Some(*code),
            CryptoError::Size
            | CryptoError::InvalidExportedCdiHandle
            | CryptoError::ExportedCdiHandleLimitExceeded
            | CryptoError::ExportedCdiHandleDuplicateCdi
            | CryptoError::NotImplemented => None,
        }
    }
}

/// Every variant has its own code: the code determines the variant, and,
/// together with the detail, the whole error.
pub proof fn lemma_crypto_error_code_injective(a: CryptoError, b: CryptoError)
    ensures
        (a.code() == b.code() && a.detail() == b.detail()) <==> a == b,
        1 <= a.code() <= 8,
{
}

} // verus!
