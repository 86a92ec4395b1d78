use vstd::prelude::*;
use crate::ecdsa::EcdsaAlgorithm;
use crate::ml_dsa::MldsaAlgorithm;

verus! {

/// The signature algorithms.
#[derive(Debug, Clone, Copy, PartialEq, Eq, Structural)]
pub enum SignatureAlgorithm {
    Ecdsa(EcdsaAlgorithm),
    MlDsa(MldsaAlgorithm),
}

impl SignatureAlgorithm {
    /// The largest size in bytes of any private key, public key or signature
    /// of any algorithm: the size of an ML-DSA-87 private key.
    pub const MAX_ALG_LEN_BYTES: usize = 4896;

    /// The algorithm whose key material is the largest.
    pub open spec fn max_alg_len() -> SignatureAlgorithm {
        SignatureAlgorithm::MlDsa(MldsaAlgorithm::KL87)
    }

    pub open spec fn spec_digest_size(self) -> usize {
        match self {
            SignatureAlgorithm::Ecdsa(ec) => ec.spec_curve_size(),
            SignatureAlgorithm::MlDsa(MldsaAlgorithm::KL87) => 32,
        }
    }

    pub open spec fn spec_signature_size(self) -> usize {
        match self {
            SignatureAlgorithm::Ecdsa(ec) => (ec.spec_curve_size() * 2) as usize,
            SignatureAlgorithm::MlDsa(MldsaAlgorithm::KL87) => 4627,
        }
    }

    pub open spec fn spec_public_key_size(self) -> usize {
        match self {
            SignatureAlgorithm::Ecdsa(ec) => ec.spec_curve_size(),
            SignatureAlgorithm::MlDsa(MldsaAlgorithm::KL87) => 2592,
        }
    }

    pub open spec fn spec_private_key_size(self) -> usize {
        match self {
            SignatureAlgorithm::Ecdsa(ec) => ec.spec_curve_size(),
            SignatureAlgorithm::MlDsa(MldsaAlgorithm::KL87) => 4896,
        }
    }

    /// The largest of the algorithm's private key, public key and signature
    /// sizes.
    pub open spec fn largest_item_size(self) -> usize {
        let a = self.spec_private_key_size();
        let b = self.spec_public_key_size();
        let c = self.spec_signature_size();
        if a >= b && a >= c {
            a
        } else if b >= c {
            b
        } else {
            c
        }
    }

    /// Size in bytes of the digest that the algorithm signs.
    #[verifier::when_used_as_spec(spec_digest_size)]
    pub fn digest_size(self) -> (r: usize)
        ensures
            r == self.spec_digest_size(),
    {
        match self {
            SignatureAlgorithm::Ecdsa(ec) => ec.curve_size(),
            SignatureAlgorithm::MlDsa(MldsaAlgorithm::KL87) => 32,
        }
    }

    /// Size in bytes of a signature.
    #[verifier::when_used_as_spec(spec_signature_size)]
    pub fn signature_size(self) -> (r: usize)
        ensures
            r == self.spec_signature_size(),
    {
        match self {
            SignatureAlgorithm::Ecdsa(ec) => ec.curve_size() * 2,
            SignatureAlgorithm::MlDsa(MldsaAlgorithm::KL87) => 4627,
        }
    }

    /// Size in bytes of an encoded public key.
    #[verifier::when_used_as_spec(spec_public_key_size)]
    pub fn public_key_size(self) -> (r: usize)
        ensures
            r == self.spec_public_key_size(),
    {
        match self {
            SignatureAlgorithm::Ecdsa(ec) => ec.curve_size(),
            SignatureAlgorithm::MlDsa(MldsaAlgorithm::KL87) => 2592,
        }
    }

    /// Size in bytes of an encoded private key.
    #[verifier::when_used_as_spec(spec_private_key_size)]
    pub fn private_key_size(self) -> (r: usize)
        ensures
            r == self.spec_private_key_size(),
    {
        match self {
            SignatureAlgorithm::Ecdsa(ec) => ec.curve_size(),
            SignatureAlgorithm::MlDsa(MldsaAlgorithm::KL87) => 4896,
        }
    }
}

/// `MAX_ALG_LEN_BYTES` bounds every private key, public key and signature of
/// every algorithm, and is reached: it is the largest such size.
pub proof fn lemma_max_alg_len_bytes_is_largest(alg: SignatureAlgorithm)
    ensures
        alg.spec_private_key_size() <= SignatureAlgorithm::MAX_ALG_LEN_BYTES,
        alg.spec_public_key_size() <= SignatureAlgorithm::MAX_ALG_LEN_BYTES,
        alg.spec_signature_size() <= SignatureAlgorithm::MAX_ALG_LEN_BYTES,
        alg.largest_item_size() <= SignatureAlgorithm::MAX_ALG_LEN_BYTES,
        SignatureAlgorithm::max_alg_len().largest_item_size() == SignatureAlgorithm::MAX_ALG_LEN_BYTES,
        SignatureAlgorithm::max_alg_len().spec_private_key_size() == SignatureAlgorithm::MAX_ALG_LEN_BYTES,
{
}

/// For ECDSA, a signature is twice the coordinate size, and a digest, a
/// private key and a public key coordinate are each one coordinate long.
pub proof fn lemma_ecdsa_sizes(ec: EcdsaAlgorithm)
    ensures
        SignatureAlgorithm::Ecdsa(ec).spec_signature_size() == 2 * ec.spec_curve_size(),
        SignatureAlgorithm::Ecdsa(ec).spec_digest_size() == ec.spec_curve_size(),
        SignatureAlgorithm::Ecdsa(ec).spec_private_key_size() == ec.spec_curve_size(),
        SignatureAlgorithm::Ecdsa(ec).spec_public_key_size() == ec.spec_curve_size(),
{
}

} // verus!
