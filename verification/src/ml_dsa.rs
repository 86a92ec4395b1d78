use vstd::prelude::*;

verus! {

/// The ML-DSA parameter sets.
#[derive(Debug, Clone, Copy, PartialEq, Eq, Structural)]
pub enum MldsaAlgorithm {
    KL87,
}

impl MldsaAlgorithm {
    pub open spec fn spec_seed_size(self) -> usize {
        match self {
            MldsaAlgorithm::KL87 => 32,
        }
    }

    pub open spec fn spec_signature_size(self) -> usize {
        match self {
            MldsaAlgorithm::KL87 => 4627,
        }
    }

    pub open spec fn spec_public_key_size(self) -> usize {
        match self {
            MldsaAlgorithm::KL87 => 2592,
        }
    }

    pub open spec fn spec_private_key_size(self) -> usize {
        match self {
            MldsaAlgorithm::KL87 => 4896,
        }
    }

    /// Size in bytes of the seed a key pair is derived from.
    #[verifier::when_used_as_spec(spec_seed_size)]
    pub fn seed_size(self) -> (r: usize)
        ensures
            r == self.spec_seed_size(),
    {
        match self {
            Self::KL87 => 32,
        }
    }

    /// Size in bytes of a signature.
    #[verifier::when_used_as_spec(spec_signature_size)]
    pub fn signature_size(self) -> (r: usize)
        ensures
            r == self.spec_signature_size(),
    {
        match self {
            Self::KL87 => 4627,
        }
    }

    /// Size in bytes of an encoded public key.
    #[verifier::when_used_as_spec(spec_public_key_size)]
    pub fn public_key_size(self) -> (r: usize)
        ensures
            r == self.spec_public_key_size(),
    {
        match self {
            Self::KL87 => 2592,
        }
    }

    /// Size in bytes of an encoded private key.
    #[verifier::when_used_as_spec(spec_private_key_size)]
    pub fn private_key_size(self) -> (r: usize)
        ensures
            r == self.spec_private_key_size(),
    {
        match self {
            Self::KL87 => 4896,
        }
    }
}

/// The message representative (mu) that an ML-DSA signer computes outside
/// the signing device.
pub struct ExternalMu(pub [u8; 64]);

/// An encoded ML-DSA-87 public key.
pub struct MldsaPublicKey(pub [u8; 2592]);

impl Clone for MldsaPublicKey {
    fn clone(&self) -> (r: Self)
        ensures
            r == *self,
    {
        MldsaPublicKey(self.0)
    }
}

/// An encoded ML-DSA-87 signature.
pub struct MldsaSignature(pub [u8; 4627]);

impl Clone for MldsaSignature {
    fn clone(&self) -> (r: Self)
        ensures
            r == *self,
    {
        MldsaSignature(self.0)
    }
}

} // verus!
