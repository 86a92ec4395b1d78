use vstd::prelude::*;
use super::{EcdsaCurveParams, EcdsaPub, EcdsaSig};

verus! {

/// Marker type for the NIST P-256 curve; it fixes the coordinate size of
/// keys and signatures at the type level.
pub struct Curve256;

impl Clone for Curve256 {
    fn clone(&self) -> (r: Self)
        ensures
            r == *self,
    {
        Curve256
    }
}

impl EcdsaCurveParams for Curve256 {
    const CURVE_SIZE: usize = 256 / 8;
}

/// A public key on P-256.
pub type EcdsaPub256 = EcdsaPub<32, Curve256>;

/// A signature made with a P-256 key.
pub type EcdsaSignature256 = EcdsaSig<32, Curve256>;

} // verus!
