use vstd::prelude::*;
use super::{EcdsaCurveParams, EcdsaPub, EcdsaSig};

verus! {

/// Marker type for the NIST P-384 curve; it fixes the coordinate size of
/// keys and signatures at the type level.
pub struct Curve384;

impl Clone for Curve384 {
    fn clone(&self) -> (r: Self)
        ensures
            r == *self,
    {
        Curve384
    }
}

impl EcdsaCurveParams for Curve384 {
    const CURVE_SIZE: usize = 384 / 8;
}

/// A public key on P-384.
pub type EcdsaPub384 = EcdsaPub<48, Curve384>;

/// A signature made with a P-384 key.
pub type EcdsaSignature384 = EcdsaSig<48, Curve384>;

} // verus!
