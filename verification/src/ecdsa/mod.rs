use vstd::prelude::*;
use core::marker::PhantomData;
use crate::error::CryptoError;

pub mod curve_256;
pub mod curve_384;

use curve_256::{EcdsaPub256, EcdsaSignature256};
use curve_384::EcdsaPub384;

verus! {

/// Parameters of an elliptic curve that keys and signatures are tied to.
pub trait EcdsaCurveParams {
    /// Size in bytes of one coordinate (and of one signature component).
    const CURVE_SIZE: usize;
}

/// The ECDSA curves.
#[derive(Debug, Clone, Copy, PartialEq, Eq, Structural)]
pub enum EcdsaAlgorithm {
    Bit256,
    Bit384,
}

impl EcdsaAlgorithm {
    pub open spec fn spec_curve_size(self) -> usize {
        match self {
            EcdsaAlgorithm::Bit256 => 32,
            EcdsaAlgorithm::Bit384 => 48,
        }
    }

    /// Size in bytes of one coordinate of a point on the curve.
    #[verifier::when_used_as_spec(spec_curve_size)]
    pub fn curve_size(self) -> (r: usize)
        ensures
            r == self.spec_curve_size(),
    {
        match self {
            EcdsaAlgorithm::Bit256 => 256 / 8,
            EcdsaAlgorithm::Bit384 => 384 / 8,
        }
    }
}

/// The OpenSSL NID of the digest an ECDSA algorithm hashes with
/// (`NID_sha256` for P-256, `NID_sha384` for P-384).
pub open spec fn digest_nid(curve: EcdsaAlgorithm) -> i32 {
    match curve {
        EcdsaAlgorithm::Bit256 => 672,
        EcdsaAlgorithm::Bit384 => 673,
    }
}

/// An ECDSA public key: the affine coordinates `x` and `y`, each `K` bytes.
pub struct EcdsaPub<const K: usize, T: EcdsaCurveParams> {
    x: [u8; K],
    y: [u8; K],
    _alg: PhantomData<T>,
}

impl<const K: usize, T: EcdsaCurveParams> View for EcdsaPub<K, T> {
    /// The coordinates `(x, y)`.
    type V = (Seq<u8>, Seq<u8>);

    closed spec fn view(&self) -> (Seq<u8>, Seq<u8>) {
        (self.x@, self.y@)
    }
}

impl<const K: usize, T: EcdsaCurveParams> Default for EcdsaPub<K, T> {
    /// The key whose coordinates are all zero bytes.
    fn default() -> (r: Self)
        ensures
            r@.0 == Seq::new(K as nat, |i: int| 0u8),
            r@.1 == Seq::new(K as nat, |i: int| 0u8),
    {
        let r = Self { x: [0; K], y: [0; K], _alg: PhantomData };
        assert(r@.0 =~= Seq::new(K as nat, |i: int| 0u8));
        assert(r@.1 =~= Seq::new(K as nat, |i: int| 0u8));
        r
    }
}

impl<const K: usize, T: EcdsaCurveParams> Clone for EcdsaPub<K, T> {
    fn clone(&self) -> (r: Self)
        ensures
            r@ == self@,
    {
        Self { x: self.x, y: self.y, _alg: PhantomData }
    }
}

impl<const K: usize, T: EcdsaCurveParams> EcdsaPub<K, T> {
    /// Builds a key from its two coordinates.
    pub fn from_slice(x: &[u8; K], y: &[u8; K]) -> (r: Result<Self, CryptoError>)
        ensures
            r matches Ok(key) && key@ == (x@, y@),
    {
        Ok(Self { x: *x, y: *y, _alg: PhantomData })
    }

    /// Returns the two coordinates.
    pub fn as_slice(&self) -> (r: Result<(&[u8; K], &[u8; K]), CryptoError>)
        ensures
            r matches Ok((x, y)) && x@ == self@.0 && y@ == self@.1,
    {
        Ok((&self.x, &self.y))
    }

    /// Size in bytes of one coordinate.
    pub fn curve_size(&self) -> (r: usize)
        ensures
            r == K,
    {
        K
    }
}

/// An ECDSA public key on one of the supported curves.
pub enum EcdsaPubKey {
    Ecdsa256(EcdsaPub256),
    Ecdsa384(EcdsaPub384),
}

impl EcdsaPubKey {
    /// The coordinates `(x, y)` of the key.
    pub open spec fn coordinates(&self) -> (Seq<u8>, Seq<u8>) {
        match self {
            EcdsaPubKey::Ecdsa256(key) => key@,
            EcdsaPubKey::Ecdsa384(key) => key@,
        }
    }

    /// The coordinate size of the key's curve.
    pub open spec fn spec_curve_size(&self) -> usize {
        match self {
            EcdsaPubKey::Ecdsa256(_) => 32,
            EcdsaPubKey::Ecdsa384(_) => 48,
        }
    }

    /// Returns the two coordinates, each `curve_size` bytes long.
    pub fn as_slice(&self) -> (r: Result<(&[u8], &[u8]), CryptoError>)
        ensures
            r matches Ok((x, y)) && (x@, y@) == self.coordinates(),
            self.coordinates().0.len() == self.spec_curve_size(),
            self.coordinates().1.len() == self.spec_curve_size(),
    {
        match self {
            Self::Ecdsa256(key) => {
                let (x, y) = key.as_slice().unwrap();
                Ok((x.as_slice(), y.as_slice()))
            },
            Self::Ecdsa384(key) => {
                let (x, y) = key.as_slice().unwrap();
                Ok((x.as_slice(), y.as_slice()))
            },
        }
    }

    /// Size in bytes of one coordinate.
    pub fn curve_size(&self) -> (r: usize)
        ensures
            r == self.spec_curve_size(),
    {
        match self {
            Self::Ecdsa256(key) => key.curve_size(),
            Self::Ecdsa384(key) => key.curve_size(),
        }
    }
}

impl Clone for EcdsaPubKey {
    fn clone(&self) -> (r: Self)
        ensures
            r.coordinates() == self.coordinates(),
            r.spec_curve_size() == self.spec_curve_size(),
    {
        match self {
            Self::Ecdsa256(key) => Self::Ecdsa256(key.clone()),
            Self::Ecdsa384(key) => Self::Ecdsa384(key.clone()),
        }
    }
}

/// An ECDSA signature: the components `r` and `s`, each `K` bytes.
pub struct EcdsaSig<const K: usize, T: EcdsaCurveParams> {
    pub r: [u8; K],
    pub s: [u8; K],
    /// The curve the signature is on; it holds no data, and is public so
    /// that the components can be read in contracts.
    pub _alg: PhantomData<T>,
}

impl<const K: usize, T: EcdsaCurveParams> View for EcdsaSig<K, T> {
    /// The components `(r, s)`.
    type V = (Seq<u8>, Seq<u8>);

    open spec fn view(&self) -> (Seq<u8>, Seq<u8>) {
        (self.r@, self.s@)
    }
}

impl<const K: usize, T: EcdsaCurveParams> Default for EcdsaSig<K, T> {
    /// The signature whose components are all zero bytes.
    fn default() -> (r: Self)
        ensures
            r@.0 == Seq::new(K as nat, |i: int| 0u8),
            r@.1 == Seq::new(K as nat, |i: int| 0u8),
    {
        let r = Self { r: [0; K], s: [0; K], _alg: PhantomData };
        assert(r@.0 =~= Seq::new(K as nat, |i: int| 0u8));
        assert(r@.1 =~= Seq::new(K as nat, |i: int| 0u8));
        r
    }
}

impl<const K: usize, T: EcdsaCurveParams> Clone for EcdsaSig<K, T> {
    fn clone(&self) -> (r: Self)
        ensures
            r@ == self@,
    {
        Self { r: self.r, s: self.s, _alg: PhantomData }
    }
}

impl<const K: usize, T: EcdsaCurveParams> EcdsaSig<K, T> {
    /// Builds a signature from its two components.
    pub fn from_slice(r: &[u8; K], s: &[u8; K]) -> (res: Result<Self, CryptoError>)
        ensures
            res matches Ok(sig) && sig@ == (r@, s@),
    {
        Ok(Self { r: *r, s: *s, _alg: PhantomData })
    }

    /// Returns the two components.
    pub fn as_slice(&self) -> (res: Result<(&[u8; K], &[u8; K]), CryptoError>)
        ensures
            res matches Ok((r, s)) && r@ == self@.0 && s@ == self@.1,
    {
        Ok((&self.r, &self.s))
    }

    /// Size in bytes of one component.
    pub fn curve_size(&self) -> (res: usize)
        ensures
            res == K,
    {
        K
    }
}

/// An ECDSA signature on one of the supported curves.
pub enum EcdsaSignature {
    Ecdsa256(EcdsaSignature256),
}

impl Clone for EcdsaSignature {
    fn clone(&self) -> (res: Self)
        ensures
            res.components() == self.components(),
    {
        match self {
            Self::Ecdsa256(sig) => Self::Ecdsa256(sig.clone()),
        }
    }
}

impl EcdsaSignature {
    /// The components `(r, s)` of the signature.
    pub open spec fn components(&self) -> (Seq<u8>, Seq<u8>) {
        match self {
            EcdsaSignature::Ecdsa256(sig) => sig@,
        }
    }

    /// Returns the two components, each `curve_size` bytes long.
    pub fn as_slice(&self) -> (res: Result<(&[u8], &[u8]), CryptoError>)
        ensures
            res matches Ok((r, s)) && (r@, s@) == self.components(),
            self.components().0.len() == 32,
            self.components().1.len() == 32,
    {
        match self {
            Self::Ecdsa256(sig) => {
                let (r, s) = sig.as_slice().unwrap();
                Ok((r.as_slice(), s.as_slice()))
            },
        }
    }

    /// Size in bytes of one component.
    pub fn curve_size(&self) -> (res: usize)
        ensures
            res == 32,
    {
        match self {
            Self::Ecdsa256(key) => key.curve_size(),
        }
    }
}

} // verus!
