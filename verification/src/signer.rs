use vstd::prelude::*;
use arrayvec::{ArrayVec, CapacityError};
use crate::algorithm::SignatureAlgorithm;
use crate::error::CryptoError;

pub use crate::ecdsa::curve_256::Curve256;
pub use crate::ecdsa::curve_384::Curve384;
pub use crate::ecdsa::{EcdsaCurveParams, EcdsaPub};

verus! {

/// Capacity in bytes of a `CryptoBuf`.
pub const CRYPTO_BUF_CAPACITY: usize = 4896;

#[verifier::external_type_specification]
#[verifier::external_body]
#[verifier::reject_recursive_types(T)]
pub struct ExArrayVec<T, const CAP: usize>(ArrayVec<T, CAP>);

#[verifier::external_type_specification]
#[verifier::external_body]
#[verifier::reject_recursive_types(T)]
pub struct ExCapacityError<T>(CapacityError<T>);

/// The bytes that a byte `ArrayVec` of the buffer's capacity holds, in order.
pub uninterp spec fn array_vec_bytes(v: ArrayVec<u8, 4896>) -> Seq<u8>;

/// `ArrayVec::new`: an empty vector.
#[verifier::external_body]
fn array_vec_new() -> (v: ArrayVec<u8, CRYPTO_BUF_CAPACITY>)
    ensures
        array_vec_bytes(v) == Seq::<u8>::empty(),
{
    ArrayVec::new()
}

/// `ArrayVec::push`: appends one byte; it panics on a full vector, which the
/// `requires` rules out.
#[verifier::external_body]
fn array_vec_push(v: &mut ArrayVec<u8, CRYPTO_BUF_CAPACITY>, byte: u8)
    requires
        array_vec_bytes(*old(v)).len() < CRYPTO_BUF_CAPACITY,
    ensures
        array_vec_bytes(*final(v)) == array_vec_bytes(*old(v)).push(byte),
{
    v.push(byte)
}

/// `ArrayVec::try_extend_from_slice`: appends all of `other` when the
/// capacity left is at least its length, and otherwise fails and leaves the
/// vector as it was.
#[verifier::external_body]
fn array_vec_try_extend_from_slice(
    v: &mut ArrayVec<u8, CRYPTO_BUF_CAPACITY>,
    other: &[u8],
) -> (r: Result<(), CapacityError>)
    requires
        array_vec_bytes(*old(v)).len() <= CRYPTO_BUF_CAPACITY,
    ensures
        r is Ok <==> array_vec_bytes(*old(v)).len() + other@.len() <= CRYPTO_BUF_CAPACITY,
        r is Ok ==> array_vec_bytes(*final(v)) == array_vec_bytes(*old(v)) + other@,
        r is Err ==> array_vec_bytes(*final(v)) == array_vec_bytes(*old(v)),
{
    v.try_extend_from_slice(other)
}

/// `ArrayVec::as_slice`: the bytes held, in order.
#[verifier::external_body]
fn array_vec_as_slice(v: &ArrayVec<u8, CRYPTO_BUF_CAPACITY>) -> (r: &[u8])
    ensures
        r@ == array_vec_bytes(*v),
{
    v.as_slice()
}

/// `ArrayVec::len`: the number of bytes held.
#[verifier::external_body]
fn array_vec_len(v: &ArrayVec<u8, CRYPTO_BUF_CAPACITY>) -> (r: usize)
    ensures
        r == array_vec_bytes(*v).len(),
{
    v.len()
}

/// A byte buffer of bounded length, used for digests, signature components
/// and keys of every algorithm.
#[derive(Debug, PartialEq, Eq)]
pub struct CryptoBuf(ArrayVec<u8, CRYPTO_BUF_CAPACITY>);

impl View for CryptoBuf {
    type V = Seq<u8>;

    closed spec fn view(&self) -> Seq<u8> {
        array_vec_bytes(self.0)
    }
}

impl CryptoBuf {
    /// The most bytes a buffer holds: the size of the largest key or
    /// signature of any algorithm.
    pub const MAX_SIZE: usize = SignatureAlgorithm::MAX_ALG_LEN_BYTES;

    #[verifier::type_invariant]
    spec fn within_capacity(&self) -> bool {
        array_vec_bytes(self.0).len() <= CRYPTO_BUF_CAPACITY
    }

    /// Copies `bytes` into a new buffer; fails with `Size` when they are more
    /// than `MAX_SIZE`.
    pub fn new(bytes: &[u8]) -> (r: Result<CryptoBuf, CryptoError>)
        ensures
            r is Ok <==> bytes@.len() <= Self::MAX_SIZE,
            r matches Ok(buf) ==> buf@ == bytes@,
            r matches Err(e) ==> e == CryptoError::Size,
    {
        let mut vec = array_vec_new();
        match array_vec_try_extend_from_slice(&mut vec, bytes) {
            Ok(()) => Ok(CryptoBuf(vec)),
            Err(_) => Err(CryptoError::Size),
        }
    }

    /// The bytes held, in order; never more than `MAX_SIZE`.
    pub fn bytes(&self) -> (r: &[u8])
        ensures
            r@ == self@,
            r@.len() <= Self::MAX_SIZE,
    {
        proof {
            use_type_invariant(self);
        }
        array_vec_as_slice(&self.0)
    }

    /// The number of bytes held; never more than `MAX_SIZE`.
    pub fn len(&self) -> (r: usize)
        ensures
            r == self@.len(),
            r <= Self::MAX_SIZE,
    {
        proof {
            use_type_invariant(self);
        }
        array_vec_len(&self.0)
    }

    /// Whether the buffer holds no byte.
    pub fn is_empty(&self) -> (r: bool)
        ensures
            r == (self@.len() == 0),
    {
        array_vec_len(&self.0) == 0
    }

    /// Writes the upper-case hexadecimal text of the buffer to `dest`, which
    /// must be exactly twice as long as the buffer; otherwise it fails with
    /// `Size` and leaves `dest` as it was.
    pub fn write_hex_str(&self, dest: &mut [u8]) -> (r: Result<(), CryptoError>)
        ensures
            old(dest)@.len() == final(dest)@.len(),
            old(dest)@.len() != 2 * self@.len() ==> r == Err::<(), CryptoError>(CryptoError::Size)
                && final(dest)@ == old(dest)@,
            old(dest)@.len() == 2 * self@.len() ==> r == Ok::<(), CryptoError>(())
                && final(dest)@ == hex_upper(self@),
    {
        proof {
            use_type_invariant(self);
        }
        let src = self.bytes();
        if dest.len() != src.len() * 2 {
            return Err(CryptoError::Size);
        }
        let mut curr_idx: usize = 0;
        let mut i: usize = 0;
        while i < src.len()
            invariant
                src@ == self@,
                dest@.len() == 2 * src@.len(),
                old(dest)@.len() == dest@.len(),
                curr_idx == 2 * i,
                i <= src@.len(),
                forall|j: int| 0 <= j < curr_idx ==> dest@[j] == #[trigger] hex_upper(src@)[j],
            decreases src@.len() - i,
        {
            let b = src[i];
            let h1 = (b >> 4) as usize;
            let h2 = (b & 0xF) as usize;
            proof {
                assert((b >> 4) < 16 && (b & 0xf) < 16) by (bit_vector);
            }
            if h1 >= HEX_CHARS.len() || h2 >= HEX_CHARS.len() || curr_idx >= dest.len()
                || curr_idx + 1 >= dest.len() {
                return Err(CryptoError::CryptoLibError(0));
            }
            proof {
                lemma_hex_digit_table(b >> 4);
                lemma_hex_digit_table(b & 0xf);
                assert(hex_upper(src@)[curr_idx as int] == hex_digit(b >> 4));
                assert(hex_upper(src@)[curr_idx + 1] == hex_digit(b & 0xf));
            }
            dest[curr_idx] = HEX_CHARS[h1];
            dest[curr_idx + 1] = HEX_CHARS[h2];
            curr_idx += 2;
            i += 1;
        }
        assert(dest@ =~= hex_upper(self@));
        Ok(())
    }
}

impl Default for CryptoBuf {
    /// A buffer of `MAX_SIZE` zero bytes.
    fn default() -> (r: Self)
        ensures
            r@ == Seq::new(CryptoBuf::MAX_SIZE as nat, |i: int| 0u8),
    {
        let mut vec = array_vec_new();
        let mut n: usize = 0;
        while n < CryptoBuf::MAX_SIZE
            invariant
                n <= CryptoBuf::MAX_SIZE,
                array_vec_bytes(vec) == Seq::new(n as nat, |i: int| 0u8),
            decreases CryptoBuf::MAX_SIZE - n,
        {
            array_vec_push(&mut vec, 0);
            n += 1;
            assert(array_vec_bytes(vec) =~= Seq::new(n as nat, |i: int| 0u8));
        }
        CryptoBuf(vec)
    }
}

/// An ECDSA signature held as two buffers: the components `r` and `s`.
pub struct EcdsaSig {
    pub r: CryptoBuf,
    pub s: CryptoBuf,
}

/// The upper-case hexadecimal digits, by value.
pub const HEX_CHARS: [u8; 16] = [
    0x30, 0x31, 0x32, 0x33, 0x34, 0x35, 0x36, 0x37,
    0x38, 0x39, 0x41, 0x42, 0x43, 0x44, 0x45, 0x46,
];

/// The upper-case hexadecimal digit of a value below 16.
pub open spec fn hex_digit(n: u8) -> u8 {
    if n < 10 {
        (0x30 + n) as u8
    } else {
        (0x41 + n - 10) as u8
    }
}

/// The upper-case hexadecimal text of `src`: two digits per byte, the high
/// half first.
pub open spec fn hex_upper(src: Seq<u8>) -> Seq<u8> {
    Seq::new(
        2 * src.len(),
        |i: int|
            if i % 2 == 0 {
                hex_digit(src[i / 2] >> 4)
            } else {
                hex_digit(src[i / 2] & 0xf)
            },
    )
}

/// The value of an upper-case hexadecimal digit.
pub open spec fn hex_value(c: u8) -> int {
    if c <= 0x39 {
        c - 0x30
    } else {
        c - 0x41 + 10
    }
}

/// Reads text of upper-case hexadecimal digit pairs back into bytes.
pub open spec fn hex_decode(text: Seq<u8>) -> Seq<int> {
    Seq::new(text.len() / 2, |i: int| 16 * hex_value(text[2 * i]) + hex_value(text[2 * i + 1]))
}

proof fn lemma_hex_digit_table(n: u8)
    requires
        n < 16,
    ensures
        HEX_CHARS@[n as int] == hex_digit(n),
{
}

/// Hexadecimal text is read back into the bytes it was written from.
pub proof fn lemma_hex_round_trip(src: Seq<u8>)
    ensures
        hex_upper(src).len() == 2 * src.len(),
        hex_decode(hex_upper(src)).len() == src.len(),
        forall|i: int| 0 <= i < src.len() ==> #[trigger] hex_decode(hex_upper(src))[i] == src[i] as int,
{
    assert forall|i: int| 0 <= i < src.len() implies #[trigger] hex_decode(hex_upper(src))[i] == src[i] as int by {
        let b = src[i];
        assert(hex_upper(src)[2 * i] == hex_digit(b >> 4));
        assert(hex_upper(src)[2 * i + 1] == hex_digit(b & 0xf));
        assert((b >> 4) < 16 && (b & 0xf) < 16 && (b >> 4) * 16 + (b & 0xf) == b) by (bit_vector);
    }
}

} // verus!
