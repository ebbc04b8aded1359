//! Hamming distance between perceptual hashes given as hex text.

use vstd::prelude::*;
use crate::hex_codec::{
    HexDecodeError, hex_encode_spec, lemma_hex_round_trip, hex_decodable, hex_decode, hex_decode_error_is, hex_decode_spec, text_bytes,
};
use crate::hashes::PHashHexString;

verus! {

/// Why two perceptual hashes could not be compared.
#[derive(Debug, Clone, Copy, PartialEq, Eq)]
pub enum HammingError {
    /// The first hash is not valid hex text.
    InvalidHash1(HexDecodeError),
    /// The second hash is not valid hex text.
    InvalidHash2(HexDecodeError),
    /// The hashes decode to different numbers of bytes.
    LengthMismatch,
}

/// The number of one bits in a byte.
pub open spec fn popcount(b: u8) -> nat {
    ((b & 1) + ((b >> 1) & 1) + ((b >> 2) & 1) + ((b >> 3) & 1) + ((b >> 4) & 1) + ((b >> 5)
        & 1) + ((b >> 6) & 1) + ((b >> 7) & 1)) as nat
}

/// The number of differing bits among the first `n` bytes of `a` and `b`.
pub open spec fn hamming_prefix(a: Seq<u8>, b: Seq<u8>, n: nat) -> nat
    decreases n,
{
    if n == 0 {
        0
    } else {
        hamming_prefix(a, b, (n - 1) as nat) + popcount(a[n - 1] ^ b[n - 1])
    }
}

/// The number of differing bits between two byte strings of the same length.
pub open spec fn hamming_bytes(a: Seq<u8>, b: Seq<u8>) -> nat {
    hamming_prefix(a, b, a.len())
}

/// The distance between two perceptual-hash texts: defined when both decode to byte strings
/// of the same length, and then the number of bits in which those differ.
pub open spec fn phash_distance(h1: Seq<char>, h2: Seq<char>) -> Option<nat> {
    let t1 = text_bytes(h1);
    let t2 = text_bytes(h2);
    if hex_decodable(t1) && hex_decodable(t2) && hex_decode_spec(t1).len() == hex_decode_spec(
        t2,
    ).len() {
        Some(hamming_bytes(hex_decode_spec(t1), hex_decode_spec(t2)))
    } else {
        None
    }
}

/// The error that comparing `h1` with `h2` reports: the first hash is checked first, then
/// the second, then the lengths.
pub open spec fn hamming_error_is(h1: Seq<char>, h2: Seq<char>, e: HammingError) -> bool {
    let t1 = text_bytes(h1);
    let t2 = text_bytes(h2);
    match e {
        HammingError::InvalidHash1(d) => !hex_decodable(t1) && hex_decode_error_is(t1, d),
        HammingError::InvalidHash2(d) => hex_decodable(t1) && !hex_decodable(t2)
            && hex_decode_error_is(t2, d),
        HammingError::LengthMismatch => hex_decodable(t1) && hex_decodable(t2) && hex_decode_spec(
            t1,
        ).len() != hex_decode_spec(t2).len(),
    }
}

/// Whether the distance of two hashes, where defined, fits in a `usize`.
pub open spec fn distance_fits(h1: Seq<char>, h2: Seq<char>) -> bool {
    phash_distance(h1, h2) matches Some(d) ==> d <= usize::MAX
}

proof fn lemma_popcount_bound(b: u8)
    ensures
        popcount(b) <= 8,
{
    assert((b & 1) + ((b >> 1) & 1) + ((b >> 2) & 1) + ((b >> 3) & 1) + ((b >> 4) & 1) + ((b >> 5)
        & 1) + ((b >> 6) & 1) + ((b >> 7) & 1) <= 8) by (bit_vector);
}

/// The number of one bits in `b`.
pub fn byte_popcount(b: u8) -> (r: u32)
    ensures
        r == popcount(b),
        r <= 8,
{
    proof {
        lemma_popcount_bound(b);
    }
    ((b & 1) as u32) + (((b >> 1) & 1) as u32) + (((b >> 2) & 1) as u32) + (((b >> 3) & 1) as u32)
        + (((b >> 4) & 1) as u32) + (((b >> 5) & 1) as u32) + (((b >> 6) & 1) as u32) + (((b
        >> 7) & 1) as u32)
}

/// Whether two hashes are short enough for their distance to be counted in a `usize`: a
/// first hash text of at most a quarter of `usize::MAX` bytes is.
pub fn distance_fits_usize(hash1: &PHashHexString, hash2: &PHashHexString) -> (res: bool)
    ensures
        res ==> distance_fits(hash1@, hash2@),
        res == (text_bytes(hash1@).len() <= usize::MAX / 4),
{
    proof {
        law_distance_bound(hash1@, hash2@);
    }
    hash1.get_hex().as_str().as_bytes().len() <= usize::MAX / 4
}

proof fn lemma_prefix_monotone(a: Seq<u8>, b: Seq<u8>, m: nat, n: nat)
    requires
        m <= n,
    ensures
        hamming_prefix(a, b, m) <= hamming_prefix(a, b, n),
    decreases n,
{
    if m < n {
        lemma_prefix_monotone(a, b, m, (n - 1) as nat);
    }
}

/// The Hamming distance between two perceptual hashes: the number of bits in which their
/// decoded bytes differ. Fails when either text is not hex (the first hash is checked first)
/// or when they decode to different lengths.
pub fn calculate_hamming_distance(hash1: &PHashHexString, hash2: &PHashHexString) -> (res: Result<
    usize,
    HammingError,
>)
    requires
        distance_fits(hash1@, hash2@),
    ensures
        match res {
            Ok(d) => phash_distance(hash1@, hash2@) == Some(d as nat),
            Err(e) => phash_distance(hash1@, hash2@) is None && hamming_error_is(
                hash1@,
                hash2@,
                e,
            ),
        },
{
    let text1 = hash1.get_hex().as_str().as_bytes();
    let text2 = hash2.get_hex().as_str().as_bytes();
    let bytes1 = match hex_decode(text1) {
        Ok(bytes) => bytes,
        Err(e) => {
            return Err(HammingError::InvalidHash1(e));
        },
    };
    let bytes2 = match hex_decode(text2) {
        Ok(bytes) => bytes,
        Err(e) => {
            return Err(HammingError::InvalidHash2(e));
        },
    };
    if bytes1.len() != bytes2.len() {
        return Err(HammingError::LengthMismatch);
    }
    let n = bytes1.len();
    let mut diff_count: usize = 0;
    let mut i: usize = 0;
    while i < n
        invariant
            n == bytes1@.len(),
            n == bytes2@.len(),
            i <= n,
            diff_count == hamming_prefix(bytes1@, bytes2@, i as nat),
            hamming_prefix(bytes1@, bytes2@, n as nat) <= usize::MAX,
        decreases n - i,
    {
        proof {
            lemma_prefix_monotone(bytes1@, bytes2@, (i + 1) as nat, n as nat);
        }
        let ones = byte_popcount(bytes1[i] ^ bytes2[i]);
        diff_count = diff_count + ones as usize;
        i = i + 1;
    }
    Ok(diff_count)
}

proof fn lemma_prefix_symmetric(a: Seq<u8>, b: Seq<u8>, n: nat)
    ensures
        hamming_prefix(a, b, n) == hamming_prefix(b, a, n),
    decreases n,
{
    if n > 0 {
        lemma_prefix_symmetric(a, b, (n - 1) as nat);
        let x = a[n - 1];
        let y = b[n - 1];
        assert(x ^ y == y ^ x) by (bit_vector);
    }
}

proof fn lemma_prefix_zero_iff_equal(a: Seq<u8>, b: Seq<u8>, n: nat)
    requires
        n <= a.len(),
        n <= b.len(),
    ensures
        hamming_prefix(a, b, n) == 0 <==> (forall|i: int| 0 <= i < n ==> a[i] == b[i]),
    decreases n,
{
    if n > 0 {
        lemma_prefix_zero_iff_equal(a, b, (n - 1) as nat);
        let x = a[n - 1];
        let y = b[n - 1];
        assert(((x ^ y) & 1) + (((x ^ y) >> 1) & 1) + (((x ^ y) >> 2) & 1) + (((x ^ y) >> 3) & 1)
            + (((x ^ y) >> 4) & 1) + (((x ^ y) >> 5) & 1) + (((x ^ y) >> 6) & 1) + (((x ^ y) >> 7)
            & 1) == 0 <==> x == y) by (bit_vector);
    }
}

proof fn lemma_prefix_triangle(a: Seq<u8>, b: Seq<u8>, c: Seq<u8>, n: nat)
    ensures
        hamming_prefix(a, c, n) <= hamming_prefix(a, b, n) + hamming_prefix(b, c, n),
    decreases n,
{
    if n > 0 {
        lemma_prefix_triangle(a, b, c, (n - 1) as nat);
        let x = a[n - 1];
        let y = b[n - 1];
        let z = c[n - 1];
        assert(((x ^ z) & 1) + (((x ^ z) >> 1) & 1) + (((x ^ z) >> 2) & 1) + (((x ^ z) >> 3) & 1)
            + (((x ^ z) >> 4) & 1) + (((x ^ z) >> 5) & 1) + (((x ^ z) >> 6) & 1) + (((x ^ z) >> 7)
            & 1) <= ((x ^ y) & 1) + (((x ^ y) >> 1) & 1) + (((x ^ y) >> 2) & 1) + (((x ^ y) >> 3)
            & 1) + (((x ^ y) >> 4) & 1) + (((x ^ y) >> 5) & 1) + (((x ^ y) >> 6) & 1) + (((x ^ y)
            >> 7) & 1) + ((y ^ z) & 1) + (((y ^ z) >> 1) & 1) + (((y ^ z) >> 2) & 1) + (((y ^ z)
            >> 3) & 1) + (((y ^ z) >> 4) & 1) + (((y ^ z) >> 5) & 1) + (((y ^ z) >> 6) & 1) + (((y
            ^ z) >> 7) & 1)) by (bit_vector);
    }
}

proof fn lemma_prefix_bound(a: Seq<u8>, b: Seq<u8>, n: nat)
    ensures
        hamming_prefix(a, b, n) <= 8 * n,
    decreases n,
{
    if n > 0 {
        lemma_prefix_bound(a, b, (n - 1) as nat);
        lemma_popcount_bound(a[n - 1] ^ b[n - 1]);
    }
}

/// The distance does not depend on the order of the two hashes.
pub proof fn law_distance_symmetric(h1: Seq<char>, h2: Seq<char>)
    ensures
        phash_distance(h1, h2) == phash_distance(h2, h1),
{
    let a = hex_decode_spec(text_bytes(h1));
    let b = hex_decode_spec(text_bytes(h2));
    lemma_prefix_symmetric(a, b, a.len());
}

/// Whether a distance fits in a `usize` does not depend on the order of the hashes, so a
/// caller that may compare one way may also compare the other, with the same result.
pub proof fn law_distance_fits_symmetric(h1: Seq<char>, h2: Seq<char>)
    ensures
        distance_fits(h1, h2) == distance_fits(h2, h1),
{
    law_distance_symmetric(h1, h2);
}

/// A valid hash is at distance 0 from itself.
pub proof fn law_distance_to_self(h: Seq<char>)
    requires
        hex_decodable(text_bytes(h)),
    ensures
        phash_distance(h, h) == Some(0nat),
{
    let a = hex_decode_spec(text_bytes(h));
    lemma_prefix_zero_iff_equal(a, a, a.len());
}

/// Two comparable hashes are at distance 0 exactly when they decode to the same bytes.
pub proof fn law_distance_zero_iff_same_bytes(h1: Seq<char>, h2: Seq<char>)
    requires
        phash_distance(h1, h2) is Some,
    ensures
        phash_distance(h1, h2) == Some(0nat) <==> hex_decode_spec(text_bytes(h1))
            == hex_decode_spec(text_bytes(h2)),
{
    let a = hex_decode_spec(text_bytes(h1));
    let b = hex_decode_spec(text_bytes(h2));
    lemma_prefix_zero_iff_equal(a, b, a.len());
    if hamming_bytes(a, b) == 0 {
        assert(a =~= b);
    }
}

/// The distance obeys the triangle inequality.
pub proof fn law_distance_triangle(h1: Seq<char>, h2: Seq<char>, h3: Seq<char>)
    requires
        phash_distance(h1, h2) is Some,
        phash_distance(h2, h3) is Some,
    ensures
        phash_distance(h1, h3) is Some,
        phash_distance(h1, h3).unwrap() <= phash_distance(h1, h2).unwrap() + phash_distance(
            h2,
            h3,
        ).unwrap(),
{
    let a = hex_decode_spec(text_bytes(h1));
    let b = hex_decode_spec(text_bytes(h2));
    let c = hex_decode_spec(text_bytes(h3));
    lemma_prefix_triangle(a, b, c, a.len());
}

/// A distance never exceeds the number of bits compared, so it fits in a `usize` whenever
/// the first hash text is at most a quarter of `usize::MAX` bytes long.
pub proof fn law_distance_bound(h1: Seq<char>, h2: Seq<char>)
    ensures
        phash_distance(h1, h2) matches Some(d) ==> d <= 8 * hex_decode_spec(text_bytes(h1)).len(),
        text_bytes(h1).len() <= usize::MAX / 4 ==> distance_fits(h1, h2),
{
    let a = hex_decode_spec(text_bytes(h1));
    let b = hex_decode_spec(text_bytes(h2));
    lemma_prefix_bound(a, b, a.len());
}

/// Any two perceptual hashes written by the library from hash bytes of equal length can be
/// compared, and their distance is the number of differing bits of those bytes.
pub proof fn law_written_hashes_comparable(a: Seq<u8>, b: Seq<u8>)
    requires
        a.len() == b.len(),
    ensures
        phash_distance(hex_encode_spec(a), hex_encode_spec(b)) == Some(hamming_bytes(a, b)),
        hamming_bytes(a, b) <= 8 * a.len(),
{
    lemma_hex_round_trip(a);
    lemma_hex_round_trip(b);
    lemma_prefix_bound(a, b, a.len());
}

} // verus!
