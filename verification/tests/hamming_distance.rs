use copycatch::hamming::{byte_popcount, calculate_hamming_distance, distance_fits_usize, HammingError};
use copycatch::hashes::{phash_from_hash_bytes, PHashHexString};
use copycatch::hex_codec::HexDecodeError;

fn phash(text: &str) -> PHashHexString {
    PHashHexString::new(text.to_string())
}

#[test]
fn distance_counts_differing_bits() {
    assert_eq!(calculate_hamming_distance(&phash("ff00"), &phash("0000")), Ok(8));
    assert_eq!(calculate_hamming_distance(&phash("0f0f"), &phash("f0f0")), Ok(16));
    assert_eq!(calculate_hamming_distance(&phash("8001"), &phash("0000")), Ok(2));
}

#[test]
fn distance_of_empty_hashes_is_zero() {
    assert_eq!(calculate_hamming_distance(&phash(""), &phash("")), Ok(0));
}

#[test]
fn distance_accepts_either_case() {
    assert_eq!(calculate_hamming_distance(&phash("FF"), &phash("ff")), Ok(0));
    assert_eq!(calculate_hamming_distance(&phash("Ab"), &phash("00")), Ok(5));
}

#[test]
fn distance_is_symmetric() {
    let a = phash("12345678abcdef00");
    let b = phash("fedcba9876543210");
    assert_eq!(
        calculate_hamming_distance(&a, &b),
        calculate_hamming_distance(&b, &a)
    );
}

#[test]
fn distance_obeys_triangle_inequality() {
    let a = phash("00ff00ff");
    let b = phash("0f0f0f0f");
    let c = phash("ffffffff");
    let ab = calculate_hamming_distance(&a, &b).unwrap();
    let bc = calculate_hamming_distance(&b, &c).unwrap();
    let ac = calculate_hamming_distance(&a, &c).unwrap();
    assert!(ac <= ab + bc);
}

#[test]
fn first_hash_with_odd_length_is_reported() {
    assert_eq!(
        calculate_hamming_distance(&phash("abc"), &phash("zz")),
        Err(HammingError::InvalidHash1(HexDecodeError::OddLength))
    );
}

#[test]
fn invalid_character_is_reported_with_its_index() {
    assert_eq!(
        calculate_hamming_distance(&phash("0a1g"), &phash("0000")),
        Err(HammingError::InvalidHash1(HexDecodeError::InvalidHexCharacter { c: 'g', index: 3 }))
    );
}

#[test]
fn second_hash_is_checked_after_the_first() {
    assert_eq!(
        calculate_hamming_distance(&phash("0000"), &phash("00 0")),
        Err(HammingError::InvalidHash2(HexDecodeError::InvalidHexCharacter { c: ' ', index: 2 }))
    );
    assert_eq!(
        calculate_hamming_distance(&phash("0000"), &phash("000")),
        Err(HammingError::InvalidHash2(HexDecodeError::OddLength))
    );
}

#[test]
fn hashes_of_different_lengths_are_not_comparable() {
    assert_eq!(
        calculate_hamming_distance(&phash("0000"), &phash("00")),
        Err(HammingError::LengthMismatch)
    );
}

#[test]
fn non_ascii_text_is_reported_by_byte() {
    // 'é' is two bytes in UTF-8; the first of them is reported, read as a char.
    assert_eq!(
        calculate_hamming_distance(&phash("é0"), &phash("000")),
        Err(HammingError::InvalidHash1(HexDecodeError::OddLength))
    );
    assert_eq!(
        calculate_hamming_distance(&phash("0é0"), &phash("0000")),
        Err(HammingError::InvalidHash1(HexDecodeError::InvalidHexCharacter {
            c: '\u{c3}',
            index: 1
        }))
    );
}

#[test]
fn popcount_of_bytes() {
    assert_eq!(byte_popcount(0), 0);
    assert_eq!(byte_popcount(0xff), 8);
    assert_eq!(byte_popcount(0b1010_0110), 4);
}

#[test]
fn short_hashes_fit() {
    assert!(distance_fits_usize(&phash("abcd"), &phash("0123")));
}

#[test]
fn written_hashes_decode_to_their_bytes() {
    let data = [0u8, 1, 0x7f, 0x80, 0xfe, 0xff];
    let text = phash_from_hash_bytes(&data);
    assert_eq!(text.get_hex(), "00017f80feff");
    let zero = phash_from_hash_bytes(&[0u8; 6]);
    // Distance from zero is the number of one bits of the decoded bytes.
    assert_eq!(calculate_hamming_distance(&text, &zero), Ok(0 + 1 + 7 + 1 + 7 + 8));
}

#[test]
fn distance_is_at_most_eight_bits_per_byte() {
    assert_eq!(calculate_hamming_distance(&phash("ff00"), &phash("00ff")), Ok(16));
}

#[test]
fn same_bytes_in_other_case_are_at_distance_zero() {
    assert_eq!(calculate_hamming_distance(&phash("DEADbeef"), &phash("deadBEEF")), Ok(0));
    assert_ne!(calculate_hamming_distance(&phash("deadbeee"), &phash("deadbeef")), Ok(0));
}

#[test]
fn distinct_bytes_give_distinct_hex_text() {
    assert_ne!(phash_from_hash_bytes(&[1, 2]), phash_from_hash_bytes(&[1, 3]));
    assert_eq!(phash_from_hash_bytes(&[0xab]), phash_from_hash_bytes(&[0xab]));
}
