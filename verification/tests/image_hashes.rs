use copycatch::hamming::calculate_hamming_distance;
use copycatch::hashes::{
    crypto_hash_of_pixels, get_crypto_hash, get_phash, phash_from_hash_bytes, PHashHexString,
};
use image::{DynamicImage, Rgb, RgbImage};

/// A picture with soft shapes: a few overlapping light disks on a gradient background,
/// drawn with its origin moved by `(dx, dy)` pixels.
fn flower(dx: i64, dy: i64) -> DynamicImage {
    let img = RgbImage::from_fn(128, 128, |x, y| {
        let x = x as i64 - dx;
        let y = y as i64 - dy;
        let mut v = (x + y) as i64;
        for (cx, cy, r) in [(40i64, 40i64, 22i64), (84, 52, 26), (60, 92, 20)] {
            let d2 = (x - cx) * (x - cx) + (y - cy) * (y - cy);
            if d2 < r * r {
                v += 120;
            }
        }
        let v = v.clamp(0, 255) as u8;
        Rgb([v, v / 2, 255 - v])
    });
    DynamicImage::ImageRgb8(img)
}

/// A picture with nothing in common with `flower`: stripes across it.
fn unique() -> DynamicImage {
    let img = RgbImage::from_fn(128, 128, |x, y| {
        let band = ((x / 16) + (y / 32)) % 2;
        let v = if band == 0 { 250u8 } else { 5u8 };
        Rgb([v, v, v])
    });
    DynamicImage::ImageRgb8(img)
}

#[test]
fn validate_sha256_copy() {
    let image1 = flower(0, 0);
    let image2 = flower(0, 0);
    let hash1 = get_crypto_hash(&image1);
    let hash2 = get_crypto_hash(&image2);
    assert_eq!(hash1, hash2, "These hashes should match as these files are copies");
}

#[test]
fn validate_sha256_different() {
    let image1 = flower(0, 0);
    let image2 = flower(3, 0);
    let hash1 = get_crypto_hash(&image1);
    let hash2 = get_crypto_hash(&image2);
    assert_ne!(hash1, hash2, "These hashes should not match as these files are different");
}

#[test]
fn validate_phash_copy() {
    let image1 = flower(0, 0);
    let image2 = flower(0, 0);
    let hash1 = get_phash(&image1);
    let hash2 = get_phash(&image2);
    assert_eq!(hash1, hash2, "These hashes should match as these files are copies");
    assert_eq!(
        calculate_hamming_distance(&hash1, &hash2).expect("Hashes should be comparable"),
        0,
        "Identical images should have a hamming distance of 0"
    );
}

#[test]
fn validate_phash_near_duplicate() {
    let image1 = flower(0, 0);
    let image2 = flower(2, 1);
    let hash1 = get_phash(&image1);
    let hash2 = get_phash(&image2);
    let distance =
        calculate_hamming_distance(&hash1, &hash2).expect("Hashes should be comparable");
    assert!(
        distance <= 8,
        "A minor positional shift should still be perceptually near-identical, got hamming distance {}",
        distance
    );
}

#[test]
fn different_files() {
    let image1 = flower(0, 0);
    let image2 = unique();
    let hash1 = get_phash(&image1);
    let hash2 = get_phash(&image2);
    let distance =
        calculate_hamming_distance(&hash1, &hash2).expect("Hashes should be comparable");
    assert!(
        distance > 16,
        "These files are different and should have a hamming distance greater than 16, got {}",
        distance
    );
}

#[test]
fn matching_hash() {
    let image1 = unique();
    let hash1 = get_phash(&image1);
    let hash2 = get_phash(&image1);
    let distance =
        calculate_hamming_distance(&hash1, &hash2).expect("Hashes should be comparable");
    assert_eq!(distance, 0);
}

#[test]
fn exact_count() {
    let hash1 = PHashHexString::new(hex::encode("00001000"));
    let hash2 = PHashHexString::new(hex::encode("00000000"));
    let distance =
        calculate_hamming_distance(&hash1, &hash2).expect("Hashes should be comparable");
    assert_eq!(distance, 1);
}

#[test]
fn crypto_hash_of_no_pixels_is_sha256_of_empty_input() {
    let hash = crypto_hash_of_pixels(&[]);
    assert_eq!(
        hash.get_hex(),
        "e3b0c44298fc1c149afbf4c8996fb92427ae41e4649b934ca495991b7852b855"
    );
}

#[test]
fn crypto_hash_of_abc() {
    let hash = crypto_hash_of_pixels(b"abc");
    assert_eq!(
        hash.get_hex(),
        "ba7816bf8f01cfea414140de5dae2223b00361a396177a9cb410ff61f20015ad"
    );
}

#[test]
fn crypto_hash_of_image_hashes_its_pixels() {
    let image = flower(0, 0);
    assert_eq!(get_crypto_hash(&image), crypto_hash_of_pixels(image.as_bytes()));
    assert_eq!(get_crypto_hash(&image).get_hex().len(), 64);
}

#[test]
fn crypto_hash_ignores_storage_format() {
    let rgb = flower(0, 0);
    let rgba = DynamicImage::ImageRgba8(rgb.to_rgba8());
    // The hash is of the pixel samples, so a different pixel layout hashes differently,
    // but the same samples hash alike wherever they came from.
    assert_ne!(get_crypto_hash(&rgb), get_crypto_hash(&rgba));
    let again = DynamicImage::ImageRgb8(rgba.to_rgb8());
    assert_eq!(get_crypto_hash(&rgb), get_crypto_hash(&again));
}

#[test]
fn phash_is_sixteen_lowercase_hex_digits() {
    let hash = get_phash(&flower(0, 0));
    let text = hash.get_hex();
    assert_eq!(text.len(), 16);
    assert!(text.chars().all(|c| c.is_ascii_digit() || ('a'..='f').contains(&c)));
}

#[test]
fn phash_text_of_hash_bytes() {
    let hash = phash_from_hash_bytes(&[0xde, 0xad, 0x00, 0x0f]);
    assert_eq!(hash.get_hex(), "dead000f");
}
