//! Content hashes (SHA-256 of the pixel data) and perceptual hashes of images,
//! both kept as lowercase hex text.

use vstd::prelude::*;
use crate::hex_codec::{hex_encode, hex_encode_spec};
use sha2::Digest;

verus! {

/// The hex text of an image's SHA-256 content hash.
#[derive(Debug, Clone, PartialEq)]
pub struct HexString(String);

impl View for HexString {
    type V = Seq<char>;

    closed spec fn view(&self) -> Seq<char> {
        self.0@
    }
}

impl HexString {
    /// Wraps hex text, as read back from storage.
    pub fn new(hex: String) -> (res: Self)
        ensures
            res@ == hex@,
    {
        HexString(hex)
    }

    /// The hex text.
    pub fn get_hex(&self) -> (res: &String)
        ensures
            res@ == self@,
    {
        &self.0
    }
}

/// The hex text of an image's perceptual hash.
#[derive(Debug, Clone, PartialEq)]
pub struct PHashHexString(String);

impl View for PHashHexString {
    type V = Seq<char>;

    closed spec fn view(&self) -> Seq<char> {
        self.0@
    }
}

impl PHashHexString {
    /// Wraps hex text, as read back from storage.
    pub fn new(hex: String) -> (res: Self)
        ensures
            res@ == hex@,
    {
        PHashHexString(hex)
    }

    /// The hex text.
    pub fn get_hex(&self) -> (res: &String)
        ensures
            res@ == self@,
    {
        &self.0
    }
}

/// A decoded image, as the `image` crate holds it.
#[verifier::external_type_specification]
#[verifier::external_body]
pub struct ExDynamicImage(image::DynamicImage);

/// What SHA-256 computes for `data`.
pub uninterp spec fn sha256_spec(data: Seq<u8>) -> Seq<u8>;

/// `sha2::Sha256::digest`: the SHA-256 digest of `data`, 32 bytes long.
#[verifier::external_body]
fn sha256_digest(data: &[u8]) -> (digest: Vec<u8>)
    ensures
        digest@ == sha256_spec(data@),
        digest@.len() == 32,
{
    sha2::Sha256::digest(data).to_vec()
}

/// `image::DynamicImage::as_bytes`: the image's pixel samples as bytes. They are in the
/// machine's native byte order, so nothing is stated of them here.
#[verifier::external_body]
fn image_pixel_bytes(image: &image::DynamicImage) -> (bytes: &[u8]) {
    image.as_bytes()
}

/// `image_hasher`: the perceptual hash of `image` with DCT preprocessing and the median
/// algorithm at the default 8 x 8 bit size, hence 8 bytes. Which bits are set depends on
/// floating-point image processing and is not stated here.
#[verifier::external_body]
fn perceptual_hash_bytes(image: &image::DynamicImage) -> (hash: Vec<u8>)
    ensures
        hash@.len() == 8,
{
    let hasher = image_hasher::HasherConfig::new().preproc_dct().hash_alg(
        image_hasher::HashAlg::Median,
    ).to_hasher();
    hasher.hash_image(image).as_bytes().to_vec()
}

/// The content hash of raw pixel bytes: the hex text of their SHA-256 digest.
pub fn crypto_hash_of_pixels(pixels: &[u8]) -> (res: HexString)
    ensures
        res@ == hex_encode_spec(sha256_spec(pixels@)),
        res@.len() == 64,
{
    let digest = sha256_digest(pixels);
    HexString(hex_encode(digest.as_slice()))
}

/// The content hash of an image: the hex text of the SHA-256 digest of its pixel data (not
/// of the file), so that the same picture stored in another format or with other metadata
/// hashes alike.
pub fn get_crypto_hash(image: &image::DynamicImage) -> (res: HexString)
    ensures
        exists|pixels: Seq<u8>| res@ == hex_encode_spec(#[trigger] sha256_spec(pixels)),
        res@.len() == 64,
{
    let pixels = image_pixel_bytes(image);
    crypto_hash_of_pixels(pixels)
}

/// The perceptual-hash text for the given hash bytes.
pub fn phash_from_hash_bytes(hash: &[u8]) -> (res: PHashHexString)
    ensures
        res@ == hex_encode_spec(hash@),
{
    PHashHexString(hex_encode(hash))
}

/// The perceptual hash of an image: 8 hash bytes as 16 hex digits, so that visually similar
/// images can be related by the Hamming distance of their hashes.
pub fn get_phash(image: &image::DynamicImage) -> (res: PHashHexString)
    ensures
        exists|hash: Seq<u8>| hash.len() == 8 && res@ == #[trigger] hex_encode_spec(hash),
        res@.len() == 16,
{
    let hash = perceptual_hash_bytes(image);
    phash_from_hash_bytes(hash.as_slice())
}

} // verus!
