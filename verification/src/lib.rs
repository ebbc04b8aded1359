//! Verified core of a photo-library backup tool: content hashes of images,
//! perceptual-hash comparison, backup file naming and the bookkeeping of a
//! folder walk.

pub mod hex_codec;
pub mod hashes;
pub mod hamming;
pub mod db;
pub mod stats;
pub mod walk;
pub mod text;
pub mod naming;
pub mod location;
