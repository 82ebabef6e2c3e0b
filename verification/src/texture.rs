//! The upload layout of a decoded 8-bit RGBA texture image.
//!
//! Decoded texel data is uploaded tightly packed: a fixed row stride of
//! `4 * width` bytes and `height` rows, `4 * width * height` bytes in all.

use vstd::prelude::*;

verus! {

/// How the texel bytes of one 2D image are laid out for upload.
#[derive(Clone, Copy, Debug, PartialEq, Eq, Structural)]
pub struct TexelLayout {
    /// Byte offset of the first texel.
    pub offset: u32,
    /// Bytes between the starts of consecutive rows.
    pub bytes_per_row: u32,
    /// Rows in one image.
    pub rows_per_image: u32,
}

/// The fixed upload layout of a `width` x `height` 8-bit RGBA image:
/// offset 0 and a row stride of exactly `4 * width` bytes.
pub fn rgba_upload_layout(width: u32, height: u32) -> (l: TexelLayout)
    requires
        4 * width <= u32::MAX,
    ensures
        l.offset == 0,
        l.bytes_per_row == 4 * width,
        l.rows_per_image == height,
{
    TexelLayout { offset: 0, bytes_per_row: 4 * width, rows_per_image: height }
}

} // verus!
