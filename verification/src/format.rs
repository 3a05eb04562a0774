//! Content-based image format detection.
//!
//! The format of an input is decided by its leading magic bytes alone,
//! never by a file name or extension.

use vstd::prelude::*;

verus! {

/// The closed set of raster formats the pipelines understand.
#[derive(Clone, Copy, Debug, PartialEq, Eq, Structural)]
pub enum ImageKind {
    Png,
    Jpeg,
    WebP,
}

/// The eight-byte PNG signature stands at the start of the data.
pub open spec fn is_png_magic(s: Seq<u8>) -> bool {
    s.len() >= 8
        && s[0] == 0x89u8
        && s[1] == 0x50u8
        && s[2] == 0x4eu8
        && s[3] == 0x47u8
        && s[4] == 0x0du8
        && s[5] == 0x0au8
        && s[6] == 0x1au8
        && s[7] == 0x0au8
}

/// The JPEG start-of-image marker, followed by a third marker byte.
pub open spec fn is_jpeg_magic(s: Seq<u8>) -> bool {
    s.len() >= 3 && s[0] == 0xffu8 && s[1] == 0xd8u8 && s[2] == 0xffu8
}

/// A RIFF container whose form tag is WEBP.
pub open spec fn is_webp_magic(s: Seq<u8>) -> bool {
    s.len() >= 12
        && s[0] == 0x52u8
        && s[1] == 0x49u8
        && s[2] == 0x46u8
        && s[3] == 0x46u8
        && s[8] == 0x57u8
        && s[9] == 0x45u8
        && s[10] == 0x42u8
        && s[11] == 0x50u8
}

/// The format detected from the leading bytes, if any.
pub open spec fn detect_spec(s: Seq<u8>) -> Option<ImageKind> {
    if is_png_magic(s) {
        Some(ImageKind::Png)
    } else if is_jpeg_magic(s) {
        Some(ImageKind::Jpeg)
    } else if is_webp_magic(s) {
        Some(ImageKind::WebP)
    } else {
        None
    }
}

/// Detects the encoded format of `bytes` by content sniffing.
pub fn detect_format(bytes: &Vec<u8>) -> (r: Option<ImageKind>)
    ensures
        r == detect_spec(bytes@),
{
    if bytes.len() >= 8 && bytes[0] == 0x89u8 && bytes[1] == 0x50u8 && bytes[2] == 0x4eu8
        && bytes[3] == 0x47u8 && bytes[4] == 0x0du8 && bytes[5] == 0x0au8
        && bytes[6] == 0x1au8 && bytes[7] == 0x0au8 {
        Some(ImageKind::Png)
    } else if bytes.len() >= 3 && bytes[0] == 0xffu8 && bytes[1] == 0xd8u8 && bytes[2] == 0xffu8 {
        Some(ImageKind::Jpeg)
    } else if bytes.len() >= 12 && bytes[0] == 0x52u8 && bytes[1] == 0x49u8
        && bytes[2] == 0x46u8 && bytes[3] == 0x46u8 && bytes[8] == 0x57u8
        && bytes[9] == 0x45u8 && bytes[10] == 0x42u8 && bytes[11] == 0x50u8 {
        Some(ImageKind::WebP)
    } else {
        None
    }
}

/// The three recognisable magics exclude one another: each fixes a
/// different first byte, so at most one format can be detected.
pub proof fn lemma_magics_disjoint(s: Seq<u8>)
    ensures
        !(is_png_magic(s) && is_jpeg_magic(s)),
        !(is_png_magic(s) && is_webp_magic(s)),
        !(is_jpeg_magic(s) && is_webp_magic(s)),
{
}

} // verus!

