//! Verified core of an image-processing backend: content-based format
//! detection, conversion of raster images to WebP, and geometric resizing
//! with format-preserving re-encoding.

pub mod codec;
pub mod convert;
pub mod error;
pub mod format;
pub mod resize;

use vstd::prelude::*;

verus! {

/// Quality used when a resized image is re-encoded as JPEG.
pub const JPEG_QUALITY: u8 = 80;

} // verus!
