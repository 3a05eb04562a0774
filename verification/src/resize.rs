//! The resize pipeline: a decoded raster is scaled to fit requested
//! bounds with Lanczos3 resampling and re-encoded in its original
//! detected format (JPEG at a fixed quality, WebP losslessly).

use vstd::prelude::*;

use crate::codec::{
    encode_jpeg, encode_png, encode_webp_lossless, jpeg_encoding, png_encoding, resize_lanczos3,
    resized_content, webp_lossless_encoding, Raster, RasterView,
};
use crate::error::TransformError;
use crate::format::ImageKind;
use crate::JPEG_QUALITY;

verus! {

/// The re-encoding of the raster modelled by `v` in its own detected
/// format: PNG stays PNG, JPEG stays JPEG at the fixed quality, WebP is
/// written losslessly.
pub open spec fn format_encoding(v: RasterView) -> Option<Seq<u8>> {
    match v.kind {
        ImageKind::Png => png_encoding(v.content),
        ImageKind::Jpeg => jpeg_encoding(v.content, JPEG_QUALITY),
        ImageKind::WebP => webp_lossless_encoding(v.content),
    }
}

/// The model of the raster `v` resized to fit within the given bounds.
pub open spec fn resized_view(v: RasterView, nwidth: u32, nheight: u32) -> RasterView {
    RasterView { content: resized_content(v.content, nwidth, nheight), ..v }
}

/// Scales `img` to the maximum size that fits within `nwidth` x
/// `nheight`, preserving its aspect ratio, and re-encodes the scaled
/// raster in the format `img` was decoded from.
///
/// A degenerate request — either bound zero, or a raster with no
/// pixels — is rejected rather than handed to the resampler.  When the
/// bounds equal the raster's own dimensions the raster is left
/// untouched, so the output is a plain re-encode of it.
pub fn resize_to_dimensions(img: &Raster, nwidth: u32, nheight: u32) -> (r: Result<
    Vec<u8>,
    TransformError,
>)
    ensures
        r == Err::<Vec<u8>, TransformError>(TransformError::InvalidDimensions) <==> (nwidth == 0
            || nheight == 0 || img@.width == 0 || img@.height == 0),
        r matches Ok(b) ==> format_encoding(resized_view(img@, nwidth, nheight)) == Some(b@),
        r matches Err(e) ==> (e == TransformError::InvalidDimensions || e
            == TransformError::Encode),
        (r == Err::<Vec<u8>, TransformError>(TransformError::Encode) && img@.kind
            != ImageKind::WebP) ==> format_encoding(resized_view(img@, nwidth, nheight)) is None,
        r matches Ok(b) ==> ((nwidth == img@.width && nheight == img@.height) ==> format_encoding(
            img@,
        ) == Some(b@)),
{
    if nwidth == 0 || nheight == 0 || img.width() == 0 || img.height() == 0 {
        return Err(TransformError::InvalidDimensions);
    }
    let resized = resize_lanczos3(img, nwidth, nheight);
    let encoded = match resized.kind() {
        ImageKind::Png => encode_png(&resized),
        ImageKind::Jpeg => encode_jpeg(&resized, JPEG_QUALITY),
        ImageKind::WebP => encode_webp_lossless(&resized),
    };
    match encoded {
        Ok(out) => Ok(out),
        Err(()) => Err(TransformError::Encode),
    }
}

/// One per-item report of the resize pipeline.  Only successfully
/// processed paths are reported; a failed item yields nothing.
pub struct ResizeOutcome {
    pub input: String,
}

impl View for ResizeOutcome {
    type V = Seq<char>;

    open spec fn view(&self) -> Seq<char> {
        self.input@
    }
}

/// Turns the overall result of one resize item into its report: a
/// completion naming the submitted path on success, and nothing at all
/// on failure.
pub fn resize_outcome(path: &String, result: &Result<(), TransformError>) -> (r: Option<
    ResizeOutcome,
>)
    ensures
        r is Some <==> result is Ok,
        r matches Some(o) ==> o@ == path@,
{
    match result {
        Ok(()) => Some(ResizeOutcome { input: path.clone() }),
        Err(_) => None,
    }
}

} // verus!
