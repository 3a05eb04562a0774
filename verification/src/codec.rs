//! The shared image codec: decoding with content-based format detection,
//! geometric resizing, and re-encoding.
//!
//! The raster operations themselves are carried out by the `image` and
//! `webp` crates behind the trusted items of this module.  Each encoder
//! or decoder result that would take pages to describe is given a name
//! (an uninterpreted spec function of the input alone), and the verified
//! pipelines state their contracts over those names.

use vstd::prelude::*;

use crate::error::TransformError;
use crate::format::{detect_spec, detect_format, ImageKind};

verus! {

#[verifier::external_type_specification]
#[verifier::external_body]
pub struct ExDynamicImage(image::DynamicImage);

/// The dimensions of the raster decoded from `bytes` in the format
/// sniffed from `bytes`, or `None` where the bytes are malformed.
pub uninterp spec fn decoded_dims(bytes: Seq<u8>) -> Option<(u32, u32)>;

/// The content of the raster obtained by resizing the raster identified
/// by `content` to fit within `nwidth` x `nheight` with Lanczos3 resampling.
pub uninterp spec fn resized_content(content: Seq<u8>, nwidth: u32, nheight: u32) -> Seq<u8>;

/// The PNG encoding of the raster identified by `content`, or `None`
/// where the PNG encoder rejects it.
pub uninterp spec fn png_encoding(content: Seq<u8>) -> Option<Seq<u8>>;

/// The JPEG encoding, at the given quality, of the raster identified by
/// `content`, or `None` where the JPEG encoder rejects it.
pub uninterp spec fn jpeg_encoding(content: Seq<u8>, quality: u8) -> Option<Seq<u8>>;

/// The lossy WebP encoding, at the given quality, of the raster
/// identified by `content`, or `None` where the encoder rejects it.
pub uninterp spec fn webp_lossy_encoding(content: Seq<u8>, quality: u8) -> Option<Seq<u8>>;

/// The lossless WebP encoding of the raster identified by `content`,
/// or `None` where the encoder rejects it.
pub uninterp spec fn webp_lossless_encoding(content: Seq<u8>) -> Option<Seq<u8>>;

/// An in-memory raster with its detected source format.
///
/// The `content` field is a ghost token that identifies the pixel
/// content: for a freshly decoded raster it is the encoded input, and
/// for a resized raster it is named by `resized_content`.  Values of
/// this type are only ever built by the trusted constructors below, so
/// the token always describes the raster that `data` actually holds.
pub struct Raster {
    kind: ImageKind,
    width: u32,
    height: u32,
    content: Ghost<Seq<u8>>,
    data: image::DynamicImage,
}

/// The mathematical model of a [`Raster`].
pub struct RasterView {
    pub kind: ImageKind,
    pub width: u32,
    pub height: u32,
    pub content: Seq<u8>,
}

impl View for Raster {
    type V = RasterView;

    closed spec fn view(&self) -> RasterView {
        RasterView {
            kind: self.kind,
            width: self.width,
            height: self.height,
            content: self.content@,
        }
    }
}

impl Raster {
    /// The detected source format of this raster.
    pub fn kind(&self) -> (r: ImageKind)
        ensures
            r == self@.kind,
    {
        self.kind
    }

    /// The width of this raster in pixels.
    pub fn width(&self) -> (r: u32)
        ensures
            r == self@.width,
    {
        self.width
    }

    /// The height of this raster in pixels.
    pub fn height(&self) -> (r: u32)
        ensures
            r == self@.height,
    {
        self.height
    }
}

/// Relies on image::load_from_memory_with_format: decoding is a pure
/// function of the bytes and the format, it returns an error exactly on
/// malformed input, and the decoded raster reports its own dimensions
/// through DynamicImage::width and DynamicImage::height.
#[verifier::external_body]
pub(crate) fn decode_image(bytes: &Vec<u8>, kind: ImageKind) -> (r: Result<Raster, ()>)
    requires
        detect_spec(bytes@) == Some(kind),
    ensures
        r is Ok <==> decoded_dims(bytes@) is Some,
        r matches Ok(img) ==> img@.kind == kind && img@.content == bytes@
            && decoded_dims(bytes@) == Some((img@.width, img@.height)),
{
    let format = match kind {
        ImageKind::Png => image::ImageFormat::Png,
        ImageKind::Jpeg => image::ImageFormat::Jpeg,
        ImageKind::WebP => image::ImageFormat::WebP,
    };
    match image::load_from_memory_with_format(bytes.as_slice(), format) {
        Ok(data) => Ok(Raster {
            kind,
            width: data.width(),
            height: data.height(),
            content: Ghost(Seq::empty()),
            data,
        }),
        Err(_) => Err(()),
    }
}

/// Relies on image::DynamicImage::resize with FilterType::Lanczos3: the
/// result is a pure function of the raster and the bounds, keeps the
/// source format irrelevant (pixels only), preserves the aspect ratio,
/// is scaled to the maximum size that fits within the bounds (hence at
/// least 1 x 1 and at most the bounds), and is a plain clone of the
/// raster when the bounds equal its current dimensions.
#[verifier::external_body]
pub(crate) fn resize_lanczos3(img: &Raster, nwidth: u32, nheight: u32) -> (r: Raster)
    requires
        1 <= nwidth,
        1 <= nheight,
        1 <= img@.width,
        1 <= img@.height,
    ensures
        r@.kind == img@.kind,
        r@.content == resized_content(img@.content, nwidth, nheight),
        1 <= r@.width <= nwidth,
        1 <= r@.height <= nheight,
        nwidth == img@.width && nheight == img@.height ==> r@ == img@,
{
    let data = img.data.resize(nwidth, nheight, image::imageops::FilterType::Lanczos3);
    Raster {
        kind: img.kind,
        width: data.width(),
        height: data.height(),
        content: Ghost(Seq::empty()),
        data,
    }
}

/// Relies on image::DynamicImage::write_to with ImageOutputFormat::Png:
/// encoding into an in-memory buffer is a pure function of the raster
/// and fails exactly where the PNG encoder rejects the raster.
#[verifier::external_body]
pub(crate) fn encode_png(img: &Raster) -> (r: Result<Vec<u8>, ()>)
    ensures
        r matches Ok(b) ==> png_encoding(img@.content) == Some(b@),
        r is Err <==> png_encoding(img@.content) is None,
{
    let mut buf = std::io::Cursor::new(Vec::new());
    match img.data.write_to(&mut buf, image::ImageOutputFormat::Png) {
        Ok(()) => Ok(buf.into_inner()),
        Err(_) => Err(()),
    }
}

/// Relies on image::DynamicImage::write_to with ImageOutputFormat::Jpeg:
/// encoding into an in-memory buffer is a pure function of the raster
/// and the quality, and fails exactly where the JPEG encoder rejects
/// the raster.
#[verifier::external_body]
pub(crate) fn encode_jpeg(img: &Raster, quality: u8) -> (r: Result<Vec<u8>, ()>)
    ensures
        r matches Ok(b) ==> jpeg_encoding(img@.content, quality) == Some(b@),
        r is Err <==> jpeg_encoding(img@.content, quality) is None,
{
    let mut buf = std::io::Cursor::new(Vec::new());
    match img.data.write_to(&mut buf, image::ImageOutputFormat::Jpeg(quality)) {
        Ok(()) => Ok(buf.into_inner()),
        Err(_) => Err(()),
    }
}

/// Relies on webp::Encoder::from_image and webp::Encoder::encode_simple
/// in lossy mode: the encoded bytes are a pure function of the raster
/// and the quality.  A quality above 100 is rejected by the encoder's
/// configuration check, so it is excluded here.  Nothing is promised of
/// a failure, which the encoder may also report when out of memory.
#[verifier::external_body]
pub(crate) fn encode_webp_lossy(img: &Raster, quality: u8) -> (r: Result<Vec<u8>, ()>)
    requires
        quality <= 100,
    ensures
        r matches Ok(b) ==> webp_lossy_encoding(img@.content, quality) == Some(b@),
{
    let encoder = match webp::Encoder::from_image(&img.data) {
        Ok(encoder) => encoder,
        Err(_) => return Err(()),
    };
    match encoder.encode_simple(false, quality.into()) {
        Ok(mem) => Ok(mem.to_vec()),
        Err(_) => Err(()),
    }
}

/// Relies on webp::Encoder::from_image and webp::Encoder::encode_simple
/// in lossless mode (the quality 75 below is the crate's own default,
/// as in webp::Encoder::encode_lossless): the encoded bytes are a pure
/// function of the raster.  Nothing is promised of a failure, which the
/// encoder may also report when out of memory.
#[verifier::external_body]
pub(crate) fn encode_webp_lossless(img: &Raster) -> (r: Result<Vec<u8>, ()>)
    ensures
        r matches Ok(b) ==> webp_lossless_encoding(img@.content) == Some(b@),
{
    let encoder = match webp::Encoder::from_image(&img.data) {
        Ok(encoder) => encoder,
        Err(_) => return Err(()),
    };
    match encoder.encode_simple(true, (75u8).into()) {
        Ok(mem) => Ok(mem.to_vec()),
        Err(_) => Err(()),
    }
}

/// What decoding an input should yield: the model of the raster decoded
/// from the sniffed format, or the exact error.
pub open spec fn decode_input_spec(bytes: Seq<u8>) -> Result<RasterView, TransformError> {
    match detect_spec(bytes) {
        None => Err(TransformError::UnsupportedFormat),
        Some(kind) => match decoded_dims(bytes) {
            None => Err(TransformError::Decode),
            Some(dims) => Ok(
                RasterView { kind, width: dims.0, height: dims.1, content: bytes },
            ),
        },
    }
}

/// Sniffs the format of `bytes` and decodes them into a raster.
pub fn decode_input(bytes: &Vec<u8>) -> (r: Result<Raster, TransformError>)
    ensures
        r matches Ok(img) ==> decode_input_spec(bytes@) == Ok::<RasterView, TransformError>(
            img@,
        ),
        r matches Err(e) ==> decode_input_spec(bytes@) == Err::<RasterView, TransformError>(e),
{
    match detect_format(bytes) {
        None => Err(TransformError::UnsupportedFormat),
        Some(kind) => match decode_image(bytes, kind) {
            Ok(img) => Ok(img),
            Err(()) => Err(TransformError::Decode),
        },
    }
}

} // verus!
