use hub::codec::decode_input;
use hub::error::TransformError;
use hub::format::ImageKind;
use hub::resize::{resize_outcome, resize_to_dimensions};

use image::GenericImageView;

fn png_bytes(width: u32, height: u32) -> Vec<u8> {
    let img = image::RgbaImage::from_fn(width, height, |x, y| {
        image::Rgba([(x % 251) as u8, (y % 241) as u8, ((x + y) % 239) as u8, 255])
    });
    let dyn_img = image::DynamicImage::ImageRgba8(img);
    let mut cur = std::io::Cursor::new(Vec::new());
    dyn_img
        .write_to(&mut cur, image::ImageOutputFormat::Png)
        .unwrap();
    cur.into_inner()
}

fn jpeg_bytes(width: u32, height: u32) -> Vec<u8> {
    let img = image::RgbImage::from_fn(width, height, |x, y| {
        image::Rgb([(x % 251) as u8, (y % 241) as u8, ((x + y) % 239) as u8])
    });
    let dyn_img = image::DynamicImage::ImageRgb8(img);
    let mut cur = std::io::Cursor::new(Vec::new());
    dyn_img
        .write_to(&mut cur, image::ImageOutputFormat::Jpeg(90))
        .unwrap();
    cur.into_inner()
}

fn webp_bytes(width: u32, height: u32) -> Vec<u8> {
    let img = image::RgbImage::from_fn(width, height, |x, y| {
        image::Rgb([(x % 251) as u8, (y % 241) as u8, ((x + y) % 239) as u8])
    });
    let dyn_img = image::DynamicImage::ImageRgb8(img);
    webp::Encoder::from_image(&dyn_img)
        .unwrap()
        .encode_lossless()
        .to_vec()
}

/// The target dimensions as the host computes them: the truncated
/// product of the source dimension and the caller's scale factor.
fn scaled(dim: u32, factor: f32) -> u32 {
    (dim as f32 * factor) as u32
}

#[test]
fn resize_half_preserves_format_and_halves_dimensions() {
    let input = png_bytes(200, 100);
    let img = decode_input(&input).unwrap();
    assert_eq!((img.width(), img.height()), (200, 100));
    let nwidth = scaled(img.width(), 0.5);
    let nheight = scaled(img.height(), 0.5);
    assert_eq!((nwidth, nheight), (100, 50));
    let out = resize_to_dimensions(&img, nwidth, nheight).unwrap();
    let decoded = image::load_from_memory(&out).unwrap();
    assert_eq!(decoded.dimensions(), (100, 50));
    assert_eq!(image::guess_format(&out).unwrap(), image::ImageFormat::Png);
}

#[test]
fn resize_identity_keeps_dimensions() {
    let input = png_bytes(64, 32);
    let img = decode_input(&input).unwrap();
    let nwidth = scaled(img.width(), 1.0);
    let nheight = scaled(img.height(), 1.0);
    assert_eq!((nwidth, nheight), (64, 32));
    let out = resize_to_dimensions(&img, nwidth, nheight).unwrap();
    let decoded = image::load_from_memory(&out).unwrap();
    assert_eq!(decoded.dimensions(), (64, 32));
    assert_eq!(image::guess_format(&out).unwrap(), image::ImageFormat::Png);
}

#[test]
fn resize_identity_lossless_webp_is_bit_identical() {
    // With both factors 1.0 the raster is untouched, and the lossless
    // WebP branch re-encodes the very same pixels with the very same
    // encoder settings that produced the input.
    let input = webp_bytes(24, 12);
    let img = decode_input(&input).unwrap();
    assert_eq!(img.kind(), ImageKind::WebP);
    let nwidth = scaled(img.width(), 1.0);
    let nheight = scaled(img.height(), 1.0);
    let out = resize_to_dimensions(&img, nwidth, nheight).unwrap();
    assert_eq!(out, input);
}

#[test]
fn resize_jpeg_stays_jpeg() {
    let input = jpeg_bytes(80, 60);
    let img = decode_input(&input).unwrap();
    assert_eq!(img.kind(), ImageKind::Jpeg);
    let out = resize_to_dimensions(&img, 40, 30).unwrap();
    let decoded = image::load_from_memory(&out).unwrap();
    assert_eq!(decoded.dimensions(), (40, 30));
    assert_eq!(image::guess_format(&out).unwrap(), image::ImageFormat::Jpeg);
}

#[test]
fn resize_webp_reencodes_the_resized_raster() {
    // The WebP branch writes the scaled raster, not the raster it was
    // decoded from: the output must carry the new dimensions.
    let input = webp_bytes(200, 100);
    let img = decode_input(&input).unwrap();
    assert_eq!(img.kind(), ImageKind::WebP);
    let out = resize_to_dimensions(&img, 100, 50).unwrap();
    let decoded = image::load_from_memory(&out).unwrap();
    assert_eq!(decoded.dimensions(), (100, 50));
    assert_eq!(image::guess_format(&out).unwrap(), image::ImageFormat::WebP);
}

#[test]
fn resize_doubles_dimensions() {
    let input = png_bytes(10, 10);
    let img = decode_input(&input).unwrap();
    let nwidth = scaled(img.width(), 2.0);
    let nheight = scaled(img.height(), 2.0);
    assert_eq!((nwidth, nheight), (20, 20));
    let out = resize_to_dimensions(&img, nwidth, nheight).unwrap();
    let decoded = image::load_from_memory(&out).unwrap();
    assert_eq!(decoded.dimensions(), (20, 20));
}

#[test]
fn degenerate_dimensions_rejected() {
    let input = png_bytes(10, 10);
    let img = decode_input(&input).unwrap();
    assert_eq!(
        resize_to_dimensions(&img, 0, 5),
        Err(TransformError::InvalidDimensions)
    );
    assert_eq!(
        resize_to_dimensions(&img, 5, 0),
        Err(TransformError::InvalidDimensions)
    );
}

#[test]
fn corrupt_item_yields_no_completion() {
    let mut corrupt = vec![0x52, 0x49, 0x46, 0x46];
    corrupt.extend_from_slice(&[0u8, 0, 0, 0]);
    corrupt.extend_from_slice(b"WEBPbroken");
    let decoded = decode_input(&corrupt);
    let err = decoded.err().unwrap();
    assert_eq!(err, TransformError::Decode);
    let path = "broken.webp".to_string();
    assert!(resize_outcome(&path, &Err(err)).is_none());
    // The loop goes on: the next, healthy item still completes.
    let next = png_bytes(6, 6);
    let img = decode_input(&next).unwrap();
    assert!(resize_to_dimensions(&img, 3, 3).is_ok());
    let completion = resize_outcome(&"fine.png".to_string(), &Ok(())).unwrap();
    assert_eq!(completion.input, "fine.png");
}

#[test]
fn unreadable_item_yields_no_completion() {
    let path = "missing.png".to_string();
    assert!(resize_outcome(&path, &Err(TransformError::Io)).is_none());
}
