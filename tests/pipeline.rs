use imscale_service::paths::ServeError;
use imscale_service::pipeline::{
    render, serve_image, ImgFormat, ResizeParams, ResizePlan,
};
use imscale_service::times::Timestamp;

fn encoded(width: u32, height: u32, format: image::ImageFormat) -> Vec<u8> {
    let img = image::DynamicImage::ImageRgb8(image::RgbImage::from_pixel(
        width,
        height,
        image::Rgb([200, 30, 90]),
    ));
    let mut out = Vec::new();
    img.write_to(&mut std::io::Cursor::new(&mut out), format).unwrap();
    out
}

fn params(width: Option<u32>, height: Option<u32>, keep: Option<bool>) -> ResizeParams {
    ResizeParams { width, height, preserve_aspect_ratio: keep }
}

fn dims(bytes: &[u8]) -> (u32, u32) {
    let img = image::load_from_memory(bytes).unwrap();
    (img.width(), img.height())
}

#[test]
fn plan_needs_both_dimensions() {
    assert_eq!(params(None, None, None).plan(), ResizePlan::Keep);
    assert_eq!(params(Some(100), None, Some(true)).plan(), ResizePlan::Keep);
    assert_eq!(params(None, Some(50), None).plan(), ResizePlan::Keep);
}

#[test]
fn plan_exact_by_default() {
    assert_eq!(
        params(Some(100), Some(50), None).plan(),
        ResizePlan::Exact { width: 100, height: 50 }
    );
    assert_eq!(
        params(Some(100), Some(50), Some(false)).plan(),
        ResizePlan::Exact { width: 100, height: 50 }
    );
    assert_eq!(
        params(Some(100), Some(50), Some(true)).plan(),
        ResizePlan::Fit { width: 100, height: 50 }
    );
}

#[test]
fn content_types() {
    assert_eq!(ImgFormat::Png.content_type(), "image/png");
    assert_eq!(ImgFormat::Jpeg.content_type(), "image/jpeg");
    assert_eq!(ImgFormat::Gif.content_type(), "image/gif");
    assert_eq!(ImgFormat::WebP.content_type(), "image/webp");
    assert_eq!(ImgFormat::Avif.content_type(), "image/avif");
    assert_eq!(ImgFormat::Tiff.content_type(), "image/tiff");
    assert_eq!(ImgFormat::Bmp.content_type(), "application/octet-stream");
    assert_eq!(ImgFormat::Ico.content_type(), "application/octet-stream");
}

#[test]
fn format_conversion_round_trips() {
    for f in [ImgFormat::Png, ImgFormat::Jpeg, ImgFormat::Gif, ImgFormat::Tiff, ImgFormat::Qoi] {
        assert_eq!(ImgFormat::from_image_format(f.to_image_format()), Some(f));
    }
}

#[test]
fn no_resize_keeps_format_and_size() {
    let src = encoded(200, 120, image::ImageFormat::Png);
    let out = render(&src, &params(None, None, None)).unwrap();
    assert_eq!(out.format, ImgFormat::Png);
    assert_eq!(image::guess_format(&out.bytes).unwrap(), image::ImageFormat::Png);
    assert_eq!(dims(&out.bytes), (200, 120));
    assert_eq!((out.width, out.height), (200, 120));
}

#[test]
fn no_resize_keeps_jpeg() {
    let src = encoded(64, 32, image::ImageFormat::Jpeg);
    let out = render(&src, &params(Some(10), None, None)).unwrap();
    assert_eq!(out.format, ImgFormat::Jpeg);
    assert_eq!(image::guess_format(&out.bytes).unwrap(), image::ImageFormat::Jpeg);
    assert_eq!(dims(&out.bytes), (64, 32));
}

#[test]
fn exact_resize_distorts() {
    let src = encoded(200, 200, image::ImageFormat::Png);
    let out = render(&src, &params(Some(100), Some(50), Some(false))).unwrap();
    assert_eq!(dims(&out.bytes), (100, 50));
    assert_eq!((out.width, out.height), (100, 50));
    let out = render(&src, &params(Some(100), Some(50), None)).unwrap();
    assert_eq!(dims(&out.bytes), (100, 50));
}

#[test]
fn fit_resize_keeps_ratio() {
    let src = encoded(200, 200, image::ImageFormat::Png);
    let out = render(&src, &params(Some(100), Some(50), Some(true))).unwrap();
    let (w, h) = dims(&out.bytes);
    assert!(w <= 100 && h <= 50);
    assert_eq!((w, h), (50, 50));
    assert_eq!((out.width, out.height), (50, 50));
}

#[test]
fn corrupt_payload_is_internal_error() {
    let junk = b"this is not an image at all".to_vec();
    assert_eq!(render(&junk, &params(None, None, None)).err(), Some(ServeError::InternalError));
    assert_eq!(render(&[], &params(None, None, None)).err(), Some(ServeError::InternalError));
}

#[test]
fn truncated_png_is_internal_error() {
    let mut src = encoded(50, 50, image::ImageFormat::Png);
    src.truncate(20);
    assert_eq!(render(&src, &params(None, None, None)).err(), Some(ServeError::InternalError));
}

#[test]
fn served_headers() {
    let src = encoded(20, 10, image::ImageFormat::Gif);
    let t = Timestamp { secs: 0, nanos: 0 };
    let resp = serve_image(&src, &params(None, None, None), t).unwrap();
    assert_eq!(resp.content_type, "image/gif");
    assert_eq!(resp.cache_control, "public, max-age=31536000");
    assert_eq!(resp.last_modified, "Thu, 1 Jan 1970 00:00:00 +0000");
    assert_eq!(dims(&resp.body), (20, 10));
    assert_eq!((resp.width, resp.height), (20, 10));
}

#[test]
fn served_error_for_junk() {
    let t = Timestamp { secs: 0, nanos: 0 };
    assert_eq!(
        serve_image(b"junk", &params(None, None, None), t).err(),
        Some(ServeError::InternalError)
    );
}

#[test]
fn fit_resize_of_wide_image() {
    let src = encoded(300, 100, image::ImageFormat::Png);
    let out = render(&src, &params(Some(60), Some(60), Some(true))).unwrap();
    assert_eq!((out.width, out.height), (60, 20));
    assert_eq!(dims(&out.bytes), (60, 20));
}

#[test]
fn resized_body_keeps_format() {
    let src = encoded(40, 40, image::ImageFormat::Bmp);
    let out = render(&src, &params(Some(10), Some(20), None)).unwrap();
    assert_eq!(out.format, ImgFormat::Bmp);
    assert_eq!(image::guess_format(&out.bytes).unwrap(), image::ImageFormat::Bmp);
    assert_eq!(dims(&out.bytes), (10, 20));
}

fn crc32(data: &[u8]) -> u32 {
    let mut crc: u32 = 0xffff_ffff;
    for &b in data {
        crc ^= u32::from(b);
        for _ in 0..8 {
            let mask = (crc & 1).wrapping_neg();
            crc = (crc >> 1) ^ (0xedb8_8320 & mask);
        }
    }
    !crc
}

/// A PNG whose eXIf chunk sets the orientation tag to `orientation`.
fn png_with_orientation(width: u32, height: u32, orientation: u8) -> Vec<u8> {
    let png = encoded(width, height, image::ImageFormat::Png);
    let exif: Vec<u8> = vec![
        b'M', b'M', 0, 42, 0, 0, 0, 8, // big-endian TIFF header, first IFD at 8
        0, 1, // one entry
        0x01, 0x12, 0, 3, 0, 0, 0, 1, 0, orientation, 0, 0, // orientation, SHORT, 1 value
        0, 0, 0, 0, // no next IFD
    ];
    let mut chunk = Vec::new();
    chunk.extend_from_slice(&(exif.len() as u32).to_be_bytes());
    let mut body = b"eXIf".to_vec();
    body.extend_from_slice(&exif);
    chunk.extend_from_slice(&body);
    chunk.extend_from_slice(&crc32(&body).to_be_bytes());
    // signature (8) + IHDR chunk (25)
    let mut out = png[..33].to_vec();
    out.extend_from_slice(&chunk);
    out.extend_from_slice(&png[33..]);
    out
}

#[test]
fn quarter_turn_orientation_swaps_size() {
    let src = png_with_orientation(40, 20, 6);
    let out = render(&src, &params(None, None, None)).unwrap();
    assert_eq!((out.width, out.height), (20, 40));
    assert_eq!(dims(&out.bytes), (20, 40));
}

#[test]
fn half_turn_orientation_keeps_size() {
    let src = png_with_orientation(40, 20, 3);
    let out = render(&src, &params(None, None, None)).unwrap();
    assert_eq!((out.width, out.height), (40, 20));
}

#[test]
fn fit_resize_rounds_the_short_side() {
    let src = encoded(333, 100, image::ImageFormat::Png);
    let out = render(&src, &params(Some(100), Some(100), Some(true))).unwrap();
    assert_eq!((out.width, out.height), (100, 30));
    assert_eq!(dims(&out.bytes), (100, 30));
}
