//! The image-serving pipeline: format detection, decoding with orientation
//! normalisation, the resize decision, re-encoding and response headers.
use vstd::prelude::*;
use vstd::string::StringExecFns;
use image::ImageDecoder;
use crate::paths::ServeError;
use crate::times::{Timestamp, rfc2822_or_empty};

verus! {

/// `image::ImageFormat`, a plain enum whose variants stay visible so that
/// verified code can tell formats apart and name them.
#[verifier::external_type_specification]
pub struct ExImageFormat(image::ImageFormat);

/// `image::DynamicImage`, a decoded pixel buffer, carried through opaquely.
#[verifier::external_type_specification]
#[verifier::external_body]
pub struct ExDynamicImage(image::DynamicImage);

/// An encoded image format.
#[derive(Clone, Copy, Debug, PartialEq, Eq, Structural)]
pub enum ImgFormat {
    Png,
    Jpeg,
    Gif,
    WebP,
    Pnm,
    Tiff,
    Tga,
    Dds,
    Bmp,
    Ico,
    Hdr,
    OpenExr,
    Farbfeld,
    Avif,
    Qoi,
}

/// The format an `image::ImageFormat` stands for; `None` for one this
/// service does not handle.
pub open spec fn format_class(f: image::ImageFormat) -> Option<ImgFormat> {
    match f {
        image::ImageFormat::Png => Some(ImgFormat::Png),
        image::ImageFormat::Jpeg => Some(ImgFormat::Jpeg),
        image::ImageFormat::Gif => Some(ImgFormat::Gif),
        image::ImageFormat::WebP => Some(ImgFormat::WebP),
        image::ImageFormat::Pnm => Some(ImgFormat::Pnm),
        image::ImageFormat::Tiff => Some(ImgFormat::Tiff),
        image::ImageFormat::Tga => Some(ImgFormat::Tga),
        image::ImageFormat::Dds => Some(ImgFormat::Dds),
        image::ImageFormat::Bmp => Some(ImgFormat::Bmp),
        image::ImageFormat::Ico => Some(ImgFormat::Ico),
        image::ImageFormat::Hdr => Some(ImgFormat::Hdr),
        image::ImageFormat::OpenExr => Some(ImgFormat::OpenExr),
        image::ImageFormat::Farbfeld => Some(ImgFormat::Farbfeld),
        image::ImageFormat::Avif => Some(ImgFormat::Avif),
        image::ImageFormat::Qoi => Some(ImgFormat::Qoi),
        _ => None,
    }
}

impl ImgFormat {
    /// The format as the image library names it.
    pub fn to_image_format(self) -> (r: image::ImageFormat)
        ensures
            format_class(r) == Some(self),
    {
        match self {
            ImgFormat::Png => image::ImageFormat::Png,
            ImgFormat::Jpeg => image::ImageFormat::Jpeg,
            ImgFormat::Gif => image::ImageFormat::Gif,
            ImgFormat::WebP => image::ImageFormat::WebP,
            ImgFormat::Pnm => image::ImageFormat::Pnm,
            ImgFormat::Tiff => image::ImageFormat::Tiff,
            ImgFormat::Tga => image::ImageFormat::Tga,
            ImgFormat::Dds => image::ImageFormat::Dds,
            ImgFormat::Bmp => image::ImageFormat::Bmp,
            ImgFormat::Ico => image::ImageFormat::Ico,
            ImgFormat::Hdr => image::ImageFormat::Hdr,
            ImgFormat::OpenExr => image::ImageFormat::OpenExr,
            ImgFormat::Farbfeld => image::ImageFormat::Farbfeld,
            ImgFormat::Avif => image::ImageFormat::Avif,
            ImgFormat::Qoi => image::ImageFormat::Qoi,
        }
    }

    /// The format an `image::ImageFormat` stands for, if this service handles it.
    pub fn from_image_format(f: image::ImageFormat) -> (r: Option<ImgFormat>)
        ensures
            r == format_class(f),
    {
        match f {
            image::ImageFormat::Png => Some(ImgFormat::Png),
            image::ImageFormat::Jpeg => Some(ImgFormat::Jpeg),
            image::ImageFormat::Gif => Some(ImgFormat::Gif),
            image::ImageFormat::WebP => Some(ImgFormat::WebP),
            image::ImageFormat::Pnm => Some(ImgFormat::Pnm),
            image::ImageFormat::Tiff => Some(ImgFormat::Tiff),
            image::ImageFormat::Tga => Some(ImgFormat::Tga),
            image::ImageFormat::Dds => Some(ImgFormat::Dds),
            image::ImageFormat::Bmp => Some(ImgFormat::Bmp),
            image::ImageFormat::Ico => Some(ImgFormat::Ico),
            image::ImageFormat::Hdr => Some(ImgFormat::Hdr),
            image::ImageFormat::OpenExr => Some(ImgFormat::OpenExr),
            image::ImageFormat::Farbfeld => Some(ImgFormat::Farbfeld),
            image::ImageFormat::Avif => Some(ImgFormat::Avif),
            image::ImageFormat::Qoi => Some(ImgFormat::Qoi),
            _ => None,
        }
    }

    /// The `Content-Type` an image of this format is served with.
    pub fn content_type(self) -> (r: &'static str)
        ensures
            r@ == content_type_of(self),
    {
        match self {
            ImgFormat::Png => "image/png",
            ImgFormat::Jpeg => "image/jpeg",
            ImgFormat::Gif => "image/gif",
            ImgFormat::WebP => "image/webp",
            ImgFormat::Avif => "image/avif",
            ImgFormat::Tiff => "image/tiff",
            _ => "application/octet-stream",
        }
    }
}

pub open spec fn content_type_of(f: ImgFormat) -> Seq<char> {
    match f {
        ImgFormat::Png => "image/png"@,
        ImgFormat::Jpeg => "image/jpeg"@,
        ImgFormat::Gif => "image/gif"@,
        ImgFormat::WebP => "image/webp"@,
        ImgFormat::Avif => "image/avif"@,
        ImgFormat::Tiff => "image/tiff"@,
        _ => "application/octet-stream"@,
    }
}

/// The format that the content of `b` shows, where it shows one that this
/// service handles.
pub uninterp spec fn sniffed_format(b: Seq<u8>) -> Option<ImgFormat>;

/// Relies on `image::guess_format`: detects the format from the leading
/// magic bytes of `b`, failing where none matches.
#[verifier::external_body]
fn guess_format(b: &[u8]) -> (r: Option<image::ImageFormat>)
    ensures
        match r {
            Some(f) => sniffed_format(b@) == format_class(f),
            None => sniffed_format(b@) is None,
        },
{
    image::guess_format(b).ok()
}

/// The optional resize parameters of a download request.
#[derive(Clone, Copy, Debug, PartialEq, Eq, Structural)]
pub struct ResizeParams {
    pub width: Option<u32>,
    pub height: Option<u32>,
    pub preserve_aspect_ratio: Option<bool>,
}

/// What is done to the decoded image before it is encoded again.
#[derive(Clone, Copy, Debug, PartialEq, Eq, Structural)]
pub enum ResizePlan {
    /// Served at its own size.
    Keep,
    /// Scaled to exactly this size, distorting the aspect ratio if need be.
    Exact { width: u32, height: u32 },
    /// Scaled to fit within this size, keeping the aspect ratio.
    Fit { width: u32, height: u32 },
}

/// Where the pixels of a [`Picture`] come from: the file content and its
/// format, decoded and turned upright, then resized by `plan`.
pub struct PictureOrigin {
    pub source: Seq<u8>,
    pub format: ImgFormat,
    pub plan: ResizePlan,
}

/// A decoded image, its size, and where its pixels come from. Only the
/// functions of this module that call the image library make one.
pub struct Picture {
    img: image::DynamicImage,
    width: u32,
    height: u32,
    origin: Ghost<PictureOrigin>,
}

/// Whether the content `b` decodes as format `f` (orientation included).
pub uninterp spec fn decodes(b: Seq<u8>, f: ImgFormat) -> bool;

/// The pixel size stored in the content `b` of format `f`, before the
/// embedded orientation is applied.
pub uninterp spec fn stored_size(b: Seq<u8>, f: ImgFormat) -> (u32, u32);

/// Whether the embedded orientation of `b` (format `f`) turns the image by
/// a quarter (90 or 270 degrees, with or without a flip).
pub uninterp spec fn quarter_turned(b: Seq<u8>, f: ImgFormat) -> bool;

/// The size the image library gives an image of `width` by `height` scaled
/// to fit within `box_width` by `box_height`, keeping its aspect ratio.
pub uninterp spec fn fitted_size(width: u32, height: u32, box_width: u32, box_height: u32) -> (
    u32,
    u32,
);

/// Whether the pixels decoded from `source` (format `format`) and resized by
/// `plan` can be encoded as `target`.
pub uninterp spec fn encodable(
    source: Seq<u8>,
    format: ImgFormat,
    plan: ResizePlan,
    target: Option<ImgFormat>,
) -> bool;

/// The size of the upright image decoded from `b`.
pub open spec fn upright_size(b: Seq<u8>, f: ImgFormat) -> (u32, u32) {
    let (w, h) = stored_size(b, f);
    if quarter_turned(b, f) {
        (h, w)
    } else {
        (w, h)
    }
}

pub open spec fn decoded_origin(b: Seq<u8>, f: image::ImageFormat) -> PictureOrigin {
    PictureOrigin { source: b, format: format_class(f)->Some_0, plan: ResizePlan::Keep }
}

pub open spec fn resized_origin(p: PictureOrigin, plan: ResizePlan) -> PictureOrigin {
    PictureOrigin { plan, ..p }
}

/// Relies on `image::ImageReader::with_format(..).into_decoder()`,
/// `ImageDecoder::orientation`, `DynamicImage::from_decoder` and
/// `DynamicImage::apply_orientation`: decodes `b` as format `f` and turns
/// the pixels upright by the embedded orientation (a quarter turn swaps width
/// and height); `None` where any of these fail. The decoder in between is an
/// `impl ImageDecoder` that cannot leave this function.
#[verifier::external_body]
fn decode_upright(b: &[u8], f: image::ImageFormat) -> (r: Option<Picture>)
    requires
        format_class(f) is Some,
    ensures
        r is Some <==> decodes(b@, format_class(f)->Some_0),
        r matches Some(p) ==> p.origin@ == decoded_origin(b@, f),
        r matches Some(p) ==> if quarter_turned(b@, format_class(f)->Some_0) {
            p.width == stored_size(b@, format_class(f)->Some_0).1 && p.height == stored_size(
                b@,
                format_class(f)->Some_0,
            ).0
        } else {
            (p.width, p.height) == stored_size(b@, format_class(f)->Some_0)
        },
{
    let reader = image::ImageReader::with_format(std::io::Cursor::new(b), f);
    let mut decoder = reader.into_decoder().ok()?;
    let orientation = decoder.orientation().ok()?;
    let mut img = image::DynamicImage::from_decoder(decoder).ok()?;
    img.apply_orientation(orientation);
    let (width, height) = (img.width(), img.height());
    Some(Picture { img, width, height, origin: Ghost(decoded_origin(b@, f)) })
}

/// Relies on `DynamicImage::resize_exact` with the Lanczos3 filter: the
/// image scaled to exactly `width` by `height`.
#[verifier::external_body]
fn resize_exact(p: &Picture, width: u32, height: u32) -> (r: Picture)
    requires
        p.origin@.plan == ResizePlan::Keep,
    ensures
        r.width == width && r.height == height,
        r.origin@ == resized_origin(p.origin@, ResizePlan::Exact { width, height }),
{
    let img = p.img.resize_exact(width, height, image::imageops::FilterType::Lanczos3);
    let plan = ResizePlan::Exact { width, height };
    Picture { width: img.width(), height: img.height(), img, origin: Ghost(resized_origin(p.origin@, plan)) }
}

/// Relies on `DynamicImage::resize` with the Lanczos3 filter: the image
/// scaled to fit within `width` by `height`, keeping its aspect ratio. With a
/// box of at least 1 by 1 it never exceeds the box; for non-empty images
/// both sides are scaled by the smaller of the two box ratios and rounded
/// (`resize_dimensions`), so one side fills the box and the other is within
/// rounding of the same scale.
#[verifier::external_body]
fn resize_fit(p: &Picture, width: u32, height: u32) -> (r: Picture)
    requires
        p.origin@.plan == ResizePlan::Keep,
    ensures
        (r.width, r.height) == fitted_size(p.width, p.height, width, height),
        width >= 1 && height >= 1 ==> r.width <= width && r.height <= height,
        fit_keeps_ratio((p.width, p.height), (width, height), (r.width, r.height)),
        r.origin@ == resized_origin(p.origin@, ResizePlan::Fit { width, height }),
{
    let img = p.img.resize(width, height, image::imageops::FilterType::Lanczos3);
    let plan = ResizePlan::Fit { width, height };
    Picture { width: img.width(), height: img.height(), img, origin: Ghost(resized_origin(p.origin@, plan)) }
}

/// Relies on `DynamicImage::write_to`: the image encoded as format `f`, or
/// `None` where that format cannot hold it; what comes out starts with the
/// format's magic bytes.
#[verifier::external_body]
fn encode(p: &Picture, f: image::ImageFormat) -> (r: Option<Vec<u8>>)
    ensures
        r is Some <==> encodable(p.origin@.source, p.origin@.format, p.origin@.plan, format_class(f)),
        r matches Some(bytes) ==> sniffed_format(bytes@) == format_class(f),
{
    let mut buffer: Vec<u8> = Vec::new();
    match p.img.write_to(&mut std::io::Cursor::new(&mut buffer), f) {
        Ok(()) => Some(buffer),
        Err(_) => None,
    }
}

/// The plan for `p`: a resize only where both dimensions are given, fitting
/// within them only where `preserve_aspect_ratio` is true.
pub open spec fn plan_of(p: ResizeParams) -> ResizePlan {
    match (p.width, p.height) {
        (Some(w), Some(h)) => if p.preserve_aspect_ratio == Some(true) {
            ResizePlan::Fit { width: w, height: h }
        } else {
            ResizePlan::Exact { width: w, height: h }
        },
        _ => ResizePlan::Keep,
    }
}

/// The size an image of size `s` has after `plan`.
pub open spec fn planned_size(s: (u32, u32), plan: ResizePlan) -> (u32, u32) {
    match plan {
        ResizePlan::Keep => s,
        ResizePlan::Exact { width, height } => (width, height),
        ResizePlan::Fit { width, height } => fitted_size(s.0, s.1, width, height),
    }
}

pub open spec fn abs_int(x: int) -> int {
    if x < 0 {
        -x
    } else {
        x
    }
}

/// `scaled` is `side * num / den` rounded: within one pixel, and within half
/// a pixel (or 1 where that rounds below 1) while all sides stay under
/// 65536.
pub open spec fn scaled_within_rounding(scaled: int, side: int, num: int, den: int, small: bool) -> bool {
    &&& abs_int(scaled * den - side * num) <= den
    &&& small ==> (2 * abs_int(scaled * den - side * num) <= den || (scaled == 1 && 2 * side * num
        < den))
}

/// An image of size `src` fitted into the box `bx` came out as `out`: where
/// all sides are at least 1, the side with the smaller box ratio fills its
/// box and the other is scaled by that same ratio, within rounding.
pub open spec fn fit_keeps_ratio(src: (u32, u32), bx: (u32, u32), out: (u32, u32)) -> bool {
    let (w, h) = (src.0 as int, src.1 as int);
    let (bw, bh) = (bx.0 as int, bx.1 as int);
    let (ow, oh) = (out.0 as int, out.1 as int);
    let small = w < 65536 && h < 65536 && bw < 65536 && bh < 65536;
    w >= 1 && h >= 1 && bw >= 1 && bh >= 1 ==> if bw * h <= bh * w {
        ow == bw && scaled_within_rounding(oh, h, bw, w, small)
    } else {
        oh == bh && scaled_within_rounding(ow, w, bh, h, small)
    }
}

/// An image of size `src` came out as `size` under `plan`: unchanged for
/// `Keep`, exactly the box for `Exact`, and for `Fit` within the box (of at
/// least 1 by 1) with its aspect ratio kept.
pub open spec fn within_plan_box(src: (u32, u32), size: (u32, u32), plan: ResizePlan) -> bool {
    match plan {
        ResizePlan::Keep => size == src,
        ResizePlan::Exact { width, height } => size == (width, height),
        ResizePlan::Fit { width, height } => {
            &&& width >= 1 && height >= 1 ==> size.0 <= width && size.1 <= height
            &&& fit_keeps_ratio(src, (width, height), size)
        },
    }
}

/// Whether serving the content `b` with `params` succeeds: its format is
/// detected, it decodes, and the resized pixels can be encoded back in it.
pub open spec fn renders(b: Seq<u8>, params: ResizeParams) -> bool {
    &&& sniffed_format(b) is Some
    &&& decodes(b, sniffed_format(b)->Some_0)
    &&& encodable(b, sniffed_format(b)->Some_0, plan_of(params), sniffed_format(b))
}

/// Without both a width and a height the image is served at its own size.
pub proof fn lemma_missing_dimension_keeps_size(p: ResizeParams, s: (u32, u32))
    requires
        p.width is None || p.height is None,
    ensures
        plan_of(p) == ResizePlan::Keep,
        planned_size(s, plan_of(p)) == s,
{
}

impl ResizeParams {
    /// What these parameters ask for.
    pub fn plan(&self) -> (r: ResizePlan)
        ensures
            r == plan_of(*self),
    {
        match (self.width, self.height) {
            (Some(w), Some(h)) => {
                let keep_ratio = match self.preserve_aspect_ratio {
                    Some(b) => b,
                    None => false,
                };
                if keep_ratio {
                    ResizePlan::Fit { width: w, height: h }
                } else {
                    ResizePlan::Exact { width: w, height: h }
                }
            },
            _ => ResizePlan::Keep,
        }
    }
}

/// A re-encoded image, its format and its pixel size.
#[derive(Clone, Debug)]
pub struct Rendered {
    pub bytes: Vec<u8>,
    pub format: ImgFormat,
    pub width: u32,
    pub height: u32,
}

/// Decodes the image file content `b`, turns it upright, applies the plan of
/// `params` and encodes it again in the format it came in. It succeeds
/// exactly when the format is detected, the content decodes and the result
/// can be encoded; every failure is `InternalError`.
pub fn render(b: &[u8], params: &ResizeParams) -> (r: Result<Rendered, ServeError>)
    ensures
        r is Ok <==> renders(b@, *params),
        match r {
            Ok(out) => {
                let f = sniffed_format(b@)->Some_0;
                &&& sniffed_format(b@) == Some(out.format)
                &&& sniffed_format(out.bytes@) == Some(out.format)
                &&& (out.width, out.height) == planned_size(upright_size(b@, f), plan_of(*params))
                &&& within_plan_box(upright_size(b@, f), (out.width, out.height), plan_of(*params))
            },
            Err(e) => e == ServeError::InternalError,
        },
{
    let guessed = match guess_format(b) {
        Some(f) => f,
        None => return Err(ServeError::InternalError),
    };
    let format = match ImgFormat::from_image_format(guessed) {
        Some(f) => f,
        None => return Err(ServeError::InternalError),
    };
    let img = match decode_upright(b, format.to_image_format()) {
        Some(img) => img,
        None => return Err(ServeError::InternalError),
    };
    let out = match params.plan() {
        ResizePlan::Keep => img,
        ResizePlan::Exact { width, height } => resize_exact(&img, width, height),
        ResizePlan::Fit { width, height } => resize_fit(&img, width, height),
    };
    match encode(&out, format.to_image_format()) {
        Some(bytes) => Ok(Rendered { bytes, format, width: out.width, height: out.height }),
        None => Err(ServeError::InternalError),
    }
}

/// The `Cache-Control` value of every served image: cacheable for a year.
pub open spec fn cache_control_value() -> Seq<char> {
    "public, max-age=31536000"@
}

/// A successful download: the body, its pixel size and its headers.
#[derive(Clone, Debug)]
pub struct ImageResponse {
    pub body: Vec<u8>,
    pub width: u32,
    pub height: u32,
    pub content_type: String,
    pub last_modified: String,
    pub cache_control: String,
}

/// Serves the image file content `b`, last modified at `modified`: the body
/// is what [`render`] makes of it, the `Content-Type` that of the detected
/// format, `Last-Modified` the RFC 2822 form of `modified`, and the response
/// may be cached for a year.
pub fn serve_image(b: &[u8], params: &ResizeParams, modified: Timestamp) -> (r: Result<
    ImageResponse,
    ServeError,
>)
    ensures
        r is Ok <==> renders(b@, *params),
        match r {
            Ok(resp) => {
                let f = sniffed_format(b@)->Some_0;
                &&& sniffed_format(b@) is Some
                &&& sniffed_format(resp.body@) == Some(f)
                &&& (resp.width, resp.height) == planned_size(upright_size(b@, f), plan_of(*params))
                &&& within_plan_box(upright_size(b@, f), (resp.width, resp.height), plan_of(*params))
                &&& resp.content_type@ == content_type_of(f)
                &&& resp.last_modified@ == rfc2822_or_empty(modified)
                &&& resp.cache_control@ == cache_control_value()
            },
            Err(e) => e == ServeError::InternalError,
        },
{
    let rendered = match render(b, params) {
        Ok(x) => x,
        Err(e) => return Err(e),
    };
    Ok(ImageResponse {
        body: rendered.bytes,
        width: rendered.width,
        height: rendered.height,
        content_type: String::from_str(rendered.format.content_type()),
        last_modified: modified.to_rfc2822(),
        cache_control: String::from_str("public, max-age=31536000"),
    })
}

} // verus!
