//! Photo uploads shared by every feature that stores one: which content
//! types are allowed, how big a file may be, and how each format is
//! compressed before it touches disk.

use crate::error::{AppError, ErrorKind};
use crate::text::str_eq;
use image::ImageDecoder;
use vstd::prelude::*;

verus! {

/// The hard cap on a single uploaded photo, checked before any decoding.
pub const MAX_IMAGE_BYTES: usize = 20971520;

/// The body limit on upload routes, above [`MAX_IMAGE_BYTES`].
pub const UPLOAD_REQUEST_LIMIT: usize = 41943040;

/// Longest edge a stored photo may have.
pub const MAX_EDGE_PX: u32 = 2000;

/// Re-encode quality for JPEGs.
pub const JPEG_QUALITY: u8 = 80;

pub open spec fn ext_for(content_type: Seq<char>) -> Option<Seq<char>> {
    if content_type == "image/jpeg"@ {
        Some("jpg"@)
    } else if content_type == "image/png"@ {
        Some("png"@)
    } else if content_type == "image/webp"@ {
        Some("webp"@)
    } else {
        None
    }
}

pub fn ext_for_content_type(content_type: &str) -> (r: Option<&'static str>)
    ensures
        match r {
            Some(e) => ext_for(content_type@) == Some(e@),
            None => ext_for(content_type@) is None,
        },
{
    if str_eq(content_type, "image/jpeg") {
        Some("jpg")
    } else if str_eq(content_type, "image/png") {
        Some("png")
    } else if str_eq(content_type, "image/webp") {
        Some("webp")
    } else {
        None
    }
}

/// The refusal for a file over the cap.
pub fn too_big() -> (e: AppError)
    ensures
        e@ == (ErrorKind::BadRequest, "Photos must be 20MB or smaller."@),
{
    AppError::new(ErrorKind::BadRequest, "Photos must be 20MB or smaller.")
}

/// The refusal for bytes that are not a JPG, PNG or WEBP image.
pub fn not_an_image() -> (e: AppError)
    ensures
        e@ == (ErrorKind::BadRequest, "That file doesn't look like a JPG, PNG, or WEBP image."@),
{
    AppError::new(ErrorKind::BadRequest, "That file doesn't look like a JPG, PNG, or WEBP image.")
}

/// Checks an upload's type and size, returning the extension to save it under.
pub fn validate_upload(content_type: &str, size: usize) -> (r: Result<&'static str, AppError>)
    ensures
        ext_for(content_type@) is None ==> r is Err && r->Err_0@ == (
            ErrorKind::BadRequest,
            "Only JPG, PNG, and WEBP images are allowed."@,
        ),
        ext_for(content_type@) is Some && size > MAX_IMAGE_BYTES ==> r is Err && r->Err_0@ == (
            ErrorKind::BadRequest,
            "Photos must be 20MB or smaller."@,
        ),
        ext_for(content_type@) is Some && size <= MAX_IMAGE_BYTES ==> (r matches Ok(e) && Some(e@)
            == ext_for(content_type@)),
{
    let ext = match ext_for_content_type(content_type) {
        Some(e) => e,
        None => {
            return Err(AppError::new(ErrorKind::BadRequest, "Only JPG, PNG, and WEBP images are allowed."));
        },
    };
    if size > MAX_IMAGE_BYTES {
        return Err(too_big());
    }
    Ok(ext)
}

/// The image formats an upload may be in, as sniffed from its bytes.
#[derive(Debug, Clone, Copy, PartialEq, Eq, Structural)]
pub enum ImageKind {
    Jpeg,
    Png,
    WebP,
}

/// What is stored for an upload.
#[derive(Debug, Clone, Copy, PartialEq, Eq, Structural)]
pub enum Output {
    /// Re-encode the (oriented, possibly shrunk) image as JPEG.
    EncodeJpeg,
    /// Re-encode it as PNG.
    EncodePng,
    /// Keep the original bytes, under this format's extension.
    KeepOriginal(ImageKind),
}

/// The per-format rule: JPEG is always re-encoded (which also strips EXIF);
/// PNG stays PNG and is only re-encoded when shrunk; WebP is kept unless
/// shrunk, and then becomes PNG when it has transparency, JPEG otherwise.
pub open spec fn output_spec(kind: ImageKind, oversized: bool, has_alpha: bool) -> Output {
    match kind {
        ImageKind::Jpeg => Output::EncodeJpeg,
        ImageKind::Png => if oversized {
            Output::EncodePng
        } else {
            Output::KeepOriginal(ImageKind::Png)
        },
        ImageKind::WebP => if oversized && has_alpha {
            Output::EncodePng
        } else if oversized {
            Output::EncodeJpeg
        } else {
            Output::KeepOriginal(ImageKind::WebP)
        },
    }
}

/// Whether an image must be shrunk: its long edge is over [`MAX_EDGE_PX`].
pub fn is_oversized(width: u32, height: u32) -> (b: bool)
    ensures
        b == (width > MAX_EDGE_PX || height > MAX_EDGE_PX),
{
    let long = if width > height {
        width
    } else {
        height
    };
    long > MAX_EDGE_PX
}

/// How an upload of `kind` is stored.
pub fn plan_output(kind: ImageKind, oversized: bool, has_alpha: bool) -> (o: Output)
    ensures
        o == output_spec(kind, oversized, has_alpha),
{
    match kind {
        ImageKind::Jpeg => Output::EncodeJpeg,
        ImageKind::Png => if oversized {
            Output::EncodePng
        } else {
            Output::KeepOriginal(ImageKind::Png)
        },
        ImageKind::WebP => if oversized && has_alpha {
            Output::EncodePng
        } else if oversized {
            Output::EncodeJpeg
        } else {
            Output::KeepOriginal(ImageKind::WebP)
        },
    }
}

/// The extension a stored upload is saved under.
pub fn output_ext(o: Output) -> (e: &'static str)
    ensures
        e@ == match o {
            Output::EncodeJpeg => "jpg"@,
            Output::EncodePng => "png"@,
            Output::KeepOriginal(ImageKind::Jpeg) => "jpg"@,
            Output::KeepOriginal(ImageKind::Png) => "png"@,
            Output::KeepOriginal(ImageKind::WebP) => "webp"@,
        },
{
    match o {
        Output::EncodeJpeg => "jpg",
        Output::EncodePng => "png",
        Output::KeepOriginal(ImageKind::Jpeg) => "jpg",
        Output::KeepOriginal(ImageKind::Png) => "png",
        Output::KeepOriginal(ImageKind::WebP) => "webp",
    }
}

/// A JPEG never leaves as it came in (so its EXIF, GPS included, is always
/// dropped), and transparency is never flattened away by a shrink.
pub proof fn law_jpeg_always_reencoded_and_alpha_kept(kind: ImageKind, oversized: bool, has_alpha: bool)
    ensures
        kind == ImageKind::Jpeg ==> output_spec(kind, oversized, has_alpha) == Output::EncodeJpeg,
        kind != ImageKind::Jpeg && has_alpha && oversized ==> output_spec(kind, oversized, has_alpha)
            == Output::EncodePng,
        !oversized && kind != ImageKind::Jpeg ==> output_spec(kind, oversized, has_alpha)
            == Output::KeepOriginal(kind),
{
}

#[verifier::external_type_specification]
#[verifier::external_body]
pub struct ExDynamicImage(image::DynamicImage);

/// The format `image` recognizes from an upload's bytes, among the three
/// accepted (the declared content type is never trusted).
pub uninterp spec fn sniffed_kind(bytes: Seq<u8>) -> Option<ImageKind>;

/// What decoding an upload yields: when it decodes, the upright image's
/// width, height, and whether it has an alpha channel; when it does not,
/// whether decoding stopped at one of `image`'s limits (`ImageError::Limits`).
pub uninterp spec fn decoded_facts(bytes: Seq<u8>) -> Result<(u32, u32, bool), bool>;

/// Calls `ImageReader::with_guessed_format` on the bytes and reads
/// `ImageReader::format`, keeping JPEG, PNG and WebP apart and everything
/// else (or a failed guess) as `None`.
#[verifier::external_body]
fn sniff_kind(bytes: &Vec<u8>) -> (k: Option<ImageKind>)
    ensures
        k == sniffed_kind(bytes@),
{
    match image::ImageReader::new(std::io::Cursor::new(bytes)).with_guessed_format() {
        Ok(reader) => match reader.format() {
            Some(image::ImageFormat::Jpeg) => Some(ImageKind::Jpeg),
            Some(image::ImageFormat::Png) => Some(ImageKind::Png),
            Some(image::ImageFormat::WebP) => Some(ImageKind::WebP),
            _ => None,
        },
        Err(_) => None,
    }
}

/// What the decode-orient-(shrink)-encode chain yields for an upload's bytes:
/// the bytes decoded and turned upright as [`decode_upright`] does, resized by
/// [`shrink`] when `shrunk`, then encoded as PNG when `png` and as JPEG at
/// [`JPEG_QUALITY`] otherwise; `None` when the encoder fails.
pub uninterp spec fn reencoded(bytes: Seq<u8>, shrunk: bool, png: bool) -> Option<Seq<u8>>;

/// An upload decoded and turned upright. Only [`decode_upright`] and
/// [`shrink`] make one, so its image is always the upright decode of
/// `source`, resized to fit [`MAX_EDGE_PX`] exactly when `shrunk`.
pub struct Decoded {
    image: image::DynamicImage,
    source: Ghost<Seq<u8>>,
    shrunk: bool,
    pub width: u32,
    pub height: u32,
    pub has_alpha: bool,
}

/// Decodes the bytes with `image`'s default limits (`into_decoder`,
/// `orientation`, `DynamicImage::from_decoder`) and applies the EXIF
/// orientation with `apply_orientation`; reports the upright size and
/// whether the image has an alpha channel. A failure is reported as whether
/// it is the `ImageError::Limits` variant (a failed format guess is an I/O
/// error, so not).
#[verifier::external_body]
fn decode_upright(bytes: &Vec<u8>) -> (r: Result<Decoded, bool>)
    ensures
        r matches Ok(d) ==> (decoded_facts(bytes@) matches Ok(f) && f == (d.width, d.height, d.has_alpha)),
        r matches Ok(d) ==> d.source@ == bytes@ && !d.shrunk,
        r matches Err(limited) ==> (decoded_facts(bytes@) matches Err(l) && l == limited),
{
    let limited = |e: image::ImageError| matches!(e, image::ImageError::Limits(_));
    let reader = image::ImageReader::new(std::io::Cursor::new(bytes)).with_guessed_format().map_err(|_| false)?;
    let mut decoder = reader.into_decoder().map_err(limited)?;
    let orientation = decoder.orientation().map_err(limited)?;
    let mut img = image::DynamicImage::from_decoder(decoder).map_err(limited)?;
    img.apply_orientation(orientation);
    let (width, height, has_alpha) = (img.width(), img.height(), img.color().has_alpha());
    Ok(Decoded { image: img, source: Ghost(bytes@), shrunk: false, width, height, has_alpha })
}

/// Calls `DynamicImage::resize` to fit within [`MAX_EDGE_PX`] on both edges
/// with the Catmull-Rom filter, keeping the aspect ratio.
#[verifier::external_body]
fn shrink(d: Decoded) -> (r: Decoded)
    requires
        !d.shrunk,
    ensures
        r.source@ == d.source@,
        r.shrunk,
        r.has_alpha == d.has_alpha,
{
    let image = d.image.resize(MAX_EDGE_PX, MAX_EDGE_PX, image::imageops::FilterType::CatmullRom);
    Decoded { width: image.width(), height: image.height(), image, source: d.source, shrunk: true, has_alpha: d.has_alpha }
}

/// Encodes the image as JPEG at [`JPEG_QUALITY`] (flattened to RGB with
/// `to_rgb8`) with `JpegEncoder::encode_image`: deterministic, so named by
/// [`reencoded`] over the source bytes.
#[verifier::external_body]
fn encode_jpeg_bytes(d: &Decoded) -> (r: Result<Vec<u8>, String>)
    ensures
        r is Ok <==> reencoded(d.source@, d.shrunk, false) is Some,
        r matches Ok(b) ==> reencoded(d.source@, d.shrunk, false) == Some(b@),
{
    let mut bytes = Vec::new();
    image::codecs::jpeg::JpegEncoder::new_with_quality(&mut bytes, JPEG_QUALITY)
        .encode_image(&d.image.to_rgb8())
        .map_err(|e| format!("jpeg encode failed: {e}"))?;
    Ok(bytes)
}

/// Encodes the image as PNG with `DynamicImage::write_to`: deterministic, so
/// named by [`reencoded`] over the source bytes.
#[verifier::external_body]
fn encode_png_bytes(d: &Decoded) -> (r: Result<Vec<u8>, String>)
    ensures
        r is Ok <==> reencoded(d.source@, d.shrunk, true) is Some,
        r matches Ok(b) ==> reencoded(d.source@, d.shrunk, true) == Some(b@),
{
    let mut bytes = Vec::new();
    d.image.write_to(&mut std::io::Cursor::new(&mut bytes), image::ImageFormat::Png)
        .map_err(|e| format!("png encode failed: {e}"))?;
    Ok(bytes)
}

/// The refusal for an image that cannot be decoded.
pub open spec fn decode_refusal(limits: bool) -> Seq<char> {
    if limits {
        "That image is too large to process."@
    } else {
        "That image couldn't be read — it may be damaged."@
    }
}

/// An upload after compression: the bytes to write and the extension they
/// are actually encoded as.
#[derive(Debug)]
pub struct Processed {
    pub bytes: Vec<u8>,
    pub ext: &'static str,
}

pub open spec fn output_ext_spec(o: Output) -> Seq<char> {
    match o {
        Output::EncodeJpeg => "jpg"@,
        Output::EncodePng => "png"@,
        Output::KeepOriginal(ImageKind::Jpeg) => "jpg"@,
        Output::KeepOriginal(ImageKind::Png) => "png"@,
        Output::KeepOriginal(ImageKind::WebP) => "webp"@,
    }
}

/// Whether decoded facts call for a shrink.
pub open spec fn oversized_facts(facts: (u32, u32, bool)) -> bool {
    facts.0 > MAX_EDGE_PX || facts.1 > MAX_EDGE_PX
}

/// The storage plan for bytes that sniff as `kind` and decode to `facts`.
pub open spec fn plan_for(kind: ImageKind, facts: (u32, u32, bool)) -> Output {
    output_spec(kind, oversized_facts(facts), facts.2)
}

/// The stored bytes a plan calls for: the original for a kept upload, else
/// the re-encode (shrunk when oversized), if the encoder succeeds.
pub open spec fn stored_bytes(original: Seq<u8>, kind: ImageKind, facts: (u32, u32, bool)) -> Option<Seq<u8>> {
    match plan_for(kind, facts) {
        Output::KeepOriginal(_) => Some(original),
        Output::EncodeJpeg => reencoded(original, oversized_facts(facts), false),
        Output::EncodePng => reencoded(original, oversized_facts(facts), true),
    }
}

/// Decodes, orients, shrinks and re-encodes one upload per its format's
/// rule. The format is sniffed from the bytes, never taken from the declared
/// content type.
pub fn compress_image(original: Vec<u8>) -> (r: Result<Processed, AppError>)
    ensures
        sniffed_kind(original@) is None ==> r is Err && r->Err_0@ == (
            ErrorKind::BadRequest,
            "That file doesn't look like a JPG, PNG, or WEBP image."@,
        ),
        sniffed_kind(original@) is Some ==> (decoded_facts(original@) matches Err(limited) ==> r is Err
            && r->Err_0@ == (ErrorKind::BadRequest, decode_refusal(limited))),
        r matches Ok(p) ==> sniffed_kind(original@) matches Some(k) && decoded_facts(original@) matches Ok(f)
            && p.ext@ == output_ext_spec(plan_for(k, f)) && stored_bytes(original@, k, f) == Some(p.bytes@),
        sniffed_kind(original@) matches Some(k) ==> (decoded_facts(original@) matches Ok(f) ==> (r is Ok
            <==> stored_bytes(original@, k, f) is Some)),
        sniffed_kind(original@) matches Some(k) ==> (decoded_facts(original@) matches Ok(f) ==> (r is Err
            ==> r->Err_0@.0 == ErrorKind::Internal)),
{
    let kind = match sniff_kind(&original) {
        Some(k) => k,
        None => {
            return Err(not_an_image());
        },
    };
    let decoded = match decode_upright(&original) {
        Ok(d) => d,
        Err(limited) => {
            if limited {
                return Err(AppError::new(ErrorKind::BadRequest, "That image is too large to process."));
            } else {
                return Err(AppError::new(ErrorKind::BadRequest, "That image couldn't be read — it may be damaged."));
            }
        },
    };
    let oversized = is_oversized(decoded.width, decoded.height);
    let plan = plan_output(kind, oversized, decoded.has_alpha);
    let ext = output_ext(plan);
    let keep = match plan {
        Output::KeepOriginal(_) => true,
        _ => false,
    };
    let ready = if oversized && !keep {
        shrink(decoded)
    } else {
        decoded
    };
    let encoded = match plan {
        Output::EncodeJpeg => encode_jpeg_bytes(&ready),
        Output::EncodePng => encode_png_bytes(&ready),
        Output::KeepOriginal(_) => {
            return Ok(Processed { bytes: original, ext });
        },
    };
    match encoded {
        Ok(bytes) => Ok(Processed { bytes, ext }),
        Err(m) => Err(AppError::with_message(ErrorKind::Internal, m)),
    }
}

} // verus!
