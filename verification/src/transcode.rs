//! Transcoding of one compressed frame: decode with format auto-detection,
//! resize to exactly the target resolution, re-encode as JPEG at a target
//! quality. Failure here is non-fatal: the orchestrator skips the one frame.

use vstd::prelude::*;

verus! {

#[verifier::external_type_specification]
#[verifier::external_body]
pub struct ExDynamicImage(image::DynamicImage);

#[verifier::external_type_specification]
#[verifier::external_body]
pub struct ExImageError(image::ImageError);

/// The largest dimension a JPEG stream can carry: its frame header holds the
/// width and the height as 16 bits each.
pub const MAX_JPEG_DIMENSION: u32 = 65535;

/// The decoder's default allocation limit in bytes: decoding refuses an
/// image whose raw pixel buffer would outgrow it, at three bytes per pixel
/// at most for the formats the pipeline emits.
pub const MAX_DECODE_BYTES: u64 = 512 * 1024 * 1024;

/// What decoding a byte sequence with format auto-detection yields,
/// depending on the byte content alone: `None` when the bytes decode to no
/// image under the decoder's default limits; otherwise the width, the
/// height, and whether the pixel format has eight bits per channel — the
/// only depth the JPEG encoder accepts.
pub uninterp spec fn decoded_props(bytes: Seq<u8>) -> Option<(u32, u32, bool)>;

/// The dimensions that decoding the bytes yields, `None` when they decode
/// to no image.
pub open spec fn decoded_dims(bytes: Seq<u8>) -> Option<(u32, u32)> {
    match decoded_props(bytes) {
        Some(p) => Some((p.0, p.1)),
        None => None,
    }
}

/// The bytes decode to an image with eight bits per channel.
pub open spec fn decoded_color8(bytes: Seq<u8>) -> bool {
    decoded_props(bytes) matches Some(p) && p.2
}

/// The byte shape every JPEG stream has: the start-of-image marker first
/// and the end-of-image marker last.
pub open spec fn is_jpeg_stream(bytes: Seq<u8>) -> bool {
    bytes.len() >= 4 && bytes[0] == 0xFFu8 && bytes[1] == 0xD8u8 && bytes[bytes.len() - 2]
        == 0xFFu8 && bytes[bytes.len() - 1] == 0xD9u8
}

/// A decoded image: the pixel data itself, opaque here, together with what
/// the pipeline reads of it as plain values — its dimensions and whether
/// its pixel format has eight bits per channel. Only the wrappers below
/// construct one, so the plain fields always describe the opaque image.
struct DecodedImage {
    inner: image::DynamicImage,
    width: u32,
    height: u32,
    color8: bool,
}

/// Why transcoding a single frame failed.
#[derive(Clone, Copy, Debug, PartialEq, Eq, Structural)]
pub enum TranscodeError {
    /// The frame's bytes could not be decoded as an image.
    DecodeFailed,
    /// The resized image could not be re-encoded as JPEG.
    EncodeFailed,
}

/// Relies on image's reader with `with_guessed_format` followed by `decode`:
/// it detects the format from the byte content alone, in-memory reading
/// cannot fail, and on success the decoded image reports its own dimensions
/// and color type. Decoding fails exactly when the bytes form no image
/// decodable under the default limits.
#[verifier::external_body]
fn decode_image(bytes: &Vec<u8>) -> (r: Result<DecodedImage, image::ImageError>)
    ensures
        r matches Ok(img) ==> decoded_props(bytes@) == Some((img.width, img.height, img.color8)),
        r is Err ==> decoded_props(bytes@) is None,
{
    let img = image::io::Reader::new(std::io::Cursor::new(bytes))
        .with_guessed_format()
        .map_err(image::ImageError::IoError)?
        .decode()?;
    let width = img.width();
    let height = img.height();
    let color8 = matches!(
        img.color(),
        image::ColorType::L8 | image::ColorType::La8 | image::ColorType::Rgb8
            | image::ColorType::Rgba8
    );
    Ok(DecodedImage { inner: img, width, height, color8 })
}

/// Relies on `DynamicImage::resize_exact` with a Lanczos filter: the result
/// has exactly the given dimensions, aspect ratio not preserved, and keeps
/// the input's pixel format.
#[verifier::external_body]
fn resize_image(img: &DecodedImage, width: u32, height: u32) -> (r: DecodedImage)
    requires
        width >= 1,
        height >= 1,
    ensures
        r.width == width,
        r.height == height,
        r.color8 == img.color8,
{
    let inner = img.inner.resize_exact(width, height, image::imageops::FilterType::Lanczos3);
    DecodedImage { inner, width, height, color8: img.color8 }
}

/// Relies on `DynamicImage::write_to` with JPEG output, writing to an
/// in-memory buffer: the encoder clamps the quality into `1..=100`; it
/// accepts exactly the pixel formats with eight bits per channel, and for
/// them, with dimensions that fit the JPEG frame header, it cannot fail on
/// an in-memory writer. What it writes opens with the start-of-image marker
/// and closes with the end-of-image marker, and carries the image's own
/// dimensions, so re-decoding yields them whenever the raw pixel buffer
/// stays within the decoder's default allocation limit.
#[verifier::external_body]
fn encode_jpeg(img: &DecodedImage, quality: u8) -> (r: Result<Vec<u8>, image::ImageError>)
    ensures
        img.color8 && 1 <= img.width && img.width <= MAX_JPEG_DIMENSION && 1 <= img.height
            && img.height <= MAX_JPEG_DIMENSION ==> r is Ok,
        !img.color8 ==> r is Err,
        r matches Ok(v) ==> is_jpeg_stream(v@),
        r matches Ok(v) ==> (1 <= img.width && 1 <= img.height && img.width * img.height * 3
            <= MAX_DECODE_BYTES ==> decoded_dims(v@) == Some((img.width, img.height))),
{
    let mut out = Vec::<u8>::new();
    img.inner.write_to(
        &mut std::io::Cursor::new(&mut out),
        image::ImageOutputFormat::Jpeg(quality),
    )?;
    Ok(out)
}

/// Transcodes one frame: decodes it by content, resizes it to exactly
/// `width` by `height`, and re-encodes it as JPEG at `quality`.
///
/// Success is owed exactly when the input decodes to an image with eight
/// bits per channel: the result is then a JPEG stream that decodes to
/// exactly the target dimensions. `DecodeFailed` comes exactly when the
/// input bytes decode to no image, `EncodeFailed` exactly when they decode
/// to an image of a depth the JPEG encoder refuses.
pub fn transcode_frame(data: &Vec<u8>, width: u32, height: u32, quality: u8) -> (r: Result<
    Vec<u8>,
    TranscodeError,
>)
    requires
        1 <= width && width <= MAX_JPEG_DIMENSION,
        1 <= height && height <= MAX_JPEG_DIMENSION,
        width * height * 3 <= MAX_DECODE_BYTES,
        quality <= 100,
    ensures
        r matches Ok(v) ==> decoded_dims(v@) == Some((width, height)) && is_jpeg_stream(v@),
        r is Ok <==> decoded_color8(data@),
        r == Err::<Vec<u8>, TranscodeError>(TranscodeError::DecodeFailed) <==> decoded_dims(
            data@,
        ) is None,
        r == Err::<Vec<u8>, TranscodeError>(TranscodeError::EncodeFailed) <==> decoded_dims(
            data@,
        ) is Some && !decoded_color8(data@),
{
    let decoded = match decode_image(data) {
        Ok(img) => img,
        Err(_) => {
            return Err(TranscodeError::DecodeFailed);
        },
    };
    let resized = resize_image(&decoded, width, height);
    match encode_jpeg(&resized, quality) {
        Ok(v) => Ok(v),
        Err(_) => Err(TranscodeError::EncodeFailed),
    }
}

} // verus!
