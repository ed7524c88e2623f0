use vstd::prelude::*;
use image::{DynamicImage, ImageError};
use crate::error::ResizeError;
use crate::naming::Format;

verus! {

#[verifier::external_type_specification]
#[verifier::external_body]
pub struct ExDynamicImage(DynamicImage);

#[verifier::external_type_specification]
#[verifier::external_body]
pub struct ExImageError(ImageError);

/// The width and height of a decoded image, in pixels.
pub uninterp spec fn dimensions(img: DynamicImage) -> (u32, u32);

/// The width and height of the image that `image::load_from_memory` decodes
/// from `bytes`, or `None` where it fails on them.
pub uninterp spec fn decoded_dimensions(bytes: Seq<u8>) -> Option<(u32, u32)>;

/// The image that `DynamicImage::resize_exact` makes of `img` with the
/// triangle filter, `nwidth` by `nheight` pixels.
pub uninterp spec fn resized(img: DynamicImage, nwidth: u32, nheight: u32) -> DynamicImage;

/// The bytes that `DynamicImage::write_to` produces for `img` in `format`, or
/// `None` where it fails on them.
pub uninterp spec fn encoded(img: DynamicImage, format: Format) -> Option<Seq<u8>>;

/// Why the batch stopped.
#[derive(Debug)]
pub enum PipelineError {
    /// A listed name was refused.
    Resize(ResizeError),
    /// The image codec failed to decode or encode a file.
    Image(ImageError),
    /// The resize would need a pixel buffer larger than memory can address.
    TooLarge,
}

/// Relies on `image::load_from_memory`: decodes an image, its format guessed
/// from the leading bytes.
#[verifier::external_body]
fn decode(bytes: &[u8]) -> (r: Result<DynamicImage, ImageError>)
    ensures
        r is Ok <==> decoded_dimensions(bytes@) is Some,
        r matches Ok(img) ==> decoded_dimensions(bytes@) == Some(dimensions(img)),
{
    image::load_from_memory(bytes)
}

/// Relies on `GenericImageView::dimensions` of `DynamicImage`: the image's
/// width and height.
#[verifier::external_body]
fn image_dimensions(img: &DynamicImage) -> (r: (u32, u32))
    ensures
        r == dimensions(*img),
{
    image::GenericImageView::dimensions(img)
}

/// Relies on `DynamicImage::resize_exact` with the triangle filter: the result
/// is exactly `nwidth` by `nheight`. On the way it allocates buffers of
/// 4 × (source width) × `nheight` and 4 × `nwidth` × `nheight` samples, and
/// panics where such a count overflows `usize`.
#[verifier::external_body]
fn resize_exact(img: &DynamicImage, nwidth: u32, nheight: u32) -> (r: DynamicImage)
    requires
        fits_buffer(dimensions(*img).0, nheight),
        fits_buffer(nwidth, nheight),
    ensures
        r == resized(*img, nwidth, nheight),
        dimensions(r) == (nwidth, nheight),
{
    img.resize_exact(nwidth, nheight, image::imageops::FilterType::Triangle)
}

/// Relies on `DynamicImage::write_to`: encodes the image as JPEG or PNG into
/// memory.
#[verifier::external_body]
fn encode(img: &DynamicImage, format: Format) -> (r: Result<Vec<u8>, ImageError>)
    ensures
        r is Ok <==> encoded(*img, format) is Some,
        r matches Ok(b) ==> encoded(*img, format) == Some(b@),
{
    let target = match format {
        Format::Jpeg => image::ImageFormat::Jpeg,
        Format::Png => image::ImageFormat::Png,
    };
    let mut out = std::io::Cursor::new(Vec::new());
    img.write_to(&mut out, target)?;
    Ok(out.into_inner())
}

/// Whether a buffer of four samples per pixel, `width` by `height`, can be
/// counted in a `usize`.
pub open spec fn fits_buffer(width: u32, height: u32) -> bool {
    4 * (width as int) * (height as int) <= usize::MAX as int
}

fn buffer_fits(width: u32, height: u32) -> (r: bool)
    ensures
        r == fits_buffer(width, height),
{
    let w = width as usize;
    let h = height as usize;
    assert(4 * (width as int) * (height as int) == 4 * ((width as int) * (height as int)))
        by (nonlinear_arith);
    match w.checked_mul(h) {
        None => false,
        Some(p) => match p.checked_mul(4) {
            None => false,
            Some(_) => true,
        },
    }
}

/// Resizes a decoded image to exactly `length` pixels wide and `width` pixels
/// high with the triangle filter. It fails with `TooLarge`, and only then,
/// where the pixel buffers that the resize needs could not be counted in a
/// `usize`.
pub fn resize_decoded(img: &DynamicImage, length: u32, width: u32) -> (r: Result<
    DynamicImage,
    PipelineError,
>)
    ensures
        r is Ok <==> fits_buffer(dimensions(*img).0, width) && fits_buffer(length, width),
        r matches Ok(out) ==> out == resized(*img, length, width) && dimensions(out) == (
            length,
            width,
        ),
        r matches Err(e) ==> e is TooLarge,
{
    let (source_width, _) = image_dimensions(img);
    if buffer_fits(source_width, width) && buffer_fits(length, width) {
        Ok(resize_exact(img, length, width))
    } else {
        Err(PipelineError::TooLarge)
    }
}

/// Decodes the bytes of an image file, whatever its format, and resizes it to
/// exactly `length` by `width` pixels. Bytes that do not decode give `Image`;
/// a resize whose buffers could not be counted gives `TooLarge`.
pub fn resize_image(bytes: &[u8], length: u32, width: u32) -> (r: Result<
    DynamicImage,
    PipelineError,
>)
    ensures
        r is Ok <==> (decoded_dimensions(bytes@) matches Some(d) && fits_buffer(d.0, width)
            && fits_buffer(length, width)),
        r matches Ok(out) ==> dimensions(out) == (length, width),
        r matches Err(e) ==> (e is Image <==> decoded_dimensions(bytes@) is None) && (e is Image
            || e is TooLarge),
{
    match decode(bytes) {
        Ok(img) => resize_decoded(&img, length, width),
        Err(e) => Err(PipelineError::Image(e)),
    }
}

/// Encodes an image in the given format. A failure of the codec is `Image`.
pub fn encode_image(img: &DynamicImage, format: Format) -> (r: Result<Vec<u8>, PipelineError>)
    ensures
        r is Ok <==> encoded(*img, format) is Some,
        r matches Ok(b) ==> encoded(*img, format) == Some(b@),
        r matches Err(e) ==> e is Image,
{
    match encode(img, format) {
        Ok(bytes) => Ok(bytes),
        Err(e) => Err(PipelineError::Image(e)),
    }
}

/// Turns the bytes of one source file into the bytes of its resized copy: the
/// image is decoded whatever its format, resized to exactly `length` by
/// `width` pixels and encoded in `format`. What comes out is the encoding of an
/// image of exactly the requested size. Bytes that do not decode, or an
/// encoding that fails, give `Image`; a resize whose buffers could not be
/// counted gives `TooLarge`.
pub fn resize_bytes(bytes: &[u8], format: Format, length: u32, width: u32) -> (r: Result<
    Vec<u8>,
    PipelineError,
>)
    ensures
        decoded_dimensions(bytes@) is None ==> r matches Err(PipelineError::Image(_)),
        r matches Err(PipelineError::TooLarge) <==> (decoded_dimensions(bytes@) matches Some(d)
            && !(fits_buffer(d.0, width) && fits_buffer(length, width))),
        r matches Ok(out) ==> exists|img: DynamicImage|
            dimensions(img) == (length, width) && encoded(img, format) == Some(out@),
        r matches Err(e) ==> e is Image || e is TooLarge,
{
    let img = match resize_image(bytes, length, width) {
        Ok(img) => img,
        Err(e) => return Err(e),
    };
    encode_image(&img, format)
}

} // verus!
