//! The trusted boundary to the external image codec library. The core
//! owns only the policy of which dimensions and quality to choose; the
//! decoding, resampling and encoding of raster pixel data are delegated
//! to that library through the wrappers here, whose contracts name the
//! results rather than restate the codecs.

use vstd::prelude::*;

verus! {

#[verifier::external_type_specification]
#[verifier::external_body]
pub struct ExDynamicImage(image::DynamicImage);

/// The abstract pixel content of a decoded image, dimensions included:
/// images with equal content encode and resample identically.
pub uninterp spec fn pixel_data(img: image::DynamicImage) -> Seq<u8>;

/// The pixel dimensions `(width, height)` of a decoded image.
pub uninterp spec fn img_dims(img: image::DynamicImage) -> (u32, u32);

/// What decoding a byte stream yields: `None` where the bytes are not a
/// decodable image, else the content and dimensions. A function of the
/// bytes alone.
pub uninterp spec fn decoded_image(bytes: Seq<u8>) -> Option<(Seq<u8>, u32, u32)>;

/// What exact resampling of `pixels` to `width` by `height` yields. A
/// function of the content and the target size alone within any one
/// build; the resampling kernel evaluates through the platform's math
/// library, so the value this name stands for is per-platform.
pub uninterp spec fn resampled(pixels: Seq<u8>, width: u32, height: u32) -> Seq<u8>;

/// What the JPEG encoder produces from `pixels` at `quality`: `None`
/// where it rejects the image. A function of its arguments alone.
pub uninterp spec fn jpeg_encoding(pixels: Seq<u8>, quality: u8) -> Option<Seq<u8>>;

/// What the PNG encoder produces from `pixels`: `None` where it rejects
/// the image. A function of its argument alone.
pub uninterp spec fn png_encoding(pixels: Seq<u8>) -> Option<Seq<u8>>;

/// Relies on `image::load_from_memory`: decodes a byte stream, sniffing
/// the format from the bytes, so the result depends on the bytes alone.
#[verifier::external_body]
pub(crate) fn decode_image(data: &Vec<u8>) -> (r: Option<image::DynamicImage>)
    ensures
        r is Some <==> decoded_image(data@) is Some,
        r matches Some(img) ==> decoded_image(data@) matches Some(d) && pixel_data(img) == d.0
            && img_dims(img) == (d.1, d.2),
{
    image::load_from_memory(data).ok()
}

/// Relies on `GenericImageView::dimensions` for `DynamicImage`: returns
/// the image's width and height.
#[verifier::external_body]
pub(crate) fn image_dims(img: &image::DynamicImage) -> (r: (u32, u32))
    ensures
        r == img_dims(*img),
{
    image::GenericImageView::dimensions(img)
}

/// Relies on `DynamicImage::resize_exact` with the Lanczos filter: the
/// returned image has exactly the requested dimensions and its content is
/// a function of the source content and the target size. The bounds keep
/// the resampler's buffers (at worst 16 bytes per pixel, one buffer of
/// source width by target height and one at the target size) under the
/// vector-size limit whose excess is documented to panic.
#[verifier::external_body]
pub(crate) fn resize_image(img: &image::DynamicImage, width: u32, height: u32) -> (r:
    image::DynamicImage)
    requires
        16 * (img_dims(*img).0 as int) * (height as int) <= isize::MAX as int,
        16 * (width as int) * (height as int) <= isize::MAX as int,
    ensures
        pixel_data(r) == resampled(pixel_data(*img), width, height),
        img_dims(r) == (width, height),
{
    img.resize_exact(width, height, image::imageops::FilterType::Lanczos3)
}

/// Relies on `JpegEncoder::new_with_quality` and `encode_image`: the
/// output bytes are a function of the pixel content and the quality
/// alone; the encoder rejects exactly the images whose width or height is
/// zero or above 65535, and writing into a `Vec` cannot fail.
#[verifier::external_body]
pub(crate) fn encode_jpeg(img: &image::DynamicImage, quality: u8) -> (r: Option<Vec<u8>>)
    ensures
        r is Some <==> jpeg_encoding(pixel_data(*img), quality) is Some,
        r matches Some(v) ==> jpeg_encoding(pixel_data(*img), quality) matches Some(out) && v@
            == out,
        1 <= img_dims(*img).0 <= 65535 && 1 <= img_dims(*img).1 <= 65535 ==> r is Some,
{
    let rgb = img.to_rgb8();
    let mut out: Vec<u8> = Vec::new();
    let mut encoder = image::codecs::jpeg::JpegEncoder::new_with_quality(&mut out, quality);
    match encoder.encode_image(&rgb) {
        Ok(()) => Some(out),
        Err(_) => None,
    }
}

/// Relies on `PngEncoder` and `ImageEncoder::write_image` on the image's
/// RGBA buffer: the output bytes are a function of the pixel content
/// alone, and writing into a `Vec` cannot fail.
#[verifier::external_body]
pub(crate) fn encode_png(img: &image::DynamicImage) -> (r: Option<Vec<u8>>)
    ensures
        r is Some <==> png_encoding(pixel_data(*img)) is Some,
        r matches Some(v) ==> png_encoding(pixel_data(*img)) matches Some(out) && v@ == out,
{
    let rgba = img.to_rgba8();
    let mut out: Vec<u8> = Vec::new();
    let encoder = image::codecs::png::PngEncoder::new(&mut out);
    let res = image::ImageEncoder::write_image(
        encoder,
        rgba.as_raw(),
        rgba.width(),
        rgba.height(),
        image::ExtendedColorType::Rgba8,
    );
    match res {
        Ok(()) => Some(out),
        Err(_) => None,
    }
}

} // verus!
