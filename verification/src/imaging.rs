use vstd::prelude::*;

verus! {

/// The error type of the `image` crate.
#[verifier::external_type_specification]
#[verifier::external_body]
pub struct ExImageError(image::ImageError);

/// What the PNG encoder of the `image` crate writes for an 8-bit grayscale
/// image, or `None` when it reports an error.
pub uninterp spec fn png_encoded_gray(width: u32, height: u32, data: Seq<u8>) -> Option<Seq<u8>>;

/// `outcome` is what decoding `bytes` with `image::load_from_memory` and
/// `to_rgb8` can give: the width, height and raw RGB buffer of the image, or
/// `None` for an error. A relation, not a function: the same bytes may decode
/// differently (see `decode_rgb8`).
pub uninterp spec fn rgb8_decoded(bytes: Seq<u8>, outcome: Option<(u32, u32, Seq<u8>)>) -> bool;

/// `out` is an image that `image::imageops::resize` with the Lanczos3 filter
/// can give for the RGB image `data` of `width` x `height` resized to
/// `new_width` x `new_height`. A relation, not a function (see
/// `resize_rgb_lanczos3`).
pub uninterp spec fn lanczos3_resized(width: u32, height: u32, data: Seq<u8>, new_width: u32, new_height: u32, out: Seq<u8>) -> bool;

/// `out` is an image that `image::imageops::resize` with the Catmull-Rom filter
/// can give for the grayscale image `data` of `width` x `height` resized to
/// `new_width` x `new_height`. A relation, not a function (see
/// `resize_gray_catmull_rom`).
pub uninterp spec fn catmull_rom_resized(width: u32, height: u32, data: Seq<u8>, new_width: u32, new_height: u32, out: Seq<u8>) -> bool;

/// Calls `image::load_from_memory`, which guesses the format of the bytes and
/// decodes them, and converts the image with `DynamicImage::to_rgb8`. The
/// contract ties the outcome (the image, or that there was an error) to the
/// bytes by the relation `rgb8_decoded` and claims that the raw buffer holds
/// at least three bytes per pixel (the invariant of `ImageBuffer`). Which
/// outcome comes back, and the error's text, are left unsaid:
/// decoding consults process-wide hook registries that any code may extend,
/// and decoders choose CPU-specific paths at run time.
#[verifier::external_body]
pub(crate) fn decode_rgb8(bytes: &[u8]) -> (res: Result<(u32, u32, Vec<u8>), image::ImageError>)
    ensures
        rgb8_decoded(
            bytes@,
            match res {
                Ok((w, h, d)) => Some((w, h, d@)),
                Err(_) => None,
            },
        ),
        res matches Ok((w, h, d)) ==> d@.len() >= w * h * 3,
{
    match image::load_from_memory(bytes) {
        Ok(img) => {
            let rgb = img.to_rgb8();
            let (w, h) = rgb.dimensions();
            Ok((w, h, rgb.into_raw()))
        },
        Err(e) => Err(e),
    }
}

/// Calls `image::imageops::resize` with `FilterType::Lanczos3` on an RGB image
/// given by its raw bytes. The contract ties the result to the arguments by
/// the relation `lanczos3_resized`, and claims that it has the new size and is
/// a copy of the input when the size does not change (the source copies in
/// that case). The resampled pixels are left unsaid: the kernel uses
/// `f32::sin`, whose precision std does not fix. The sizes of the
/// intermediate (four `f32` channels, `width` x `new_height`) and final buffers
/// must be counted without overflow, else `ImageBuffer::new` panics.
#[verifier::external_body]
pub(crate) fn resize_rgb_lanczos3(width: u32, height: u32, data: &[u8], new_width: u32, new_height: u32) -> (out: Vec<u8>)
    requires
        data@.len() == width * height * 3,
        new_width * new_height * 3 <= usize::MAX,
        width * new_height * 4 <= usize::MAX,
    ensures
        lanczos3_resized(width, height, data@, new_width, new_height, out@),
        out@.len() == new_width * new_height * 3,
        new_width == width && new_height == height ==> out@ == data@,
{
    let img: image::ImageBuffer<image::Rgb<u8>, &[u8]> = image::ImageBuffer::from_raw(width, height, data).unwrap();
    image::imageops::resize(&img, new_width, new_height, image::imageops::FilterType::Lanczos3).into_raw()
}

/// Calls `image::imageops::resize` with `FilterType::CatmullRom` on a grayscale
/// image given by its raw bytes. The contract ties the result to the arguments
/// by the relation `catmull_rom_resized`, and claims that it has the new size
/// and is a copy of the input when the size does not change. The
/// resampled pixels are left unsaid: the kernel uses `f32::powi`, whose
/// precision std does not fix. The sizes of the intermediate (four `f32`
/// channels, `width` x `new_height`) and final buffers must be counted without
/// overflow, else `ImageBuffer::new` panics.
#[verifier::external_body]
pub(crate) fn resize_gray_catmull_rom(width: u32, height: u32, data: &[u8], new_width: u32, new_height: u32) -> (out: Vec<u8>)
    requires
        data@.len() == width * height,
        new_width * new_height <= usize::MAX,
        width * new_height * 4 <= usize::MAX,
    ensures
        catmull_rom_resized(width, height, data@, new_width, new_height, out@),
        out@.len() == new_width * new_height,
        new_width == width && new_height == height ==> out@ == data@,
{
    let img: image::ImageBuffer<image::Luma<u8>, &[u8]> = image::ImageBuffer::from_raw(width, height, data).unwrap();
    image::imageops::resize(&img, new_width, new_height, image::imageops::FilterType::CatmullRom).into_raw()
}

/// Encodes an 8-bit grayscale image as PNG with `PngEncoder::write_image`
/// into a vector. The contract claims that the outcome depends on the arguments
/// alone, and that the vector is no longer than `isize::MAX` (as every `Vec<u8>`).
#[verifier::external_body]
pub(crate) fn encode_png_gray(width: u32, height: u32, data: &[u8]) -> (res: Result<Vec<u8>, image::ImageError>)
    requires
        data@.len() == width * height,
    ensures
        match res {
            Ok(png) => png_encoded_gray(width, height, data@) == Some(png@) && png@.len() <= isize::MAX,
            Err(_) => png_encoded_gray(width, height, data@) is None,
        },
{
    let mut out: Vec<u8> = Vec::new();
    let encoder = image::codecs::png::PngEncoder::new(&mut out);
    match image::ImageEncoder::write_image(encoder, data, width, height, image::ExtendedColorType::L8) {
        Ok(()) => Ok(out),
        Err(e) => Err(e),
    }
}

} // verus!
