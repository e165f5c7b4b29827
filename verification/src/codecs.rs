//! Calls into the `image` and `base64` crates that the thumbnail and preview
//! logic makes. Verus takes the contracts here on trust; each doc comment says
//! what is claimed of the outside code.
use vstd::prelude::*;
use crate::encoding::base64_standard;

verus! {

/// An `image::RgbImage`. Verus cannot be told of `image::ImageBuffer` itself,
/// whose parameter is bound by the crate's `Pixel` trait, so the buffer is held
/// here, out of Verus's sight, and what it holds is named below.
#[verifier::external_body]
pub struct RgbFrame {
    img: image::RgbImage,
}

/// The samples an RGB image buffer holds, three bytes per pixel, row by row.
pub uninterp spec fn rgb_frame_samples(frame: RgbFrame) -> Seq<u8>;

/// The width and height an RGB image buffer was made with.
pub uninterp spec fn rgb_frame_size(frame: RgbFrame) -> (u32, u32);

/// The samples that `image::imageops::resize` with the triangle filter produces
/// from an image with the given samples and size, at the new size.
pub uninterp spec fn triangle_resized(samples: Seq<u8>, size: (u32, u32), new_width: u32, new_height: u32) -> Seq<u8>;

/// The bytes that `DynamicImage::write_to` with `ImageFormat::Jpeg` writes for an
/// RGB image with the given samples and size, or `None` where it reports an error.
pub uninterp spec fn jpeg_encoded(samples: Seq<u8>, size: (u32, u32)) -> Option<Seq<u8>>;

/// Calls `image::ImageBuffer::from_raw`. Its source returns an image holding
/// exactly the given buffer at the given size when the buffer holds at least
/// three bytes per pixel (the product is computed with checked arithmetic, and
/// a buffer can never hold more bytes than `usize` counts), and `None` otherwise.
#[verifier::external_body]
pub(crate) fn rgb_image_from_raw(width: u32, height: u32, samples: Vec<u8>) -> (r: Option<RgbFrame>)
    ensures
        r is Some <==> 3 * width * height <= samples@.len(),
        r matches Some(img) ==> rgb_frame_samples(img) == samples@ && rgb_frame_size(img) == (width, height),
{
    image::RgbImage::from_raw(width, height, samples).map(|img| RgbFrame { img })
}

/// Calls `image::imageops::resize` with `FilterType::Triangle`. Its source
/// makes the result with `ImageBuffer::new` at the requested size, three bytes
/// per pixel; the samples are named, not stated. On a non-empty source of a
/// different size it first fills a four-channel `f32` buffer as wide as the
/// source and as high as the target. `ImageBuffer::new` panics when a buffer's
/// element count overflows `usize`, and std's `vec!` when its byte count passes
/// `isize::MAX`; the `requires` keeps both buffers within that.
#[verifier::external_body]
pub(crate) fn resize_triangle(img: &RgbFrame, new_width: u32, new_height: u32) -> (r: RgbFrame)
    requires
        3 * new_width * new_height <= isize::MAX,
        16 * rgb_frame_size(*img).0 * new_height <= isize::MAX,
    ensures
        rgb_frame_size(r) == (new_width, new_height),
        rgb_frame_samples(r).len() == 3 * new_width * new_height,
        rgb_frame_samples(r) == triangle_resized(rgb_frame_samples(*img), rgb_frame_size(*img), new_width, new_height),
{
    RgbFrame { img: image::imageops::resize(&img.img, new_width, new_height, image::imageops::FilterType::Triangle) }
}

/// Wraps the image in `DynamicImage::ImageRgb8` and calls `DynamicImage::write_to`
/// with `ImageFormat::Jpeg` on an in-memory buffer. The bytes are named, not
/// stated. Like every `Vec<u8>`, the buffer holds at most `isize::MAX` bytes, as
/// std documents for its allocations. The JPEG encoder hands over the image's
/// whole buffer and asserts that it holds exactly three bytes per pixel, so the
/// `requires` asks for that.
#[verifier::external_body]
pub(crate) fn encode_jpeg(img: RgbFrame) -> (r: Option<Vec<u8>>)
    requires
        rgb_frame_samples(img).len() == 3 * rgb_frame_size(img).0 * rgb_frame_size(img).1,
    ensures
        r is Some <==> jpeg_encoded(rgb_frame_samples(img), rgb_frame_size(img)) is Some,
        r matches Some(b) ==> jpeg_encoded(rgb_frame_samples(img), rgb_frame_size(img)) == Some(b@)
            && b@.len() <= isize::MAX,
{
    let mut bytes: Vec<u8> = Vec::new();
    match image::DynamicImage::ImageRgb8(img.img).write_to(&mut std::io::Cursor::new(&mut bytes), image::ImageFormat::Jpeg) {
        Ok(()) => Some(bytes),
        Err(_) => None,
    }
}

/// Calls `Engine::encode` on `base64::engine::general_purpose::STANDARD`: the
/// standard alphabet with `=` padding, as [`base64_standard`] spells it out.
/// Its source sizes the output with `encoded_len(len, true)`, four characters
/// for every started group of three bytes, and panics when that length
/// overflows `usize`, which the `requires` rules out.
#[verifier::external_body]
pub(crate) fn base64_encode(bytes: &[u8]) -> (s: String)
    requires
        4 * ((bytes@.len() + 2) / 3) <= usize::MAX,
    ensures
        s@ == base64_standard(bytes@),
        s@.len() == 4 * ((bytes@.len() + 2) / 3),
{
    base64::Engine::encode(&base64::engine::general_purpose::STANDARD, bytes)
}

} // verus!
