//! Thumbnails of captured windows and monitors: raw 32-bit pixels are turned
//! into RGB, scaled to 320x180, encoded as JPEG and handed out as base64 text.
use vstd::prelude::*;
use crate::encoding::base64_standard;
use crate::codecs::{
    base64_encode, encode_jpeg, jpeg_encoded, resize_triangle, rgb_image_from_raw,
    triangle_resized,
};

verus! {

/// Width of every thumbnail.
pub const THUMBNAIL_WIDTH: u32 = 320;

/// Height of every thumbnail.
pub const THUMBNAIL_HEIGHT: u32 = 180;

/// Largest width or height of a window or region that gets a thumbnail.
pub const MAX_CAPTURE_SIDE: u32 = 16384;

/// The RGB samples of the first `pixels` pixels of a buffer of 4-byte
/// blue-green-red-padding pixels: red, green and blue of each pixel in turn.
pub open spec fn bgrx_to_rgb(data: Seq<u8>, pixels: nat) -> Seq<u8> {
    Seq::new(3 * pixels, |k: int| data[4 * (k / 3) + (2 - k % 3)])
}

/// Every byte is zero: the frame is black.
pub open spec fn all_zero(bytes: Seq<u8>) -> bool {
    forall|i: int| 0 <= i < bytes.len() ==> #[trigger] bytes[i] == 0
}

/// The base64 JPEG thumbnail of an RGB frame of the given size, or the empty
/// text for a black frame or when encoding fails.
pub open spec fn rgb_thumbnail(rgb: Seq<u8>, width: u32, height: u32) -> Seq<char> {
    if all_zero(rgb) {
        Seq::empty()
    } else {
        match jpeg_encoded(triangle_resized(rgb, (width, height), THUMBNAIL_WIDTH, THUMBNAIL_HEIGHT), (THUMBNAIL_WIDTH, THUMBNAIL_HEIGHT)) {
            Some(jpeg) => base64_standard(jpeg),
            None => Seq::empty(),
        }
    }
}

/// The thumbnail of an X11 image: empty unless the depth is 24 or 32 and the
/// data holds four bytes for every pixel of the `width` by `height` frame.
pub open spec fn x11_thumbnail(data: Seq<u8>, depth: u8, width: u32, height: u32) -> Seq<char> {
    let pixels: nat = width as nat * height as nat;
    if depth != 24 && depth != 32 {
        Seq::empty()
    } else if data.len() < pixels * 4 {
        Seq::empty()
    } else {
        rgb_thumbnail(bgrx_to_rgb(data, pixels), width, height)
    }
}

/// Whether a window or region of this size gets a thumbnail at all.
pub open spec fn capture_size_ok(width: int, height: int) -> bool {
    0 < width <= MAX_CAPTURE_SIDE && 0 < height <= MAX_CAPTURE_SIDE
}

/// Whether a window or region of this size gets a thumbnail at all: both
/// sides positive and at most 16384.
pub fn thumbnail_size_ok(width: i64, height: i64) -> (b: bool)
    ensures
        b == capture_size_ok(width as int, height as int),
{
    0 < width && width <= MAX_CAPTURE_SIDE as i64 && 0 < height && height <= MAX_CAPTURE_SIDE as i64
}

/// Converts the first `pixels` 4-byte blue-green-red-padding pixels of `data`
/// into RGB samples.
pub fn bgrx_pixels_to_rgb(data: &[u8], pixels: usize) -> (rgb: Vec<u8>)
    requires
        pixels * 4 <= data@.len(),
    ensures
        rgb@ == bgrx_to_rgb(data@, pixels as nat),
{
    let mut rgb: Vec<u8> = Vec::new();
    let mut p: usize = 0;
    while p < pixels
        invariant
            p <= pixels,
            pixels * 4 <= data@.len(),
            rgb@.len() == 3 * p,
            forall|k: int| 0 <= k < 3 * p ==> #[trigger] rgb@[k] == data@[4 * (k / 3) + (2 - k % 3)],
        decreases pixels - p,
    {
        assert(4 * p + 3 < data.len()) by (nonlinear_arith)
            requires p < pixels, pixels * 4 <= data.len();
        let base: usize = 4 * p;
        rgb.push(data[base + 2]);
        rgb.push(data[base + 1]);
        rgb.push(data[base]);
        assert forall|k: int| 0 <= k < 3 * (p + 1) implies #[trigger] rgb@[k] == data@[4 * (k / 3) + (2 - k % 3)] by {
            if k >= 3 * p {
                assert(k / 3 == p as int);
            }
        }
        p = p + 1;
    }
    assert(rgb@ =~= bgrx_to_rgb(data@, pixels as nat));
    rgb
}

/// Whether every byte is zero.
pub fn is_black(bytes: &Vec<u8>) -> (b: bool)
    ensures
        b == all_zero(bytes@),
{
    let mut i: usize = 0;
    while i < bytes.len()
        invariant
            i <= bytes.len(),
            forall|j: int| 0 <= j < i ==> #[trigger] bytes@[j] == 0,
        decreases bytes.len() - i,
    {
        if bytes[i] != 0 {
            return false;
        }
        i = i + 1;
    }
    true
}

/// Encodes an RGB frame of `width` by `height` pixels as a 320x180 base64 JPEG
/// thumbnail; a black frame, or a failed encode, gives the empty text. The
/// resize works through a 16-byte-per-pixel buffer as wide as the frame and as
/// high as the thumbnail, which must fit in memory (always so with a 64-bit
/// `usize`).
pub fn rgb_thumbnail_base64(rgb: Vec<u8>, width: u32, height: u32) -> (s: String)
    requires
        rgb@.len() == 3 * width * height,
        16 * width * THUMBNAIL_HEIGHT <= isize::MAX,
    ensures
        s@ == rgb_thumbnail(rgb@, width, height),
{
    if is_black(&rgb) {
        return String::new();
    }
    let ghost samples = rgb@;
    let frame = match rgb_image_from_raw(width, height, rgb) {
        Some(f) => f,
        None => {
            return String::new();
        },
    };
    let small = resize_triangle(&frame, THUMBNAIL_WIDTH, THUMBNAIL_HEIGHT);
    match encode_jpeg(small) {
        Some(jpeg) => {
            assert(4 * ((jpeg@.len() + 2) / 3) <= usize::MAX);
            base64_encode(jpeg.as_slice())
        },
        None => String::new(),
    }
}

/// Turns the pixels of an X11 `GetImage` reply into a base64 JPEG thumbnail,
/// or the empty text when the depth is not 24 or 32, the data is short, the
/// frame is black, or encoding fails. The bounds are those of memory (the second
/// always holds with a 64-bit `usize`).
pub fn pixels_to_base64_jpeg(data: &[u8], depth: u8, width: u32, height: u32) -> (s: String)
    requires
        width as nat * height as nat * 4 <= usize::MAX,
        16 * width * THUMBNAIL_HEIGHT <= isize::MAX,
    ensures
        s@ == x11_thumbnail(data@, depth, width, height),
{
    if depth != 24 && depth != 32 {
        return String::new();
    }
    assert(width as nat * height as nat <= usize::MAX) by (nonlinear_arith)
        requires width as nat * height as nat * 4 <= usize::MAX;
    let pixels: usize = (width as usize) * (height as usize);
    assert(3 * pixels == 3 * width * height) by (nonlinear_arith)
        requires pixels == width as nat * height as nat;
    if data.len() < pixels * 4 {
        return String::new();
    }
    let rgb = bgrx_pixels_to_rgb(data, pixels);
    rgb_thumbnail_base64(rgb, width, height)
}

} // verus!
