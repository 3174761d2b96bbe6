//! Album art for the device screen: 240x240 pixels of little-endian RGB565,
//! either decoded from a downloaded image or drawn as a test gradient.
use vstd::prelude::*;

use crate::firmware::display::{rgb565, rgb565_of};

verus! {

#[verifier::external_type_specification]
#[verifier::external_body]
pub struct ExImageError(image::ImageError);

/// Side of the square album art, in pixels (fills the round display).
pub const ART_SIZE: u32 = 240;

/// Resampling filter of a resize; one for each filter the `image` crate offers.
#[derive(Debug, Clone, Copy, PartialEq, Eq, Structural)]
pub enum Resample {
    Nearest,
    Triangle,
    CatmullRom,
    Gaussian,
    Lanczos3,
}

/// Whether `image::load_from_memory` decodes these bytes: the format is
/// guessed from the leading bytes and the decoder for it accepts the rest.
pub uninterp spec fn image_decodes(data: Seq<u8>) -> bool;

/// `image::load_from_memory`, then `resize_exact` to `width` x `height`
/// with `filter`, `to_rgb8` and `into_raw`. The claims: it succeeds exactly
/// on the bytes named by `image_decodes`, and there are three bytes for each
/// of the `width * height` pixels, which the crate's source gives in every
/// branch of the resize. The pixel values are left unsaid: the resampling
/// runs on floating-point functions whose precision std leaves unspecified,
/// so they are not a function of the arguments alone. The sides are bounded
/// so that the buffers stay within what can be allocated.
#[verifier::external_body]
fn decoded_rgb8(data: &[u8], width: u32, height: u32, filter: Resample) -> (r: Result<Vec<u8>, image::ImageError>)
    requires
        width <= 0xFFFF,
        height <= 0xFFFF,
    ensures
        r is Ok <==> image_decodes(data@),
        r matches Ok(raw) ==> raw@.len() == 3 * width * height,
{
    let filter = match filter {
        Resample::Nearest => image::imageops::FilterType::Nearest,
        Resample::Triangle => image::imageops::FilterType::Triangle,
        Resample::CatmullRom => image::imageops::FilterType::CatmullRom,
        Resample::Gaussian => image::imageops::FilterType::Gaussian,
        Resample::Lanczos3 => image::imageops::FilterType::Lanczos3,
    };
    Ok(image::load_from_memory(data)?.resize_exact(width, height, filter).to_rgb8().into_raw())
}

/// Low byte of a 16-bit value.
pub open spec fn low_byte(v: int) -> u8 {
    (v % 256) as u8
}

/// High byte of a 16-bit value.
pub open spec fn high_byte(v: int) -> u8 {
    (v / 256) as u8
}

/// RGB565 little-endian bytes of the complete RGB triples in `rgb`: two
/// bytes per pixel, low byte first.
pub open spec fn rgb565_le(rgb: Seq<u8>) -> Seq<u8> {
    Seq::new(
        (rgb.len() / 3) * 2,
        |k: int|
            {
                let p = k / 2;
                let v = rgb565_of(rgb[3 * p], rgb[3 * p + 1], rgb[3 * p + 2]);
                if k % 2 == 0 {
                    low_byte(v)
                } else {
                    high_byte(v)
                }
            },
    )
}

/// Packs RGB888 pixels into little-endian RGB565, the display's native
/// byte order; a trailing incomplete pixel is ignored.
pub fn rgb8_to_rgb565_le(rgb: &[u8]) -> (out: Vec<u8>)
    ensures
        out@ == rgb565_le(rgb@),
{
    let count = rgb.len() / 3;
    let mut out: Vec<u8> = Vec::new();
    let mut p: usize = 0;
    while p < count
        invariant
            count == rgb@.len() / 3,
            p <= count,
            out@.len() == 2 * p,
            forall|k: int| 0 <= k < 2 * p ==> #[trigger] out@[k] == rgb565_le(rgb@)[k],
        decreases count - p,
    {
        assert(3 * p + 2 < rgb@.len()) by (nonlinear_arith)
            requires
                p < rgb@.len() / 3,
        ;
        assert(rgb@.len() == rgb.len());
        let base: usize = 3 * p;
        let v = rgb565(rgb[base], rgb[base + 1], rgb[base + 2]);
        out.push((v % 256) as u8);
        out.push((v / 256) as u8);
        proof {
            assert((2 * p as int) / 2 == p as int && (2 * p as int) % 2 == 0);
            assert((2 * p as int + 1) / 2 == p as int && (2 * p as int + 1) % 2 == 1);
        }
        p = p + 1;
    }
    assert(out@ =~= rgb565_le(rgb@));
    out
}

/// Why album art could not be produced.
#[derive(Debug, Clone, Copy, PartialEq, Eq, Structural)]
pub enum ArtError {
    /// The downloaded bytes are not an image the decoder accepts.
    Decode,
}

impl ArtError {
    /// The error's text.
    pub fn message(&self) -> (s: String)
        ensures
            s@ == "failed to decode image"@,
    {
        String::from_str("failed to decode image")
    }
}

/// How album art is resized: to a `target_size` square, with the Lanczos3
/// filter.
pub fn art_resize(target_size: u32) -> (a: (u32, u32, Resample))
    ensures
        a == (target_size, target_size, Resample::Lanczos3),
{
    (target_size, target_size, Resample::Lanczos3)
}

/// Decodes an image and converts it to `target_size` x `target_size`
/// little-endian RGB565, resized as `art_resize` says (a `target_size`
/// square, Lanczos3). Fails exactly when the bytes do not decode; on success
/// the result is the RGB565 packing (`rgb8_to_rgb565_le`) of the resized
/// image's RGB pixels. The pixel values themselves come from floating-point
/// resampling in the `image` crate and are not stated.
pub fn convert_to_rgb565(image_data: &[u8], target_size: u32) -> (r: Result<Vec<u8>, ArtError>)
    requires
        target_size <= 0xFFFF,
    ensures
        r is Err <==> !image_decodes(image_data@),
        r matches Err(e) ==> e == ArtError::Decode,
        r matches Ok(v) ==> exists|raw: Seq<u8>|
            raw.len() == 3 * target_size * target_size && v@ == #[trigger] rgb565_le(raw),
        r matches Ok(v) ==> v@.len() == 2 * target_size * target_size,
{
    let (width, height, filter) = art_resize(target_size);
    match decoded_rgb8(image_data, width, height, filter) {
        Ok(raw) => {
            let out = rgb8_to_rgb565_le(raw.as_slice());
            assert(out@ == rgb565_le(raw@));
            proof {
                let n = target_size as int * target_size as int;
                assert(3 * target_size * target_size == 3 * n && 2 * target_size * target_size == 2
                    * n) by (nonlinear_arith)
                    requires
                        n == target_size as int * target_size as int,
                ;
                assert((3 * n) / 3 == n);
            }
            Ok(out)
        },
        Err(_) => Err(ArtError::Decode),
    }
}

/// Red of the test gradient at column `x`: rising left to right.
pub open spec fn gradient_red(x: int) -> u8 {
    (x * 255 / 240) as u8
}

/// Blue of the test gradient at row `y`: rising top to bottom.
pub open spec fn gradient_blue(y: int) -> u8 {
    (y * 255 / 240) as u8
}

/// Byte `k` of the test pattern: pixel `k / 2` in row-major order, with a
/// constant green of 80, little-endian.
pub open spec fn test_pattern_byte(k: int) -> u8 {
    let p = k / 2;
    let v = rgb565_of(gradient_red(p % 240), 80, gradient_blue(p / 240));
    if k % 2 == 0 {
        low_byte(v)
    } else {
        high_byte(v)
    }
}

proof fn lemma_pixel_index(x: int, y: int)
    requires
        0 <= x < 240,
        0 <= y < 240,
    ensures
        (2 * (y * 240 + x)) / 2 == y * 240 + x,
        (2 * (y * 240 + x)) % 2 == 0,
        (2 * (y * 240 + x) + 1) / 2 == y * 240 + x,
        (2 * (y * 240 + x) + 1) % 2 == 1,
        (y * 240 + x) % 240 == x,
        (y * 240 + x) / 240 == y,
        x * 255 / 240 < 256,
        y * 255 / 240 < 256,
{
    assert((y * 240 + x) % 240 == x && (y * 240 + x) / 240 == y) by (nonlinear_arith)
        requires
            0 <= x < 240,
            0 <= y,
    ;
    assert(x * 255 / 240 < 256 && y * 255 / 240 < 256) by (nonlinear_arith)
        requires
            0 <= x < 240,
            0 <= y < 240,
    ;
}

/// Draws the 240x240 test gradient shown when no album art is available:
/// red grows from left to right, blue from top to bottom, green stays at 80.
pub fn generate_test_pattern() -> (out: Vec<u8>)
    ensures
        out@.len() == 240 * 240 * 2,
        forall|k: int| 0 <= k < 240 * 240 * 2 ==> #[trigger] out@[k] == test_pattern_byte(k),
{
    let size: usize = 240;
    let mut out: Vec<u8> = Vec::new();
    let mut y: usize = 0;
    while y < size
        invariant
            size == 240,
            y <= 240,
            out@.len() == 2 * (y * 240),
            forall|k: int| 0 <= k < out@.len() ==> #[trigger] out@[k] == test_pattern_byte(k),
        decreases 240 - y,
    {
        let mut x: usize = 0;
        while x < size
            invariant
                size == 240,
                y < 240,
                x <= 240,
                out@.len() == 2 * (y * 240 + x),
                forall|k: int| 0 <= k < out@.len() ==> #[trigger] out@[k] == test_pattern_byte(k),
            decreases 240 - x,
        {
            proof {
                lemma_pixel_index(x as int, y as int);
            }
            let r: u8 = (x * 255 / size) as u8;
            let b: u8 = (y * 255 / size) as u8;
            let v = rgb565(r, 80, b);
            out.push((v % 256) as u8);
            out.push((v / 256) as u8);
            x = x + 1;
        }
        y = y + 1;
    }
    out
}

} // verus!
