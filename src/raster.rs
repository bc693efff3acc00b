//! Decoded images held as plain RGBA8 pixel grids, and rectangles on them.
use vstd::prelude::*;

use crate::error::OcrError;

verus! {

#[verifier::external_type_specification]
#[verifier::external_body]
pub struct ExImageError(image::ImageError);

/// What `image` decodes from `bytes` over its built-in formats, as width,
/// height and RGBA8 pixels, or `None` where it reports an error.
pub uninterp spec fn decoded_of(bytes: Seq<u8>) -> Option<(u32, u32, Seq<u8>)>;

/// Relies on `image::guess_format`, which picks the format from the
/// built-in table of magic numbers, then on
/// `image::load_from_memory_with_format` with that built-in format and on
/// `DynamicImage::to_rgba8`. Neither call consults the registry of
/// user-added hooks, so the outcome depends on the bytes alone. No magic
/// number is empty, so empty input is an error.
#[verifier::external_body]
fn load_builtin(bytes: &[u8]) -> (r: Result<RasterImage, image::ImageError>)
    ensures
        r is Ok <==> decoded_of(bytes@) is Some,
        r matches Ok(img) ==> decoded_of(bytes@) == Some((img.width, img.height, img.pixels@)),
        bytes@.len() == 0 ==> r is Err,
{
    match image::guess_format(bytes).and_then(|format| image::load_from_memory_with_format(bytes, format)) {
        Ok(decoded) => {
            let rgba = decoded.to_rgba8();
            Ok(RasterImage { width: rgba.width(), height: rgba.height(), pixels: rgba.into_raw() })
        },
        Err(e) => Err(e),
    }
}

/// Relies on `image::ImageError`'s `Display` for a message to the operator.
#[verifier::external_body]
fn image_error_text(e: &image::ImageError) -> (r: String) {
    e.to_string()
}

/// A decoded image: `width * height` pixels, row by row, four bytes
/// (red, green, blue, alpha) each.
#[derive(Clone, Debug)]
pub struct RasterImage {
    pub width: u32,
    pub height: u32,
    pub pixels: Vec<u8>,
}

/// An axis-aligned rectangle in pixel coordinates of an image.
#[derive(Clone, Copy, Debug, PartialEq, Eq, Structural)]
pub struct TextRegion {
    pub left: u32,
    pub top: u32,
    pub width: u32,
    pub height: u32,
}

impl RasterImage {
    /// The pixel buffer holds exactly four bytes per pixel.
    pub open spec fn wf(&self) -> bool {
        self.pixels@.len() == 4 * (self.width as int) * (self.height as int)
    }

    /// Channel `c` (0 red, 1 green, 2 blue, 3 alpha) of the pixel at `(x, y)`.
    pub open spec fn channel(&self, x: int, y: int, c: int) -> u8 {
        self.pixels@[4 * (y * self.width + x) + c]
    }
}

impl TextRegion {
    /// The rectangle lies inside a `width` x `height` image.
    pub open spec fn within(&self, width: int, height: int) -> bool {
        self.left + self.width <= width && self.top + self.height <= height
    }
}

/// Position of cell `(x, y)` in a row-major grid `w` cells wide lies inside
/// the grid.
pub proof fn lemma_cell_in_grid(x: int, y: int, w: int, h: int)
    requires
        0 <= x < w,
        0 <= y < h,
    ensures
        0 <= y * w + x < w * h,
{
    assert(0 <= y * w + x < w * h) by (nonlinear_arith)
        requires
            0 <= x < w,
            0 <= y < h,
    ;
}

/// Row and column of a cell index in a row-major grid `w` cells wide.
pub proof fn lemma_grid_cell(i: int, w: int, h: int)
    requires
        0 < w,
        0 <= i < w * h,
    ensures
        0 <= i / w < h,
        0 <= i % w < w,
        i == (i / w) * w + i % w,
{
    vstd::arithmetic::div_mod::lemma_fundamental_div_mod(i, w);
    vstd::arithmetic::div_mod::lemma_mod_bound(i, w);
    vstd::arithmetic::div_mod::lemma_div_pos_is_pos(i, w);
    assert(i / w < h) by (nonlinear_arith)
        requires
            0 < w,
            0 <= i < w * h,
            i == w * (i / w) + i % w,
            0 <= i % w,
    ;
    assert((i / w) * w == w * (i / w)) by (nonlinear_arith);
}

/// Byte of `img` that lands at byte `i` of the crop of `img` to `r`.
spec fn crop_source(img: RasterImage, r: TextRegion, i: int) -> int {
    let p = i / 4;
    4 * ((p / (r.width as int) + r.top) * img.width + p % (r.width as int) + r.left) + i % 4
}

/// `out` is the part of `img` under `r`.
pub open spec fn is_crop(img: RasterImage, r: TextRegion, out: RasterImage) -> bool {
    &&& out.wf()
    &&& out.width == r.width
    &&& out.height == r.height
    &&& forall|x: int, y: int, c: int|
        0 <= x < r.width && 0 <= y < r.height && 0 <= c < 4 ==> #[trigger] out.channel(x, y, c)
            == img.channel(r.left + x, r.top + y, c)
}

/// Copies the part of `img` under `r` into an image of its own.
pub fn crop(img: &RasterImage, r: TextRegion) -> (out: RasterImage)
    requires
        img.wf(),
        r.within(img.width as int, img.height as int),
    ensures
        is_crop(*img, r, out),
{
    let mut pixels: Vec<u8> = Vec::new();
    let w = img.width as usize;
    let rw = r.width as usize;
    let total = img.pixels.len();
    let mut y: usize = 0;
    while y < r.height as usize
        invariant
            img.wf(),
            r.within(img.width as int, img.height as int),
            w == img.width,
            rw == r.width,
            total == img.pixels@.len(),
            y <= r.height,
            pixels@.len() == 4 * (y * rw),
            forall|i: int|
                0 <= i < pixels@.len() ==> #[trigger] pixels@[i] == img.pixels@[crop_source(*img, r, i)],
        decreases r.height - y,
    {
        let mut x: usize = 0;
        while x < rw
            invariant
                img.wf(),
                r.within(img.width as int, img.height as int),
                w == img.width,
                rw == r.width,
                total == img.pixels@.len(),
                y < r.height,
                x <= rw,
                pixels@.len() == 4 * (y * rw + x),
                forall|i: int|
                    0 <= i < pixels@.len() ==> #[trigger] pixels@[i] == img.pixels@[crop_source(*img, r, i)],
            decreases rw - x,
        {
            let sx = r.left as usize + x;
            let sy = r.top as usize + y;
            proof {
                lemma_cell_in_grid(sx as int, sy as int, w as int, img.height as int);
            }
            proof {
                assert(4 * (sy * w + sx) + 4 <= img.pixels@.len()) by (nonlinear_arith)
                    requires
                        sy * w + sx < w * img.height,
                        img.pixels@.len() == 4 * (img.width as int) * (img.height as int),
                        w == img.width,
                ;
            }
            let base = 4 * (sy * w + sx);
            pixels.push(img.pixels[base]);
            pixels.push(img.pixels[base + 1]);
            pixels.push(img.pixels[base + 2]);
            pixels.push(img.pixels[base + 3]);
            proof {
                let n = 4 * (y * rw + x);
                assert forall|i: int| 0 <= i < n + 4 implies #[trigger] pixels@[i] == img.pixels@[crop_source(*img, r, i)] by {
                    if i >= n {
                        let k = i - n;
                        assert(i / 4 == y * rw + x && i % 4 == k) by (nonlinear_arith)
                            requires
                                i == 4 * (y * rw + x) + k,
                                0 <= k < 4,
                        ;
                        assert((y * rw + x) / (rw as int) == y && (y * rw + x) % (rw as int) == x)
                            by (nonlinear_arith)
                            requires
                                0 <= x < rw,
                                0 <= y,
                        ;
                    }
                }
            }
            x += 1;
        }
        proof {
            assert(4 * (y * rw + rw) == 4 * ((y + 1) * rw)) by (nonlinear_arith);
        }
        y += 1;
    }
    proof {
        assert(4 * (y * rw) == 4 * (r.width as int) * (r.height as int)) by (nonlinear_arith)
            requires
                y == r.height,
                rw == r.width,
        ;
    }
    let out = RasterImage { width: r.width, height: r.height, pixels };
    proof {
        assert forall|x: int, y: int, c: int|
            0 <= x < r.width && 0 <= y < r.height && 0 <= c < 4 implies #[trigger] out.channel(x, y, c)
                == img.channel(r.left + x, r.top + y, c) by {
            let i = 4 * (y * rw + x) + c;
            lemma_cell_in_grid(x, y, rw as int, r.height as int);
            assert(i / 4 == y * rw + x && i % 4 == c) by (nonlinear_arith)
                requires
                    i == 4 * (y * rw + x) + c,
                    0 <= c < 4,
            ;
            assert((y * rw + x) / (rw as int) == y && (y * rw + x) % (rw as int) == x)
                by (nonlinear_arith)
                requires
                    0 <= x < rw,
                    0 <= y,
            ;
            assert(i < 4 * (r.width as int) * (r.height as int)) by (nonlinear_arith)
                requires
                    i == 4 * (y * rw + x) + c,
                    0 <= c < 4,
                    y * rw + x < rw * r.height,
                    rw == r.width,
            ;
            assert(out.pixels@[i] == img.pixels@[crop_source(*img, r, i)]);
            assert(crop_source(*img, r, i) == 4 * ((r.top + y) * img.width + (r.left + x)) + c);
        }
    }
    out
}

/// The number of pixels of a `w` x `h` image.
pub fn area(w: u32, h: u32) -> (r: u128)
    ensures
        r == w * h,
        r <= 0xffff_fffe_0000_0001u128,
{
    proof {
        let (a, b) = (w as int, h as int);
        assert(a * b <= a * 0xffff_ffff) by (nonlinear_arith)
            requires
                0 <= a,
                b <= 0xffff_ffff,
        ;
        assert(a * 0xffff_ffff <= 0xffff_ffff * 0xffff_ffff) by (nonlinear_arith)
            requires
                a <= 0xffff_ffff,
        ;
    }
    w as u128 * h as u128
}

/// Whether the pixel buffer of `img` holds four bytes per pixel.
pub fn check_wf(img: &RasterImage) -> (r: bool)
    ensures
        r == img.wf(),
{
    let n = area(img.width, img.height);
    proof {
        let (w, h) = (img.width as int, img.height as int);
        assert(4 * (w * h) == 4 * w * h) by (nonlinear_arith);
    }
    img.pixels.len() as u128 == 4 * n
}

/// The bytes decode, over `image`'s built-in formats, to an image with
/// four bytes per pixel.
pub open spec fn decodable(bytes: Seq<u8>) -> bool {
    decoded_of(bytes) matches Some(d) && d.2.len() == 4 * (d.0 as int) * (d.1 as int)
}

/// Decodes image bytes of any built-in format of `image` into RGBA8
/// pixels, the format told by the leading bytes.
pub fn decode_image(bytes: &[u8]) -> (r: Result<RasterImage, OcrError>)
    ensures
        r is Ok <==> decodable(bytes@),
        r matches Ok(img) ==> img.wf() && decoded_of(bytes@) == Some(
            (img.width, img.height, img.pixels@),
        ),
        r matches Err(e) ==> e is ImageDecode,
        bytes@.len() == 0 ==> r is Err,
{
    match load_builtin(bytes) {
        Ok(img) => {
            if check_wf(&img) {
                Ok(img)
            } else {
                Err(OcrError::ImageDecode(String::from_str("decoded pixels do not match the image size")))
            }
        },
        Err(e) => Err(OcrError::ImageDecode(image_error_text(&e))),
    }
}

} // verus!
