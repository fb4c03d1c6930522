//! Color-space conversions: RGB to grayscale and RGB to HSV.

use vstd::prelude::*;
use vstd::arithmetic::div_mod::{lemma_div_by_multiple, lemma_div_is_ordered};
use vstd::arithmetic::mul::lemma_mul_inequality;
use crate::image_data::{ImageData, ImgError};
use image::Pixel;
use rayon::iter::{IntoParallelRefIterator, ParallelIterator};

verus! {

/// Luma of one RGB pixel, under the sRGB weighting used by the decoder:
/// `(2126 r + 7152 g + 722 b) / 10000`.
pub open spec fn luma_byte(r: u8, g: u8, b: u8) -> int {
    (2126 * r + 7152 * g + 722 * b) / 10000
}

/// The gray value of pixel `i` of `img`: the byte itself for 1-channel
/// input, the luma of the pixel's RGB bytes otherwise (alpha ignored).
pub open spec fn gray_pixel(img: ImageData, i: int) -> int {
    if img.channels == 1 {
        img.data@[i] as int
    } else {
        let c = img.channels as int;
        luma_byte(img.data@[c * i], img.data@[c * i + 1], img.data@[c * i + 2])
    }
}

/// `out` is the grayscale rendering of `image`: same dimensions, one
/// channel, every pixel its luma.
pub open spec fn is_gray_of(out: ImageData, image: ImageData) -> bool {
    &&& out.width == image.width
    &&& out.height == image.height
    &&& out.channels == 1
    &&& out.data@.len() == image.pixel_count()
    &&& forall|i: int| 0 <= i < image.pixel_count() ==> out.data@[i] == gray_pixel(image, i)
}

/// The largest of three channel values.
pub open spec fn max3(r: int, g: int, b: int) -> int {
    if r >= g && r >= b {
        r
    } else if g >= b {
        g
    } else {
        b
    }
}

/// The smallest of three channel values.
pub open spec fn min3(r: int, g: int, b: int) -> int {
    if r <= g && r <= b {
        r
    } else if g <= b {
        g
    } else {
        b
    }
}

/// The hue of an RGB pixel, scaled from [0, 360) degrees to a byte and
/// truncated toward zero. With `d = max - min`, the hue in degrees is 0
/// when `d == 0`, else `60 * ((g - b) / d mod 6)` when red is the largest
/// channel, `60 * ((b - r) / d + 2)` when green is, `60 * ((r - g) / d + 4)`
/// when blue is; the scaled byte is `hue * 255 / 360`, here written over
/// integers as `numerator * 255 / (6 d)`.
pub open spec fn hsv_h_byte(r: u8, g: u8, b: u8) -> int {
    let mx = max3(r as int, g as int, b as int);
    let mn = min3(r as int, g as int, b as int);
    let d = mx - mn;
    if d == 0 {
        0
    } else if mx == r {
        if g >= b {
            ((g - b) * 255) / (6 * d)
        } else {
            ((g - b + 6 * d) * 255) / (6 * d)
        }
    } else if mx == g {
        ((b - r + 2 * d) * 255) / (6 * d)
    } else {
        ((r - g + 4 * d) * 255) / (6 * d)
    }
}

/// The saturation of an RGB pixel, scaled from [0, 1] to a byte and
/// truncated toward zero: `(max - min) / max * 255`, or 0 for black.
pub open spec fn hsv_s_byte(r: u8, g: u8, b: u8) -> int {
    let mx = max3(r as int, g as int, b as int);
    let mn = min3(r as int, g as int, b as int);
    if mx == 0 {
        0
    } else {
        ((mx - mn) * 255) / mx
    }
}

/// The value of an RGB pixel, scaled from [0, 1] to a byte: the largest
/// channel itself.
pub open spec fn hsv_v_byte(r: u8, g: u8, b: u8) -> int {
    max3(r as int, g as int, b as int)
}

/// `out` is the HSV rendering of `image`: same dimensions, three channels,
/// each output pixel the scaled (h, s, v) of its own input pixel.
pub open spec fn is_hsv_of(out: ImageData, image: ImageData) -> bool {
    &&& out.width == image.width
    &&& out.height == image.height
    &&& out.channels == 3
    &&& out.data@.len() == 3 * image.pixel_count()
    &&& forall|i: int| 0 <= i < image.pixel_count() ==> #[trigger] pixel_is_hsv(
        out.data@,
        image.data@,
        image.channels as int,
        i,
    )
}

/// Output pixel `i` (three bytes at `3 i`) holds the scaled HSV of input
/// pixel `i` (`c` interleaved bytes at `c i`).
pub open spec fn pixel_is_hsv(out: Seq<u8>, src: Seq<u8>, c: int, i: int) -> bool {
    &&& out[3 * i] == hsv_h_byte(src[c * i], src[c * i + 1], src[c * i + 2])
    &&& out[3 * i + 1] == hsv_s_byte(src[c * i], src[c * i + 1], src[c * i + 2])
    &&& out[3 * i + 2] == hsv_v_byte(src[c * i], src[c * i + 1], src[c * i + 2])
}

/// Relies on image's `Pixel::to_luma` for `Rgb<u8>`: the luma of one pixel,
/// computed as `(2126 r + 7152 g + 722 b) / 10000`.
#[verifier::external_body]
fn luma_pixel(r: u8, g: u8, b: u8) -> (l: u8)
    ensures
        l == luma_byte(r, g, b),
{
    image::Rgb([r, g, b]).to_luma().0[0]
}

/// Stateless color conversions over in-memory images.
pub struct ConvterColor;

impl ConvterColor {
    /// Grayscale conversion. Accepts 1-, 3- and 4-channel images (alpha is
    /// ignored); yields a 1-channel image of the same dimensions.
    pub fn to_gray(image: &ImageData) -> (r: Result<ImageData, ImgError>)
        requires
            image.wf(),
        ensures
            image.is_empty_spec() ==> r == Err::<ImageData, ImgError>(ImgError::EmptyImage),
            !image.is_empty_spec() && !image.supported_channels() ==> r == Err::<
                ImageData,
                ImgError,
            >(ImgError::UnsupportedFormat),
            !image.is_empty_spec() && image.supported_channels() ==> (r matches Ok(g)
                && is_gray_of(g, *image)),
    {
        if image.width == 0 || image.height == 0 {
            return Err(ImgError::EmptyImage);
        }
        if !(image.channels == 1 || image.channels == 3 || image.channels == 4) {
            return Err(ImgError::UnsupportedFormat);
        }
        let c: usize = image.channels as usize;
        let n: usize = image.data.len() / c;
        proof {
            lemma_div_by_multiple((image.width * image.height) as int, c as int);
            assert(image.data@.len() == n * c) by (nonlinear_arith)
                requires
                    n == image.width * image.height,
                    c == image.channels,
                    image.data@.len() == image.width * image.height * image.channels,
            ;
        }
        let mut out: Vec<u8> = Vec::new();
        let mut i: usize = 0;
        while i < n
            invariant
                image.wf(),
                image.supported_channels(),
                c == image.channels,
                n == image.pixel_count(),
                image.data@.len() == n * c,
                image.data@.len() <= usize::MAX,
                i <= n,
                out@.len() == i,
                forall|j: int| 0 <= j < i ==> out@[j] == gray_pixel(*image, j),
            decreases n - i,
        {
            let p: u8;
            if c == 1 {
                p = image.data[i];
            } else {
                proof {
                    lemma_mul_inequality(i as int, n as int, c as int);
                    lemma_mul_inequality(i + 1, n as int, c as int);
                    assert((i + 1) * c == i * c + c) by (nonlinear_arith);
                }
                let base: usize = i * c;
                p = luma_pixel(image.data[base], image.data[base + 1], image.data[base + 2]);
            }
            out.push(p);
            proof {
                assert(out@[i as int] == gray_pixel(*image, i as int));
            }
            i = i + 1;
        }
        Ok(ImageData { width: image.width, height: image.height, channels: 1, data: out })
    }

    /// Standard RGB-to-HSV conversion of one pixel, already scaled to output
    /// bytes: h from [0, 360) degrees to [0, 255], s and v from [0, 1] to
    /// [0, 255], each truncated toward zero.
    pub fn rgb_to_hsv(r: u8, g: u8, b: u8) -> (hsv: (u8, u8, u8))
        ensures
            hsv.0 == hsv_h_byte(r, g, b),
            hsv.1 == hsv_s_byte(r, g, b),
            hsv.2 == hsv_v_byte(r, g, b),
    {
        let rr: u32 = r as u32;
        let gg: u32 = g as u32;
        let bb: u32 = b as u32;
        let mx: u32 = if rr >= gg && rr >= bb {
            rr
        } else if gg >= bb {
            gg
        } else {
            bb
        };
        let mn: u32 = if rr <= gg && rr <= bb {
            rr
        } else if gg <= bb {
            gg
        } else {
            bb
        };
        let d: u32 = mx - mn;
        let v8: u8 = mx as u8;
        let s8: u8 = if mx == 0 {
            0
        } else {
            proof {
                lemma_div_is_ordered((d * 255) as int, 255 * mx, mx as int);
                lemma_div_by_multiple(255, mx as int);
            }
            ((d * 255) / mx) as u8
        };
        let h8: u8;
        if d == 0 {
            h8 = 0;
        } else {
            let num: u32 = if mx == rr {
                if gg >= bb {
                    (gg - bb) * 255
                } else {
                    (gg + 6 * d - bb) * 255
                }
            } else if mx == gg {
                (bb + 2 * d - rr) * 255
            } else {
                (rr + 4 * d - gg) * 255
            };
            proof {
                lemma_div_is_ordered(num as int, 255 * (6 * d), (6 * d) as int);
                lemma_div_by_multiple(255, (6 * d) as int);
            }
            h8 = (num / (6 * d)) as u8;
        }
        (h8, s8, v8)
    }

    /// HSV conversion of a whole image. Accepts 3- and 4-channel images;
    /// yields a 3-channel image of the same dimensions in which each pixel
    /// holds the scaled (h, s, v) of its own input pixel. Each pixel is
    /// converted independently; the parallel map writes every output pixel
    /// into its own disjoint three-byte range at `(y * width + x) * 3`.
    pub fn to_hsv_image(image: &ImageData) -> (r: Result<ImageData, ImgError>)
        requires
            image.wf(),
        ensures
            image.is_empty_spec() ==> r == Err::<ImageData, ImgError>(ImgError::EmptyImage),
            !image.is_empty_spec() && !(image.channels == 3 || image.channels == 4) ==> r == Err::<
                ImageData,
                ImgError,
            >(ImgError::UnsupportedFormat),
            !image.is_empty_spec() && (image.channels == 3 || image.channels == 4) ==> (r matches
                Ok(out) && is_hsv_of(out, *image)),
    {
        if image.width == 0 || image.height == 0 {
            return Err(ImgError::EmptyImage);
        }
        if !(image.channels == 3 || image.channels == 4) {
            return Err(ImgError::UnsupportedFormat);
        }
        let pixels = gather_rgb(image);
        let hsv = par_map_hsv(&pixels);
        let n: usize = pixels.len();
        let mut out: Vec<u8> = Vec::new();
        let mut p: usize = 0;
        while p < n
            invariant
                n == image.pixel_count(),
                hsv@.len() == n,
                pixels@.len() == n,
                image.wf(),
                image.channels == 3 || image.channels == 4,
                forall|i: int| #![trigger pixels@[i]] 0 <= i < n ==> {
                    let c = image.channels as int;
                    &&& pixels@[i].0 == image.data@[c * i]
                    &&& pixels@[i].1 == image.data@[c * i + 1]
                    &&& pixels@[i].2 == image.data@[c * i + 2]
                },
                forall|i: int| #![trigger hsv@[i]] 0 <= i < n ==> {
                    &&& hsv@[i].0 == hsv_h_byte(pixels@[i].0, pixels@[i].1, pixels@[i].2)
                    &&& hsv@[i].1 == hsv_s_byte(pixels@[i].0, pixels@[i].1, pixels@[i].2)
                    &&& hsv@[i].2 == hsv_v_byte(pixels@[i].0, pixels@[i].1, pixels@[i].2)
                },
                p <= n,
                out@.len() == 3 * p,
                forall|i: int| 0 <= i < p ==> #[trigger] pixel_is_hsv(
                    out@,
                    image.data@,
                    image.channels as int,
                    i,
                ),
            decreases n - p,
        {
            // output pixel p owns the disjoint byte range starting at
            // (y * width + x) * 3 == p * 3 in row-major order
            let trip: (u8, u8, u8) = hsv[p];
            let ghost out0 = out@;
            out.push(trip.0);
            out.push(trip.1);
            out.push(trip.2);
            proof {
                assert(pixel_is_hsv(out@, image.data@, image.channels as int, p as int));
                assert forall|i: int| 0 <= i < p implies #[trigger] pixel_is_hsv(
                    out@,
                    image.data@,
                    image.channels as int,
                    i,
                ) by {
                    assert(pixel_is_hsv(out0, image.data@, image.channels as int, i));
                    assert(out@[3 * i] == out0[3 * i]);
                    assert(out@[3 * i + 1] == out0[3 * i + 1]);
                    assert(out@[3 * i + 2] == out0[3 * i + 2]);
                }
            }
            p = p + 1;
        }
        proof {
            assert(out@.len() == 3 * image.pixel_count());
        }
        Ok(ImageData { width: image.width, height: image.height, channels: 3, data: out })
    }
}

/// Reads each pixel's (r, g, b) bytes out of an interleaved 3- or 4-channel
/// buffer (alpha, if present, is ignored).
fn gather_rgb(image: &ImageData) -> (pixels: Vec<(u8, u8, u8)>)
    requires
        image.wf(),
        image.channels == 3 || image.channels == 4,
    ensures
        pixels@.len() == image.pixel_count(),
        forall|i: int| #![trigger pixels@[i]] 0 <= i < pixels@.len() ==> {
            let c = image.channels as int;
            &&& pixels@[i].0 == image.data@[c * i]
            &&& pixels@[i].1 == image.data@[c * i + 1]
            &&& pixels@[i].2 == image.data@[c * i + 2]
        },
{
    let c: usize = image.channels as usize;
    let n: usize = image.data.len() / c;
    proof {
        lemma_div_by_multiple((image.width * image.height) as int, c as int);
        assert(image.data@.len() == n * c) by (nonlinear_arith)
            requires
                n == image.width * image.height,
                c == image.channels,
                image.data@.len() == image.width * image.height * image.channels,
        ;
    }
    let mut pixels: Vec<(u8, u8, u8)> = Vec::new();
    let mut i: usize = 0;
    while i < n
        invariant
            image.wf(),
            image.channels == 3 || image.channels == 4,
            c == image.channels,
            n == image.pixel_count(),
            image.data@.len() == n * c,
            image.data@.len() <= usize::MAX,
            i <= n,
            pixels@.len() == i,
            forall|j: int| #![trigger pixels@[j]] 0 <= j < i ==> {
                let cc = image.channels as int;
                &&& pixels@[j].0 == image.data@[cc * j]
                &&& pixels@[j].1 == image.data@[cc * j + 1]
                &&& pixels@[j].2 == image.data@[cc * j + 2]
            },
        decreases n - i,
    {
        proof {
            lemma_mul_inequality(i as int, n as int, c as int);
            lemma_mul_inequality(i + 1, n as int, c as int);
            assert((i + 1) * c == i * c + c) by (nonlinear_arith);
        }
        let base: usize = i * c;
        let trip: (u8, u8, u8) = (image.data[base], image.data[base + 1], image.data[base + 2]);
        pixels.push(trip);
        i = i + 1;
    }
    pixels
}

/// Relies on rayon's `par_iter`, `ParallelIterator::map` and `collect` for
/// `Vec`: the collected vector has one element per input element, at the
/// same index; each element is the closure's result, and the closure only
/// calls the verified per-pixel conversion.
#[verifier::external_body]
fn par_map_hsv(pixels: &Vec<(u8, u8, u8)>) -> (out: Vec<(u8, u8, u8)>)
    ensures
        out@.len() == pixels@.len(),
        forall|i: int| #![trigger out@[i]] 0 <= i < pixels@.len() ==> {
            &&& out@[i].0 == hsv_h_byte(pixels@[i].0, pixels@[i].1, pixels@[i].2)
            &&& out@[i].1 == hsv_s_byte(pixels@[i].0, pixels@[i].1, pixels@[i].2)
            &&& out@[i].2 == hsv_v_byte(pixels@[i].0, pixels@[i].1, pixels@[i].2)
        },
{
    pixels.par_iter().map(|p| ConvterColor::rgb_to_hsv(p.0, p.1, p.2)).collect()
}

} // verus!
