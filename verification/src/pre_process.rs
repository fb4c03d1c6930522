//! The processing context: exclusive owner of one decoded image, offering
//! grayscale, HSV and threshold operations that read the owned image and
//! return fresh images.

use vstd::prelude::*;
use crate::conv_color::{is_gray_of, is_hsv_of, ConvterColor};
use crate::image_data::{ImageData, ImgError};
use rayon::iter::{IntoParallelRefMutIterator, ParallelIterator};

verus! {

/// A byte after binary thresholding: 255 where the input is strictly
/// greater than the threshold, 0 otherwise.
pub open spec fn threshold_byte_spec(p: int, t: u8) -> u8 {
    if p > t {
        255
    } else {
        0
    }
}

/// `out` is `src` thresholded at `t`: same dimensions, one channel, every
/// byte mapped through `threshold_byte_spec`.
pub open spec fn is_threshold_of(out: ImageData, src: ImageData, t: u8) -> bool {
    &&& out.width == src.width
    &&& out.height == src.height
    &&& out.channels == 1
    &&& out.data@.len() == src.data@.len()
    &&& forall|i: int| 0 <= i < src.data@.len() ==> out.data@[i] == threshold_byte_spec(
        src.data@[i] as int,
        t,
    )
}

/// Every byte of a threshold output is exactly 0 or 255, whatever the
/// input image and whatever the threshold.
pub proof fn lemma_threshold_output_binary(out: ImageData, src: ImageData, t: u8)
    requires
        is_threshold_of(out, src, t),
    ensures
        forall|i: int| 0 <= i < out.data@.len() ==> out.data@[i] == 0 || out.data@[i] == 255,
{
}

/// Thresholding is idempotent on bytes: a byte that already came out of
/// the threshold map is left unchanged by a second pass at the same
/// threshold.
pub proof fn lemma_threshold_byte_idempotent(p: int, t: u8)
    requires
        0 <= p <= 255,
    ensures
        threshold_byte_spec(threshold_byte_spec(p, t) as int, t) == threshold_byte_spec(p, t),
{
}

/// Thresholding an image twice at the same threshold equals thresholding
/// it once: if `once` is the threshold of `src` and `twice` the threshold
/// of `once`, the two outputs agree in dimensions and bytes.
pub proof fn lemma_threshold_idempotent(once: ImageData, twice: ImageData, src: ImageData, t: u8)
    requires
        is_threshold_of(once, src, t),
        is_threshold_of(twice, once, t),
    ensures
        twice.width == once.width,
        twice.height == once.height,
        twice.channels == once.channels,
        twice.data@ == once.data@,
{
    assert forall|i: int| 0 <= i < once.data@.len() implies twice.data@[i] == once.data@[i] by {
        lemma_threshold_byte_idempotent(src.data@[i] as int, t);
    }
    assert(twice.data@ =~= once.data@);
}

/// One byte of the threshold map, as executable code; the parallel map
/// applies exactly this function to every byte.
pub fn threshold_byte(p: u8, t: u8) -> (r: u8)
    ensures
        r == threshold_byte_spec(p as int, t),
{
    if p > t {
        255
    } else {
        0
    }
}

/// Relies on rayon's `par_iter_mut` and `for_each` over a `Vec`: the
/// closure runs exactly once on each element, in place, and only calls the
/// verified per-byte threshold map.
#[verifier::external_body]
fn par_threshold(buffer: &mut Vec<u8>, t: u8)
    ensures
        final(buffer)@.len() == old(buffer)@.len(),
        forall|i: int| 0 <= i < old(buffer)@.len() ==> final(buffer)@[i] == threshold_byte_spec(
            old(buffer)@[i] as int,
            t,
        ),
{
    buffer.par_iter_mut().for_each(|p| *p = threshold_byte(*p, t));
}

/// Owns exactly one decoded image for its whole lifetime; operations read
/// it and produce new images, never rewriting the owned one. Emptiness is
/// checked lazily on each operation, not at construction.
pub struct PreProc {
    pub src: ImageData,
}

impl PreProc {
    /// The owned image's buffer matches its dimensions.
    pub open spec fn wf(self) -> bool {
        self.src.wf()
    }

    /// Takes ownership of the image; never fails (validation happens on
    /// each operation).
    pub fn new(image: ImageData) -> (p: PreProc)
        ensures
            p.src == image,
    {
        PreProc { src: image }
    }

    /// True iff the owned image has zero width or zero height.
    pub fn is_empty(&self) -> (r: bool)
        ensures
            r == self.src.is_empty_spec(),
    {
        self.src.width == 0 || self.src.height == 0
    }

    /// Grayscale of the owned image.
    pub fn to_gray(&self) -> (r: Result<ImageData, ImgError>)
        requires
            self.wf(),
        ensures
            self.src.is_empty_spec() ==> r == Err::<ImageData, ImgError>(ImgError::EmptyImage),
            !self.src.is_empty_spec() && !self.src.supported_channels() ==> r == Err::<
                ImageData,
                ImgError,
            >(ImgError::UnsupportedFormat),
            !self.src.is_empty_spec() && self.src.supported_channels() ==> (r matches Ok(g)
                && is_gray_of(g, self.src)),
    {
        ConvterColor::to_gray(&self.src)
    }

    /// HSV rendering of the owned image.
    pub fn to_hsv(&self) -> (r: Result<ImageData, ImgError>)
        requires
            self.wf(),
        ensures
            self.src.is_empty_spec() ==> r == Err::<ImageData, ImgError>(ImgError::EmptyImage),
            !self.src.is_empty_spec() && !(self.src.channels == 3 || self.src.channels == 4)
                ==> r == Err::<ImageData, ImgError>(ImgError::UnsupportedFormat),
            !self.src.is_empty_spec() && (self.src.channels == 3 || self.src.channels == 4) ==> (
            r matches Ok(out) && is_hsv_of(out, self.src)),
    {
        ConvterColor::to_hsv_image(&self.src)
    }

    /// Binary threshold of a caller-supplied grayscale image. The guard
    /// deliberately checks the *context's* owned image for emptiness, not
    /// the operand: it protects context validity, while the algorithm runs
    /// on the supplied data.
    pub fn threshold(&self, gray: ImageData, threshold: u8) -> (r: Result<ImageData, ImgError>)
        requires
            gray.wf(),
            gray.channels == 1,
        ensures
            self.src.is_empty_spec() ==> r == Err::<ImageData, ImgError>(ImgError::EmptyImage),
            !self.src.is_empty_spec() ==> (r matches Ok(out) && is_threshold_of(
                out,
                gray,
                threshold,
            )),
    {
        if self.is_empty() {
            return Err(ImgError::EmptyImage);
        }
        let ImageData { width, height, channels: _, data } = gray;
        let mut buffer = data;
        par_threshold(&mut buffer, threshold);
        Ok(ImageData { width, height, channels: 1, data: buffer })
    }

    /// Read-only view of the owned image.
    pub fn image(&self) -> (r: &ImageData)
        ensures
            r == self.src,
    {
        &self.src
    }
}

} // verus!
