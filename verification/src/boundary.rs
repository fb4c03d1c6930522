//! The boundary layer: turns a raw-buffer descriptor into a processing
//! context behind a live-checked handle, turns algorithm output back into a
//! tagged buffer descriptor, and offers one release function per allocation
//! strategy, refusing a buffer released through the wrong one.

use vstd::prelude::*;
use vstd::arithmetic::div_mod::{
    lemma_div_by_multiple, lemma_fundamental_div_mod, lemma_mod_multiples_basic,
};
use vstd::pervasive::VecAdditionalExecFns;
use crate::conv_color::{gray_pixel, is_gray_of};
use crate::image_data::{ImageData, ImgError};
use crate::pre_process::{threshold_byte_spec, PreProc};

verus! {

/// A boundary-level record of raw pixel memory: dimensions, channel count
/// and the owned bytes, `width * height * channels` of them when valid.
pub struct RustImage {
    pub width: u32,
    pub height: u32,
    pub channels: u32,
    pub data: Vec<u8>,
}

impl RustImage {
    /// Channel counts the boundary accepts at `create_proc_handle`.
    pub open spec fn supported_channels(self) -> bool {
        self.channels == 1 || self.channels == 3 || self.channels == 4
    }

    /// The buffer holds exactly `width * height * channels` bytes.
    pub open spec fn len_matches(self) -> bool {
        self.data@.len() == self.width * self.height * self.channels
    }
}

/// Which native allocation produced an output buffer; a buffer may only be
/// released through the release function matching its strategy.
#[derive(Clone, Copy, Debug, PartialEq, Eq, Structural)]
pub enum Strategy {
    /// A boxed allocation, released by `free_image_buffer`.
    Boxed,
    /// An allocation kept alive by forgetting its vector, released by
    /// `free_threshold_buffer`.
    ForgottenVector,
}

/// A result image whose storage the boundary hands over to the caller,
/// tagged with the allocation strategy that produced it.
#[derive(Debug)]
pub struct OutputBuffer {
    pub width: u32,
    pub height: u32,
    pub channels: u32,
    pub data: Vec<u8>,
    pub strategy: Strategy,
}

impl OutputBuffer {
    /// The image this buffer describes, without its allocation tag.
    pub open spec fn image_spec(self) -> ImageData {
        ImageData {
            width: self.width,
            height: self.height,
            channels: self.channels,
            data: self.data,
        }
    }
}

/// Maps handles (integer tokens) to live processing contexts. A destroyed
/// handle's slot stays `None`, so any later use of it is refused rather
/// than undefined.
pub struct ProcRegistry {
    pub slots: Vec<Option<PreProc>>,
}

impl ProcRegistry {
    /// Every stored context owns a well-formed image with a supported
    /// channel count (both are validated at `create_proc_handle`).
    pub open spec fn wf(self) -> bool {
        forall|i: int|
            0 <= i < self.slots@.len() ==> ((#[trigger] self.slots@[i]) matches Some(ctx)
                ==> ctx.src.wf() && ctx.src.supported_channels())
    }

    /// `h` denotes a live (not yet destroyed) context.
    pub open spec fn live(self, h: usize) -> bool {
        h < self.slots@.len() && self.slots@[h as int] is Some
    }

    /// The image owned by the context behind `h`.
    pub open spec fn ctx_image(self, h: usize) -> ImageData
        recommends
            self.live(h),
    {
        self.slots@[h as int]->Some_0.src
    }

    /// An empty registry: no live handles.
    pub fn new() -> (r: ProcRegistry)
        ensures
            r.slots@.len() == 0,
            r.wf(),
    {
        ProcRegistry { slots: Vec::new() }
    }
}

/// Validates a descriptor and opens a processing context for it: the
/// channel count must be 1, 3 or 4 and the buffer must hold exactly
/// `width * height * channels` bytes, which are copied — the boundary never
/// retains caller memory. On success the new handle denotes a context whose
/// image is byte-identical to the descriptor; on failure nothing is
/// created.
pub fn create_proc_handle(reg: &mut ProcRegistry, img: &RustImage) -> (r: Result<usize, ImgError>)
    ensures
        !img.supported_channels() ==> r == Err::<usize, ImgError>(ImgError::UnsupportedFormat)
            && *final(reg) == *old(reg),
        img.supported_channels() && !img.len_matches() ==> r == Err::<usize, ImgError>(
            ImgError::NullInput,
        ) && *final(reg) == *old(reg),
        img.supported_channels() && img.len_matches() ==> (r matches Ok(h) && {
            &&& h == old(reg).slots@.len()
            &&& final(reg).slots@.len() == old(reg).slots@.len() + 1
            &&& (forall|i: int|
                0 <= i < old(reg).slots@.len() ==> final(reg).slots@[i] == old(reg).slots@[i])
            &&& final(reg).live(h)
            &&& final(reg).ctx_image(h).width == img.width
            &&& final(reg).ctx_image(h).height == img.height
            &&& final(reg).ctx_image(h).channels == img.channels
            &&& final(reg).ctx_image(h).data@ == img.data@
        }),
        old(reg).wf() ==> final(reg).wf(),
{
    let c: u32 = img.channels;
    if !(c == 1 || c == 3 || c == 4) {
        return Err(ImgError::UnsupportedFormat);
    }
    proof {
        vstd::arithmetic::mul::lemma_mul_upper_bound(
            img.width as int,
            u32::MAX as int,
            img.height as int,
            u32::MAX as int,
        );
    }
    let pix: u64 = (img.width as u64) * (img.height as u64);
    let len64: u64 = img.data.len() as u64;
    let cc: u64 = c as u64;
    proof {
        if img.len_matches() {
            lemma_div_by_multiple((img.width * img.height) as int, cc as int);
            lemma_mod_multiples_basic((img.width * img.height) as int, cc as int);
        }
        lemma_fundamental_div_mod(len64 as int, cc as int);
    }
    if len64 % cc != 0 || len64 / cc != pix {
        return Err(ImgError::NullInput);
    }
    let mut data: Vec<u8> = Vec::new();
    let mut i: usize = 0;
    let total: usize = img.data.len();
    while i < total
        invariant
            total == img.data@.len(),
            i <= total,
            data@.len() == i,
            forall|j: int| 0 <= j < i ==> data@[j] == img.data@[j],
        decreases total - i,
    {
        data.push(img.data[i]);
        i = i + 1;
    }
    proof {
        assert(data@ =~= img.data@);
    }
    let handle: usize = reg.slots.len();
    let ctx = PreProc {
        src: ImageData { width: img.width, height: img.height, channels: img.channels, data },
    };
    reg.slots.push(Some(ctx));
    Ok(handle)
}

/// Resolves a handle and runs grayscale conversion on its context's owned
/// image; the result buffer is produced by the boxed allocation strategy,
/// so it must be released through `free_image_buffer`. A dead or
/// out-of-range handle is refused with `NullInput`; an empty owned image
/// with `EmptyImage`.
pub fn to_gray(reg: &ProcRegistry, handle: usize) -> (r: Result<OutputBuffer, ImgError>)
    requires
        reg.wf(),
    ensures
        !reg.live(handle) ==> r == Err::<OutputBuffer, ImgError>(ImgError::NullInput),
        reg.live(handle) && reg.ctx_image(handle).is_empty_spec() ==> r == Err::<
            OutputBuffer,
            ImgError,
        >(ImgError::EmptyImage),
        reg.live(handle) && !reg.ctx_image(handle).is_empty_spec() ==> (r matches Ok(buf)
            && is_gray_of(buf.image_spec(), reg.ctx_image(handle)) && buf.strategy
            == Strategy::Boxed),
{
    if handle >= reg.slots.len() {
        return Err(ImgError::NullInput);
    }
    match &reg.slots[handle] {
        None => Err(ImgError::NullInput),
        Some(ctx) => match ctx.to_gray() {
            Err(e) => Err(e),
            Ok(g) => {
                let ImageData { width, height, channels, data } = g;
                Ok(OutputBuffer { width, height, channels, data, strategy: Strategy::Boxed })
            },
        },
    }
}

/// Resolves a handle, derives the grayscale of its context's owned image,
/// and thresholds it at `threshold`; the result buffer is produced by the
/// forgotten-vector allocation strategy, so it must be released through
/// `free_threshold_buffer`. A dead or out-of-range handle is refused with
/// `NullInput`; an empty owned image with `EmptyImage`.
pub fn threshold(reg: &ProcRegistry, handle: usize, t: u8) -> (r: Result<
    OutputBuffer,
    ImgError,
>)
    requires
        reg.wf(),
    ensures
        !reg.live(handle) ==> r == Err::<OutputBuffer, ImgError>(ImgError::NullInput),
        reg.live(handle) && reg.ctx_image(handle).is_empty_spec() ==> r == Err::<
            OutputBuffer,
            ImgError,
        >(ImgError::EmptyImage),
        reg.live(handle) && !reg.ctx_image(handle).is_empty_spec() ==> (r matches Ok(buf) && {
            &&& buf.width == reg.ctx_image(handle).width
            &&& buf.height == reg.ctx_image(handle).height
            &&& buf.channels == 1
            &&& buf.data@.len() == reg.ctx_image(handle).pixel_count()
            &&& (forall|i: int|
                0 <= i < reg.ctx_image(handle).pixel_count() ==> buf.data@[i]
                    == threshold_byte_spec(gray_pixel(reg.ctx_image(handle), i), t))
            &&& buf.strategy == Strategy::ForgottenVector
        }),
{
    if handle >= reg.slots.len() {
        return Err(ImgError::NullInput);
    }
    match &reg.slots[handle] {
        None => Err(ImgError::NullInput),
        Some(ctx) => {
            let gray = match ctx.to_gray() {
                Err(e) => {
                    return Err(e);
                },
                Ok(g) => g,
            };
            proof {
                assert(gray.data@.len() == gray.width * gray.height * gray.channels) by (
                nonlinear_arith)
                    requires
                        gray.channels == 1,
                        gray.data@.len() == gray.width * gray.height,
                ;
            }
            match ctx.threshold(gray, t) {
                Err(e) => Err(e),
                Ok(out) => {
                    let ImageData { width, height, channels, data } = out;
                    Ok(
                        OutputBuffer {
                            width,
                            height,
                            channels,
                            data,
                            strategy: Strategy::ForgottenVector,
                        },
                    )
                },
            }
        },
    }
}

/// Destroys the context behind a handle: its slot is cleared, so the handle
/// is no longer live and every later operation on it — including a second
/// destroy — is refused with `NullInput` instead of being undefined.
pub fn destroy_proc_handle(reg: &mut ProcRegistry, handle: usize) -> (r: Result<(), ImgError>)
    ensures
        !old(reg).live(handle) ==> r == Err::<(), ImgError>(ImgError::NullInput) && *final(reg)
            == *old(reg),
        old(reg).live(handle) ==> r == Ok::<(), ImgError>(()) && final(reg).slots@ == old(
            reg,
        ).slots@.update(handle as int, None::<PreProc>) && !final(reg).live(handle),
        old(reg).wf() ==> final(reg).wf(),
{
    if handle >= reg.slots.len() {
        return Err(ImgError::NullInput);
    }
    match &reg.slots[handle] {
        None => Err(ImgError::NullInput),
        Some(_) => {
            reg.slots.set(handle, None);
            Ok(())
        },
    }
}

/// Destroying a handle is one-way and local: afterwards that handle is no
/// longer live — so, by their contracts, every boundary operation on it
/// (including a second destroy) returns `NullInput` — while every other
/// handle keeps its liveness and its context's image.
pub proof fn lemma_use_after_close(before: ProcRegistry, after: ProcRegistry, h: usize)
    requires
        h < before.slots@.len(),
        after.slots@ == before.slots@.update(h as int, None::<PreProc>),
    ensures
        !after.live(h),
        forall|other: usize|
            other != h && other < before.slots@.len() ==> #[trigger] after.live(other)
                == before.live(other),
        forall|other: usize|
            other != h && before.live(other) ==> #[trigger] after.ctx_image(other)
                == before.ctx_image(other),
{
}

/// Releases a buffer produced by the boxed strategy (`to_gray` output).
/// Handing it a forgotten-vector buffer is an allocation mismatch and is
/// refused, with the buffer dropped safely rather than freed wrongly.
pub fn free_image_buffer(buffer: OutputBuffer) -> (r: Result<(), ImgError>)
    ensures
        buffer.strategy == Strategy::Boxed <==> r == Ok::<(), ImgError>(()),
        buffer.strategy != Strategy::Boxed <==> r == Err::<(), ImgError>(
            ImgError::AllocationMismatch,
        ),
{
    match buffer.strategy {
        Strategy::Boxed => Ok(()),
        Strategy::ForgottenVector => Err(ImgError::AllocationMismatch),
    }
}

/// Releases a buffer produced by the forgotten-vector strategy
/// (`threshold` output). Handing it a boxed buffer is an allocation
/// mismatch and is refused, with the buffer dropped safely rather than
/// freed wrongly.
pub fn free_threshold_buffer(buffer: OutputBuffer) -> (r: Result<(), ImgError>)
    ensures
        buffer.strategy == Strategy::ForgottenVector <==> r == Ok::<(), ImgError>(()),
        buffer.strategy != Strategy::ForgottenVector <==> r == Err::<(), ImgError>(
            ImgError::AllocationMismatch,
        ),
{
    match buffer.strategy {
        Strategy::ForgottenVector => Ok(()),
        Strategy::Boxed => Err(ImgError::AllocationMismatch),
    }
}

} // verus!
