//! The in-memory image model and the error taxonomy shared by every
//! operation of the core.

use vstd::prelude::*;

verus! {

/// Why an operation on an image or a handle was refused.
#[derive(Clone, Copy, Debug, PartialEq, Eq, Structural)]
pub enum ImgError {
    /// The image has zero width or zero height.
    EmptyImage,
    /// The channel count is not one the operation supports.
    UnsupportedFormat,
    /// A handle or descriptor does not denote a live object, or a
    /// descriptor's buffer does not match its stated dimensions.
    NullInput,
    /// A release function was invoked on a buffer produced by the other
    /// allocation strategy.
    AllocationMismatch,
}

/// A decoded image: `width * height` pixels of `channels` bytes each,
/// row-major and channel-interleaved, 8 bits per channel.
#[derive(Debug)]
pub struct ImageData {
    pub width: u32,
    pub height: u32,
    pub channels: u32,
    pub data: Vec<u8>,
}

impl ImageData {
    /// The buffer holds exactly `width * height * channels` bytes.
    pub open spec fn wf(self) -> bool {
        self.data@.len() == self.width * self.height * self.channels
    }

    /// Number of pixels in the image.
    pub open spec fn pixel_count(self) -> int {
        self.width * self.height
    }

    /// An image with no pixels: zero width or zero height.
    pub open spec fn is_empty_spec(self) -> bool {
        self.width == 0 || self.height == 0
    }

    /// Channel counts the core stores: 1 (luma), 3 (RGB), 4 (RGBA).
    pub open spec fn supported_channels(self) -> bool {
        self.channels == 1 || self.channels == 3 || self.channels == 4
    }
}

} // verus!
