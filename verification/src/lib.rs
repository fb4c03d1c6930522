//! A small image-processing core: grayscale conversion, HSV conversion and
//! binary thresholding over raw, channel-interleaved byte buffers, together
//! with a checked boundary layer that hands images across an ownership
//! boundary through live-checked handles and tagged output buffers.

pub mod boundary;
pub mod conv_color;
pub mod image_data;
pub mod pre_process;

pub use boundary::{OutputBuffer, ProcRegistry, RustImage, Strategy};
pub use conv_color::ConvterColor;
pub use image_data::{ImageData, ImgError};
pub use pre_process::PreProc;
