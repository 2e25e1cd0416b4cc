//! Fast image frames.
//!
//! A frame is a finite two-dimensional grid of pixels, described by the
//! [`Image`] trait. Frames can be backed by a function, by a byte buffer in
//! the interleaved ("chunky") or the per-channel ("planar") layout, or by
//! another frame that they crop, pad, scale or map pixel by pixel.
//!
//! Every function of the crate carries a contract over a mathematical model
//! of the frame: its width, its height and the pixel at each coordinate.

pub mod buffer;
pub mod chunky;
pub mod clamp;
pub mod error;
pub mod formats;
pub mod function;
pub mod image;
pub mod layout;
mod parallel;
pub mod transforms;
pub mod video;

pub use buffer::{Buffer, BufferMut};
pub use chunky::Chunky;
pub use clamp::clamp;
pub use error::LengthMismatch;
pub use formats::{AsBytes, Bgr, Bgra, Grayscale, Rgb, Rgba, Yuv};
pub use function::Function;
pub use image::Image;
pub use transforms::{crop, iter, pad, par_iter, scale, Crop, Mapped, Pad, Scale};
pub use video::{ByteChannels, ChunkyFrame, PlanarFrame, VideoFrame};
