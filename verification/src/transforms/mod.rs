//! Frames that transform another frame, pixel by pixel and on demand, and
//! the enumeration of the pixels of a frame.

pub mod crop;
pub mod iter;
pub mod map;
pub mod pad;
pub mod scale;

pub use crop::{crop, Crop};
pub use iter::{iter, par_iter};
pub use map::Mapped;
pub use pad::{pad, Pad};
pub use scale::{scale, Scale};
