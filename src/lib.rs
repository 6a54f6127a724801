//! Small generic value types: a complex pair with component-wise arithmetic,
//! an interval with a partial order, and a row-major pixel buffer.
use vstd::prelude::*;

pub mod complex;
pub mod image;
pub mod interval;

pub use complex::Complex;
pub use image::{Image, ImageError};
pub use interval::Interval;

verus! {

} // verus!
