//! Conversions between 3-component color spaces.
//!
//! A color space is described by a set of RGB primaries, a reference white
//! point and an optional invertible non-linear transform function.  The crate
//! derives RGB <-> XYZ matrices, chromatic adaptation transforms between
//! white points, and composes them with the non-linear transform registry
//! into directed conversions between any two supported spaces.
//!
//! All coordinates are fixed-point numbers: an `i64` holding the value scaled
//! by 2^32 (see [`fixed`]).  Every arithmetic step is specified exactly over
//! the integers, so the whole conversion pipeline has a precise contract.

pub mod cat;
pub mod color;
pub mod conversion;
pub mod elementary;
pub mod fixed;
pub mod laws;
pub mod matrices;
pub mod spaces;
pub mod transform;
pub mod trig;
pub mod vecmat;
pub mod xyz;

pub use color::Color;
pub use color::ColorSpace;
pub use conversion::ColorConversion;
pub use conversion::LinearColorConversion;
