//! Geometric patterns in exact arithmetic, and visual fingerprints made of
//! them.
//!
//! A fingerprint is made in a session: a string is hashed, the digest is
//! read window by window, and the decoded numbers choose a pattern, its
//! sizes and the paint of its cells. The shape functions can also be called
//! by themselves, with sizes, paint and grid given by the caller.
//!
//! A drawing is a list of shapes; a shape is a tag and a run of pieces. All
//! numbers in it are exact: rational multiples of 1 and of the square root
//! of 3. Writing them out in decimal is left to the caller.

pub mod color;
pub mod digest;
pub mod encoding;
pub mod geo_pattern;
pub mod patterns;
pub mod scalar;
pub mod selector;
pub mod shape;
pub mod shapes;
pub mod tiling;

pub use crate::shapes::chevrons::chevrons;
pub use crate::shapes::circle_packing::circle_packing;
pub use crate::shapes::concentric_circles::concentric_circles;
pub use crate::shapes::cubic_disarray::cubic_disarray;
pub use crate::shapes::diamonds::diamonds;
pub use crate::shapes::hexagons::hexagons;
pub use crate::shapes::hypnotic_squares::hypnotic_squares;
pub use crate::shapes::joy_division::joy_division;
pub use crate::shapes::mosaic_squares::mosaic_squares;
pub use crate::shapes::nested_squares::nested_squares;
pub use crate::shapes::octagons::octagons;
pub use crate::shapes::overlapping_circles::overlapping_circles;
pub use crate::shapes::overlapping_rings::overlapping_rings;
pub use crate::shapes::piet_mondrian::{piet_mondrian, PietMondrianSplitType};
pub use crate::shapes::plaid::plaid;
pub use crate::shapes::plus_signs::plus_signs;
pub use crate::shapes::sine_waves::sine_waves;
pub use crate::shapes::squares::squares;
pub use crate::shapes::tesselation::tesselation;
pub use crate::shapes::tiled_lines::tiled_lines;
pub use crate::shapes::triangles::triangles;
pub use crate::shapes::triangular_mesh::triangular_mesh;
pub use crate::shapes::un_deus_trois::un_deus_trois;
pub use crate::shapes::xes::xes;
