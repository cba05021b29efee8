//! Verified core of a 3D gradient-noise ("Perlin") field generator.
//!
//! The library holds the integer heart of the algorithm: the shuffled
//! permutation table with its invariant, lattice-index wrapping, the
//! triple-indexed corner hashing, the sixteen-way gradient selection,
//! and the colour-bucket table used by the renderer. The floating-point
//! interpolation that combines these pieces lives outside the library.

pub mod color;
pub mod kernel;
pub mod table;

pub use color::color;
pub use kernel::grad_coeffs;
pub use kernel::wrap_index;
pub use kernel::CornerHashes;
pub use kernel::GradDir;
pub use table::ConfigError;
pub use table::Perlin;
