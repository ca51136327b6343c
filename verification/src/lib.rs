//! Fixed-point 3D vector algebra and robust geometric predicates for
//! navigation-mesh construction: dot/cross products, normalization,
//! plane/line/triangle raycasts and triangle-triangle clipping, all with
//! deterministic integer arithmetic and a single global zero threshold.

pub mod laws;
pub mod math;
pub mod plane;
pub mod triangle;
pub mod vec3;

pub use math::{SCALAR_MAX, SCALE, ZERO_TRESHOLD};
pub use triangle::NavConnection;
pub use vec3::NavVec3;
