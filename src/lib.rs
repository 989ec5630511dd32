//! Core of a recursive Whitted-style ray tracer: 8-bit colours and their
//! composition, surface materials, the depth-capped path integrator,
//! per-pixel sample averaging, local-to-world transforms, and the scene
//! document's integer and colour accessors.

pub mod color;
pub mod json;
pub mod material;
pub mod surface;
pub mod trace;
pub mod transform;
