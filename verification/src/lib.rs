//! Small fixed-size vectors of two, three and four components over boolean
//! and integer scalars, with GLSL-style component-wise operations.
//!
//! Every operation is stated over the sequence of a vector's components, and
//! integer arithmetic is two's-complement: results wrap around the scalar's
//! range instead of overflowing.

pub mod scalar;
pub mod vec;
pub mod vec2;
pub mod vec3;
pub mod vec4;
pub mod laws;
