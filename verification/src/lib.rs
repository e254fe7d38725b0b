//! Verified core of a small Monte Carlo ray tracer.
//!
//! The shading itself — vector algebra, intersection roots, scattering —
//! is floating-point sampling code that the verifier does not accept, so it
//! lives outside this crate. What is verified here is the discrete logic
//! that drives it: scene-name parsing, the recursion-budget policy of the
//! radiance integrator, row-major assembly of the pixel buffer, and the
//! PNG encoding boundary with its round-trip guarantee.

pub mod image;
pub mod material;
pub mod render;
pub mod scene;
