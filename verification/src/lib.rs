//! Strip-texture cubemap material adapter.
//!
//! A panoramic strip texture — six equal square faces stacked vertically in
//! one 2D image — is reinterpreted in place as a six-layer cube texture and
//! bound as an environment material. The adapter owns the material's logical
//! state (source image reference, direction vector, readiness flag) and, once
//! the source image has been validated and reinterpreted, produces the three
//! GPU-bindable resources a shading stage consumes: a uniform buffer holding
//! the direction vector, a cube view over the texture, and a sampler.
//!
//! The two phases run once per tick, readiness before preparation, driven by
//! an external loop. Both express "not ready yet" by a retry signal rather
//! than by blocking: an image still loading, or a GPU upload still pending,
//! is a recoverable state, not an error.

pub mod image;
pub mod laws;
pub mod material;
pub mod prepare;
pub mod readiness;
pub mod registry;
pub mod tick;
