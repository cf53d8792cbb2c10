//! Colour-space sampling and coordinate-mapping engine.
//!
//! The crate builds point, edge, face and volume topologies over a sampled
//! grid of three-channel colour coordinates.  Every numeric value is carried
//! as the bit pattern of an IEEE 754 single-precision number (see
//! [`float_bits`]), which keeps vertex identity bit-exact and lets the
//! topology and deduplication logic be verified while the floating-point
//! primitives themselves stay behind a small trusted boundary.

pub mod builder;
pub mod channel;
pub mod color;
pub mod float_bits;
pub mod registry;
pub mod settings;
pub mod topology;
