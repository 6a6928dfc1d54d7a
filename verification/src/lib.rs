//! Per-frame camera and ambient-light gathering for a render pipeline.
//!
//! Given a read-only snapshot of an entity-component world, the gatherers
//! select the active camera and the ambient light color and pack them into
//! plain, GPU-upload-ready values. Every float is carried as its 32-bit
//! IEEE 754 bit pattern in a `u32`; the caller performs the two
//! floating-point steps that surround the gatherers — narrowing world
//! scalars to 32-bit floats when it builds the snapshot, and inverting the
//! selected transform to obtain the view matrix.

pub mod gather;
pub mod laws;
pub mod mat;
pub mod std140;
pub mod world;
