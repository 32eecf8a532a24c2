//! A color-quantization and vector-field hatching engine for pen plotters.
//!
//! The engine turns a raster image into layered drawing instructions: each
//! rectangular block of the image is reduced to one representative color,
//! matched against a fixed palette of gel-pen blends in a perceptual color
//! space, assigned a dilution ratio that says how much of the block stays
//! blank, and filled with parallel hatch strokes oriented by a seeded noise
//! field and clipped to the block's bounding box.
//!
//! All arithmetic is exact fixed-point integer arithmetic, so every stage of
//! the engine is deterministic and carries a full functional contract.

pub mod colormapper;
pub mod dilution;
pub mod field;
pub mod geometry;
pub mod hatch;
pub mod render;
pub mod sampler;
