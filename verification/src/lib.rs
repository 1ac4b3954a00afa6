//! Scene bookkeeping, input handling and frame storage of a small ray tracer.
//!
//! The modules here hold the integer, identifier and collection logic of the
//! renderer: the authoring scene with its change history, the compilation of
//! that scene into a render-ready form, the frame buffer and the input state
//! machine. Geometry payloads (vertices, materials, transforms) are generic.

pub mod ids;
pub mod error;
pub mod input;
pub mod render;
pub mod asset;
pub mod scene;
pub mod runtime;
pub mod text;
pub mod graph;
pub mod object;
pub mod platform;
