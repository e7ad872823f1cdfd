//! Core of a retained-mode, immediate-style GPU UI runtime: areas (stable
//! handles into per-draw-call instance storage), a shader-DSL-to-Metal-SL
//! transpiler, draw-list storage and the per-frame command planner.
//!
//! Every scalar that feeds the GPU is carried as the bit pattern of an
//! IEEE-754 single-precision number (`u32`); the few arithmetic steps the
//! runtime itself performs on such scalars go through `scalar`.

pub mod area;
pub mod buffer;
pub mod cx;
pub mod events;
pub mod exec;
pub mod math;
pub mod mtl;
pub mod quad;
pub mod scalar;
pub mod shader;
pub mod strutil;
pub mod text;
