//! The function-compilation pipeline of a WebAssembly-to-native compiler
//! backend: normalizing what the code generator emits, re-assembling the
//! per-function artifacts by index, and merging the unwind frame table.

pub mod artifacts;
pub mod backend;
pub mod compiler;
pub mod error;
pub mod laws;
pub mod module;
pub mod normalize;
pub mod sections;
pub mod slots;
pub mod state;
pub mod unwind;
