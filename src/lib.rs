//! Generates TypeScript bindings for Node.js from a language-neutral
//! description of a native library's interface.

pub mod docs;
pub mod ffi;
pub mod naming;
pub mod resolve;
pub mod text;
pub mod types;
pub mod emit;
pub mod generator;
