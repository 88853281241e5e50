//! Turns the structural events of a WebAssembly module carrying a precompiled
//! native object into C glue declarations and the extracted object bytes.
pub mod abi;
pub mod builder;
pub mod memory;
pub mod text;
pub mod types;
