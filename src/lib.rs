//! Four-byte chunk type codes of a length-prefixed binary container format.

pub mod chunk_type;

pub use chunk_type::{ChunkType, ChunkTypeError};
