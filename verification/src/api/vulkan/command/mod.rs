//! Command pools and the buffers allocated from them.

pub mod buffer;
pub mod pool;
