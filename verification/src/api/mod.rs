//! The abstract capabilities and the backends that realise them.

pub mod directx;
pub mod traits;
pub mod vulkan;
