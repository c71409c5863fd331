//! Pipelines and what they are made of.

pub mod graphics;
pub mod input_assembly;
pub mod input_state;
pub mod layout;
pub mod rasterization;
pub mod render_pass;
