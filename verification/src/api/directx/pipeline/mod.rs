//! Pipelines and what they are made of.

pub mod graphics;
pub mod layout;
pub mod render_pass;
pub mod shader;
