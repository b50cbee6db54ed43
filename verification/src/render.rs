//! What describes a render pipeline to the graphics backend.

pub mod pipeline;
pub mod pipeline_layout;
pub mod resource_name;
pub mod shader;
pub mod state_descriptors;
pub mod texture;
pub mod vertex_buffer_descriptor;
