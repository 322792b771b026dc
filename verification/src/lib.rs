//! Verified core of a small 3D rendering toolkit: render state decisions, index
//! buffers, mesh topology, uniform block layout and the other integer logic that
//! sits between an application and the OpenGL/WebGL graphics API.

pub mod command;
pub mod glenum;
pub mod render_states;
pub mod scissor_box;
pub mod cpu_element_buffer;
pub mod error;
pub mod cpu_mesh;
pub mod object_cpu_mesh;
pub mod state;
pub mod static_mesh;
pub mod renderable;
pub mod camerahandler;
pub mod uniform_buffer;
pub mod render_target;
pub mod color;
pub mod data_type;
pub mod control;
pub mod ogl;
pub mod context;
pub mod program;
pub mod buffer;
pub mod material;
pub mod cache;
pub mod instanced;
pub mod texture;
