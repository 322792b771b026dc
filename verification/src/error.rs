//! Errors of the core module.

use vstd::prelude::*;

verus! {

/// Error in the core module.
#[derive(Debug, Clone, PartialEq, Eq)]
pub enum CoreError {
    /// Failed creating a context, with the reason.
    ContextCreation(String),
    /// The graphics context reported an error, with its description.
    ContextError(String),
    /// Failed compiling a shader: the shader type, the compiler log and the source.
    ShaderCompilation(String, String, String),
    /// Failed linking a shader program, with the linker log.
    ShaderLink(String),
    /// A render target is incomplete, with the reason.
    RenderTargetCreation(String),
    /// The number of vertices of a mesh is not divisible by three.
    InvalidNumberOfVertices(usize),
    /// A vertex data buffer of a mesh is too short: its name, the number of vertices
    /// the mesh needs and the length of the buffer.
    InvalidBufferLength(String, usize, usize),
    /// Tangents need normals and uv coordinates.
    FailedComputingTangents,
    /// A transformation could not be inverted.
    FailedInvertingTransformationMatrix,
}

/// Error in some part of the render engine.
#[derive(Debug)]
pub enum Error {
    /// An error in a shader program.
    ProgramError { message: String },
    /// An error when using a render target.
    RenderTargetError { message: String },
    /// An error when using a texture.
    TextureError { message: String },
    /// An error when using a buffer.
    BufferError { message: String },
    /// An error when using a mesh.
    MeshError { message: String },
    /// An error when using a camera.
    CameraError { message: String },
}

impl Error {
    /// The message of the error, whatever its kind.
    pub fn message(&self) -> (r: &String)
        ensures
            r == match self {
                Error::ProgramError { message } => message,
                Error::RenderTargetError { message } => message,
                Error::TextureError { message } => message,
                Error::BufferError { message } => message,
                Error::MeshError { message } => message,
                Error::CameraError { message } => message,
            },
    {
        match self {
            Error::ProgramError { message } => message,
            Error::RenderTargetError { message } => message,
            Error::TextureError { message } => message,
            Error::BufferError { message } => message,
            Error::MeshError { message } => message,
            Error::CameraError { message } => message,
        }
    }
}

} // verus!
