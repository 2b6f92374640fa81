//! A backend-agnostic rendering interface with an OpenGL backend: attribute
//! streams, vertex buffer builders, shader programs, uniforms, textures and
//! frames. Every operation is decided here and returned as the list of driver
//! calls (`Action`) that the caller performs on a live context; handles and
//! locations that only the driver can produce are passed in.

pub mod action;
pub mod backend;
pub mod opengl;

pub use action::Action;
pub use backend::{ColorFormat, DrawType, InputBuffer, Uniform, Uniforms};
pub use opengl::OpenGL;
