//! The verified core of a small planet renderer: the sphere mesh, the uniform
//! block that the shading program reads, the model of the surface-dependent
//! GPU resources, the per-frame update and the recorded render pass, and the
//! keyboard handling. Whatever touches a window or a device is left to the
//! caller, which performs what this crate decides.

pub mod context;
pub mod frame;
pub mod input;
pub mod mesh;
pub mod pipeline;
pub mod state;
pub mod surface;
pub mod uniform;
pub mod wire;
