//! Hot-reloadable shader surface: the decisions of the render engine,
//! stated and proved over plain values.
//!
//! The engine in `stoy` keeps the installed pipeline, the camera, the uniform
//! data and the input accumulator. The host around it owns the window, the
//! GPU and the shader file; it reads, examines and builds what the engine
//! asks for, and reports back.

pub mod camera;
pub mod channel;
pub mod clock;
pub mod debounce;
pub mod input;
pub mod pass;
pub mod shader;
pub mod stoy;
pub mod surface;
pub mod uniforms;
