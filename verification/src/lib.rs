//! Glue between a windowing toolkit's OpenGL context management and a
//! rendering backend abstraction.
//!
//! The crate creates a window with an OpenGL-capable surface, creates an
//! OpenGL context tied to that window, and exposes the minimal capability
//! set a rendering abstraction needs to drive drawing commands: buffer
//! swap, context activation, proc-address resolution and framebuffer size
//! queries.
//!
//! The toolkit and the OpenGL driver themselves live outside this crate.
//! They are represented here by an explicit [`platform::Platform`] value
//! that every operation reads or updates, so that the glue's behaviour is
//! fully specified: a driver that binds the same operations to a native
//! toolkit performs the platform's side effects for real and keeps the
//! plain values it hands back.

pub mod backend;
pub mod errors;
pub mod facade;
pub mod laws;
pub mod platform;
pub mod render;
