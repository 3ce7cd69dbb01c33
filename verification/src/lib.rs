//! Frame-by-frame bridge between an immediate-mode UI toolkit and a
//! retained-mode GPU backend.
//!
//! The crate holds the bookkeeping that keeps the two sides in step: the
//! conversion of window events into toolkit input, the begin/end frame
//! protocol, the registry of textures and the construction of clipped draw
//! commands.  Everything here works on plain values; the toolkit, the window
//! system and the GPU are driven by the caller from what these functions
//! return.
//!
//! - [`scale`] and [`clip`]: layout units, physical pixels and scissors.
//! - [`input`] and [`frame`]: the input adapter and the frame cycle.
//! - [`texture`], [`registry`] and [`decode`]: texture deltas, the registry
//!   that follows them, and images registered by the application.
//! - [`commands`]: the draw commands of a frame.
//! - [`integration`]: all of it behind one object.

pub mod clip;
pub mod commands;
pub mod decode;
pub mod frame;
pub mod input;
pub mod integration;
pub mod registry;
pub mod scale;
pub mod texture;
