//! Lifecycle model for a small OpenGL ES demo.
//!
//! The demo opens a window, compiles one shader program, uploads one
//! triangle mesh, and redraws it on request.  The delicate part is the
//! resource lifecycle: on mobile platforms the OS revokes the graphics
//! context on suspend and grants a fresh one on resume, so the program and
//! the mesh must be torn down before the context disappears and rebuilt
//! from scratch afterwards, and no draw may happen in between.
//!
//! This crate verifies exactly that part.  [`lifecycle::App`] is the state
//! machine that decides, for each window-system event, which graphics
//! actions to perform next; [`resources`] models which handles each action
//! needs and proves that the emitted actions never touch an absent handle.
//! The unverified driver around the library owns the real window and
//! context and merely carries the actions out in order.

pub mod lifecycle;
pub mod resources;
