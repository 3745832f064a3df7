//! Frame orchestration and GPU synchronization engine for a real-time
//! procedural-image renderer: per window, a compute stage evaluates a
//! time-varying image off-screen and a composite stage draws it onto the
//! window's presentable image, with cross-queue ordering carried purely by
//! future chaining. Windows open, resize and close at arbitrary times.
//!
//! GPU work is modeled as a log of submissions on a device timeline; the
//! process around the engine owns the actual device, performs the platform
//! and device calls, and drives this engine for every decision and for the
//! exact commands each submission carries.

pub mod application;
pub mod gpu_sync;
pub mod render_pass;
pub mod signed_distance_function_renderer;
pub mod user_io;
