//! Verified core of a browser paddleball renderer.
//!
//! The crate holds every decision the renderer makes, stated over plain
//! values: what the hosting page has signalled, how large the drawing surface
//! is, which surface format is preferred, what the scene contains, and when
//! the frame loop keeps running. Driving the GPU and the browser is left to
//! the caller.

pub mod frame_loop;
pub mod host;
pub mod render;
pub mod scene;
pub mod surface;
