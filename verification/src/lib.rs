//! Verified core of a set of browser overlay widgets (images, videos and procedural
//! graphics painted over a text-cell grid by canvas or WebGL2 backends).
//!
//! The library holds the state machines and decision rules of the widgets: draw
//! queues, image and texture caches, the per-id video instance registry, render-hook
//! routing and the cell geometry.  Browser calls, floating-point placement and the
//! shared-ownership plumbing live in the application layer around it.

pub mod draw_queue;
pub mod error;
pub mod geometry;
pub mod gl;
pub mod hooks;
pub mod image;
pub mod string_map;
pub mod video;
