//! The verified core of a small renderer that shows one coloured quad until
//! its window is closed.
//!
//! Everything that talks to the window system or to the graphics driver is
//! left to the caller. This crate holds what the caller has to decide between
//! those calls: when the frame loop stops and what a frame consists of, what
//! a shader compile or link status means, how the vertex and index tables are
//! laid out, and which handles are released at the end.

pub mod frame;
pub mod geometry;
pub mod resources;
pub mod shader;
