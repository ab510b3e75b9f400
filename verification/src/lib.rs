//! A small 3D rendering scaffold: what a frame holds and when its resources may
//! be used again.
//!
//! - [`render`] holds the graphics context: the queue of meshes to draw, the
//!   frames in flight, the uniform slots they hold, and the decisions taken
//!   while the context is set up.
//! - [`application`] drives the context through one frame after another.
//! - [`event`] is what an embedding program supplies.
//! - [`time`] times the frames.
//!
//! The library never talks to a device and never computes with fractions: the
//! caller does both and hands over plain values.

pub mod application;
pub mod event;
pub mod render;
pub mod time;
