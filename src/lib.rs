//! Rendering logic for a 160x144, 2-bit-per-pixel console display with a
//! glow effect: the packing of the display into the buffer the shaders read,
//! the ping-pong blur schedule, the passes of a frame and how they bind the
//! GPU resources, and the renderer's resize and render state machine. The
//! device that carries the plans out is driven by the caller.

pub mod display;
pub mod frame;
pub mod graph;
pub mod laws;
pub mod state;
pub mod surface;
