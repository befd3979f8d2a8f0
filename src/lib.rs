//! Camera, projection, frame-loop and render-pass logic of a free-fly 3D scene renderer,
//! in fixed-point integers: angles in ten-thousandths of a degree, lengths in millionths
//! of a world unit, time in microseconds.

pub mod camera;
pub mod frame;
pub mod input;
pub mod model;
pub mod projection;
pub mod render;
pub mod resources;
