//! The core of a frame-synchronous 3D render loop: input and window state,
//! a free-moving camera with its controller, and the brushes that fill the
//! uniform storage for each draw.
//!
//! Everything here works on plain values. Lengths, angles and times are
//! fixed-point integers; data that only travels to the GPU is kept as the
//! 32-bit words the GPU reads.

pub mod input;
pub mod context;
pub mod system;
pub mod sysevent;

pub mod camera;
pub mod controller;
pub mod words;
pub mod light;
pub mod texture;
pub mod render;
pub mod app;
pub mod frame;
