//! A verified model of a small real-time 3D scene renderer.
//!
//! The crate holds everything the renderer decides: how the surface follows
//! the window, which records are uploaded for a loaded model, which instance
//! transform each model gets and which commands a frame records, in order.
//! Single-precision numbers are carried as their IEEE-754 bit patterns, so
//! that every value is an integer and every contract is exact. Talking to
//! the graphics device is left to the caller, who performs the descriptions
//! and command lists produced here.

pub mod binding;
pub mod buffer;
pub mod camera;
pub mod color;
pub mod command;
pub mod context;
pub mod decode;
pub mod frame;
pub mod instance;
pub mod laws;
pub mod light;
pub mod mesh;
pub mod model;
pub mod order;
pub mod pipeline;
pub mod surface;
pub mod texture;
pub mod vertex;
pub mod world;
