//! A verified rendering core for a textured, lit globe with an atmosphere
//! shell.
//!
//! The core decides what the graphics driver is asked to do and in which
//! order; it never talks to a driver itself. Its functions record commands
//! into a [`gl::Gl`] command list, which a host carries out, and they name
//! the few facts they need back from the driver: whether a shader stage
//! compiled, whether a program linked, and where a program keeps a
//! variable. Real numbers pass through the core untouched, as bit patterns;
//! the host computes with them.

pub mod camera;
pub mod codes;
pub mod geometry;
pub mod gl;
pub mod globe;
pub mod lists;
pub mod names;
pub mod renderable;
pub mod renderer;
pub mod scalar;
pub mod shader;
pub mod state;
pub mod texture;
pub mod transform;
