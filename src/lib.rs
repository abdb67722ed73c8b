//! A retained-mode triangle pipeline for OpenGL, described as data.
//!
//! The library decides every call that reaches the driver and hands it out as a
//! [`command::GlCommand`]; the program that owns the graphics context runs those
//! commands in order and reports back what only the driver knows (object names,
//! compile and link outcomes, uniform locations).
//!
//! - [`data`]: the attribute codecs and their byte encodings.
//! - [`layout`]: tightly packed vertex layouts derived from a record's fields.
//! - [`buffer`]: owned buffer and vertex array objects.
//! - [`vertex`]: the vertex record and triangle batches.
//! - [`resources`] and [`shader`]: shader text, program loading, uniform
//!   lookup and uniform upload.
//! - [`draw`], [`object_draw`], [`spotlight_draw`], [`triangle`]: the draw
//!   orchestrators.
//! - [`controls`], [`time`], [`game`]: held keys, fixed ticks and what the
//!   keys decide each frame.

pub mod command;
pub mod data;
pub mod layout;
pub mod buffer;
pub mod vertex;
pub mod resources;
pub mod shader;
pub mod draw;
pub mod object_draw;
pub mod spotlight_draw;
pub mod triangle;
pub mod controls;
pub mod time;
pub mod game;
