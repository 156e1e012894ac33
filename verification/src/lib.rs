//! A verified core for a single-polygon GPU render demo.
//!
//! The library holds the parts with real design content: the procedural
//! mesh generator, the vertex layout descriptor, the background-color
//! interaction state, the render-loop controller state machine, and the
//! presentation-surface lifecycle model. The host program (under `app/`)
//! owns the window, the GPU device and the event loop, and drives the
//! controller with plain-value events.

pub mod color;
pub mod controller;
pub mod layout;
pub mod mesh;
pub mod surface;
