//! Core of a real-time slideshow renderer: scenes that draw textured quads,
//! a time-driven animation clock for animated image sequences, and a
//! transition controller that cross-dissolves between an outgoing and an
//! incoming scene.
//!
//! The library is the decision-making half of the renderer. Every frame it
//! turns the current state (active scene, optional transition, the clock)
//! and the current time into a plain description of the render passes and
//! draw calls to issue. GPU devices, windowing and image decoding live
//! outside; they consume the pass descriptions and feed back plain values
//! (timestamps, resource ids, decoded frame delays).
//!
//! Units are integral throughout: timestamps and durations in milliseconds,
//! quad coordinates in thousandths of a normalized-device-coordinate unit,
//! colors and blend factors in thousandths (permille).
#![verifier::loop_isolation(false)]

pub mod event_loop;
pub mod primitives;
pub mod renderer;
