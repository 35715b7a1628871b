//! An interactive screen color picker, modeled after a magnifying loupe
//! overlay: a session samples the pixel under the pointer, magnifies the
//! surrounding screen region, and ends with either a picked color or a
//! cancellation.
//!
//! This crate holds the verified logic of that interaction: the color
//! model, the zoom controller and its derived geometry, the per-frame
//! layout of the overlay, the session state machine, and the resource
//! lifecycle discipline. The platform layer (window creation, screen
//! capture, drawing, the native event loop) lives outside and drives
//! these functions with plain values.

pub mod colors;
pub mod constants;
pub mod layout;
pub mod lifecycle;
pub mod session;
pub mod zoom;

pub use colors::RgbColor;
