//! Native-side controller of a small always-on-top desktop overlay.
//!
//! The crate holds the decisions of the overlay's window and tray management:
//! how a display's physical size becomes logical units, where the overlay is
//! docked at startup, what a tray menu activation leads to, how visibility is
//! toggled, and which tray icon is used. Every function takes plain values
//! and returns plain values; the host performs the effects.

pub mod geometry;
pub mod icon;
pub mod placement;
pub mod text;
pub mod tray;
pub mod units;
pub mod window;
