//! The verified core of a bridge that runs a Bevy app inside a Godot node.
//!
//! - `erased_gd`: handles that name Godot objects by instance id, with or
//!   without a class attached;
//! - `app`: the Bevy app the Godot node drives, and when a frame runs it;
//! - `delta_timer`: a per-system clock that returns the time since its
//!   previous invocation;
//! - `components`: which marked child entities hand their components to the
//!   entity of their Godot parent.
pub mod app;
pub mod components;
pub mod delta_timer;
pub mod erased_gd;
pub mod prelude;

pub use app::BevyApp;
