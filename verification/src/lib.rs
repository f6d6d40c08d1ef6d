//! Decision engine for a scroll-to-top / scroll-to-target button widget.
//!
//! The engine is pure: a host adapter feeds it scroll telemetry and executes
//! the instructions it returns. Visibility of the button, the scroll
//! destination, and the ordering of the click-time notifications are all
//! computed here and carry proved contracts; reading the real scroll position
//! and moving the real viewport are the host's job.

pub mod common;
pub mod engine;
pub mod gesture;

pub use common::Behavior;
