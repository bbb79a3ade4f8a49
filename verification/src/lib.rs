//! Frame handoff core of a screen-mirroring overlay.
//!
//! A capture callback (the producer) and a render loop (the consumer) meet in
//! one shared frame slot. This crate holds the decisions of both sides as
//! plain, verified state machines; the operating system, the GPU and the
//! window system stay with the caller, which does what the state machines
//! ask for and reports back.
//!
//! - [`slot`]: the shared frame slot, with its version counter.
//! - [`capture`]: the capture side, for frames of bytes and for frames in a
//!   shared texture.
//! - [`render`]: the render side, with redraw ticks and resizes.
//! - [`handler`]: the overlay window's event handler.
//! - [`keyed_mutex`]: the two-key handshake over a shared texture.
//! - [`startup`]: choices made once, while the overlay starts.
//! - [`geometry`]: frame sizes.
//! - [`history`] and [`pipeline`]: what holds after any sequence of
//!   operations on a slot, and after any interleaving of the two sides.

pub mod geometry;
pub mod slot;
pub mod history;
pub mod keyed_mutex;
pub mod capture;
pub mod render;
pub mod handler;
pub mod startup;
pub mod pipeline;

pub use crate::capture::Capturer;
pub use crate::handler::AppHandler;
pub use crate::slot::{SharedData, SharedHandle};
