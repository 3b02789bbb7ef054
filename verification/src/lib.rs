//! A canvas-backed window for a browser-style document.
//!
//! The crate binds a windowing abstraction onto a host document: it models
//! the document's element tree, event-listener registry and frame scheduler
//! as explicit state, and verifies the two parts with real correctness
//! hazards against it:
//!
//! * the event-listener lifecycle: a callback registered with the host is
//!   deregistered exactly once, no later than when its owner goes away, and
//!   no event is delivered through a released registration;
//! * the window/canvas synchronizer: size, title, position and cursor
//!   mirroring, including the cached previous cursor that `hide_cursor`
//!   restores.
//!
//! The real browser performs the document mutations; the adapter that talks
//! to it lives outside the verified library and replays the model's
//! transitions one for one.

pub mod cursor;
pub mod dpi;
pub mod event;
pub mod event_handle;
pub mod event_loop;
pub mod host;
pub mod monitor;
pub mod window;
