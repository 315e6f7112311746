//! Verified core of a system-tray event bridge.
//!
//! The library covers the logic of the bridge: provisioning a fixed-size
//! RGBA tray icon with a procedural fallback, translating raw tray events
//! into a small action vocabulary, a FIFO queue that marshals those actions
//! into the single-threaded UI loop, and the shared window-visibility state
//! machine that every actor (tray click, minimize, restore, close
//! interception) drives through one serialized toggle.
//!
//! The platform shell around it (native tray registration, the UI event
//! loop, threads and file reads) lives outside the library and hands it
//! plain values.

pub mod bridge;
pub mod email;
pub mod events;
pub mod icon;
pub mod queue;
pub mod shared;
pub mod tray;
