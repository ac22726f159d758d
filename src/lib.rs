//! Owned native windows whose lifetime is independent of the calling thread.
//!
//! The library holds the decisions of the window-creation protocol: the
//! process-wide class registry, the single-assignment response slot of the
//! creation handshake, the state machine of the per-window thread, the
//! destroy-guard filter and the lifecycle of a window's destroy flag.

pub mod error;
pub mod ffi;
pub mod guard;
pub mod lifecycle;
pub mod registry;
pub mod slot;
pub mod sync;
pub mod wide;
pub mod window;
pub mod worker;
