//! Surface lifecycle management for a GPU-backed window.
//!
//! The library holds the decision logic of a presentation backend: how the
//! surface configuration is computed from the adapter's capabilities, how it
//! reacts to resize requests, and how frame acquisition recovers from
//! transient surface failures. The surrounding application owns the window
//! and GPU handles, performs each action this library decides on, and feeds
//! the outcome back in.

pub mod backend;
pub mod config;
pub mod gpu;
