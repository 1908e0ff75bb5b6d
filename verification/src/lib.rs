//! Verified core of a small GPU-rendered triangle demo.
//!
//! The library holds everything that can be reasoned about without a live
//! host page: the translation state driven by pointer and key input, the
//! fixed triangle geometry, the embedded shader sources, the construction
//! state machine with its error taxonomy, and the per-frame command
//! sequence the renderer must issue. A thin unverified layer translates
//! these plain values into calls on the host's GPU context.

pub mod app;
pub mod construction;
pub mod error;
pub mod geometry;
pub mod render;
pub mod shader;
pub mod translation;
