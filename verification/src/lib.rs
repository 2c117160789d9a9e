//! Offscreen single-triangle rendering with a mip-level-of-detail query
//! and host readback: the verified core of the resource lifecycle.
//!
//! The library derives and validates every GPU-side parameter — mip
//! chain lengths, byte layout of the staging copy, binding layouts,
//! pipeline compatibility — records the frame's command sequence as a
//! checked state machine, and drives the single-shot readback
//! handshake. An unverified shell performs the actual device calls and
//! file output with the values this library hands it.

pub mod commands;
pub mod errors;
pub mod frame;
pub mod layout;
pub mod mip;
pub mod pipeline;
pub mod readback;
pub mod resources;
pub mod signal;
