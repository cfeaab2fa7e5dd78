//! Completion bridge for a callback-based foreign container runtime.
//!
//! A caller opens a pending call, hands the foreign side an opaque numeric
//! handle together with a completion entry, and is resolved exactly once
//! when the completion delivers a raw byte payload for that handle. The
//! payload is decoded as UTF-8 text, with a fixed sentinel standing in for
//! undecodable bytes. A command facade maps each named operation to its own
//! foreign entry point and calling convention.

pub mod decode;
pub mod facade;
pub mod pending;
