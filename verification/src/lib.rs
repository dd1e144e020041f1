//! Typed topic multiplexing over a publish/subscribe socket pair.
//!
//! The crate holds the framing rules of the two endpoints and the discipline
//! of their reusable buffers. It performs no socket operation itself: every
//! function works on the bytes that were, or are about to be, handed to the
//! transport.

pub mod error;
pub mod wire;
pub mod socket;
pub mod guarantees;
