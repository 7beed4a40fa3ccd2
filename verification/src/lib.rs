//! Exterior status lights and radio-receiver decoding for a small vehicle.
//!
//! The crate has three parts: a frame model that serializes logical color
//! values for four light fixtures into the 32-bit words a timing encoder
//! consumes, the clock-divisor arithmetic that paces that encoder, and a
//! model of the interrupt-driven pulse decoder with its freshness watchdog
//! and one-time hardware-handle handoff.

pub mod encoder;
pub mod lights;
pub mod receiver;
