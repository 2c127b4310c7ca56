//! Safe, verified shapes for multi-channel planar audio buffers exchanged
//! with a host audio pipeline.
//!
//! The host hands out two things: an opaque audio-output handle that can be
//! queried for a sample rate and a channel count, and a fixed-layout audio
//! buffer record holding per-channel sample planes, a frame count and a
//! timestamp. This crate models both as plain values — a plane is a sequence
//! of raw 32-bit sample words that the core never interprets — and proves
//! the bounds checks, shape invariants and (de)serialization between the
//! owned buffer form and the record form.

pub mod context;
pub mod data;
pub mod info;
pub mod record;
