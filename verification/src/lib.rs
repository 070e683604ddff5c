//! Terminal event normalisation and drawing primitives.
//!
//! The crate turns platform input records (keys, mouse, focus, paste, resize)
//! into a small closed event vocabulary, lays that vocabulary out as tagged
//! terms for a message-passing consumer, drives the read/decode/forward loop
//! of a listener as a state machine, and plans batched drawing. Every function
//! carries a contract over a mathematical model of the data it touches.

pub mod event;
pub mod raw;
pub mod decode;
pub mod text;
pub mod wire;
pub mod listener;
pub mod output;
pub mod batch;
pub mod surface;
