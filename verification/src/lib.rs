//! A verified model of a media playback engine: stream selection, bounded
//! frame buffers with backpressure, the decode-loop seek protocol, and the
//! audio/video playback state machines sharing one play clock.
//!
//! The engine's decisions are verified here; the surrounding application
//! performs the container, decoder and rendering calls and feeds their
//! results back as plain values.

pub mod config;
pub mod decoder;
pub mod entity;
pub mod error;
pub mod filemanager;
pub mod frame_buffer;
pub mod global;
pub mod log_builder;
pub mod player;
pub mod pixel_format;
pub mod sample_format;
