//! A typed facade over the configuration of an opened native audio codec
//! context: scalar accessors, sample-format and channel-layout translation
//! across native library generations, and the outcome of the single-call
//! decode entry point.

pub mod numeric;
pub mod generation;
pub mod error;
pub mod format;
pub mod audio_service;
pub mod channel_layout;
pub mod context;
pub mod audio;
pub mod round_trip;
