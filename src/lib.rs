//! Turns a still image into a one-shot audio signal, plays it back through a
//! transport state machine that drives a synchronized playhead, and exports
//! the signal as 16-bit PCM.
//!
//! Amplitudes are exact fixed-point values: an integer sample `n` stands for
//! `n / SAMPLE_SCALE`, where `SAMPLE_SCALE` is the brightness sum of a white
//! pixel. Durations and rates are exact ratios of integers.
pub mod buffer;
pub mod export;
pub mod signal;
pub mod transport;
