//! The verified core of a real-time waveform viewer.
//!
//! A capture path appends incoming audio samples to a bounded history, a render
//! path turns a snapshot of that history into the vertices of a line, and a
//! small state machine tracks whether the audio stream is playing or paused.
//! The sample type is a parameter throughout: the library stores and moves
//! samples and never inspects them.

pub mod capture;
pub mod render;
pub mod ring_buffer;
pub mod stream;
