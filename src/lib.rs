//! Real-time audio graph runtime: sample FIFOs, node lifecycle and wiring,
//! device configuration negotiation, sample format conversion, channel
//! remapping for the resampling stage, the output sink fill and the mixer.
//!
//! Samples are held as 32-bit fixed-point values: the full `i32` range maps
//! onto `[-1.0, +1.0)`, so a sample `s` stands for `s / 2^31`.
pub mod convert;
pub mod fifo;
pub mod mixer;
pub mod negotiate;
pub mod node;
pub mod resample;
pub mod sink;
pub mod unit;
pub mod worker;
