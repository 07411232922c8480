//! A verified line-coding engine.
//!
//! The engine turns a finite sequence of bits into a sequence of
//! constant-level signal segments, following the classic telecom line
//! codes (NRZ-L, NRZ-I, RZ, Manchester, AMI, MLT-3, HDB3). Times are
//! measured in integer ticks of the configured bit period and levels in
//! integer voltage steps, so every waveform is computed exactly and each
//! coder's output is pinned down by its contract.

pub mod coder;
pub mod tui;
pub mod util;
