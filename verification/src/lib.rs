//! Control, scheduling and streaming logic of a granular sampler.

pub mod grains;
pub mod control;
pub mod buffers;
pub mod stream;
pub mod reporting;
pub mod engine;
pub mod sample_file;
pub mod osc_out;
pub mod wave;
