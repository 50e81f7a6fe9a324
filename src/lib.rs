//! Cascaded RF signal-chain analysis in fixed-point decibels.
//!
//! Every level (dBm) and every gain (dB) is an integer count of thousandths of
//! a decibel. In that representation the decibel-domain behaviour of a chain
//! (gains, the compression clamp, third-order intermodulation, AM-PM ramps,
//! sweeps and the stage-by-stage cascade) is exact and proved here.
pub mod level;
pub mod block;
pub mod sweep;
pub mod input;
pub mod node;
pub mod cascade;
pub mod amplifier_model;
pub mod cli;

pub use amplifier_model::{AmplifierModel, AmplifierModelBuilder, AmplifierPoint};
pub use block::{Block, Imd3Point};
pub use cascade::{
    cascade_am_am_sweep, cascade_gain_compression_sweep, cascade_vector_return_output,
    cascade_vector_return_vector,
};
pub use cli::Command;
pub use input::Input;
pub use node::{DynamicRange, SignalNode};
