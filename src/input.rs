use vstd::prelude::*;
use vstd::string::StringExecFns;

use crate::block::Block;
use crate::level::is_level;
use crate::node::SignalNode;

verus! {

/// Source temperature assumed when an input names none: 270 K, in millikelvin.
pub const DEFAULT_SOURCE_TEMPERATURE_MK: u64 = 270_000;

/// The signal entering a chain.
#[derive(Clone, Debug, PartialEq)]
pub struct Input {
    /// Centre frequency in hertz.
    pub frequency_hz: u64,
    /// Signal bandwidth in hertz.
    pub bandwidth_hz: u64,
    /// Signal level in thousandths of a dBm.
    pub power_mdbm: i64,
    /// Source noise temperature in millikelvin, if known.
    pub noise_temperature_mk: Option<u64>,
}

impl Input {
    /// The signal level lies in the supported range.
    pub open spec fn wf(&self) -> bool {
        is_level(self.power_mdbm as int)
    }

    /// An input with the given fields.
    pub fn new(
        frequency_hz: u64,
        bandwidth_hz: u64,
        power_mdbm: i64,
        noise_temperature_mk: Option<u64>,
    ) -> (r: Input)
        ensures
            r.frequency_hz == frequency_hz,
            r.bandwidth_hz == bandwidth_hz,
            r.power_mdbm == power_mdbm,
            r.noise_temperature_mk == noise_temperature_mk,
    {
        Input { frequency_hz, bandwidth_hz, power_mdbm, noise_temperature_mk }
    }

    /// Source noise temperature: the given one, else 270 K.
    pub fn source_noise_temperature_mk(&self) -> (r: u64)
        ensures
            r == match self.noise_temperature_mk {
                Some(t) => t,
                None => DEFAULT_SOURCE_TEMPERATURE_MK,
            },
    {
        match self.noise_temperature_mk {
            Some(t) => t,
            None => DEFAULT_SOURCE_TEMPERATURE_MK,
        }
    }

    /// First stage of a chain: this input through `block`.
    ///
    /// The node's cumulative gain is the stage's actual, possibly compressed,
    /// gain; frequency and bandwidth pass through unchanged.
    pub fn cascade_block(&self, block: &Block) -> (r: SignalNode)
        requires
            self.wf(),
            block.wf(),
        ensures
            r.name@ == block.name@ + " Output"@,
            r.signal_frequency_hz == self.frequency_hz,
            r.signal_bandwidth_hz == self.bandwidth_hz,
            r.signal_power_mdbm == block.spec_output_power(self.power_mdbm as int),
            r.cumulative_gain_mdb == block.spec_power_gain(self.power_mdbm as int),
            r.output_p1db_mdbm == block.output_p1db_mdbm,
    {
        let output_power = block.output_power(self.power_mdbm);
        SignalNode {
            name: block.name.clone().concat(" Output"),
            signal_frequency_hz: self.frequency_hz,
            signal_bandwidth_hz: self.bandwidth_hz,
            signal_power_mdbm: output_power,
            cumulative_gain_mdb: output_power - self.power_mdbm,
            output_p1db_mdbm: block.output_p1db_mdbm,
        }
    }
}

impl Default for Input {
    /// A 0 dBm carrier at 0 Hz in a 100 Hz bandwidth with no source temperature.
    fn default() -> (r: Input)
        ensures
            r.frequency_hz == 0,
            r.bandwidth_hz == 100,
            r.power_mdbm == 0,
            r.noise_temperature_mk.is_none(),
    {
        Input { frequency_hz: 0, bandwidth_hz: 100, power_mdbm: 0, noise_temperature_mk: None }
    }
}

} // verus!
