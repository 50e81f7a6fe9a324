use vstd::prelude::*;
use vstd::string::StringExecFns;

use crate::block::Block;
use crate::level::{is_opt_level, is_signal};

verus! {

/// The state of a chain at the output of one stage.
#[derive(Debug, PartialEq)]
pub struct SignalNode {
    /// "<block name> Output".
    pub name: String,
    /// Carrier frequency in hertz, passed through from the input.
    pub signal_frequency_hz: u64,
    /// Bandwidth in hertz, passed through from the input.
    pub signal_bandwidth_hz: u64,
    /// Signal level in thousandths of a dBm.
    pub signal_power_mdbm: i64,
    /// Sum of the actual gains of all stages so far, in thousandths of a dB.
    pub cumulative_gain_mdb: i64,
    /// Output compression point of the stage that produced this node.
    pub output_p1db_mdbm: Option<i64>,
}

impl SignalNode {
    /// Signal level and cumulative gain lie in the range a further stage
    /// accepts, and the compression point in the parameter range.
    pub open spec fn wf(&self) -> bool {
        &&& is_signal(self.signal_power_mdbm as int)
        &&& is_signal(self.cumulative_gain_mdb as int)
        &&& is_opt_level(self.output_p1db_mdbm)
    }

    /// The node after one more stage: `block` driven by this node's signal.
    ///
    /// The stage's actual, possibly compressed, gain adds to the cumulative
    /// gain; frequency and bandwidth pass through unchanged.
    pub fn cascade_block(&self, block: &Block) -> (r: SignalNode)
        requires
            self.wf(),
            block.wf(),
        ensures
            r.name@ == block.name@ + " Output"@,
            r.signal_frequency_hz == self.signal_frequency_hz,
            r.signal_bandwidth_hz == self.signal_bandwidth_hz,
            r.signal_power_mdbm == block.spec_output_power(self.signal_power_mdbm as int),
            r.cumulative_gain_mdb == self.cumulative_gain_mdb + block.spec_power_gain(
                self.signal_power_mdbm as int,
            ),
            r.output_p1db_mdbm == block.output_p1db_mdbm,
    {
        let output_power = block.output_power(self.signal_power_mdbm);
        let stage_gain = output_power - self.signal_power_mdbm;
        SignalNode {
            name: block.name.clone().concat(" Output"),
            signal_frequency_hz: self.signal_frequency_hz,
            signal_bandwidth_hz: self.signal_bandwidth_hz,
            signal_power_mdbm: output_power,
            cumulative_gain_mdb: self.cumulative_gain_mdb + stage_gain,
            output_p1db_mdbm: block.output_p1db_mdbm,
        }
    }

    /// Signal-to-noise ratio against a noise level `noise_power_mdbm` at this node.
    pub fn signal_to_noise_ratio_mdb(&self, noise_power_mdbm: i64) -> (r: i64)
        requires
            self.wf(),
            is_signal(noise_power_mdbm as int),
        ensures
            r == self.signal_power_mdbm - noise_power_mdbm,
    {
        self.signal_power_mdbm - noise_power_mdbm
    }

    /// Compression point less the noise level `noise_power_mdbm` at this node;
    /// none without a compression point.
    pub fn dynamic_range_mdb(&self, noise_power_mdbm: i64) -> (r: Option<i64>)
        requires
            self.wf(),
            is_signal(noise_power_mdbm as int),
        ensures
            r.is_some() == self.output_p1db_mdbm.is_some(),
            r.is_some() ==> r.unwrap() == self.output_p1db_mdbm.unwrap() - noise_power_mdbm,
    {
        match self.output_p1db_mdbm {
            Some(p) => Some(p - noise_power_mdbm),
            None => None,
        }
    }

    /// Dynamic-range summary against the noise level `noise_power_mdbm` at this
    /// node and the spur-free dynamic range `sfdr_mdb`, if known; none without
    /// a compression point.
    pub fn dynamic_range_summary(&self, noise_power_mdbm: i64, sfdr_mdb: Option<i64>) -> (r: Option<
        DynamicRange,
    >)
        requires
            self.wf(),
            is_signal(noise_power_mdbm as int),
        ensures
            r.is_some() == self.output_p1db_mdbm.is_some(),
            r.is_some() ==> r.unwrap() == (DynamicRange {
                linear_dr_mdb: (self.output_p1db_mdbm.unwrap() - noise_power_mdbm) as i64,
                sfdr_mdb,
                mds_mdbm: noise_power_mdbm,
                max_input_mdbm: (self.output_p1db_mdbm.unwrap() - self.cumulative_gain_mdb) as i64,
            }),
    {
        match self.output_p1db_mdbm {
            Some(p) => Some(
                DynamicRange {
                    linear_dr_mdb: p - noise_power_mdbm,
                    sfdr_mdb,
                    mds_mdbm: noise_power_mdbm,
                    max_input_mdbm: p - self.cumulative_gain_mdb,
                },
            ),
            None => None,
        }
    }

    /// Largest input level that keeps this node below its compression point:
    /// the compression point referred back through the cumulative gain; none
    /// without a compression point.
    pub fn max_input_mdbm(&self) -> (r: Option<i64>)
        requires
            self.wf(),
        ensures
            r.is_some() == self.output_p1db_mdbm.is_some(),
            r.is_some() ==> r.unwrap() == self.output_p1db_mdbm.unwrap() - self.cumulative_gain_mdb,
    {
        match self.output_p1db_mdbm {
            Some(p) => Some(p - self.cumulative_gain_mdb),
            None => None,
        }
    }
}

/// Dynamic-range summary of a node.
#[derive(Clone, Copy, Debug, PartialEq, Eq)]
pub struct DynamicRange {
    /// Compression point less noise floor.
    pub linear_dr_mdb: i64,
    /// Spur-free dynamic range, when known.
    pub sfdr_mdb: Option<i64>,
    /// Minimum detectable signal: the noise floor.
    pub mds_mdbm: i64,
    /// Compression point referred back to the chain input.
    pub max_input_mdbm: i64,
}

impl Clone for SignalNode {
    fn clone(&self) -> (r: SignalNode)
        ensures
            r == *self,
    {
        SignalNode {
            name: self.name.clone(),
            signal_frequency_hz: self.signal_frequency_hz,
            signal_bandwidth_hz: self.signal_bandwidth_hz,
            signal_power_mdbm: self.signal_power_mdbm,
            cumulative_gain_mdb: self.cumulative_gain_mdb,
            output_p1db_mdbm: self.output_p1db_mdbm,
        }
    }
}

impl Default for SignalNode {
    /// The node of a chain with no stages: named "default", all levels zero.
    fn default() -> (r: SignalNode)
        ensures
            r.name@ == "default"@,
            r.signal_frequency_hz == 0,
            r.signal_bandwidth_hz == 0,
            r.signal_power_mdbm == 0,
            r.cumulative_gain_mdb == 0,
            r.output_p1db_mdbm.is_none(),
    {
        SignalNode {
            name: String::from_str("default"),
            signal_frequency_hz: 0,
            signal_bandwidth_hz: 0,
            signal_power_mdbm: 0,
            cumulative_gain_mdb: 0,
            output_p1db_mdbm: None,
        }
    }
}

} // verus!
