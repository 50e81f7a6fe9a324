use vstd::prelude::*;
use vstd::string::StringExecFns;

use crate::level::{is_level, is_opt_level, is_signal, COMPRESSION_HEADROOM_MDB, MDB_PER_DB};
use crate::sweep::{sweep_args_ok, sweep_inputs, sweep_len, sweep_point};

verus! {

/// Output compression point given to a block built from a measured gain when
/// none is stated: 99 dBm, high enough never to compress.
pub const MEASURED_DEFAULT_P1DB_MDBM: i64 = 99_000;

/// One two-port stage of a chain: an amplifier, attenuator, filter or mixer.
///
/// Levels are thousandths of a dBm and gains thousandths of a dB.
#[derive(Clone, Debug, PartialEq)]
pub struct Block {
    /// Label only.
    pub name: String,
    /// Small-signal gain; negative for a loss.
    pub gain_mdb: i64,
    /// Noise figure.
    pub noise_figure_mdb: i64,
    /// Output-referred 1 dB compression point, if characterised.
    pub output_p1db_mdbm: Option<i64>,
    /// Output-referred third-order intercept point, if characterised.
    pub output_ip3_mdbm: Option<i64>,
}

impl Block {
    /// Every parameter lies in the supported range.
    pub open spec fn wf(&self) -> bool {
        &&& is_level(self.gain_mdb as int)
        &&& is_level(self.noise_figure_mdb as int)
        &&& is_opt_level(self.output_p1db_mdbm)
        &&& is_opt_level(self.output_ip3_mdbm)
    }

    /// Output level for input level `pin`: input plus gain, held at one decibel
    /// above the compression point when a compression point is given.
    pub open spec fn spec_output_power(&self, pin: int) -> int {
        let linear = pin + self.gain_mdb;
        match self.output_p1db_mdbm {
            Some(p) => if linear > p + COMPRESSION_HEADROOM_MDB {
                p + COMPRESSION_HEADROOM_MDB
            } else {
                linear
            },
            None => linear,
        }
    }

    /// The stage's actual gain at input level `pin`.
    pub open spec fn spec_power_gain(&self, pin: int) -> int {
        self.spec_output_power(pin) - pin
    }

    /// Level of the third-order intermodulation products at input level `pin`:
    /// three times the output level minus twice the output intercept point.
    pub open spec fn spec_imd3_output_power(&self, pin: int) -> int {
        3 * self.spec_output_power(pin) - 2 * self.output_ip3_mdbm.unwrap()
    }

    /// How far the intermodulation products lie below the carrier at input
    /// level `pin`.
    pub open spec fn spec_imd3_rejection(&self, pin: int) -> int {
        self.spec_output_power(pin) - self.spec_imd3_output_power(pin)
    }

    /// A block named "default" with no gain, no noise and no compression or
    /// intercept point.
    pub fn default() -> (r: Block)
        ensures
            r.name@ == "default"@,
            r.gain_mdb == 0,
            r.noise_figure_mdb == 0,
            r.output_p1db_mdbm.is_none(),
            r.output_ip3_mdbm.is_none(),
            r.wf(),
    {
        Block {
            name: String::from_str("default"),
            gain_mdb: 0,
            noise_figure_mdb: 0,
            output_p1db_mdbm: None,
            output_ip3_mdbm: None,
        }
    }

    /// A block whose gain was measured (an S21 magnitude at one frequency).
    /// Without a stated noise figure the block is taken as passive, with a
    /// noise figure equal to its loss; without a stated compression point it
    /// gets `MEASURED_DEFAULT_P1DB_MDBM`. No intercept point is known.
    pub fn from_measured_gain(
        name: String,
        gain_mdb: i64,
        noise_figure_mdb: Option<i64>,
        output_p1db_mdbm: Option<i64>,
    ) -> (r: Block)
        requires
            is_level(gain_mdb as int),
        ensures
            r.name == name,
            r.gain_mdb == gain_mdb,
            r.noise_figure_mdb == match noise_figure_mdb {
                Some(nf) => nf as int,
                None => -gain_mdb,
            },
            r.output_p1db_mdbm == Some(
                match output_p1db_mdbm {
                    Some(p) => p,
                    None => MEASURED_DEFAULT_P1DB_MDBM,
                },
            ),
            r.output_ip3_mdbm.is_none(),
    {
        let nf = match noise_figure_mdb {
            Some(nf) => nf,
            None => -gain_mdb,
        };
        let p1db = match output_p1db_mdbm {
            Some(p) => p,
            None => MEASURED_DEFAULT_P1DB_MDBM,
        };
        Block { name, gain_mdb, noise_figure_mdb: nf, output_p1db_mdbm: Some(p1db), output_ip3_mdbm: None }
    }

    /// Output level for input level `pin` (see `spec_output_power`).
    pub fn output_power(&self, pin: i64) -> (r: i64)
        requires
            self.wf(),
            is_signal(pin as int),
        ensures
            r == self.spec_output_power(pin as int),
    {
        let linear = pin + self.gain_mdb;
        match self.output_p1db_mdbm {
            Some(p) => if linear > p + COMPRESSION_HEADROOM_MDB {
                p + COMPRESSION_HEADROOM_MDB
            } else {
                linear
            },
            None => linear,
        }
    }

    /// Actual gain at input level `pin`: output level minus input level.
    pub fn power_gain(&self, pin: i64) -> (r: i64)
        requires
            self.wf(),
            is_signal(pin as int),
        ensures
            r == self.spec_power_gain(pin as int),
    {
        self.output_power(pin) - pin
    }

    /// Input-referred compression point: output compression point less gain.
    pub fn input_p1db_mdbm(&self) -> (r: Option<i64>)
        requires
            self.wf(),
        ensures
            r.is_some() == self.output_p1db_mdbm.is_some(),
            r.is_some() ==> r.unwrap() == self.output_p1db_mdbm.unwrap() - self.gain_mdb,
    {
        match self.output_p1db_mdbm {
            Some(p) => Some(p - self.gain_mdb),
            None => None,
        }
    }

    /// Output compression point less the output noise level
    /// `output_noise_mdbm`; none without a compression point.
    pub fn dynamic_range_mdb(&self, output_noise_mdbm: i64) -> (r: Option<i64>)
        requires
            self.wf(),
            is_signal(output_noise_mdbm as int),
        ensures
            r.is_some() == self.output_p1db_mdbm.is_some(),
            r.is_some() ==> r.unwrap() == self.output_p1db_mdbm.unwrap() - output_noise_mdbm,
    {
        match self.output_p1db_mdbm {
            Some(p) => Some(p - output_noise_mdbm),
            None => None,
        }
    }

    /// Input compression point less the input-referred noise level
    /// `input_noise_mdbm`; none without a compression point.
    pub fn input_dynamic_range_mdb(&self, input_noise_mdbm: i64) -> (r: Option<i64>)
        requires
            self.wf(),
            is_signal(input_noise_mdbm as int),
        ensures
            r.is_some() == self.output_p1db_mdbm.is_some(),
            r.is_some() ==> r.unwrap() == self.output_p1db_mdbm.unwrap() - self.gain_mdb
                - input_noise_mdbm,
    {
        match self.input_p1db_mdbm() {
            Some(p) => Some(p - input_noise_mdbm),
            None => None,
        }
    }

    /// Level of the third-order intermodulation products at input level `pin`;
    /// none without an output intercept point.
    pub fn imd3_output_power_mdbm(&self, pin: i64) -> (r: Option<i64>)
        requires
            self.wf(),
            is_signal(pin as int),
        ensures
            r.is_some() == self.output_ip3_mdbm.is_some(),
            r.is_some() ==> r.unwrap() == self.spec_imd3_output_power(pin as int),
    {
        match self.output_ip3_mdbm {
            Some(ip3) => Some(3 * self.output_power(pin) - 2 * ip3),
            None => None,
        }
    }

    /// Carrier-to-intermodulation ratio at input level `pin`, which is twice
    /// the distance from the output level to the intercept point; none without
    /// an output intercept point.
    pub fn imd3_rejection_mdb(&self, pin: i64) -> (r: Option<i64>)
        requires
            self.wf(),
            is_signal(pin as int),
        ensures
            r.is_some() == self.output_ip3_mdbm.is_some(),
            r.is_some() ==> r.unwrap() == self.spec_imd3_rejection(pin as int),
            r.is_some() ==> r.unwrap() == 2 * (self.output_ip3_mdbm.unwrap()
                - self.spec_output_power(pin as int)),
    {
        match self.output_ip3_mdbm {
            Some(ip3) => Some(2 * (ip3 - self.output_power(pin))),
            None => None,
        }
    }

    /// Output level for each given input level, paired with that input level.
    pub fn am_am_curve(&self, inputs: &Vec<i64>) -> (r: Vec<(i64, i64)>)
        requires
            self.wf(),
            forall|k: int| 0 <= k < inputs@.len() ==> is_signal(#[trigger] inputs@[k] as int),
        ensures
            r@.len() == inputs@.len(),
            forall|k: int|
                0 <= k < r@.len() ==> (#[trigger] r@[k]).0 == inputs@[k] && r@[k].1
                    == self.spec_output_power(inputs@[k] as int),
    {
        let mut curve: Vec<(i64, i64)> = Vec::new();
        let mut i: usize = 0;
        while i < inputs.len()
            invariant
                self.wf(),
                forall|k: int| 0 <= k < inputs@.len() ==> is_signal(#[trigger] inputs@[k] as int),
                i <= inputs@.len(),
                curve@.len() == i,
                forall|k: int|
                    0 <= k < i ==> (#[trigger] curve@[k]).0 == inputs@[k] && curve@[k].1
                        == self.spec_output_power(inputs@[k] as int),
            decreases inputs@.len() - i,
        {
            let pin = inputs[i];
            curve.push((pin, self.output_power(pin)));
            i = i + 1;
        }
        curve
    }

    /// Actual gain for each given input level, paired with that input level.
    pub fn gain_compression_curve(&self, inputs: &Vec<i64>) -> (r: Vec<(i64, i64)>)
        requires
            self.wf(),
            forall|k: int| 0 <= k < inputs@.len() ==> is_signal(#[trigger] inputs@[k] as int),
        ensures
            r@.len() == inputs@.len(),
            forall|k: int|
                0 <= k < r@.len() ==> (#[trigger] r@[k]).0 == inputs@[k] && r@[k].1
                    == self.spec_power_gain(inputs@[k] as int),
    {
        let mut curve: Vec<(i64, i64)> = Vec::new();
        let mut i: usize = 0;
        while i < inputs.len()
            invariant
                self.wf(),
                forall|k: int| 0 <= k < inputs@.len() ==> is_signal(#[trigger] inputs@[k] as int),
                i <= inputs@.len(),
                curve@.len() == i,
                forall|k: int|
                    0 <= k < i ==> (#[trigger] curve@[k]).0 == inputs@[k] && curve@[k].1
                        == self.spec_power_gain(inputs@[k] as int),
            decreases inputs@.len() - i,
        {
            let pin = inputs[i];
            curve.push((pin, self.power_gain(pin)));
            i = i + 1;
        }
        curve
    }

    /// AM-AM sweep: `(input, output)` for each level of the sweep from `start`
    /// to `stop` in steps of `step`.
    pub fn am_am_sweep(&self, start: i64, stop: i64, step: i64) -> (r: Vec<(i64, i64)>)
        requires
            self.wf(),
            sweep_args_ok(start as int, stop as int, step as int),
        ensures
            r@.len() == sweep_len(start as int, stop as int, step as int),
            forall|k: int|
                0 <= k < r@.len() ==> (#[trigger] r@[k]).0 == sweep_point(
                    start as int,
                    step as int,
                    k,
                ) && r@[k].1 == self.spec_output_power(sweep_point(start as int, step as int, k)),
    {
        let inputs = sweep_inputs(start, stop, step);
        self.am_am_curve(&inputs)
    }

    /// Gain-compression sweep: `(input, actual gain)` for each level of the
    /// sweep from `start` to `stop` in steps of `step`.
    pub fn gain_compression_sweep(&self, start: i64, stop: i64, step: i64) -> (r: Vec<(i64, i64)>)
        requires
            self.wf(),
            sweep_args_ok(start as int, stop as int, step as int),
        ensures
            r@.len() == sweep_len(start as int, stop as int, step as int),
            forall|k: int|
                0 <= k < r@.len() ==> (#[trigger] r@[k]).0 == sweep_point(
                    start as int,
                    step as int,
                    k,
                ) && r@[k].1 == self.spec_power_gain(sweep_point(start as int, step as int, k)),
    {
        let inputs = sweep_inputs(start, stop, step);
        self.gain_compression_curve(&inputs)
    }

    /// Intermodulation sweep: one point per level of the sweep from `start` to
    /// `stop` in steps of `step`; empty without an output intercept point.
    pub fn imd3_sweep(&self, start: i64, stop: i64, step: i64) -> (r: Vec<Imd3Point>)
        requires
            self.wf(),
            sweep_args_ok(start as int, stop as int, step as int),
        ensures
            self.output_ip3_mdbm.is_none() ==> r@.len() == 0,
            self.output_ip3_mdbm.is_some() ==> r@.len() == sweep_len(
                start as int,
                stop as int,
                step as int,
            ),
            forall|k: int|
                0 <= k < r@.len() ==> (#[trigger] r@[k]).describes(
                    self,
                    sweep_point(start as int, step as int, k),
                ),
    {
        let mut points: Vec<Imd3Point> = Vec::new();
        let ip3 = match self.output_ip3_mdbm {
            Some(v) => v,
            None => {
                return points;
            },
        };
        let inputs = sweep_inputs(start, stop, step);
        let mut i: usize = 0;
        while i < inputs.len()
            invariant
                self.wf(),
                self.output_ip3_mdbm == Some(ip3),
                inputs@.len() == sweep_len(start as int, stop as int, step as int),
                forall|k: int|
                    0 <= k < inputs@.len() ==> inputs@[k] == sweep_point(
                        start as int,
                        step as int,
                        k,
                    ),
                forall|k: int| 0 <= k < inputs@.len() ==> is_signal(#[trigger] inputs@[k] as int),
                i <= inputs@.len(),
                points@.len() == i,
                forall|k: int|
                    0 <= k < i ==> (#[trigger] points@[k]).describes(
                        self,
                        sweep_point(start as int, step as int, k),
                    ),
            decreases inputs@.len() - i,
        {
            let pin = inputs[i];
            let pout = self.output_power(pin);
            let im3 = 3 * pout - 2 * ip3;
            points.push(
                Imd3Point { input_mdbm: pin, output_mdbm: pout, imd3_mdbm: im3, rejection_mdb: pout - im3 },
            );
            i = i + 1;
        }
        points
    }
}

/// One point of an intermodulation sweep.
#[derive(Clone, Copy, Debug)]
pub struct Imd3Point {
    /// Input level of each of the two tones.
    pub input_mdbm: i64,
    /// Output level of each tone.
    pub output_mdbm: i64,
    /// Level of each third-order intermodulation product.
    pub imd3_mdbm: i64,
    /// Output level minus intermodulation level.
    pub rejection_mdb: i64,
}

impl Imd3Point {
    /// This point is the intermodulation result of block `b` at input level `pin`.
    pub open spec fn describes(&self, b: &Block, pin: int) -> bool {
        &&& self.input_mdbm == pin
        &&& self.output_mdbm == b.spec_output_power(pin)
        &&& self.imd3_mdbm == b.spec_imd3_output_power(pin)
        &&& self.rejection_mdb == b.spec_imd3_rejection(pin)
    }
}

/// A stage's output level never falls when its input level rises.
pub proof fn lemma_output_power_monotone(b: Block, p: int, q: int)
    requires
        p <= q,
    ensures
        b.spec_output_power(p) <= b.spec_output_power(q),
{
}

/// Below compression the intermodulation products rise three decibels for each
/// decibel of input drive.
pub proof fn lemma_imd3_slope(b: Block, pin: int)
    requires
        b.output_ip3_mdbm.is_some(),
        b.spec_output_power(pin + MDB_PER_DB) == pin + MDB_PER_DB + b.gain_mdb,
    ensures
        b.spec_imd3_output_power(pin + MDB_PER_DB) - b.spec_imd3_output_power(pin) == 3 * MDB_PER_DB,
{
    lemma_output_power_monotone(b, pin, pin + MDB_PER_DB);
}

/// Intermodulation rejection never improves as the input level rises.
pub proof fn lemma_imd3_rejection_falls(b: Block, p: int, q: int)
    requires
        b.output_ip3_mdbm.is_some(),
        p <= q,
    ensures
        b.spec_imd3_rejection(q) <= b.spec_imd3_rejection(p),
{
    lemma_output_power_monotone(b, p, q);
}

} // verus!
