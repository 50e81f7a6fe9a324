use vstd::prelude::*;

use crate::block::Block;
use crate::level::{is_opt_level, is_signal};
use crate::sweep::{sweep_args_ok, sweep_inputs, sweep_len, sweep_point};

verus! {

/// `a / b` rounded toward zero.
pub open spec fn quotient_toward_zero(a: int, b: int) -> int {
    let q = (if a >= 0 { a } else { -a }) / (if b >= 0 { b } else { -b });
    if (a >= 0) == (b >= 0) {
        q
    } else {
        -q
    }
}

/// One point of a combined AM-AM and AM-PM sweep.
#[derive(Clone, Copy, Debug)]
pub struct AmplifierPoint {
    /// Input level.
    pub input_mdbm: i64,
    /// Output level.
    pub output_mdbm: i64,
    /// Actual gain.
    pub gain_mdb: i64,
    /// AM-PM phase shift in microdegrees, when the model can give one.
    pub phase_shift_udeg: Option<i128>,
}

/// A block seen as an amplifier, with an optional AM-PM characterisation.
///
/// The AM-PM coefficient is in millidegrees per decibel, which is the same as
/// microdegrees per thousandth of a decibel, so phase shifts come out exact in
/// microdegrees.
#[derive(Clone, Copy, Debug)]
pub struct AmplifierModel<'a> {
    /// The underlying block.
    pub block: &'a Block,
    /// AM-PM conversion above the input compression point, in millidegrees per dB.
    pub am_pm_coefficient_mdeg_per_db: Option<i64>,
    /// Saturated output level.
    pub saturation_power_mdbm: Option<i64>,
}

impl<'a> AmplifierModel<'a> {
    /// The block and both optional parameters lie in the supported range.
    pub open spec fn wf(&self) -> bool {
        &&& self.block.wf()
        &&& is_opt_level(self.am_pm_coefficient_mdeg_per_db)
        &&& is_opt_level(self.saturation_power_mdbm)
    }

    /// AM-PM phase shift at input level `pin`: the coefficient times how far
    /// `pin` lies above the input compression point, and zero below it; none
    /// without a coefficient or without a compression point.
    pub open spec fn spec_phase_shift(&self, pin: int) -> Option<int> {
        match (self.am_pm_coefficient_mdeg_per_db, self.block.output_p1db_mdbm) {
            (Some(c), Some(p)) => {
                let over = pin - (p - self.block.gain_mdb);
                Some(c * (if over > 0 { over } else { 0 }))
            },
            _ => None,
        }
    }

    /// A model of `block` with neither AM-PM coefficient nor saturation level.
    pub fn new(block: &'a Block) -> (r: AmplifierModel<'a>)
        ensures
            r.block == block,
            r.am_pm_coefficient_mdeg_per_db.is_none(),
            r.saturation_power_mdbm.is_none(),
    {
        AmplifierModel { block, am_pm_coefficient_mdeg_per_db: None, saturation_power_mdbm: None }
    }

    /// A model of `block` with AM-PM coefficient `coeff_mdeg_per_db`.
    pub fn with_am_pm(block: &'a Block, coeff_mdeg_per_db: i64) -> (r: AmplifierModel<'a>)
        ensures
            r.block == block,
            r.am_pm_coefficient_mdeg_per_db == Some(coeff_mdeg_per_db),
            r.saturation_power_mdbm.is_none(),
    {
        AmplifierModel {
            block,
            am_pm_coefficient_mdeg_per_db: Some(coeff_mdeg_per_db),
            saturation_power_mdbm: None,
        }
    }

    /// A model of `block` with saturated output level `psat_mdbm`.
    pub fn with_saturation(block: &'a Block, psat_mdbm: i64) -> (r: AmplifierModel<'a>)
        ensures
            r.block == block,
            r.am_pm_coefficient_mdeg_per_db.is_none(),
            r.saturation_power_mdbm == Some(psat_mdbm),
    {
        AmplifierModel {
            block,
            am_pm_coefficient_mdeg_per_db: None,
            saturation_power_mdbm: Some(psat_mdbm),
        }
    }

    /// A builder for a model of `block`, with nothing set yet.
    pub fn builder(block: &'a Block) -> (r: AmplifierModelBuilder<'a>)
        ensures
            r.spec_block() == block,
            r.spec_am_pm_coefficient().is_none(),
            r.spec_saturation_power().is_none(),
    {
        AmplifierModelBuilder { block, am_pm_coefficient_mdeg_per_db: None, saturation_power_mdbm: None }
    }

    /// AM-PM phase shift in microdegrees at input level `pin` (see
    /// `spec_phase_shift`).
    pub fn phase_shift_at(&self, pin: i64) -> (r: Option<i128>)
        requires
            self.wf(),
            is_signal(pin as int),
        ensures
            r.is_some() == self.spec_phase_shift(pin as int).is_some(),
            r.is_some() ==> r.unwrap() == self.spec_phase_shift(pin as int).unwrap(),
    {
        let coeff = match self.am_pm_coefficient_mdeg_per_db {
            Some(c) => c,
            None => {
                return None;
            },
        };
        let input_p1db = match self.block.input_p1db_mdbm() {
            Some(p) => p,
            None => {
                return None;
            },
        };
        let over = pin - input_p1db;
        let over = if over > 0 { over } else { 0 };
        assert(-1_000_000_000_000 * 2_000_000_000_000_000_000int <= coeff * over
            <= 1_000_000_000_000 * 2_000_000_000_000_000_000int) by (nonlinear_arith)
            requires
                -1_000_000_000_000 <= coeff <= 1_000_000_000_000,
                0 <= over <= 2_000_000_000_000_000_000int;
        Some((coeff as i128) * (over as i128))
    }

    /// Combined AM-AM and AM-PM sweep: one point for each level of the sweep
    /// from `start` to `stop` in steps of `step`.
    pub fn am_am_am_pm_sweep(&self, start: i64, stop: i64, step: i64) -> (r: Vec<AmplifierPoint>)
        requires
            self.wf(),
            sweep_args_ok(start as int, stop as int, step as int),
        ensures
            r@.len() == sweep_len(start as int, stop as int, step as int),
            forall|k: int|
                0 <= k < r@.len() ==> self.describes(
                    #[trigger] r@[k],
                    sweep_point(start as int, step as int, k),
                ),
    {
        let inputs = sweep_inputs(start, stop, step);
        let mut points: Vec<AmplifierPoint> = Vec::new();
        let mut i: usize = 0;
        while i < inputs.len()
            invariant
                self.wf(),
                inputs@.len() == sweep_len(start as int, stop as int, step as int),
                forall|k: int|
                    0 <= k < inputs@.len() ==> inputs@[k] == sweep_point(
                        start as int,
                        step as int,
                        k,
                    ),
                forall|k: int| 0 <= k < inputs@.len() ==> is_signal(#[trigger] inputs@[k] as int),
                i <= inputs@.len(),
                points@.len() == i,
                forall|k: int|
                    0 <= k < i ==> self.describes(
                        #[trigger] points@[k],
                        sweep_point(start as int, step as int, k),
                    ),
            decreases inputs@.len() - i,
        {
            let pin = inputs[i];
            let pout = self.block.output_power(pin);
            points.push(
                AmplifierPoint {
                    input_mdbm: pin,
                    output_mdbm: pout,
                    gain_mdb: pout - pin,
                    phase_shift_udeg: self.phase_shift_at(pin),
                },
            );
            i = i + 1;
        }
        points
    }

    /// `pt` is this model's sweep point at input level `pin`.
    pub open spec fn describes(&self, pt: AmplifierPoint, pin: int) -> bool {
        &&& pt.input_mdbm == pin
        &&& pt.output_mdbm == self.block.spec_output_power(pin)
        &&& pt.gain_mdb == self.block.spec_power_gain(pin)
        &&& pt.phase_shift_udeg.is_some() == self.spec_phase_shift(pin).is_some()
        &&& pt.phase_shift_udeg.is_some() ==> pt.phase_shift_udeg.unwrap() == self.spec_phase_shift(
            pin,
        ).unwrap()
    }

    /// Input backoff below the input compression point, in thousandths of a
    /// dB, that keeps the phase shift within `max_phase_udeg` microdegrees:
    /// minus the allowed overdrive `max_phase_udeg / coefficient`, rounded
    /// toward zero. Negative means the input may exceed the compression point.
    /// None without a coefficient or with a zero coefficient.
    pub fn backoff_for_target_phase(&self, max_phase_udeg: i64) -> (r: Option<i64>)
        requires
            self.wf(),
            is_signal(max_phase_udeg as int),
        ensures
            r.is_some() == (self.am_pm_coefficient_mdeg_per_db.is_some()
                && self.am_pm_coefficient_mdeg_per_db.unwrap() != 0),
            r.is_some() ==> r.unwrap() == -quotient_toward_zero(
                max_phase_udeg as int,
                self.am_pm_coefficient_mdeg_per_db.unwrap() as int,
            ),
    {
        let coeff = match self.am_pm_coefficient_mdeg_per_db {
            Some(c) => c,
            None => {
                return None;
            },
        };
        if coeff == 0 {
            return None;
        }
        let a = max_phase_udeg as i128;
        let b = coeff as i128;
        let a_abs = if a >= 0 { a } else { -a };
        let b_abs = if b >= 0 { b } else { -b };
        let q = a_abs / b_abs;
        assert(0 <= q <= a_abs) by (nonlinear_arith)
            requires a_abs >= 0, b_abs >= 1, q == a_abs / b_abs;
        let allowed = if (a >= 0) == (b >= 0) { q } else { -q };
        Some(-(allowed as i64))
    }
}

/// Step-by-step construction of an `AmplifierModel`.
#[derive(Clone, Copy, Debug)]
pub struct AmplifierModelBuilder<'a> {
    block: &'a Block,
    am_pm_coefficient_mdeg_per_db: Option<i64>,
    saturation_power_mdbm: Option<i64>,
}

impl<'a> AmplifierModelBuilder<'a> {
    /// The block the model will wrap.
    pub closed spec fn spec_block(&self) -> &'a Block {
        self.block
    }

    /// The AM-PM coefficient set so far.
    pub closed spec fn spec_am_pm_coefficient(&self) -> Option<i64> {
        self.am_pm_coefficient_mdeg_per_db
    }

    /// The saturated output level set so far.
    pub closed spec fn spec_saturation_power(&self) -> Option<i64> {
        self.saturation_power_mdbm
    }

    /// Sets the AM-PM coefficient.
    pub fn am_pm_coefficient(self, coeff_mdeg_per_db: i64) -> (r: AmplifierModelBuilder<'a>)
        ensures
            r.spec_block() == self.spec_block(),
            r.spec_am_pm_coefficient() == Some(coeff_mdeg_per_db),
            r.spec_saturation_power() == self.spec_saturation_power(),
    {
        AmplifierModelBuilder { am_pm_coefficient_mdeg_per_db: Some(coeff_mdeg_per_db), ..self }
    }

    /// Sets the saturated output level.
    pub fn saturation_power(self, psat_mdbm: i64) -> (r: AmplifierModelBuilder<'a>)
        ensures
            r.spec_block() == self.spec_block(),
            r.spec_am_pm_coefficient() == self.spec_am_pm_coefficient(),
            r.spec_saturation_power() == Some(psat_mdbm),
    {
        AmplifierModelBuilder { saturation_power_mdbm: Some(psat_mdbm), ..self }
    }

    /// The model with everything set so far.
    pub fn build(self) -> (r: AmplifierModel<'a>)
        ensures
            r.block == self.spec_block(),
            r.am_pm_coefficient_mdeg_per_db == self.spec_am_pm_coefficient(),
            r.saturation_power_mdbm == self.spec_saturation_power(),
    {
        AmplifierModel {
            block: self.block,
            am_pm_coefficient_mdeg_per_db: self.am_pm_coefficient_mdeg_per_db,
            saturation_power_mdbm: self.saturation_power_mdbm,
        }
    }
}

} // verus!
