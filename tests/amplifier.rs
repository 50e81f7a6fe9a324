use gainlineup::amplifier_model::AmplifierModel;
use gainlineup::block::Block;

fn power_amp() -> Block {
    Block {
        name: "Power Amp".to_string(),
        gain_mdb: 20_000,
        noise_figure_mdb: 5_000,
        output_p1db_mdbm: Some(10_000),
        output_ip3_mdbm: Some(25_000),
    }
}

#[test]
fn new_has_no_am_pm() {
    let b = power_amp();
    let m = AmplifierModel::new(&b);
    assert_eq!(m.am_pm_coefficient_mdeg_per_db, None);
    assert_eq!(m.saturation_power_mdbm, None);
}

#[test]
fn with_am_pm_returns_phase_shift() {
    let b = power_amp();
    let m = AmplifierModel::with_am_pm(&b, 10_000);
    assert_eq!(m.phase_shift_at(-10_000), Some(0));
    assert_eq!(m.phase_shift_at(-5_000), Some(50_000_000));
}

#[test]
fn phase_shift_zero_at_deep_backoff() {
    let b = power_amp();
    let m = AmplifierModel::with_am_pm(&b, 10_000);
    assert_eq!(m.phase_shift_at(-50_000), Some(0));
}

#[test]
fn phase_shift_increases_toward_p1db() {
    let b = power_amp();
    let m = AmplifierModel::with_am_pm(&b, 10_000);
    let low = m.phase_shift_at(-15_000).unwrap();
    let high = m.phase_shift_at(-5_000).unwrap();
    assert!(high > low);
}

#[test]
fn am_am_am_pm_sweep_count() {
    let b = power_amp();
    let m = AmplifierModel::with_am_pm(&b, 10_000);
    assert_eq!(m.am_am_am_pm_sweep(-40_000, 0, 1_000).len(), 41);
}

#[test]
fn backoff_for_target_phase_reasonable() {
    let b = power_amp();
    let m = AmplifierModel::with_am_pm(&b, 10_000);
    assert_eq!(m.backoff_for_target_phase(5_000_000), Some(-500));
}

#[test]
fn backoff_rounds_toward_zero_and_needs_coefficient() {
    let b = power_amp();
    assert_eq!(AmplifierModel::with_am_pm(&b, 3_000).backoff_for_target_phase(1_000_000), Some(-333));
    assert_eq!(AmplifierModel::with_am_pm(&b, -3_000).backoff_for_target_phase(1_000_000), Some(333));
    assert_eq!(AmplifierModel::with_am_pm(&b, 0).backoff_for_target_phase(1_000_000), None);
    assert_eq!(AmplifierModel::new(&b).backoff_for_target_phase(1_000_000), None);
}

#[test]
fn builder_pattern_works() {
    let b = power_amp();
    let m = AmplifierModel::builder(&b).am_pm_coefficient(10_000).saturation_power(25_000).build();
    assert_eq!(m.am_pm_coefficient_mdeg_per_db, Some(10_000));
    assert_eq!(m.saturation_power_mdbm, Some(25_000));
    assert_eq!(m.phase_shift_at(-5_000), Some(50_000_000));
}

#[test]
fn with_saturation_constructor() {
    let b = power_amp();
    let m = AmplifierModel::with_saturation(&b, 25_000);
    assert_eq!(m.saturation_power_mdbm, Some(25_000));
    assert_eq!(m.am_pm_coefficient_mdeg_per_db, None);
}

#[test]
fn amplifier_model_basic() {
    let b = power_amp();
    assert!(AmplifierModel::new(&b).phase_shift_at(-5_000).is_none());
}

#[test]
fn amplifier_model_sweep() {
    let b = power_amp();
    let m = AmplifierModel::with_am_pm(&b, 10_000);
    let sweep = m.am_am_am_pm_sweep(-40_000, 0, 1_000);
    assert_eq!(sweep.len(), 41);
    for pt in &sweep {
        assert!(pt.phase_shift_udeg.is_some());
    }
    let last = sweep.last().unwrap();
    assert_eq!((last.input_mdbm, last.output_mdbm, last.gain_mdb), (0, 11_000, 11_000));
    assert_eq!(last.phase_shift_udeg, Some(100_000_000));
}

#[test]
fn phase_needs_compression_point() {
    let b = Block { output_p1db_mdbm: None, ..power_amp() };
    assert!(AmplifierModel::with_am_pm(&b, 10_000).phase_shift_at(0).is_none());
}
