use gainlineup::block::{Block, Imd3Point};

fn block(name: &str, gain: i64, nf: i64, p1db: Option<i64>, ip3: Option<i64>) -> Block {
    Block {
        name: name.to_string(),
        gain_mdb: gain,
        noise_figure_mdb: nf,
        output_p1db_mdbm: p1db,
        output_ip3_mdbm: ip3,
    }
}

#[test]
fn default() {
    let b = Block::default();
    assert_eq!(b.name, "default");
    assert_eq!(b.gain_mdb, 0);
    assert_eq!(b.noise_figure_mdb, 0);
    assert_eq!(b.output_p1db_mdbm, None);
}

#[test]
fn output_power() {
    let amplifier = block("Simple Amplifier", 10_000, 3_000, None, None);
    assert_eq!(amplifier.output_power(-30_000), -20_000);
}

#[test]
fn output_power_with_compression() {
    let amplifier = block("Simple Amplifier", 10_000, 3_000, Some(-20_000), None);
    assert_eq!(amplifier.output_power(-30_000), -20_000);
}

#[test]
fn output_power_with_compression_above_threshold() {
    let amplifier = block("Simple Amplifier", 10_000, 3_000, Some(-20_000), None);
    assert_eq!(amplifier.output_power(-25_000), -19_000);
}

#[test]
fn readme_02_blocks_block_construction() {
    let lna = block("Low Noise Amplifier", 20_000, 1_500, Some(5_000), Some(20_000));
    let mixer = block("Mixer", -8_000, 8_000, Some(10_000), Some(15_000));
    let if_amp = block("IF Amplifier", 25_000, 4_000, Some(15_000), Some(25_000));
    assert_eq!(lna.gain_mdb, 20_000);
    assert_eq!(lna.noise_figure_mdb, 1_500);
    assert_eq!(lna.output_p1db_mdbm, Some(5_000));
    assert_eq!(lna.output_ip3_mdbm, Some(20_000));
    assert_eq!(mixer.gain_mdb, -8_000);
    assert_eq!(mixer.noise_figure_mdb, 8_000);
    assert_eq!(if_amp.gain_mdb, 25_000);
    assert_eq!(if_amp.noise_figure_mdb, 4_000);
}

#[test]
fn readme_04_compression_compression_linear_region() {
    let pa = block("Power Amplifier", 30_000, 5_000, Some(20_000), None);
    assert_eq!(pa.output_power(-20_000), 10_000);
    assert_eq!(pa.power_gain(-20_000), 30_000);
}

#[test]
fn readme_04_compression_compression_above_p1db() {
    let pa = block("Power Amplifier", 30_000, 5_000, Some(20_000), None);
    assert_eq!(pa.output_power(0), 21_000);
    assert_eq!(pa.power_gain(0), 21_000);
}

#[test]
fn compression_clamp_sits_one_db_above_p1db() {
    let b = block("Amp", 20_000, 0, Some(10_000), None);
    assert_eq!(b.output_power(0), 11_000);
    assert_eq!(b.power_gain(0), 11_000);
}

#[test]
fn output_power_is_repeatable() {
    let b = block("Amp", 20_000, 0, Some(10_000), None);
    let first = b.output_power(-3_217);
    for _ in 0..5 {
        assert_eq!(b.output_power(-3_217), first);
    }
}

#[test]
fn output_power_just_at_clamp_is_not_clamped() {
    let b = block("Amp", 20_000, 0, Some(10_000), None);
    assert_eq!(b.output_power(-9_000), 11_000);
    assert_eq!(b.output_power(-9_001), 10_999);
}

#[test]
fn input_p1db_refers_through_gain() {
    let b = block("Amp", 20_000, 0, Some(10_000), None);
    assert_eq!(b.input_p1db_mdbm(), Some(-10_000));
    assert_eq!(block("Ideal", 10_000, 0, None, None).input_p1db_mdbm(), None);
}

#[test]
fn readme_06_am_am_single_block_am_am_single_block_sweep() {
    let lna = block("LNA", 20_000, 3_000, Some(10_000), None);
    let curve = lna.am_am_sweep(-50_000, 0, 1_000);
    assert_eq!(curve.len(), 51);
    assert_eq!(curve[0].0, -50_000);
    assert_eq!(curve[0].1, -50_000 + 20_000);
    for i in 1..curve.len() {
        assert!(curve[i].1 >= curve[i - 1].1, "AM-AM curve should be monotonically non-decreasing");
    }
}

#[test]
fn readme_06_am_am_single_block_gain_compression_shows_rolloff() {
    let lna = block("LNA", 20_000, 3_000, Some(10_000), None);
    let gc = lna.gain_compression_sweep(-50_000, 0, 1_000);
    assert_eq!(gc[0].1, 20_000);
    let last_gain = gc.last().unwrap().1;
    assert!(last_gain < 20_000, "Gain should compress at high input, got {}", last_gain);
    assert_eq!(last_gain, 11_000);
}

#[test]
fn curves_follow_given_inputs() {
    let b = block("Amp", 20_000, 0, Some(10_000), None);
    let inputs = vec![-30_000, -9_000, 0];
    assert_eq!(b.am_am_curve(&inputs), vec![(-30_000, -10_000), (-9_000, 11_000), (0, 11_000)]);
    assert_eq!(
        b.gain_compression_curve(&inputs),
        vec![(-30_000, 20_000), (-9_000, 20_000), (0, 11_000)]
    );
}

#[test]
fn sweep_includes_stop_within_tolerance() {
    let b = block("Amp", 0, 0, None, None);
    let s = b.am_am_sweep(0, 2_000, 1_000);
    assert_eq!(s.iter().map(|p| p.0).collect::<Vec<i64>>(), vec![0, 1_000, 2_000]);
    let s = b.am_am_sweep(0, 1_990, 1_000);
    assert_eq!(s.len(), 3);
    let s = b.am_am_sweep(0, 1_989, 1_000);
    assert_eq!(s.len(), 2);
    assert!(b.am_am_sweep(5_000, 0, 1_000).is_empty());
    assert_eq!(b.am_am_sweep(7_000, 7_000, 1_000).len(), 1);
}

#[test]
fn readme_08_imd3_imd3_single_point() {
    let amp = block("Driver Amp", 20_000, 5_000, None, Some(30_000));
    assert_eq!(amp.imd3_output_power_mdbm(-30_000), Some(-90_000));
    assert_eq!(amp.imd3_rejection_mdb(-30_000), Some(80_000));
}

#[test]
fn readme_08_imd3_imd3_3_to_1_slope() {
    let amp = block("Driver Amp", 20_000, 5_000, None, Some(30_000));
    let a = amp.imd3_output_power_mdbm(-30_000).unwrap();
    let b = amp.imd3_output_power_mdbm(-29_000).unwrap();
    assert_eq!(b - a, 3_000);
}

#[test]
fn readme_08_imd3_imd3_sweep_structure() {
    let amp = block("Driver Amp", 20_000, 5_000, None, Some(30_000));
    let sweep = amp.imd3_sweep(-50_000, -10_000, 5_000);
    assert_eq!(sweep.len(), 9);
    for i in 1..sweep.len() {
        assert!(sweep[i].rejection_mdb <= sweep[i - 1].rejection_mdb, "Rejection should decrease with increasing power");
    }
    let first: Imd3Point = sweep[0];
    assert_eq!(first.input_mdbm, -50_000);
    assert_eq!(first.output_mdbm, -30_000);
    assert_eq!(first.imd3_mdbm, -150_000);
    assert_eq!(first.rejection_mdb, 120_000);
}

#[test]
fn readme_08_imd3_imd3_none_without_ip3() {
    let b = Block::default();
    assert!(b.imd3_output_power_mdbm(-30_000).is_none());
    assert!(b.imd3_rejection_mdb(-30_000).is_none());
    assert!(b.imd3_sweep(-50_000, -10_000, 5_000).is_empty());
}

#[test]
fn imd3_slope_flattens_in_compression() {
    let amp = block("Amp", 20_000, 0, Some(0), Some(10_000));
    let a = amp.imd3_output_power_mdbm(0).unwrap();
    let b = amp.imd3_output_power_mdbm(1_000).unwrap();
    assert_eq!(b - a, 0);
    assert_eq!(a, 3 * 1_000 - 2 * 10_000);
}

#[test]
fn measured_block_defaults_to_passive() {
    let b = Block::from_measured_gain("Cable".to_string(), -3_932, None, None);
    assert_eq!(b.gain_mdb, -3_932);
    assert_eq!(b.noise_figure_mdb, 3_932);
    assert_eq!(b.output_p1db_mdbm, Some(99_000));
    assert_eq!(b.output_ip3_mdbm, None);
    let b = Block::from_measured_gain("Amp".to_string(), 12_000, Some(2_000), Some(15_000));
    assert_eq!((b.noise_figure_mdb, b.output_p1db_mdbm), (2_000, Some(15_000)));
}

fn thermal_noise_mdbm(noise_figure_db: f64, bandwidth_hz: f64) -> i64 {
    let factor = 10f64.powf(noise_figure_db / 10.0);
    let watts = (factor - 1.0) * 1.380649e-23 * 290.0 * bandwidth_hz;
    (10.0 * (watts * 1000.0).log10() * 1000.0).round() as i64
}

#[test]
fn readme_05_dynamic_range_dynamic_range_output_referred() {
    let lna = block("LNA", 20_000, 3_000, Some(10_000), None);
    let output_noise = lna.output_power(thermal_noise_mdbm(3.0, 1e6));
    let dr = lna.dynamic_range_mdb(output_noise).unwrap();
    assert!(dr > 90_000, "Expected DR > 90 dB, got {}", dr);
    assert_eq!(dr, 10_000 - output_noise);
}

#[test]
fn readme_05_dynamic_range_dynamic_range_input_referred() {
    let lna = block("LNA", 20_000, 3_000, Some(10_000), None);
    let input_noise = thermal_noise_mdbm(3.0, 1e6);
    let dr_in = lna.input_dynamic_range_mdb(input_noise).unwrap();
    assert!(dr_in > 90_000, "Expected input DR > 90 dB, got {}", dr_in);
    assert_eq!(dr_in, -10_000 - input_noise);
}

#[test]
fn readme_05_dynamic_range_dynamic_range_none_without_p1db() {
    let linear_block = block("Ideal", 10_000, 3_000, None, None);
    assert!(linear_block.dynamic_range_mdb(-100_000).is_none());
    assert!(linear_block.input_dynamic_range_mdb(-110_000).is_none());
}
