use rmsc::float_bits::{abs_bits, le_bits, lt_bits, nan_bits};
use rmsc::peak_meter::PeakMeter;
use rmsc::processor::{meter_block, RingModSideChain};

fn bits(x: f32) -> u32 {
    x.to_bits()
}

fn released(current: u32, amplitude: f32, weight: f32) -> u32 {
    let current = f32::from_bits(current);
    bits(current * weight + amplitude.abs() * (1.0 - weight))
}

fn decay_weight(sample_rate: f32, decay_ms: f64) -> f32 {
    0.25f64.powf((sample_rate as f64 * decay_ms / 1000.0).recip()) as f32
}

#[test]
fn abs_clears_sign() {
    assert_eq!(abs_bits(bits(-0.5)), bits(0.5));
    assert_eq!(abs_bits(bits(0.5)), bits(0.5));
    assert_eq!(abs_bits(bits(-0.0)), bits(0.0));
}

#[test]
fn comparisons_follow_float_order() {
    assert!(lt_bits(bits(0.25), bits(0.5)));
    assert!(!lt_bits(bits(0.5), bits(0.25)));
    assert!(lt_bits(bits(-2.0), bits(-1.0)));
    assert!(lt_bits(bits(-1.0), bits(0.0)));
    assert!(le_bits(bits(-0.0), bits(0.0)));
    assert!(le_bits(bits(0.0), bits(-0.0)));
    assert!(!lt_bits(bits(f32::NAN), bits(1.0)));
    assert!(!le_bits(bits(1.0), bits(f32::NAN)));
    assert!(lt_bits(bits(1.0), bits(f32::INFINITY)));
    assert!(nan_bits(bits(f32::NAN)));
    assert!(!nan_bits(bits(f32::INFINITY)));
}

#[test]
fn new_meter_is_silent() {
    let m = PeakMeter::new();
    assert_eq!(f32::from_bits(m.load()), 0.0);
}

#[test]
fn store_then_load() {
    let mut m = PeakMeter::new();
    m.store(bits(0.75));
    assert_eq!(m.load(), bits(0.75));
}

#[test]
fn attack_takes_amplitude_exactly() {
    let mut m = PeakMeter::new();
    m.store(bits(0.2));
    m.update(bits(0.7), bits(0.123));
    assert_eq!(m.load(), bits(0.7));
}

#[test]
fn release_takes_released_value() {
    let mut m = PeakMeter::new();
    m.store(bits(1.0));
    let w = 0.9f32;
    let r = released(m.load(), 0.5, w);
    m.update(bits(0.5), r);
    assert_eq!(f32::from_bits(m.load()), 1.0 * 0.9 + 0.5 * (1.0 - 0.9f32));
}

#[test]
fn equal_amplitude_releases() {
    let mut m = PeakMeter::new();
    m.store(bits(0.5));
    m.update(bits(0.5), bits(0.45));
    assert_eq!(m.load(), bits(0.45));
}

#[test]
fn load_never_negative() {
    let mut m = PeakMeter::new();
    m.update(bits(-0.8), bits(-0.1));
    assert_eq!(m.load(), bits(0.8));
    assert!(f32::from_bits(m.load()) >= 0.0);
    m.update(bits(-0.1), bits(-0.3));
    assert_eq!(m.load(), bits(0.3));
    m.update(bits(0.0), bits(-f32::NAN));
    assert!(m.load() < 0x8000_0000);
}

#[test]
fn twelve_db_decay_after_window() {
    let sample_rate = 44100.0f32;
    let w = decay_weight(sample_rate, 150.0);
    let mut m = PeakMeter::new();
    m.store(bits(1.0));
    let n = (sample_rate as f64 * 150.0 / 1000.0).round() as usize;
    assert_eq!(n, 6615);
    for _ in 0..n {
        let r = released(m.load(), 0.0, w);
        meter_block(&mut m, true, bits(0.0), r);
    }
    let v = f32::from_bits(m.load());
    assert!((v - 0.25).abs() < 1e-3, "{v}");
}

#[test]
fn inactive_metering_leaves_meter() {
    let mut m = PeakMeter::new();
    m.store(bits(0.6));
    meter_block(&mut m, false, bits(0.9), bits(0.1));
    assert_eq!(m.load(), bits(0.6));
    meter_block(&mut m, false, bits(0.1), bits(0.2));
    assert_eq!(m.load(), bits(0.6));
}

#[test]
fn active_metering_takes_mean_magnitude() {
    let mut m = PeakMeter::new();
    meter_block(&mut m, true, bits(-0.4), bits(0.0));
    assert_eq!(m.load(), bits(0.4));
}

#[test]
fn initialize_sets_decay_weight() {
    let mut p = RingModSideChain::new();
    assert_eq!(p.peak_meter_decay_weight, bits(1.0));
    let w = decay_weight(48000.0, 150.0);
    assert!(p.initialize(bits(w), 2400));
    assert_eq!(p.peak_meter_decay_weight, bits(w));
    assert!(w > 0.0 && w < 1.0);
    assert_eq!(p.peak_meter.load(), 0);
    assert_eq!(p.side_chain_peak_meter.load(), 0);
}
