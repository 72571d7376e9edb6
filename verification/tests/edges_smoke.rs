//! Range, silence, pitch tracking and timer arithmetic of the oscillator bank.

use eurorack::edges::{DigitalOscillator, OscillatorShape, PulseWidth, TimerOscillator, TimerPrescaler};

/// Effective sample rate of the audio interrupt (32 MHz / 665).
const SAMPLE_RATE: f32 = 48_120.0;
const BLOCK: usize = 16;

fn all_shapes() -> [OscillatorShape; 6] {
    [
        OscillatorShape::Triangle,
        OscillatorShape::NesTriangle,
        OscillatorShape::PitchedNoise,
        OscillatorShape::NesNoiseLong,
        OscillatorShape::NesNoiseShort,
        OscillatorShape::Sine,
    ]
}

fn render(osc: &mut DigitalOscillator, blocks: usize) -> Vec<u16> {
    let mut out = vec![0u16; blocks * BLOCK];
    for chunk in out.chunks_mut(BLOCK) {
        osc.render(chunk);
    }
    out
}

#[test]
fn every_shape_is_in_range_and_makes_sound() {
    for shape in all_shapes() {
        let mut osc = DigitalOscillator::new();
        osc.set_cv_pw(200);
        osc.update_pitch(60 << 7, shape);
        osc.gate(true);

        let buf = render(&mut osc, 400);
        assert!(
            buf.iter().all(|&s| s <= 4095),
            "{shape:?} out of 12-bit range"
        );

        let mean = buf.iter().map(|&s| s as f64).sum::<f64>() / buf.len() as f64;
        let var = buf.iter().map(|&s| (s as f64 - mean).powi(2)).sum::<f64>() / buf.len() as f64;
        assert!(
            var.sqrt() > 5.0,
            "{shape:?} produced (near-)silence: stddev {}",
            var.sqrt()
        );
    }
}

#[test]
fn gate_low_is_silence() {
    let mut osc = DigitalOscillator::new();
    osc.update_pitch(60 << 7, OscillatorShape::Triangle);
    osc.gate(false);
    let buf = render(&mut osc, 8);
    assert!(buf.iter().all(|&s| s == 2048));
}

#[test]
fn triangle_pitch_tracks_the_note() {
    // A4 = MIDI 69 = 440 Hz. Count rising zero-crossings around the DC mean.
    let mut osc = DigitalOscillator::new();
    osc.update_pitch(69 << 7, OscillatorShape::Triangle);
    osc.gate(true);
    // discard a few blocks of startup
    render(&mut osc, 4);
    let buf = render(&mut osc, 3000);

    let mean = buf.iter().map(|&s| s as f64).sum::<f64>() / buf.len() as f64;
    let mut crossings = 0;
    for w in buf.windows(2) {
        if (w[0] as f64) < mean && (w[1] as f64) >= mean {
            crossings += 1;
        }
    }
    let freq = crossings as f32 * SAMPLE_RATE / buf.len() as f32;
    assert!(
        (freq - 440.0).abs() < 12.0,
        "A4 triangle read as {freq:.1} Hz"
    );
}

#[test]
fn octave_doubles_the_frequency() {
    let pitch_of = |note: i16| {
        let mut osc = DigitalOscillator::new();
        osc.update_pitch(note << 7, OscillatorShape::Triangle);
        osc.gate(true);
        render(&mut osc, 4);
        let buf = render(&mut osc, 3000);
        let mean = buf.iter().map(|&s| s as f64).sum::<f64>() / buf.len() as f64;
        let c = buf
            .windows(2)
            .filter(|w| (w[0] as f64) < mean && (w[1] as f64) >= mean)
            .count();
        c as f32 * SAMPLE_RATE / buf.len() as f32
    };
    let ratio = pitch_of(60) / pitch_of(48);
    assert!((ratio - 2.0).abs() < 0.1, "octave ratio {ratio}");
}

#[test]
fn timer_oscillator_frequencies() {
    // Note 24 (32.70 Hz): the LFO-mode boundary -> default CLK_8, period ~61156.
    let mut t = TimerOscillator::new();
    t.update_pitch(36 << 7, PulseWidth::Pw50);
    // note 36 -> 65.41 Hz, dual-slope: F_CPU / (2 * period * div)
    let div = match t.prescaler() {
        TimerPrescaler::Clk1 => 1.0,
        TimerPrescaler::Clk8 => 8.0,
        TimerPrescaler::Clk64 => 64.0,
    };
    let freq = 32_000_000.0 / (2.0 * t.period() as f32 * div);
    assert!((freq - 65.41).abs() < 1.0, "note 36 timer freq {freq:.2}");

    // 50% duty -> value ~= period/2.
    let duty = t.value() as f32 / t.period() as f32;
    assert!((duty - 0.5).abs() < 0.02, "duty {duty:.3}");
}

#[test]
fn sub_follow_is_an_octave_and_a_half_up() {
    let mut parent = TimerOscillator::new();
    parent.update_pitch(48 << 7, PulseWidth::Pw50);
    let mut sub = TimerOscillator::new();
    sub.sub_follow(&parent);
    assert_eq!(sub.period(), parent.period() >> 1);
    assert_eq!(sub.value(), (parent.period() >> 1) >> 1);
}


#[test]
fn noise_output_follows_the_register() {
    // With the register at 1, the first clock of the pitched noise gives
    // (1 >> 1) ^ 0xb400 = 0xb400, whose low 12 bits are 0x400: output
    // 512 + 0x400 * 3 / 4 = 1280.
    let mut osc = DigitalOscillator::new();
    osc.update_pitch(127 << 7, OscillatorShape::PitchedNoise);
    let mut buf = vec![0u16; 64];
    osc.render(&mut buf);
    let first_change = buf.iter().position(|&s| s != 0).unwrap();
    assert_eq!(buf[first_change], 1280);
    assert!(buf.iter().all(|&s| s == 0 || (512..=512 + 3071).contains(&s)));
}

#[test]
fn nes_noise_has_two_levels() {
    for shape in [OscillatorShape::NesNoiseLong, OscillatorShape::NesNoiseShort] {
        let mut osc = DigitalOscillator::new();
        osc.update_pitch(100 << 7, shape);
        let mut buf = vec![0u16; 512];
        osc.render(&mut buf);
        assert!(buf.iter().all(|&s| s == 0 || s == 0x300 || s == 0xcff));
        assert!(buf.iter().any(|&s| s == 0x300) || buf.iter().any(|&s| s == 0xcff));
    }
}

#[test]
fn timer_prescaler_has_hysteresis() {
    let mut t = TimerOscillator::new();
    t.update_pitch(20 << 7, PulseWidth::Pw50);
    assert_eq!(t.prescaler(), TimerPrescaler::Clk64);
    // back in the middle range: still in LFO mode
    t.update_pitch(60 << 7, PulseWidth::Pw50);
    assert_eq!(t.prescaler(), TimerPrescaler::Clk64);
    t.update_pitch(110 << 7, PulseWidth::Pw50);
    assert_eq!(t.prescaler(), TimerPrescaler::Clk8);
}

#[test]
fn timer_pulse_widths_scale_the_compare_value() {
    let mut t = TimerOscillator::new();
    t.update_pitch(48 << 7, PulseWidth::Pw75);
    assert_eq!(t.value(), ((t.period() as u32 * 64) >> 8) as u16);
    t.set_cv_pw(255);
    t.update_pitch(48 << 7, PulseWidth::CvControlled);
    assert_eq!(t.value(), ((t.period() as u32 * 250) >> 8) as u16);
    // an octave up halves the period
    let low = t.period();
    t.update_pitch(60 << 7, PulseWidth::CvControlled);
    assert_eq!(t.period(), low >> 1);
}

#[test]
fn a_noise_after_the_sine_stays_within_12_bits() {
    for noise in [OscillatorShape::PitchedNoise, OscillatorShape::NesNoiseLong, OscillatorShape::NesNoiseShort] {
        let mut osc = DigitalOscillator::new();
        osc.set_cv_pw(200);
        osc.update_pitch(72 << 7, OscillatorShape::Sine);
        osc.gate(true);
        let _ = render(&mut osc, 4);
        osc.update_pitch(20 << 7, noise);
        let buf = render(&mut osc, 8);
        assert!(buf.iter().all(|&s| s <= 4095), "{noise:?} after the sine");
    }
}
