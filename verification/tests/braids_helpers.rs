//! The macro-oscillator's helpers: quantizer, excitation, envelope, filter.

use eurorack::braids::envelope::{Envelope, EnvelopeSegment};
use eurorack::braids::excitation::Excitation;
use eurorack::braids::quantizer::{scale, Quantizer, NUM_SCALES};
use eurorack::braids::svf::Svf;

#[test]
fn the_chromatic_quantizer_snaps_to_the_nearest_semitone() {
    let mut q = Quantizer::new();
    // 7730 lies 50 above C4 (7680) and 78 below C#4 (7808)
    assert_eq!(q.process(7730), 7680);
    // a fresh quantizer sends 7745 to the nearer C#4...
    let mut fresh = Quantizer::new();
    assert_eq!(fresh.process(7745), 7808);
    // ...but the held C4 keeps it: the window reaches 7/16 of a semitone up
    assert_eq!(q.process(7745), 7680);
    assert_eq!(q.process(7753), 7808);
}

#[test]
fn a_root_shifts_the_quantized_pitch() {
    let mut q = Quantizer::new();
    assert_eq!(q.process_with_root(7730 + 100, 100), 7680 + 100);
}

#[test]
fn the_empty_scale_disables_the_quantizer() {
    let mut q = Quantizer::new();
    q.configure(&scale(0));
    assert_eq!(q.process(1234), 1234);
    assert_eq!(q.process(-77), -77);
}

#[test]
fn a_major_scale_skips_the_black_keys() {
    let mut q = Quantizer::new();
    q.configure(&scale(2));
    // C#4 (7808) is between C4 and D4; the nearest degree is either of them
    let c_sharp = q.process(7808);
    assert!(c_sharp == 7680 || c_sharp == 7936, "{c_sharp}");
    // E4 (8192) is a degree
    let mut q = Quantizer::new();
    q.configure(&scale(2));
    assert_eq!(q.process(8192), 8192);
    assert_eq!(NUM_SCALES, 49);
}

#[test]
fn an_excitation_lands_after_its_delay() {
    let mut e = Excitation::new();
    e.set_delay(2);
    e.set_decay(2048);
    e.trigger(1000);
    assert!(!e.done());
    assert_eq!(e.process(), 0);
    assert_eq!(e.process(), 0);
    assert_eq!(e.process(), 1000);
    assert!(e.done());
    // halved on every later sample
    assert_eq!(e.process(), 500);
    assert_eq!(e.process(), 250);
}

#[test]
fn a_negative_excitation_is_signed_like_its_level() {
    let mut e = Excitation::new();
    e.set_delay(0);
    e.set_decay(4096);
    e.trigger(-300);
    assert_eq!(e.process(), -300);
    assert_eq!(e.process(), -300);
}

#[test]
fn the_envelope_attacks_decays_and_dies() {
    let mut env = Envelope::new();
    assert_eq!(env.render(), 0);
    env.update(40, 40);
    env.trigger(EnvelopeSegment::Attack);
    let mut previous = 0u16;
    let mut peak = 0u16;
    let mut steps = 0;
    while env.segment() == EnvelopeSegment::Attack && steps < 1_000_000 {
        let v = env.render();
        assert!(v >= previous);
        previous = v;
        peak = peak.max(v);
        steps += 1;
    }
    assert!(peak > 60000, "peak {peak}");
    while env.segment() != EnvelopeSegment::Dead && steps < 2_000_000 {
        env.render();
        steps += 1;
    }
    assert_eq!(env.segment(), EnvelopeSegment::Dead);
    assert_eq!(env.render(), 0);
}

#[test]
fn a_fresh_filter_is_silent_on_silence() {
    let mut f = Svf::new();
    for _ in 0..100 {
        assert_eq!(f.process(0), 0);
    }
}

#[test]
fn the_filter_tells_which_inputs_stay_within_32_bits() {
    let mut f = Svf::new();
    assert!(f.fits(0));
    assert!(f.fits(32767));
    assert!(f.fits(-32768));
    // Past 2^31 / f the high-pass times the cutoff no longer fits.
    assert!(!f.fits(2_000_000_000));
    assert!(!f.fits(i32::MIN));
    f.process(32767);
    assert!(f.fits(32767));
}
