//! Oscillator scenarios: the sync input, the pitch tables, exact samples of
//! the simplest waveforms, and every shape the macro-oscillator renders.

use eurorack::braids::analog_oscillator::AnalogOscillator;
use eurorack::braids::digital_oscillator::DigitalOscillator;
use eurorack::braids::dsp::{compute_phase_increment_analog, compute_phase_increment_digital};
use eurorack::braids::fm::{render_chaotic_feedback_fm, render_feedback_fm, render_fm};
use eurorack::braids::formant::fof_setup;
use eurorack::braids::macro_oscillator::MacroOscillator;
use eurorack::braids::resources::WAV_SINE;
use eurorack::braids::shapes::{AnalogOscillatorShape, DigitalModel, MacroOscillatorShape};
use eurorack::fixed::interpolate_824_i16;

/// The shapes that need only the lookup tables this crate carries.
const RENDERED_SHAPES: [MacroOscillatorShape; 34] = [
    MacroOscillatorShape::Csaw,
    MacroOscillatorShape::Morph,
    MacroOscillatorShape::SawSquare,
    MacroOscillatorShape::SineTriangle,
    MacroOscillatorShape::Buzz,
    MacroOscillatorShape::SquareSub,
    MacroOscillatorShape::SawSub,
    MacroOscillatorShape::SquareSync,
    MacroOscillatorShape::SawSync,
    MacroOscillatorShape::TripleSaw,
    MacroOscillatorShape::TripleSquare,
    MacroOscillatorShape::TripleTriangle,
    MacroOscillatorShape::TripleSine,
    MacroOscillatorShape::TripleRingMod,
    MacroOscillatorShape::SawSwarm,
    MacroOscillatorShape::SawComb,
    MacroOscillatorShape::Toy,
    MacroOscillatorShape::Fm,
    MacroOscillatorShape::FeedbackFm,
    MacroOscillatorShape::ChaoticFeedbackFm,
    MacroOscillatorShape::DigitalFilterLp,
    MacroOscillatorShape::DigitalFilterPk,
    MacroOscillatorShape::DigitalFilterBp,
    MacroOscillatorShape::DigitalFilterHp,
    MacroOscillatorShape::StruckBell,
    MacroOscillatorShape::StruckDrum,
    MacroOscillatorShape::Plucked,
    MacroOscillatorShape::DigitalModulation,
    MacroOscillatorShape::ClockedNoise,
    MacroOscillatorShape::Harmonics,
    MacroOscillatorShape::VowelFof,
    MacroOscillatorShape::Kick,
    MacroOscillatorShape::Snare,
    MacroOscillatorShape::Cymbal,
];

#[test]
fn sync_input_is_handled() {
    let mut osc = MacroOscillator::new();
    osc.set_shape(MacroOscillatorShape::SawSync);
    osc.set_pitch(50 << 7);
    osc.set_parameters(20000, 12000);
    let mut sync = [0u8; 24];
    for k in 0..24 {
        sync[k] = if k % 5 == 0 { 1 } else { 0 };
    }
    let mut block = [0i16; 24];
    for _ in 0..50 {
        osc.render(&sync, &mut block, 24);
    }
}

#[test]
fn every_rendered_macro_shape_survives_a_sweep() {
    let sync = [0u8; 24];
    for shape in RENDERED_SHAPES {
        let mut osc = MacroOscillator::new();
        osc.set_shape(shape);
        assert_eq!(osc.shape(), shape);
        for step in 0..400i32 {
            let p1 = ((step * 163) & 0x7fff) as i16;
            let p2 = ((step * 617) & 0x7fff) as i16;
            osc.set_parameters(p1, p2);
            osc.set_pitch(((24 << 7) + step * 37).min(140 << 7) as i16);
            if step % 64 == 0 {
                osc.strike();
            }
            let mut block = [0i16; 24];
            osc.render(&sync, &mut block, 24);
        }
    }
}

#[test]
fn a4_increment_is_440_hz_at_96_khz() {
    // 2^32 * 440 / 96000 = 19685266.4
    assert_eq!(compute_phase_increment_analog(69 << 7), 19_685_266);
    // one octave down halves the increment
    assert_eq!(compute_phase_increment_analog(57 << 7), 19_685_266 / 2);
    let mut osc = AnalogOscillator::new();
    osc.set_shape(AnalogOscillatorShape::Sine);
    let sync = [0u8; 24];
    let mut block = [0i16; 24];
    // the first block after a shape change restarts the voice at note 60
    osc.set_pitch(69 << 7);
    osc.render(&sync, &mut block, None, 24);
    assert_eq!(osc.phase_increment(), compute_phase_increment_analog(60 << 7));
    osc.set_pitch(69 << 7);
    osc.render(&sync, &mut block, None, 24);
    assert_eq!(osc.phase_increment(), 19_685_266);
}

#[test]
fn a_sine_synced_on_every_sample_stays_at_zero() {
    let mut osc = AnalogOscillator::new();
    osc.set_shape(AnalogOscillatorShape::Sine);
    osc.set_pitch(69 << 7);
    let sync = [1u8; 24];
    let mut block = [7i16; 24];
    osc.render(&sync, &mut block, None, 24);
    assert_eq!(block, [0i16; 24]);
}

#[test]
fn a_synced_triangle_repeats_its_first_two_half_steps() {
    let mut osc = AnalogOscillator::new();
    osc.set_shape(AnalogOscillatorShape::Triangle);
    let sync = [1u8; 24];
    let mut block = [0i16; 24];
    // the first block latches the shape; the next ramps the increment up to
    // A4's; the third holds it (19685256: the ramp's rounding)
    osc.render(&sync, &mut block, None, 24);
    osc.set_pitch(69 << 7);
    osc.render(&sync, &mut block, None, 24);
    osc.render(&sync, &mut block, None, 24);
    // phase = 9842628 (top 16 bits 150): (300 + 32768) as i16 >> 1 = -16234;
    // phase = 19685256 (top 16 bits 300): (600 + 32768) as i16 >> 1 = -16084.
    assert_eq!(block, [-32318i16; 24]);
}

#[test]
fn the_saw_marks_each_cycle_start_in_its_sync_output() {
    let mut osc = AnalogOscillator::new();
    osc.set_shape(AnalogOscillatorShape::Saw);
    osc.set_pitch(69 << 7);
    let sync = [0u8; 24];
    let mut block = [0i16; 24];
    let mut starts = 0;
    for _ in 0..4000 {
        let mut out = [0u8; 24];
        osc.render(&sync, &mut block, Some(&mut out), 24);
        starts += out.iter().filter(|&&s| s != 0).count();
    }
    // one second at 96 kHz of a 440 Hz saw (the first block ramps up)
    assert!((438..=440).contains(&starts), "{starts} cycle starts");
}

#[test]
fn a_buffer_past_the_block_is_left_alone() {
    let mut osc = AnalogOscillator::new();
    osc.set_shape(AnalogOscillatorShape::Square);
    osc.set_pitch(60 << 7);
    let sync = [0u8; 24];
    let mut block = [123i16; 24];
    osc.render(&sync, &mut block, None, 10);
    assert_eq!(&block[10..], &[123i16; 14]);
}

#[test]
fn an_empty_buzz_block_renders_nothing() {
    let mut osc = MacroOscillator::new();
    osc.set_shape(MacroOscillatorShape::Buzz);
    osc.set_pitch(60 << 7);
    let sync = [0u8; 24];
    let mut block = [5i16; 24];
    osc.render(&sync, &mut block, 0);
    assert_eq!(block, [5i16; 24]);
}

#[test]
fn the_comb_is_silent_on_silence() {
    let mut osc = DigitalOscillator::new();
    osc.set_shape(DigitalModel::Comb);
    osc.set_pitch(60 << 7);
    osc.set_parameters(20000, 30000);
    let sync = [0u8; 24];
    for _ in 0..10 {
        let mut block = [0i16; 24];
        osc.render(&sync, &mut block, 24);
        assert_eq!(block, [0i16; 24]);
    }
}

#[test]
fn the_digital_pitch_is_smoothed_above_note_90() {
    let mut osc = DigitalOscillator::new();
    osc.set_shape(DigitalModel::TripleRingMod);
    osc.set_pitch(100 << 7);
    osc.set_pitch(110 << 7);
    let sync = [0u8; 1];
    let mut block = [0i16; 1];
    osc.render(&sync, &mut block, 1);
    // (12800 + 14080) / 2 = 13440 = note 105
    assert_eq!(osc.phase_increment(), compute_phase_increment_analog(105 << 7));
}

#[test]
fn a_new_shape_restarts_the_digital_model() {
    let mut osc = MacroOscillator::new();
    osc.set_shape(MacroOscillatorShape::Toy);
    osc.set_pitch(60 << 7);
    osc.set_parameters(0, 0);
    let sync = [0u8; 24];
    let mut first = [0i16; 24];
    osc.render(&sync, &mut first, 24);
    osc.set_shape(MacroOscillatorShape::TripleRingMod);
    let mut other = [0i16; 24];
    osc.render(&sync, &mut other, 24);
    osc.set_shape(MacroOscillatorShape::Toy);
    let mut again = [0i16; 24];
    osc.render(&sync, &mut again, 24);
    assert_eq!(first, again);
}

fn peak(block: &[i16]) -> i32 {
    block.iter().map(|&x| (x as i32).abs()).max().unwrap_or(0)
}

#[test]
fn a_plucked_string_sounds_then_dies_away() {
    let mut osc = MacroOscillator::new();
    osc.set_shape(MacroOscillatorShape::Plucked);
    osc.set_pitch(48 << 7);
    osc.set_parameters(0, 16384);
    osc.strike();
    let sync = [0u8; 24];
    let mut loudest_early = 0;
    for _ in 0..40 {
        let mut block = [0i16; 24];
        osc.render(&sync, &mut block, 24);
        loudest_early = loudest_early.max(peak(&block));
    }
    assert!(loudest_early > 1000);
    let mut last = [0i16; 24];
    for _ in 0..8000 {
        osc.render(&sync, &mut last, 24);
    }
    assert!(peak(&last) * 8 < loudest_early);
}

#[test]
fn plucked_strings_stay_silent_until_plucked_again() {
    // A new model starts struck: the first block plucks a string, and later
    // blocks only ring it out; nothing in the rendering adds energy.
    let mut osc = DigitalOscillator::new();
    osc.set_shape(DigitalModel::Plucked);
    osc.set_pitch(60 << 7);
    osc.set_parameters(0, 0);
    let sync = [0u8; 24];
    let mut block = [0i16; 24];
    osc.render(&sync, &mut block, 24);
    assert!(peak(&block) > 0);
    for _ in 0..20000 {
        osc.render(&sync, &mut block, 24);
    }
    assert!(peak(&block) < 64);
}

#[test]
fn clocked_noise_holds_a_quantized_level_from_a_sync_pulse() {
    // The sync pulse ticks the clock: the generator steps from 0 to
    // 1013904223, whose low 16 bits are 62303.
    for (p1, level) in [(0i16, -16384i16), (32767, -3072)] {
        let mut osc = DigitalOscillator::new();
        osc.set_shape(DigitalModel::ClockedNoise);
        osc.set_pitch(60 << 7);
        osc.set_parameters(0, p1);
        let mut sync = [0u8; 24];
        sync[0] = 1;
        let mut block = [0i16; 24];
        osc.render(&sync, &mut block, 24);
        // two levels: 62303 rounds down to 32768, plus half a step (16384);
        // thirty-two levels: down to 61440, plus 1024
        assert_eq!(block, [level; 24]);
    }
}

#[test]
fn clocked_noise_is_silent_until_its_clock_ticks() {
    let mut osc = DigitalOscillator::new();
    osc.set_shape(DigitalModel::ClockedNoise);
    osc.set_pitch(60 << 7);
    osc.set_parameters(0, 0);
    let sync = [0u8; 24];
    let mut block = [1i16; 24];
    osc.render(&sync, &mut block, 24);
    assert_eq!(block, [0i16; 24]);
}

#[test]
fn the_modem_starts_its_frame_with_a_carrier_of_zero_symbols() {
    let mut osc = DigitalOscillator::new();
    osc.set_shape(DigitalModel::DigitalModulation);
    osc.set_pitch(60 << 7);
    osc.set_parameters(0, 0);
    let sync = [0u8; 24];
    let mut block = [0i16; 24];
    osc.render(&sync, &mut block, 24);
    let inc = osc.phase_increment();
    // symbol 0 is (+23100, +23100) on the cosine and the sine
    let mut phase = 0u32;
    for k in 0..2 {
        phase = phase.wrapping_add(inc);
        let i = interpolate_824_i16(&WAV_SINE, phase) as i32;
        let q = interpolate_824_i16(&WAV_SINE, phase.wrapping_add(0x4000_0000)) as i32;
        let expected = ((23100 * q) >> 15) + ((23100 * i) >> 15);
        assert_eq!(block[k], expected as i16);
    }
}

#[test]
fn the_harmonics_glide_in_from_silence() {
    let mut osc = DigitalOscillator::new();
    osc.set_shape(DigitalModel::Harmonics);
    osc.set_pitch(48 << 7);
    osc.set_parameters(8192, 0);
    let sync = [0u8; 24];
    let mut block = [1i16; 24];
    osc.render(&sync, &mut block, 24);
    // every level starts at zero, so the first step is silent
    assert_eq!(block[0], 0);
    assert_eq!(block[1], 0);
    let mut loudest = 0;
    for _ in 0..400 {
        osc.render(&sync, &mut block, 24);
        loudest = loudest.max(peak(&block));
    }
    assert!(loudest > 4000);
}

#[test]
fn the_vowel_starts_from_silent_resonators() {
    let mut osc = DigitalOscillator::new();
    osc.set_shape(DigitalModel::VowelFof);
    osc.set_pitch(48 << 7);
    osc.set_parameters(10000, 20000);
    let sync = [0u8; 24];
    let mut block = [1i16; 24];
    osc.render(&sync, &mut block, 24);
    // the saw starts at zero, so the first step rings nothing
    assert_eq!(block[0], 0);
    assert_eq!(block[1], 0);
    let mut loudest = 0;
    for _ in 0..100 {
        osc.render(&sync, &mut block, 24);
        loudest = loudest.max(peak(&block));
    }
    assert!(loudest > 100);
}

#[test]
fn every_vowel_mixes_its_formants_at_the_same_level() {
    // the first formant's amplitude is 16384 in every vowel of the grid
    for (p0, p1) in [(0i16, 0i16), (32767, 32767), (12345, 5000), (0, 32767), (20000, 1)] {
        assert_eq!(fof_setup(p0, p1).1, 16384);
    }
}

#[test]
fn a_struck_bass_drum_booms_and_fades() {
    let mut osc = MacroOscillator::new();
    osc.set_shape(MacroOscillatorShape::Kick);
    osc.set_pitch(36 << 7);
    osc.set_parameters(16384, 16384);
    osc.strike();
    let sync = [0u8; 24];
    let mut loudest_early = 0;
    for _ in 0..100 {
        let mut block = [0i16; 24];
        osc.render(&sync, &mut block, 24);
        loudest_early = loudest_early.max(peak(&block));
    }
    assert!(loudest_early > 1000);
    let mut last = [0i16; 24];
    for _ in 0..8000 {
        osc.render(&sync, &mut last, 24);
    }
    assert!(peak(&last) * 16 < loudest_early);
}

#[test]
fn a_struck_snare_cracks_and_fades() {
    let mut osc = MacroOscillator::new();
    osc.set_shape(MacroOscillatorShape::Snare);
    osc.set_pitch(48 << 7);
    osc.set_parameters(16384, 20000);
    osc.strike();
    let sync = [0u8; 24];
    let mut loudest_early = 0;
    for _ in 0..100 {
        let mut block = [0i16; 24];
        osc.render(&sync, &mut block, 24);
        // the snare renders each value twice
        for k in 0..12 {
            assert_eq!(block[2 * k], block[2 * k + 1]);
        }
        loudest_early = loudest_early.max(peak(&block));
    }
    assert!(loudest_early > 1000);
    let mut last = [0i16; 24];
    for _ in 0..8000 {
        osc.render(&sync, &mut last, 24);
    }
    assert!(peak(&last) * 16 < loudest_early);
}

#[test]
fn the_cymbal_hisses() {
    let mut osc = MacroOscillator::new();
    osc.set_shape(MacroOscillatorShape::Cymbal);
    osc.set_pitch(60 << 7);
    osc.set_parameters(20000, 16384);
    let sync = [0u8; 24];
    let mut loudest = 0;
    for _ in 0..200 {
        let mut block = [0i16; 24];
        osc.render(&sync, &mut block, 24);
        loudest = loudest.max(peak(&block));
    }
    assert!(loudest > 1000);
}

#[test]
fn the_digital_oscillator_renders_the_fm_models() {
    let sync = [0u8; 24];
    let pitch: i16 = 60 << 7;
    let pi = compute_phase_increment_digital(pitch as i32);
    let models = [DigitalModel::Fm, DigitalModel::FeedbackFm, DigitalModel::ChaoticFeedbackFm];
    for model in models {
        let mut osc = DigitalOscillator::new();
        osc.set_shape(model);
        osc.set_pitch(pitch);
        osc.set_parameters(8000, 20000);
        let mut block = [0i16; 24];
        osc.render(&sync, &mut block, 24);
        // The first block starts from a clear state, its amount ramping up
        // from 0; the second ramps from 8000 to 12000.
        let mut expected = [0i16; 24];
        let (phase, modulator, previous) = match model {
            DigitalModel::Fm => {
                let (p, m) = render_fm(0, 0, pi, pitch, 0, 8000, 20000, &sync, &mut expected, 24);
                (p, m, 0)
            }
            DigitalModel::FeedbackFm => render_feedback_fm(0, 0, 0, pi, pitch, 0, 8000, 20000, &sync, &mut expected, 24),
            _ => render_chaotic_feedback_fm(0, 0, 0, pi, pitch, 0, 8000, 20000, &sync, &mut expected, 24),
        };
        assert_eq!(block, expected);
        assert_ne!(block, [0i16; 24]);
        osc.set_parameters(12000, 20000);
        osc.render(&sync, &mut block, 24);
        match model {
            DigitalModel::Fm => {
                render_fm(phase, modulator, pi, pitch, 8000, 12000, 20000, &sync, &mut expected, 24);
            }
            DigitalModel::FeedbackFm => {
                render_feedback_fm(phase, modulator, previous, pi, pitch, 8000, 12000, 20000, &sync, &mut expected, 24);
            }
            _ => {
                render_chaotic_feedback_fm(phase, modulator, previous, pi, pitch, 8000, 12000, 20000, &sync, &mut expected, 24);
            }
        }
        assert_eq!(block, expected);
    }
}

#[test]
fn the_cymbal_checks_its_next_block() {
    let mut osc = MacroOscillator::new();
    osc.set_shape(MacroOscillatorShape::Cymbal);
    osc.set_parameters(16000, 8000);
    osc.set_pitch(60 << 7);
    let sync = [0u8; 24];
    let mut block = [0i16; 24];
    for _ in 0..20 {
        assert!(osc.drum_fits_now(24));
        osc.render(&sync, &mut block, 24);
    }
    assert_ne!(block, [0i16; 24]);
    let digital = DigitalOscillator::new();
    assert!(digital.cymbal_fits(16000, 8000, 60 << 7, 24));
    assert!(digital.cymbal_fits(0, 0, 0, 0));
}

#[test]
fn the_bass_drum_checks_its_next_block() {
    let mut osc = MacroOscillator::new();
    osc.set_shape(MacroOscillatorShape::Kick);
    osc.set_parameters(16000, 8000);
    osc.set_pitch(40 << 7);
    let sync = [0u8; 24];
    let mut block = [0i16; 24];
    for step in 0..20 {
        if step % 8 == 0 {
            osc.strike();
        }
        assert!(osc.drum_fits_now(24));
        osc.render(&sync, &mut block, 24);
    }
    let digital = DigitalOscillator::new();
    assert!(digital.kick_fits(16000, 8000, 40 << 7, 24));
}

#[test]
fn the_snare_checks_its_next_block() {
    let mut osc = MacroOscillator::new();
    osc.set_shape(MacroOscillatorShape::Snare);
    osc.set_parameters(12000, 20000);
    osc.set_pitch(50 << 7);
    let sync = [0u8; 24];
    let mut block = [0i16; 24];
    for step in 0..20 {
        if step % 8 == 0 {
            osc.strike();
        }
        assert!(osc.drum_fits_now(24));
        osc.render(&sync, &mut block, 24);
    }
    let digital = DigitalOscillator::new();
    assert!(digital.snare_fits(12000, 20000, 50 << 7, 24));
}
