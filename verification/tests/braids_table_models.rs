//! Models that read waveforms handed to them: exact samples on small
//! hand-made waveforms.

use eurorack::braids::blown::Reed;
use eurorack::braids::bowed::BowedString;
use eurorack::braids::fluted::Flute;
use eurorack::braids::fm::{quantize_ratio, render_chaotic_feedback_fm, render_feedback_fm, render_fm};
use eurorack::braids::random::Random;
use eurorack::braids::resonators::{ParticleNoise, TwinPeaks};
use eurorack::braids::resources::{WAV_SINE, WS_MODERATE_OVERDRIVE};
use eurorack::braids::vosim::render_vosim;
use eurorack::braids::question_mark::{render_question_mark, QuestionMark};
use eurorack::braids::granular::{Grain, GranularCloud};
use eurorack::braids::filtered_noise::FilteredNoise;
use eurorack::braids::wavetable::{render_wave_line, render_wave_map, render_wave_paraphonic, render_wavetables};
use eurorack::braids::vowel::VowelState;
use eurorack::braids::dsp::compute_phase_increment_digital;
use eurorack::fixed::{interpolate_824_i16, interpolate_88_i16};

fn index_tables() -> ([i16; 256], [i16; 256]) {
    let mut sine = [0i16; 256];
    let mut square = [0i16; 256];
    for i in 0..256 {
        sine[i] = (i as i16) * 10;
        square[i] = (i as i16) * 100;
    }
    (sine, square)
}

#[test]
fn vowel_first_sample_sums_the_formants() {
    let (sine, square) = index_tables();
    let mut state = VowelState::new();
    let mut rng = Random::new();
    let mut buffer = [0i16; 4];
    let pi: u32 = 1 << 24;
    let phase = state.render(&mut rng, false, 0, pi, 0, 0, &sine, &square, &mut buffer, 1);
    assert_eq!(phase, pi);
    // Vowel 0 at scale 200: levels 15, 13 and 1, all three formants in their
    // first phase sixteenth, so the sum is 150 + 130 + 100 = 380; the ramp
    // is 254 and the product wraps to 30984.
    let expected = interpolate_88_i16(&WS_MODERATE_OVERDRIVE, (30984i32 + 32768) as u16);
    assert_eq!(buffer[0], expected);
    assert_eq!(&buffer[1..], &[0, 0, 0]);
}

#[test]
fn vowel_restarts_at_each_period() {
    let (sine, square) = index_tables();
    let mut state = VowelState::new();
    let mut rng = Random::new();
    let mut buffer = [0i16; 2];
    // The phase wraps on the first sample: the sample is silent.
    let phase = state.render(&mut rng, false, u32::MAX - 10, 100, 0, 0, &sine, &square, &mut buffer, 2);
    assert_eq!(phase, 189);
    assert_eq!(buffer[0], interpolate_88_i16(&WS_MODERATE_OVERDRIVE, 32768));
}

#[test]
fn vowel_strike_sounds_a_consonant() {
    let (sine, square) = index_tables();
    let mut plain = VowelState::new();
    let mut struck = VowelState::new();
    let mut rng_a = Random::new();
    let mut rng_b = Random::new();
    let mut a = [0i16; 24];
    let mut b = [0i16; 24];
    plain.render(&mut rng_a, false, 0, 1 << 22, 0, 0, &sine, &square, &mut a, 24);
    struck.render(&mut rng_b, true, 0, 1 << 22, 0, 0, &sine, &square, &mut b, 24);
    assert_ne!(a, b);
}

/// A generator state whose next word is `word`.
fn state_before(word: u32) -> u32 {
    let a: u32 = 1664525;
    let mut inverse: u32 = a;
    for _ in 0..5 {
        inverse = inverse.wrapping_mul(2u32.wrapping_sub(a.wrapping_mul(inverse)));
    }
    assert_eq!(a.wrapping_mul(inverse), 1);
    word.wrapping_sub(1013904223).wrapping_mul(inverse)
}

#[test]
fn particle_click_rings_the_resonators() {
    let coefficients = [0u16; 257];
    let scales = [65535u16; 257];
    let mut particles = ParticleNoise::new();
    let mut rng = Random::new();
    rng.seed(state_before(0x8080_0100));
    let mut buffer = [0i16; 2];
    particles.render(&mut rng, 0, 0, 0, &coefficients, &scales, &mut buffer, 2);
    // The click restarts the burst: 256 * 65535 / 65536 = 255, scaled by
    // the full gain to 254 in each of the three resonators.
    assert_eq!(buffer, [762, 762]);
}

#[test]
fn particle_noise_is_silent_without_gain() {
    let coefficients = [30000u16; 257];
    let scales = [0u16; 257];
    let mut particles = ParticleNoise::new();
    let mut rng = Random::new();
    let mut buffer = [1i16; 24];
    for _ in 0..50 {
        particles.render(&mut rng, 6000, 32767, 16000, &coefficients, &scales, &mut buffer, 24);
        assert_eq!(buffer, [0i16; 24]);
    }
}

#[test]
fn particle_noise_renders_pairs() {
    let coefficients = [40000u16; 257];
    let scales = [65535u16; 257];
    let mut particles = ParticleNoise::new();
    let mut rng = Random::new();
    let mut heard = false;
    let mut buffer = [0i16; 24];
    for _ in 0..200 {
        particles.render(&mut rng, 6000, 32767, 8000, &coefficients, &scales, &mut buffer, 24);
        for k in 0..12 {
            assert_eq!(buffer[2 * k], buffer[2 * k + 1]);
            heard |= buffer[2 * k] != 0;
        }
    }
    assert!(heard);
}

#[test]
fn bowed_string_without_bow_is_silent() {
    let envelope = [0u16; 752];
    let friction = [20000u16; 257];
    let mut string = BowedString::new();
    let mut buffer = [5i16; 24];
    let mut phase = 0;
    for _ in 0..20 {
        phase = string.render(false, phase, 1000, 200 << 16, 16384, 0, &envelope, &friction, &mut buffer, 24);
        assert_eq!(buffer, [0i16; 24]);
    }
    assert_eq!(phase, 20 * 12 * 1000);
}

#[test]
fn bowed_string_speaks_under_the_bow() {
    let envelope = [1000u16; 752];
    let friction = [32768u16; 257];
    let mut string = BowedString::new();
    let mut buffer = [0i16; 24];
    string.render(true, 0, 1000, 200 << 16, 16384, 0, &envelope, &friction, &mut buffer, 24);
    // Nothing has reached the bridge yet on the first step.
    assert_eq!(&buffer[..2], &[0, 0]);
    let mut heard = false;
    for _ in 0..20 {
        string.render(false, 0, 1000, 200 << 16, 16384, 0, &envelope, &friction, &mut buffer, 24);
        for j in 1..12 {
            let previous = buffer[2 * j - 1] as i32;
            let out = buffer[2 * j + 1] as i32;
            assert_eq!(buffer[2 * j] as i32, (out + previous) >> 1);
        }
        heard |= buffer.iter().any(|&x| x != 0);
    }
    assert!(heard);
}

#[test]
fn flute_without_breath_is_silent() {
    let envelope = [0u16; 392];
    let jet_curve = [0i16; 256];
    let body = [2048u16; 128];
    let mut flute = Flute::new();
    let mut rng = Random::new();
    let mut buffer = [3i16; 24];
    let mut phase = 7;
    for _ in 0..10 {
        phase = flute.render(&mut rng, false, phase, 10, 300 << 16, 6000, 16384, 16384, &envelope, &jet_curve, &body, &mut buffer, 24);
        assert_eq!(buffer, [0i16; 24]);
    }
    assert_eq!(phase, 7 + 10 * 24 * 10);
}

#[test]
fn flute_speaks_when_blown() {
    let envelope = [20000u16; 392];
    let mut jet_curve = [0i16; 256];
    for i in 0..256 {
        jet_curve[i] = ((i as i32 - 128) * 200) as i16;
    }
    let body = [2048u16; 128];
    let mut flute = Flute::new();
    let mut rng = Random::new();
    let mut buffer = [0i16; 24];
    flute.render(&mut rng, true, 0, 10, 300 << 16, 6000, 16384, 16384, &envelope, &jet_curve, &body, &mut buffer, 24);
    // The bore is empty on the first sample.
    assert_eq!(buffer[0], 0);
    let mut heard = false;
    for _ in 0..40 {
        flute.render(&mut rng, false, 0, 10, 300 << 16, 6000, 16384, 16384, &envelope, &jet_curve, &body, &mut buffer, 24);
        heard |= buffer.iter().any(|&x| x != 0);
    }
    assert!(heard);
}

#[test]
fn twin_peaks_first_step() {
    let coefficients = [0u16; 257];
    let scales = [65535u16; 257];
    let mut peaks = TwinPeaks::new();
    let mut rng = Random::new();
    let mut buffer = [0i16; 2];
    peaks.render(&mut rng, 6000, 0, 16384, &coefficients, &scales, &mut buffer, 2);
    // Half the first random sample (8154) through both resonators at full
    // gain gives 8153 each; the sum 16306 plus its make-up 16304 is 32610.
    let expected = interpolate_88_i16(&WS_MODERATE_OVERDRIVE, (32610i32 + 32768) as u16);
    assert_eq!(buffer, [expected, expected]);
}

#[test]
fn twin_peaks_without_gain_rests_at_the_curve_centre() {
    let coefficients = [50000u16; 257];
    let scales = [0u16; 257];
    let mut peaks = TwinPeaks::new();
    let mut rng = Random::new();
    let mut buffer = [0i16; 24];
    let centre = interpolate_88_i16(&WS_MODERATE_OVERDRIVE, 32768);
    for _ in 0..10 {
        peaks.render(&mut rng, 6000, 20000, 30000, &coefficients, &scales, &mut buffer, 24);
        assert_eq!(buffer, [centre; 24]);
    }
}

#[test]
fn reed_first_sample_balances_the_breath() {
    let body = [2048u16; 128];
    let mut reed = Reed::new();
    let mut rng = Random::new();
    let mut buffer = [9i16; 1];
    // Breath 37361 against an empty bore: the reed is wide open (32767) and
    // its flow, -37361, cancels the breath exactly.
    let phase = reed.render(&mut rng, false, 5, 100, 400 << 16, 6000, 0, 0, &body, &mut buffer, 1);
    assert_eq!(buffer, [0]);
    assert_eq!(phase, 105);
}

#[test]
fn reed_speaks_when_blown() {
    let body = [2048u16; 128];
    let mut reed = Reed::new();
    let mut rng = Random::new();
    let mut buffer = [0i16; 24];
    let mut heard = false;
    for _ in 0..20 {
        reed.render(&mut rng, false, 0, 100, 400 << 16, 6000, 0, 0, &body, &mut buffer, 24);
        heard |= buffer.iter().any(|&x| x != 0);
    }
    assert!(heard);
}

#[test]
fn ratio_quantizer_on_a_straight_curve_is_the_identity() {
    let mut quantizer = [0u16; 129];
    for i in 0..129 {
        quantizer[i] = (i * 256) as u16;
    }
    for p1 in [0i16, 1, 255, 256, 12345, 32767] {
        assert_eq!(quantize_ratio(p1, &quantizer), p1);
    }
}

#[test]
fn ratio_quantizer_blends_neighbours() {
    let mut quantizer = [1000u16; 129];
    quantizer[3] = 2000;
    // Half-way between entries 2 (1000) and 3 (2000).
    assert_eq!(quantize_ratio(2 * 256 + 128, &quantizer), 1500);
}

#[test]
fn fm_without_modulation_is_a_sine() {
    let sync = [0u8; 8];
    let mut plain = [0i16; 8];
    let mut fed = [0i16; 8];
    let mut chaotic = [0i16; 8];
    let pi: u32 = 0x0100_0000;
    let r = render_fm(0, 0, pi, 6000, 0, 0, 16384, &sync, &mut plain, 8);
    let f = render_feedback_fm(0, 0, 0, pi, 6000, 0, 0, 16384, &sync, &mut fed, 8);
    let c = render_chaotic_feedback_fm(0, 0, 0, pi, 6000, 0, 0, 16384, &sync, &mut chaotic, 8);
    for k in 0..8 {
        let expected = interpolate_824_i16(&WAV_SINE, (k as u32 + 1) * pi);
        assert_eq!(plain[k], expected);
        assert_eq!(fed[k], expected);
        assert_eq!(chaotic[k], expected);
    }
    assert_eq!(r.0, 8 * pi);
    assert_eq!(f.0, 8 * pi);
    assert_eq!(c.0, 8 * pi);
    assert_eq!(f.2, plain[7]);
    assert_eq!(c.2, plain[7]);
}

#[test]
fn fm_sync_restarts_the_carrier() {
    let mut sync = [0u8; 4];
    sync[2] = 1;
    let mut buffer = [0i16; 4];
    let r = render_fm(0x4000_0000, 0x1234_5678, 0x0100_0000, 6000, 0, 0, 16384, &sync, &mut buffer, 4);
    assert_eq!(buffer[2], WAV_SINE[0]);
    assert_eq!(r.0, 0x0100_0000);
}

#[test]
fn vosim_without_window_rests_at_the_offset() {
    let bell = [0u16; 257];
    let sync = [0u8; 24];
    let mut buffer = [0i16; 24];
    let r = render_vosim(0, (0, 0), 1 << 26, 3000, 9000, &bell, &sync, &mut buffer, 24);
    assert_eq!(buffer, [-24576i16; 24]);
    assert_eq!(r.0, 24u32.wrapping_mul(1 << 26));
}

#[test]
fn vosim_first_sample() {
    let bell = [65535u16; 257];
    let sync = [0u8; 1];
    let mut buffer = [0i16; 1];
    render_vosim(0, (0, 0), 1000, 4000, 8000, &bell, &sync, &mut buffer, 1);
    let i0 = compute_phase_increment_digital(2000);
    let i1 = compute_phase_increment_digital(4000);
    let sum = 24576 + ((interpolate_824_i16(&WAV_SINE, i0) as i32) >> 1) + ((interpolate_824_i16(&WAV_SINE, i1) as i32) >> 2);
    assert_eq!(buffer[0] as i32, (sum * 32767 >> 15) - 24576);
}

/// A bank of 256 waves, every sample at `level`.
fn flat_bank(level: u8) -> Vec<u8> {
    vec![level; 129 * 256]
}

#[test]
fn paraphonic_on_flat_waves_is_constant() {
    let waves = flat_bank(255);
    let mut phases = [0u32; 4];
    let mut rng = Random::new();
    let mut buffer = [0i16; 24];
    render_wave_paraphonic(&mut phases, &mut rng, false, 6000, 1000, 9000, 12000, &waves, &mut buffer, 24);
    // 255 reads as 255 * 256 - 32768 = 32512 in each of the four voices.
    assert_eq!(buffer, [32512i16; 24]);
    assert_eq!(phases[0], 24 * 1000);
}

#[test]
fn paraphonic_strike_draws_the_phases() {
    let waves = flat_bank(128);
    let mut phases = [0u32; 4];
    let mut rng = Random::new();
    let mut expected = Random::new();
    let mut buffer = [1i16; 2];
    render_wave_paraphonic(&mut phases, &mut rng, true, 6000, 1000, 0, 0, &waves, &mut buffer, 2);
    let first = expected.get_word();
    assert_eq!(phases[0], first.wrapping_add(2000));
    assert_eq!(buffer, [0, 0]);
}

#[test]
fn wavetables_on_flat_waves_are_constant() {
    let waves = flat_bank(255);
    let sync = [0u8; 24];
    let mut buffer = [0i16; 24];
    let r = render_wavetables(0, 2000, 10000, 20000, 0, &waves, &sync, &mut buffer, 24);
    assert_eq!(buffer, [32512i16; 24]);
    assert_eq!(r, (24 * 2000, 20000));
}

#[test]
fn wavetables_hold_a_small_move() {
    let waves = flat_bank(128);
    let sync = [0u8; 2];
    let mut buffer = [0i16; 2];
    let r = render_wavetables(0, 2000, 10000, 20030, 20000, &waves, &sync, &mut buffer, 2);
    assert_eq!(r.1, 20000);
}

#[test]
fn wave_map_on_flat_waves_is_constant() {
    let waves = flat_bank(255);
    let map = [7u8; 256];
    let sync = [0u8; 24];
    let mut buffer = [0i16; 24];
    render_wave_map(0, 2000, 10000, 20000, &map, &waves, &sync, &mut buffer, 24);
    // Each half sample mixes 32512 with itself (32511) and halves it.
    assert_eq!(buffer, [32510i16; 24]);
}

#[test]
fn wave_line_on_flat_waves_is_constant() {
    let waves = flat_bank(255);
    let sync = [0u8; 24];
    let mut buffer = [0i16; 24];
    let r = render_wave_line(0, 0, 0, 2000, 16000, 20000, &waves, &sync, &mut buffer, 24);
    assert_eq!(buffer, [32511i16; 24]);
    assert_eq!(r, (24 * 2000, 8000, 4000));
}

fn key(q: &mut QuestionMark, rng: &mut Random, code: &[u8], samples: usize, strike: bool) {
    let mut buffer = [0i16; 24];
    let mut phase = 0;
    let mut left = samples;
    let mut first = strike;
    while left > 0 {
        let n = if left < 24 { left } else { 24 };
        phase = render_question_mark(q, phase, rng, first, 1 << 24, 32767, 0, code, &mut buffer, n);
        first = false;
        left -= n;
    }
}

#[test]
fn question_mark_first_symbol_after_ten_ticks() {
    // Four dits, then the end.
    let code = [0x00u8, 0xff];
    let mut q = QuestionMark { tone_on: 0, cycle: 0, count: 0, position: 0, seed: 0 };
    let mut rng = Random::new();
    // A tick every 3601 samples at the fastest keying; the strike waits ten.
    key(&mut q, &mut rng, &code, 10 * 3601 - 1, true);
    assert_eq!((q.count, q.position, q.tone_on), (1, u32::MAX, 0));
    key(&mut q, &mut rng, &code, 1, false);
    assert_eq!((q.count, q.position, q.tone_on, q.cycle), (1, 0, 1, 0));
}

#[test]
fn question_mark_restarts_at_the_end() {
    let code = [0xffu8];
    let mut q = QuestionMark { tone_on: 1, cycle: 0, count: 0, position: 0, seed: 0 };
    let mut rng = Random::new();
    key(&mut q, &mut rng, &code, 10 * 3601, true);
    assert_eq!((q.count, q.position, q.tone_on), (100, u32::MAX, 0));
}

fn granular_tables() -> (Vec<u16>, Vec<u16>) {
    let rates: Vec<u16> = (0..256u32).map(|i| (64 * (i + 1)) as u16).collect();
    let envelope: Vec<u16> = (0..513u32).map(|i| (i * 256).min(65535) as u16).collect();
    (rates, envelope)
}

#[test]
fn granular_cloud_first_block_starts_three_grains() {
    let (rates, envelope) = granular_tables();
    let mut cloud = GranularCloud::new();
    let mut rng = Random::new();
    let mut buffer = [0i16; 24];
    cloud.render(&mut rng, 0x0123_4567, 16384, 8192, &rates, &envelope, &mut buffer, 24);
    assert_eq!(&buffer[..4], &[3, 20, 49, 87]);
    assert_eq!(buffer[23], 2942);
    // The rate at index 128 (64 * 129) times 8; each grain detuned at random.
    assert_eq!(cloud.grains[0], Grain { phase: 488552352, increment: 20356348, envelope_phase: 1585152, envelope_increment: 66048 });
    assert_eq!(cloud.grains[1], Grain { phase: 0, increment: 0, envelope_phase: 0, envelope_increment: 0 });
    assert_eq!(cloud.grains[2].increment, 20878303);
    assert_eq!(cloud.grains[3].increment, 18044833);
}

#[test]
fn granular_cloud_later_blocks() {
    let (rates, envelope) = granular_tables();
    let mut cloud = GranularCloud::new();
    let mut rng = Random::new();
    let mut buffer = [0i16; 24];
    for _ in 0..8 {
        cloud.render(&mut rng, 0x0123_4567, 16384, 8192, &rates, &envelope, &mut buffer, 24);
    }
    assert_eq!(&buffer[..4], &[-26904, -26930, -26934, -26917]);
    assert_eq!(buffer[23], -21756);
    // The second grain started in the fifth block.
    assert_eq!(cloud.grains[1], Grain { phase: 1982842368, increment: 20654608, envelope_phase: 6340608, envelope_increment: 66048 });
    assert_eq!(cloud.grains[0].envelope_phase, 12681216);
}

fn noise_scale(step: u16) -> [u16; 257] {
    let mut t = [0u16; 257];
    for i in 0..257 {
        t[i] = (i as u16).wrapping_mul(step);
    }
    t
}

#[test]
fn filtered_noise_low_and_band_pass_blocks() {
    let scale = noise_scale(256);
    let mut filter = FilteredNoise::new();
    let mut rng = Random::new();
    let mut buffer = [0i16; 24];
    assert!(filter.fits(&rng, 60 << 7, 8192, 8192, &scale, 24));
    filter.render(&mut rng, 60 << 7, 8192, 8192, &scale, &mut buffer, 24);
    assert_eq!(&buffer[..4], &[141, 300, 543, 481]);
    assert_eq!(buffer[23], 454);
    assert_eq!((filter.lp, filter.bp), (235, 206));
    for _ in 0..3 {
        filter.render(&mut rng, 60 << 7, 8192, 8192, &scale, &mut buffer, 24);
    }
    assert_eq!(&buffer[..4], &[1637, 1780, 1902, 1666]);
    assert_eq!((filter.lp, filter.bp), (954, 813));
}

#[test]
fn filtered_noise_high_pass_blocks() {
    let scale = noise_scale(256);
    let mut filter = FilteredNoise::new();
    let mut rng = Random::new();
    let mut buffer = [0i16; 24];
    filter.render(&mut rng, 100 << 7, 16384, 24000, &scale, &mut buffer, 24);
    assert_eq!(&buffer[..3], &[9184, 10936, 16153]);
    assert_eq!(buffer[23], -16675);
    assert_eq!((filter.lp, filter.bp), (-3095, -9058));
}

#[test]
fn filtered_noise_gain_correction_where_the_cutoff_passes_the_scale() {
    // Scale 1024 under cutoff 5648: the output is scaled by 5940 / 32768.
    let scale = noise_scale(8);
    let mut filter = FilteredNoise::new();
    let mut rng = Random::new();
    let mut buffer = [0i16; 24];
    filter.render(&mut rng, 100 << 7, 16384, 24000, &scale, &mut buffer, 24);
    assert_eq!(&buffer[..4], &[1705, 2053, 3174, -237]);
    assert_eq!(buffer[23], -3299);
}

#[test]
fn filtered_noise_runaway_band_pass_does_not_fit() {
    let scale = noise_scale(256);
    let filter = FilteredNoise { lp: 0, bp: 2_000_000_000 };
    let rng = Random::new();
    assert!(!filter.fits(&rng, 60 << 7, 8192, 8192, &scale, 4));
    assert!(filter.fits(&rng, 60 << 7, 8192, 8192, &scale, 0));
}
