//! A macro-oscillator running entirely in fixed point: the pitch tables and
//! per-block ramps, the band-limited "analog" waveforms, the digital models
//! (some of them driven by the macro-oscillator, the others reading curves
//! and waveforms that their callers hand them), and the helpers used around
//! them (quantizer, envelope, excitation, state-variable filter, waveshaper,
//! pitch drift).

pub mod resources;
pub mod dsp;
pub mod excitation;
pub mod envelope;
pub mod svf;
pub mod shapes;
pub mod random;
pub mod vco_jitter_source;
pub mod signature_waveshaper;
pub mod quantizer;
pub mod analog_oscillator;
pub mod plucked;
pub mod modulation;
pub mod noise;
pub mod harmonics;
pub mod formant;
pub mod drums;
pub mod digital_oscillator;
pub mod macro_oscillator;
pub mod vowel;
pub mod vosim;
pub mod fm;
pub mod resonators;
pub mod waveguide;
pub mod bowed;
pub mod fluted;
pub mod blown;
pub mod wavetable;
pub mod question_mark;
pub mod granular;
pub mod filtered_noise;
