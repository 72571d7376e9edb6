//! The macro-oscillator: routes each macro shape to one, two or three analog
//! voices (mixed and post-processed) or to a digital model.
use vstd::prelude::*;
use crate::bits::{lemma_i16_shr, lemma_i32_shl, lemma_i32_shr, lemma_i64_shr};
use crate::fixed::{
    clip16_sym, clip16_sym_spec, interpolate_824_u16, interpolate_824_u16_spec, interpolate_88_i16,
    interpolate_88_i16_spec, mix_i16, mix_i16_spec,
};
use super::analog_oscillator::{
    block_end, block_sample, block_sync, lemma_param_ramp_value, lemma_xfade_bound, param_at,
    AnalogOscillator,
};
use super::digital_oscillator::{divides_by_size, renders_in_pairs, renders_model, smoothed_pitch, DigitalOscillator};
use super::dsp::ParamRamp;
use super::resources::{LUT_SVF_CUTOFF, WS_VIOLENT_OVERDRIVE};
use super::shapes::{AnalogOscillatorShape, DigitalModel, MacroOscillatorShape};

verus! {

/// The largest block `render` accepts.
pub const MAX_BLOCK_SIZE: usize = 24;

/// The digital model a macro shape selects directly, if this oscillator
/// renders it.
pub open spec fn digital_model(shape: MacroOscillatorShape) -> Option<DigitalModel> {
    match shape {
        MacroOscillatorShape::TripleRingMod => Some(DigitalModel::TripleRingMod),
        MacroOscillatorShape::SawSwarm => Some(DigitalModel::SawSwarm),
        MacroOscillatorShape::Toy => Some(DigitalModel::Toy),
        MacroOscillatorShape::Fm => Some(DigitalModel::Fm),
        MacroOscillatorShape::FeedbackFm => Some(DigitalModel::FeedbackFm),
        MacroOscillatorShape::ChaoticFeedbackFm => Some(DigitalModel::ChaoticFeedbackFm),
        MacroOscillatorShape::DigitalFilterLp => Some(DigitalModel::DigitalFilterLp),
        MacroOscillatorShape::DigitalFilterPk => Some(DigitalModel::DigitalFilterPk),
        MacroOscillatorShape::DigitalFilterBp => Some(DigitalModel::DigitalFilterBp),
        MacroOscillatorShape::DigitalFilterHp => Some(DigitalModel::DigitalFilterHp),
        MacroOscillatorShape::StruckDrum => Some(DigitalModel::StruckDrum),
        MacroOscillatorShape::StruckBell => Some(DigitalModel::StruckBell),
        MacroOscillatorShape::Plucked => Some(DigitalModel::Plucked),
        MacroOscillatorShape::DigitalModulation => Some(DigitalModel::DigitalModulation),
        MacroOscillatorShape::ClockedNoise => Some(DigitalModel::ClockedNoise),
        MacroOscillatorShape::Harmonics => Some(DigitalModel::Harmonics),
        MacroOscillatorShape::VowelFof => Some(DigitalModel::VowelFof),
        MacroOscillatorShape::Kick => Some(DigitalModel::Kick),
        MacroOscillatorShape::Snare => Some(DigitalModel::Snare),
        MacroOscillatorShape::Cymbal => Some(DigitalModel::Cymbal),
        _ => None,
    }
}

/// Whether this oscillator renders the macro shape: every shape made of
/// analog voices, the saw-comb, and the digital models it supports.
pub open spec fn renders_shape(shape: MacroOscillatorShape) -> bool {
    ||| shape == MacroOscillatorShape::Csaw
    ||| shape == MacroOscillatorShape::Morph
    ||| shape == MacroOscillatorShape::SawSquare
    ||| shape == MacroOscillatorShape::SineTriangle
    ||| shape == MacroOscillatorShape::Buzz
    ||| shape == MacroOscillatorShape::SquareSub
    ||| shape == MacroOscillatorShape::SawSub
    ||| shape == MacroOscillatorShape::SquareSync
    ||| shape == MacroOscillatorShape::SawSync
    ||| shape == MacroOscillatorShape::TripleSaw
    ||| shape == MacroOscillatorShape::TripleSquare
    ||| shape == MacroOscillatorShape::TripleTriangle
    ||| shape == MacroOscillatorShape::TripleSine
    ||| shape == MacroOscillatorShape::SawComb
    ||| digital_model(shape) is Some
}

/// Whether the shape renders an empty block (the others divide by the block
/// size).
pub open spec fn renders_empty_block(shape: MacroOscillatorShape) -> bool {
    ||| shape == MacroOscillatorShape::Buzz
    ||| shape == MacroOscillatorShape::StruckBell
    ||| shape == MacroOscillatorShape::Plucked
    ||| shape == MacroOscillatorShape::DigitalModulation
    ||| shape == MacroOscillatorShape::ClockedNoise
    ||| shape == MacroOscillatorShape::Harmonics
    ||| shape == MacroOscillatorShape::VowelFof
    ||| shape == MacroOscillatorShape::Kick
    ||| shape == MacroOscillatorShape::Snare
    ||| shape == MacroOscillatorShape::Cymbal
    ||| shape == MacroOscillatorShape::TripleRingMod
    ||| shape == MacroOscillatorShape::SawSwarm
    ||| shape == MacroOscillatorShape::Toy
}

/// Whether the shape renders a block of odd size (the others render in
/// pairs of samples).
pub open spec fn renders_odd_block(shape: MacroOscillatorShape) -> bool {
    shape != MacroOscillatorShape::StruckDrum && shape != MacroOscillatorShape::StruckBell
        && shape != MacroOscillatorShape::Plucked && shape != MacroOscillatorShape::Harmonics
        && shape != MacroOscillatorShape::VowelFof && shape != MacroOscillatorShape::Kick
        && shape != MacroOscillatorShape::Snare
}

/// A pitch moved by `offset`, wrapped to 16 bits.
pub open spec fn offset_pitch(pitch: i16, offset: int) -> i16 {
    (pitch as int + offset) as i16
}

/// The "CS" saw's output level: lifted by the notch depth and scaled by
/// 13/8 (wrapped to 16 bits).
pub open spec fn csaw_level(sample: i16, p1: i16) -> i16 {
    let shift = (((32767 - p1 as int) as i32) >> 4i32) as i16;
    ((((sample as int + shift as int) * 13) as i32) >> 3i32) as i16
}

/// Two buzz voices, each at half level.
pub open spec fn buzz_pair(a: i16, b: i16) -> i16 {
    (a >> 1i16).wrapping_add(b >> 1i16)
}


/// How a two-voice shape mixes its voices under the ramped second parameter.
#[derive(Clone, Copy, PartialEq, Eq, Structural)]
pub enum MixKind {
    /// Saw and attenuated square, balanced by the parameter.
    SawSquare,
    /// Sine fold and triangle fold, balanced by the parameter.
    SineTriangle,
    /// Voice and sub-octave square, the sub loudest at either end.
    Sub,
    /// Master and synced slave, balanced by the parameter, at 3/4 level.
    Sync,
}

/// One mixed sample of a two-voice shape at the ramped parameter `p`.
pub open spec fn ramp_mix(kind: MixKind, a: i16, b: i16, p: i32) -> i16 {
    let balance = (p << 1i32) as u16;
    match kind {
        MixKind::SawSquare => mix_i16_spec(a, ((((b as int) * 148) as i32) >> 8i32) as i16, balance),
        MixKind::SineTriangle => mix_i16_spec(a, b, balance),
        MixKind::Sub => mix_i16_spec(a, b, (((if p < 16384 { 16383 - p } else { p - 16384 }) as i32) << 1i32) as u16),
        MixKind::Sync => ((((mix_i16_spec(a, b, balance) as i32) >> 2i32) as int * 3) as i16),
    }
}

/// The sync shapes' mix is three quarters of the two-voice balance: master
/// and synced slave mixed by twice the ramped second parameter, exactly as
/// the balanced (sine/triangle) mix of the same voices, then taken to 3/4.
pub proof fn lemma_sync_mix_is_three_quarters_of_balance(a: i16, b: i16, p: i32)
    ensures
        ramp_mix(MixKind::Sync, a, b, p) as int == 3 * ((ramp_mix(MixKind::SineTriangle, a, b, p) as int) / 4),
        ramp_mix(MixKind::SineTriangle, a, b, p) == mix_i16_spec(a, b, (p << 1i32) as u16),
{
    let m = mix_i16_spec(a, b, (p << 1i32) as u16);
    lemma_i32_shr(m as i32);
}

/// With the second parameter at its top the sync shapes put out three
/// quarters of the synced slave (within rounding), whatever the master: the
/// slave is what is heard.
pub proof fn lemma_sync_full_balance_is_the_slave(a: i16, b: i16)
    ensures
        3 * (b as int) - 15 <= 4 * (ramp_mix(MixKind::Sync, a, b, 32767) as int) <= 3 * (b as int) + 3,
{
    lemma_i32_shl(32767i32);
    let w: u16 = 65534;
    assert(((32767i32 << 1i32) as u16) == w);
    let v: int = (a as int) * 1 + (b as int) * 65534;
    assert((a as i32) * (65535 - w as i32) + (b as i32) * (w as i32) == v);
    let vi = v as i32;
    lemma_i32_shr(vi);
    let m = (vi >> 16i32) as i16;
    assert(m as int == (vi >> 16i32) as int);
    assert(mix_i16_spec(a, b, w) == m);
    lemma_i32_shr(m as i32);
    assert(ramp_mix(MixKind::Sync, a, b, 32767) == ((((m as i32) >> 2i32) as int * 3) as i16));
}

/// The ramp of the second parameter over a block of `size` samples, at
/// sample `k`.
pub open spec fn second_parameter_at(start: i16, target: i16, size: nat, k: nat) -> i32 {
    param_at(start as i32, (target - start) as i32, (32767int / (size as i32 as int)) as i32, k)
}

/// Mixes `temp` into `buffer` with the second parameter ramped from `start`
/// to `target`.
fn mix_ramped(buffer: &mut [i16], temp: &[i16; 24], size: usize, start: i16, target: i16, kind: MixKind)
    requires
        1 <= size <= 24,
        size <= old(buffer)@.len(),
    ensures
        final(buffer)@.len() == old(buffer)@.len(),
        forall|k: int| 0 <= k < size ==> #[trigger] final(buffer)@[k]
            == ramp_mix(kind, old(buffer)@[k], temp@[k], second_parameter_at(start, target, size as nat, k as nat)),
        forall|k: int| size <= k < old(buffer)@.len() ==> #[trigger] final(buffer)@[k] == old(buffer)@[k],
{
    let mut ramp = ParamRamp::new(start as i32, target as i32, size);
    let mut i: usize = 0;
    while i < size
        invariant
            i <= size,
            1 <= size <= 24,
            buffer@.len() == old(buffer)@.len(),
            size <= buffer@.len(),
            ramp.start() == start as i32,
            ramp.delta() == (target - start) as i32,
            ramp.increment() == 32767int / (size as i32 as int),
            ramp.xfade() == i * ramp.increment(),
            forall|k: int| 0 <= k < i ==> #[trigger] buffer@[k]
                == ramp_mix(kind, old(buffer)@[k], temp@[k], second_parameter_at(start, target, size as nat, k as nat)),
            forall|k: int| i <= k < buffer@.len() ==> #[trigger] buffer@[k] == old(buffer)@[k],
        decreases size - i,
    {
        proof {
            lemma_xfade_bound(i as int + 1, size as int, ramp.increment() as int);
            let inc = ramp.increment() as int;
            assert(i * inc + inc == (i + 1) * inc) by (nonlinear_arith);
            lemma_param_ramp_value(ramp.delta(), (ramp.xfade() + ramp.increment()) as i32);
        }
        let p = ramp.next();
        proof {
            lemma_i32_shl(p);
        }
        let g = if p < 16384 { 16383 - p } else { p - 16384 };
        proof {
            lemma_i32_shl(g);
        }
        let a = buffer[i];
        let b = temp[i];
        let balance = (p << 1) as u16;
        let out: i16 = match kind {
            MixKind::SawSquare => mix_i16(a, ((b as i32 * 148) >> 8) as i16, balance),
            MixKind::SineTriangle => mix_i16(a, b, balance),
            MixKind::Sub => mix_i16(a, b, (g << 1) as u16),
            MixKind::Sync => {
                let m = mix_i16(a, b, balance) as i32;
                proof { lemma_i32_shr(m); }
                ((m >> 2) * 3) as i16
            },
        };
        buffer[i] = out;
        i += 1;
    }
}


/// The attenuation of a fold's timbre at high pitches: full up to `knee`,
/// falling by `slope` per unit of pitch above it, never below 0.
pub open spec fn fold_attenuation(pitch: i16, knee: int, slope: int) -> int {
    let a = 32767 - slope * (pitch as int - knee);
    if a < 0 { 0 } else if a > 32767 { 32767 } else { a }
}


/// The detune intervals of the triple shapes (1/128 semitone), indexed by
/// the top six bits of a parameter: two octaves down to two octaves up,
/// with slightly detuned unisons, fifths and octaves.
pub const INTERVALS: [i16; 65] = [
    -3072, -3072, -3068, -2944, -2816, -2688, -2560, -2432, -2304, -2180, -2176, -2048, -1920,
    -1792, -1664, -1540, -1536, -1408, -1280, -1152, -1024, -900, -896, -768, -640, -512, -384,
    -256, -128, -24, -8, -4, 0, 4, 8, 24, 128, 256, 384, 512, 640, 768, 896, 900, 1024, 1152,
    1280, 1408, 1536, 1540, 1664, 1792, 1920, 2048, 2176, 2180, 2304, 2432, 2560, 2688, 2816,
    2944, 3068, 3072, 3072,
];

/// The detune a (non-negative) parameter selects: interpolated between the
/// interval at its top six bits and the nearest one.
pub open spec fn triple_detune(p: i16) -> int {
    let d1 = INTERVALS@[(p >> 9i16) as int] as int;
    let d2 = INTERVALS@[(((p >> 8i16) + 1) as i16 >> 1i16) as int] as int;
    let xfade = ((p as u32) << 8u32) as u16;
    d1 + ((((d2 - d1) * xfade as int) as i64) >> 16i64) as int
}

/// A voice of the triple shapes at a third of its level (21/64).
pub open spec fn third(s: i16) -> i16 {
    ((((s as int) * 21) as i32) >> 6i32) as i16
}

/// The triple shapes' output: the three voices at a third each.
pub open spec fn triple_mix(a: i16, b: i16, c: i16) -> i16 {
    0i16.wrapping_add(third(a)).wrapping_add(third(b)).wrapping_add(third(c))
}

/// The detune of a parameter.
fn triple_detune_exec(p: i16) -> (r: i32)
    requires
        p >= 0,
    ensures
        r == triple_detune(p),
        -98303 <= r <= 98302,
{
    proof {
        lemma_i16_shr(p);
        lemma_i16_shr(((p >> 8i16) + 1) as i16);
    }
    let d1 = INTERVALS[(p >> 9) as usize] as i64;
    let d2 = INTERVALS[(((p >> 8) + 1) >> 1) as usize] as i64;
    let xfade = ((p as u32) << 8) as u16;
    proof {
        assert(-65535 * 65535 <= (d2 - d1) * xfade as int <= 65535 * 65535) by (nonlinear_arith)
            requires -65535 <= d2 - d1 <= 65535, 0 <= xfade <= 65535;
        let q = ((d2 - d1) * xfade as int) as i64;
        lemma_i64_shr(q);
    }
    (d1 + (((d2 - d1) * xfade as i64) >> 16)) as i32
}

/// Adds a third of `temp` to `buffer`.
fn add_third(buffer: &mut [i16], temp: &[i16; 24], size: usize)
    requires
        size <= 24,
        size <= old(buffer)@.len(),
    ensures
        final(buffer)@.len() == old(buffer)@.len(),
        forall|k: int| 0 <= k < size ==> #[trigger] final(buffer)@[k] == old(buffer)@[k].wrapping_add(third(temp@[k])),
        forall|k: int| size <= k < old(buffer)@.len() ==> #[trigger] final(buffer)@[k] == old(buffer)@[k],
{
    let mut j: usize = 0;
    while j < size
        invariant
            j <= size,
            size <= 24,
            buffer@.len() == old(buffer)@.len(),
            size <= buffer@.len(),
            forall|k: int| 0 <= k < j ==> #[trigger] buffer@[k] == old(buffer)@[k].wrapping_add(third(temp@[k])),
            forall|k: int| j <= k < buffer@.len() ==> #[trigger] buffer@[k] == old(buffer)@[k],
        decreases size - j,
    {
        buffer[j] = buffer[j].wrapping_add(((temp[j] as i32 * 21) >> 6) as i16);
        j += 1;
    }
}


/// The balance between the morph's two voices for the first parameter.
pub open spec fn morph_balance(p0: i16) -> u16 {
    if p0 <= 10922 {
        (p0 as int * 6) as u16
    } else if p0 <= 21845 {
        (65535 - (p0 as int - 10923) * 6) as u16
    } else {
        0
    }
}

/// The morph's low-pass coefficient: the cutoff follows the pitch and falls
/// with the second parameter.
pub open spec fn morph_coefficient(pitch: i16, p1: i16) -> i32 {
    let c = pitch as int - ((p1 >> 1i16) as int) + 16384;
    let c = if c < 0 { 0 } else if c > 32767 { 32767 } else { c };
    interpolate_824_u16_spec(LUT_SVF_CUTOFF@, ((c as i32) << 17i32) as u32) as i32
}

/// The morph's overdrive amount: twice the second parameter, reduced above
/// note 80 (and then at least 0).
pub open spec fn morph_fuzz(pitch: i16, p1: i16) -> i32 {
    let fuzz = (p1 as int) * 2;
    if pitch > 10240 {
        let f = fuzz - (pitch as int - 10240) * 16;
        (if f < 0 { 0 } else { f }) as i32
    } else {
        fuzz as i32
    }
}

/// The morph's low-pass memory after one more sample.
pub open spec fn morph_lp(lp: i16, sample: i16, f: i32) -> i16 {
    clip16_sym_spec((lp as int + ((((sample as int - lp as int) as i32).wrapping_mul(f)) >> 15i32) as int) as i32) as i16
}

/// The morph's low-pass memory after `k` samples of the two voices `a`
/// and `b`.
pub open spec fn morph_run(lp: i16, a: Seq<i16>, b: Seq<i16>, balance: u16, f: i32, k: nat) -> i16
    decreases k,
{
    if k == 0 { lp } else { morph_lp(morph_run(lp, a, b, balance, f, (k - 1) as nat), mix_i16_spec(a[k - 1], b[k - 1], balance), f) }
}

/// A morph output sample: the voices' mix crossfaded with its filtered,
/// overdriven copy.
pub open spec fn morph_out(sample: i16, lp: i16, fuzz: i32) -> i16 {
    mix_i16_spec(sample, interpolate_88_i16_spec(WS_VIOLENT_OVERDRIVE@, (lp as int + 32768) as u16), fuzz as u16)
}

/// Filters and overdrives the morph's mix of `buffer` and `temp`; returns the
/// low-pass memory.
fn morph_filter(buffer: &mut [i16], temp: &[i16; 24], size: usize, balance: u16, f: i32, fuzz: i32, lp0: i16) -> (lp: i16)
    requires
        size <= 24,
        size <= old(buffer)@.len(),
    ensures
        final(buffer)@.len() == old(buffer)@.len(),
        lp == morph_run(lp0, old(buffer)@, temp@, balance, f, size as nat),
        forall|k: int| 0 <= k < size ==> #[trigger] final(buffer)@[k] == morph_out(
            mix_i16_spec(old(buffer)@[k], temp@[k], balance), morph_run(lp0, old(buffer)@, temp@, balance, f, (k + 1) as nat), fuzz),
        forall|k: int| size <= k < old(buffer)@.len() ==> #[trigger] final(buffer)@[k] == old(buffer)@[k],
{
    let mut lp = lp0;
    let mut i: usize = 0;
    while i < size
        invariant
            i <= size,
            size <= 24,
            buffer@.len() == old(buffer)@.len(),
            size <= buffer@.len(),
            lp == morph_run(lp0, old(buffer)@, temp@, balance, f, i as nat),
            forall|k: int| 0 <= k < i ==> #[trigger] buffer@[k] == morph_out(
                mix_i16_spec(old(buffer)@[k], temp@[k], balance), morph_run(lp0, old(buffer)@, temp@, balance, f, (k + 1) as nat), fuzz),
            forall|k: int| i <= k < buffer@.len() ==> #[trigger] buffer@[k] == old(buffer)@[k],
        decreases size - i,
    {
        let sample = mix_i16(buffer[i], temp[i], balance);
        let d = sample as i32 - lp as i32;
        let w = d.wrapping_mul(f);
        proof {
            lemma_i32_shr(w);
        }
        lp = clip16_sym(lp as i32 + (w >> 15)) as i16;
        let fuzzed = interpolate_88_i16(&WS_VIOLENT_OVERDRIVE, (lp as i32 + 32768) as u16);
        buffer[i] = mix_i16(sample, fuzzed, fuzz as u16);
        i += 1;
    }
    lp
}


/// The low-pass memory depends only on the samples it has seen.
proof fn lemma_morph_run_prefix(lp: i16, a: Seq<i16>, b: Seq<i16>, c: Seq<i16>, d: Seq<i16>, balance: u16, f: i32, k: nat)
    requires
        forall|j: int| 0 <= j < k ==> a[j] == c[j] && b[j] == d[j],
    ensures
        morph_run(lp, a, b, balance, f, k) == morph_run(lp, c, d, balance, f, k),
    decreases k,
{
    if k > 0 {
        lemma_morph_run_prefix(lp, a, b, c, d, balance, f, (k - 1) as nat);
    }
}

pub struct MacroOscillator {
    parameter: [i16; 2],
    previous_parameter: [i16; 2],
    pitch: i16,
    sync_buffer: [u8; 24],
    temp_buffer: [i16; 24],
    lp_state: i16,
    analog_0: AnalogOscillator,
    analog_1: AnalogOscillator,
    analog_2: AnalogOscillator,
    digital: DigitalOscillator,
    shape: MacroOscillatorShape,
}

impl MacroOscillator {
    pub closed spec fn parameter(self, i: int) -> i16 { self.parameter@[i] }
    pub closed spec fn previous_parameter(self, i: int) -> i16 { self.previous_parameter@[i] }
    pub closed spec fn pitch_spec(self) -> i16 { self.pitch }
    pub closed spec fn lp_state(self) -> i16 { self.lp_state }
    pub closed spec fn analog(self, i: int) -> AnalogOscillator {
        if i == 0 { self.analog_0 } else if i == 1 { self.analog_1 } else { self.analog_2 }
    }
    pub closed spec fn digital(self) -> DigitalOscillator { self.digital }
    pub closed spec fn shape_spec(self) -> MacroOscillatorShape { self.shape }

    /// This oscillator with another shape; a new shape strikes the digital
    /// models.
    pub closed spec fn with_shape(self, shape: MacroOscillatorShape) -> Self {
        MacroOscillator {
            shape,
            digital: if shape != self.shape { self.digital.with_strike() } else { self.digital },
            ..self
        }
    }
    /// This oscillator with another pitch.
    pub closed spec fn with_pitch(self, pitch: i16) -> Self { MacroOscillator { pitch, ..self } }
    /// This oscillator with other parameters.
    pub closed spec fn with_parameters(self, p1: i16, p2: i16) -> Self { MacroOscillator { parameter: [p1, p2], ..self } }
    /// This oscillator, its digital models struck.
    pub closed spec fn with_strike(self) -> Self { MacroOscillator { digital: self.digital.with_strike(), ..self } }

    /// Another shape keeps the pitch, the parameters, the voices and the
    /// filter; the digital models are struck when the shape changes.
    pub proof fn lemma_with_shape(self, shape: MacroOscillatorShape)
        ensures
            ({
                let o = self.with_shape(shape);
                &&& o.shape_spec() == shape
                &&& o.pitch_spec() == self.pitch_spec()
                &&& o.parameter(0) == self.parameter(0) && o.parameter(1) == self.parameter(1)
                &&& o.previous_parameter(0) == self.previous_parameter(0) && o.previous_parameter(1) == self.previous_parameter(1)
                &&& o.lp_state() == self.lp_state()
                &&& forall|i: int| #[trigger] o.analog(i) == self.analog(i)
                &&& o.digital() == (if shape != self.shape_spec() { self.digital().with_strike() } else { self.digital() })
            }),
    {
    }

    /// Another pitch changes nothing else.
    pub proof fn lemma_with_pitch(self, pitch: i16)
        ensures
            ({
                let o = self.with_pitch(pitch);
                &&& o.pitch_spec() == pitch
                &&& o.shape_spec() == self.shape_spec()
                &&& o.parameter(0) == self.parameter(0) && o.parameter(1) == self.parameter(1)
                &&& o.previous_parameter(0) == self.previous_parameter(0) && o.previous_parameter(1) == self.previous_parameter(1)
                &&& o.lp_state() == self.lp_state()
                &&& forall|i: int| #[trigger] o.analog(i) == self.analog(i)
                &&& o.digital() == self.digital()
            }),
    {
    }

    /// Other parameters change nothing else.
    pub proof fn lemma_with_parameters(self, p1: i16, p2: i16)
        ensures
            ({
                let o = self.with_parameters(p1, p2);
                &&& o.parameter(0) == p1 && o.parameter(1) == p2
                &&& o.pitch_spec() == self.pitch_spec()
                &&& o.shape_spec() == self.shape_spec()
                &&& o.previous_parameter(0) == self.previous_parameter(0) && o.previous_parameter(1) == self.previous_parameter(1)
                &&& o.lp_state() == self.lp_state()
                &&& forall|i: int| #[trigger] o.analog(i) == self.analog(i)
                &&& o.digital() == self.digital()
            }),
    {
    }

    /// Initialising resets every voice, clears the digital models, the
    /// filter and the previous parameters, and keeps the shape, the pitch
    /// and the parameters.
    pub proof fn lemma_initialized(self)
        ensures
            ({
                let o = self.initialized();
                &&& forall|i: int| 0 <= i < 3 ==> #[trigger] o.analog(i) == self.analog(i).initialized()
                &&& o.digital() == self.digital().cleared()
                &&& o.lp_state() == 0
                &&& o.previous_parameter(0) == 0 && o.previous_parameter(1) == 0
                &&& o.shape_spec() == self.shape_spec()
                &&& o.pitch_spec() == self.pitch_spec()
                &&& o.parameter(0) == self.parameter(0) && o.parameter(1) == self.parameter(1)
            }),
    {
    }

    /// Whether the clocked noise has levels to quantize to, computed: the
    /// second parameter as the digital models would hold it is not negative.
    pub fn noise_levels_ok_now(&self) -> (r: bool)
        ensures
            r == self.noise_levels_ok(),
    {
        let held = self.digital.held_second_parameter(self.parameter[1]);
        proof {
            self.digital.lemma_clock_levels(self.parameter@[0], self.parameter@[1],
                smoothed_pitch(self.digital.pitch(), self.pitch), DigitalModel::ClockedNoise);
        }
        held >= 0
    }

    /// Whether the next block of `size` samples of the drum shape (the bass
    /// drum, the snare, or else the cymbal) stays within 32 bits, computed by
    /// running it on copies of the state (see `drum_fits`).
    pub fn drum_fits_now(&self, size: usize) -> (r: bool)
        ensures
            r == self.drum_fits(size as nat),
    {
        match self.shape {
            MacroOscillatorShape::Kick => self.digital.kick_fits(self.parameter[0], self.parameter[1], self.pitch, size),
            MacroOscillatorShape::Snare => self.digital.snare_fits(self.parameter[0], self.parameter[1], self.pitch, size),
            _ => self.digital.cymbal_fits(self.parameter[0], self.parameter[1], self.pitch, size),
        }
    }

    /// A "CS" saw at pitch 0 with its voices initialised.
    pub fn new() -> (r: Self)
        ensures
            r.shape_spec() == MacroOscillatorShape::Csaw,
            r.pitch_spec() == 0,
            r.parameter(0) == 0 && r.parameter(1) == 0,
            r.previous_parameter(0) == 0 && r.previous_parameter(1) == 0,
            r.lp_state() == 0,
            r.analog(0).is_reset() && r.analog(1).is_reset() && r.analog(2).is_reset(),
            r.digital().state_is_clear(),
    {
        let mut r = MacroOscillator {
            parameter: [0, 0],
            previous_parameter: [0, 0],
            pitch: 0,
            sync_buffer: [0; 24],
            temp_buffer: [0; 24],
            lp_state: 0,
            analog_0: AnalogOscillator::new(),
            analog_1: AnalogOscillator::new(),
            analog_2: AnalogOscillator::new(),
            digital: DigitalOscillator::new(),
            shape: MacroOscillatorShape::Csaw,
        };
        r.init();
        r
    }

    /// This oscillator as `init` leaves it.
    pub closed spec fn initialized(self) -> Self {
        MacroOscillator {
            analog_0: self.analog_0.initialized(),
            analog_1: self.analog_1.initialized(),
            analog_2: self.analog_2.initialized(),
            digital: self.digital.cleared(),
            lp_state: 0,
            previous_parameter: [0, 0],
            ..self
        }
    }

    /// Initialises the voices, the filter state and the previous parameters.
    pub fn init(&mut self)
        ensures
            *final(self) == old(self).initialized(),
            final(self).analog(0).is_reset() && final(self).analog(1).is_reset() && final(self).analog(2).is_reset(),
            final(self).digital().state_is_clear(),
    {
        self.analog_0.init();
        self.analog_1.init();
        self.analog_2.init();
        self.digital.init();
        self.lp_state = 0;
        self.previous_parameter = [0, 0];
    }

    /// Selects the shape; a new shape strikes the digital models.
    pub fn set_shape(&mut self, shape: MacroOscillatorShape)
        ensures
            *final(self) == old(self).with_shape(shape),
    {
        if shape != self.shape {
            self.strike();
        }
        self.shape = shape;
    }

    /// The selected shape.
    pub fn shape(&self) -> (r: MacroOscillatorShape)
        ensures
            r == self.shape_spec(),
    {
        self.shape
    }

    /// Sets the pitch (MIDI note times 128).
    pub fn set_pitch(&mut self, pitch: i16)
        ensures
            *final(self) == old(self).with_pitch(pitch),
    {
        self.pitch = pitch;
    }

    /// The pitch.
    pub fn pitch(&self) -> (r: i16)
        ensures
            r == self.pitch_spec(),
    {
        self.pitch
    }

    /// Sets the two timbre parameters.
    pub fn set_parameters(&mut self, parameter_1: i16, parameter_2: i16)
        ensures
            *final(self) == old(self).with_parameters(parameter_1, parameter_2),
    {
        self.parameter = [parameter_1, parameter_2];
    }

    /// Strikes the digital models (restarts the percussive ones).
    pub fn strike(&mut self)
        ensures
            *final(self) == old(self).with_strike(),
    {
        self.digital.strike();
    }

    /// The first voice as the "CS" saw uses it.
    pub closed spec fn csaw_voice(self) -> AnalogOscillator {
        self.analog_0.with_pitch(self.pitch).with_shape(AnalogOscillatorShape::Csaw)
            .with_parameter(self.parameter@[0]).with_aux_parameter(self.parameter@[1])
    }

    fn render_csaw(&mut self, sync: &[u8], buffer: &mut [i16], size: usize)
        requires
            1 <= size <= 24,
            size <= sync@.len(),
            size <= old(buffer)@.len(),
        ensures
            final(buffer)@.len() == old(buffer)@.len(),
            forall|k: int| 0 <= k < size ==> #[trigger] final(buffer)@[k]
                == csaw_level(block_sample(old(self).csaw_voice().prepared(), sync@, size as nat, k as nat), old(self).parameter(1)),
            forall|k: int| size <= k < old(buffer)@.len() ==> #[trigger] final(buffer)@[k] == old(buffer)@[k],
            *final(self) == (MacroOscillator { analog_0: block_end(old(self).csaw_voice().prepared(), sync@, size as nat), ..*old(self) }),
    {
        let ghost o = *self;
        self.analog_0.set_pitch(self.pitch);
        self.analog_0.set_shape(AnalogOscillatorShape::Csaw);
        self.analog_0.set_parameter(self.parameter[0]);
        self.analog_0.set_aux_parameter(self.parameter[1]);
        self.analog_0.render(sync, buffer, None, size);
        let ghost rendered = buffer@;
        let d = 32767 - self.parameter[1] as i32;
        let shift = (d >> 4) as i16;
        proof {
            lemma_i32_shr(d);
        }
        let mut i: usize = 0;
        while i < size
            invariant
                i <= size,
                size <= buffer@.len(),
                buffer@.len() == rendered.len(),
                shift == (((32767 - o.parameter@[1] as int) as i32) >> 4i32) as i16,
                0 <= shift <= 4095,
                forall|k: int| 0 <= k < i ==> #[trigger] buffer@[k] == csaw_level(rendered[k], o.parameter@[1]),
                forall|k: int| i <= k < buffer@.len() ==> #[trigger] buffer@[k] == rendered[k],
            decreases size - i,
        {
            let s = buffer[i] as i32 + shift as i32;
            buffer[i] = ((s * 13) >> 3) as i16;
            i += 1;
        }
    }

    /// The two buzz voices: the second detuned by the second parameter.
    pub closed spec fn buzz_voices(self) -> (AnalogOscillator, AnalogOscillator) {
        (
            self.analog_0.with_parameter(self.parameter@[0]).with_shape(AnalogOscillatorShape::Buzz).with_pitch(self.pitch),
            self.analog_1.with_parameter(self.parameter@[0]).with_shape(AnalogOscillatorShape::Buzz)
                .with_pitch(offset_pitch(self.pitch, (self.parameter@[1] >> 8i16) as int)),
        )
    }

    fn render_buzz(&mut self, sync: &[u8], buffer: &mut [i16], size: usize)
        requires
            size <= 24,
            size <= sync@.len(),
            size <= old(buffer)@.len(),
        ensures
            final(buffer)@.len() == old(buffer)@.len(),
            ({
                let (v0, v1) = old(self).buzz_voices();
                &&& forall|k: int| 0 <= k < size ==> #[trigger] final(buffer)@[k]
                    == buzz_pair(block_sample(v0.prepared(), sync@, size as nat, k as nat), block_sample(v1.prepared(), sync@, size as nat, k as nat))
                &&& forall|k: int| size <= k < old(buffer)@.len() ==> #[trigger] final(buffer)@[k] == old(buffer)@[k]
                &&& *final(self) == (MacroOscillator {
                    analog_0: block_end(v0.prepared(), sync@, size as nat),
                    analog_1: block_end(v1.prepared(), sync@, size as nat),
                    temp_buffer: final(self).temp_buffer,
                    ..*old(self)
                })
            }),
    {
        let ghost o = *self;
        self.analog_0.set_parameter(self.parameter[0]);
        self.analog_0.set_shape(AnalogOscillatorShape::Buzz);
        self.analog_0.set_pitch(self.pitch);
        self.analog_1.set_parameter(self.parameter[0]);
        self.analog_1.set_shape(AnalogOscillatorShape::Buzz);
        self.analog_1.set_pitch((self.pitch as i32 + (self.parameter[1] >> 8) as i32) as i16);
        self.analog_0.render(sync, buffer, None, size);
        self.analog_1.render(sync, &mut self.temp_buffer, None, size);
        let ghost first = buffer@;
        let mut i: usize = 0;
        while i < size
            invariant
                i <= size,
                size <= 24,
                size <= buffer@.len(),
                buffer@.len() == first.len(),
                forall|k: int| 0 <= k < i ==> #[trigger] buffer@[k] == buzz_pair(first[k], self.temp_buffer@[k]),
                forall|k: int| i <= k < buffer@.len() ==> #[trigger] buffer@[k] == first[k],
            decreases size - i,
        {
            buffer[i] = (buffer[i] >> 1).wrapping_add(self.temp_buffer[i] >> 1);
            i += 1;
        }
    }
    /// Renders the first two voices as configured and mixes them.
    fn render_two(&mut self, sync: &[u8], buffer: &mut [i16], size: usize, kind: MixKind)
        requires
            1 <= size <= 24,
            size <= sync@.len(),
            size <= old(buffer)@.len(),
        ensures
            final(buffer)@.len() == old(buffer)@.len(),
            ({
                let o = *old(self);
                &&& forall|k: int| 0 <= k < size ==> #[trigger] final(buffer)@[k] == ramp_mix(kind,
                    block_sample(o.analog_0.prepared(), sync@, size as nat, k as nat),
                    block_sample(o.analog_1.prepared(), sync@, size as nat, k as nat),
                    second_parameter_at(o.previous_parameter@[1], o.parameter@[1], size as nat, k as nat))
                &&& forall|k: int| size <= k < old(buffer)@.len() ==> #[trigger] final(buffer)@[k] == old(buffer)@[k]
                &&& *final(self) == (MacroOscillator {
                    analog_0: block_end(o.analog_0.prepared(), sync@, size as nat),
                    analog_1: block_end(o.analog_1.prepared(), sync@, size as nat),
                    temp_buffer: final(self).temp_buffer,
                    previous_parameter: [o.previous_parameter@[0], o.parameter@[1]],
                    ..o
                })
            }),
    {
        self.analog_0.render(sync, buffer, None, size);
        self.analog_1.render(sync, &mut self.temp_buffer, None, size);
        mix_ramped(buffer, &self.temp_buffer, size, self.previous_parameter[1], self.parameter[1], kind);
        self.previous_parameter = [self.previous_parameter[0], self.parameter[1]];
    }

    /// The saw-square voices: a variable saw and a square, both shaped by
    /// the first parameter.
    pub closed spec fn saw_square_voices(self) -> Self {
        MacroOscillator {
            analog_0: self.analog_0.with_parameter(self.parameter@[0]).with_pitch(self.pitch).with_shape(AnalogOscillatorShape::VariableSaw),
            analog_1: self.analog_1.with_parameter(self.parameter@[0]).with_pitch(self.pitch).with_shape(AnalogOscillatorShape::Square),
            ..self
        }
    }

    fn render_saw_square(&mut self, sync: &[u8], buffer: &mut [i16], size: usize)
        requires
            1 <= size <= 24,
            size <= sync@.len(),
            size <= old(buffer)@.len(),
        ensures
            final(buffer)@.len() == old(buffer)@.len(),
            ({
                let o = old(self).saw_square_voices();
                &&& forall|k: int| 0 <= k < size ==> #[trigger] final(buffer)@[k] == ramp_mix(MixKind::SawSquare,
                    block_sample(o.analog_0.prepared(), sync@, size as nat, k as nat),
                    block_sample(o.analog_1.prepared(), sync@, size as nat, k as nat),
                    second_parameter_at(o.previous_parameter@[1], o.parameter@[1], size as nat, k as nat))
                &&& forall|k: int| size <= k < old(buffer)@.len() ==> #[trigger] final(buffer)@[k] == old(buffer)@[k]
                &&& *final(self) == (MacroOscillator {
                    analog_0: block_end(o.analog_0.prepared(), sync@, size as nat),
                    analog_1: block_end(o.analog_1.prepared(), sync@, size as nat),
                    temp_buffer: final(self).temp_buffer,
                    previous_parameter: [o.previous_parameter@[0], o.parameter@[1]],
                    ..o
                })
            }),
    {
        self.analog_0.set_parameter(self.parameter[0]);
        self.analog_1.set_parameter(self.parameter[0]);
        self.analog_0.set_pitch(self.pitch);
        self.analog_1.set_pitch(self.pitch);
        self.analog_0.set_shape(AnalogOscillatorShape::VariableSaw);
        self.analog_1.set_shape(AnalogOscillatorShape::Square);
        self.render_two(sync, buffer, size, MixKind::SawSquare);
    }

    /// The sine-triangle voices: a sine fold and a triangle fold, their
    /// timbre attenuated at high pitches (above notes 92 and 80).
    pub closed spec fn sine_triangle_voices(self) -> Self {
        let timbre = self.parameter@[0] as int;
        let sine = (((timbre * fold_attenuation(self.pitch, 11776, 6)) as i32) >> 15i32) as i16;
        let tri = (((timbre * fold_attenuation(self.pitch, 10240, 7)) as i32) >> 15i32) as i16;
        MacroOscillator {
            analog_0: self.analog_0.with_parameter(sine).with_pitch(self.pitch).with_shape(AnalogOscillatorShape::SineFold),
            analog_1: self.analog_1.with_parameter(tri).with_pitch(self.pitch).with_shape(AnalogOscillatorShape::TriangleFold),
            ..self
        }
    }

    fn render_sine_triangle(&mut self, sync: &[u8], buffer: &mut [i16], size: usize)
        requires
            1 <= size <= 24,
            size <= sync@.len(),
            size <= old(buffer)@.len(),
        ensures
            final(buffer)@.len() == old(buffer)@.len(),
            ({
                let o = old(self).sine_triangle_voices();
                &&& forall|k: int| 0 <= k < size ==> #[trigger] final(buffer)@[k] == ramp_mix(MixKind::SineTriangle,
                    block_sample(o.analog_0.prepared(), sync@, size as nat, k as nat),
                    block_sample(o.analog_1.prepared(), sync@, size as nat, k as nat),
                    second_parameter_at(o.previous_parameter@[1], o.parameter@[1], size as nat, k as nat))
                &&& forall|k: int| size <= k < old(buffer)@.len() ==> #[trigger] final(buffer)@[k] == old(buffer)@[k]
                &&& *final(self) == (MacroOscillator {
                    analog_0: block_end(o.analog_0.prepared(), sync@, size as nat),
                    analog_1: block_end(o.analog_1.prepared(), sync@, size as nat),
                    temp_buffer: final(self).temp_buffer,
                    previous_parameter: [o.previous_parameter@[0], o.parameter@[1]],
                    ..o
                })
            }),
    {
        let mut attenuation_sine = 32767 - 6 * (self.pitch as i32 - 11776);
        let mut attenuation_tri = 32767 - 7 * (self.pitch as i32 - 10240);
        if attenuation_tri < 0 { attenuation_tri = 0; } else if attenuation_tri > 32767 { attenuation_tri = 32767; }
        if attenuation_sine < 0 { attenuation_sine = 0; } else if attenuation_sine > 32767 { attenuation_sine = 32767; }
        let timbre = self.parameter[0] as i32;
        proof {
            assert(-32768 * 32767 <= timbre * attenuation_sine <= 32767 * 32767) by (nonlinear_arith)
                requires -32768 <= timbre <= 32767, 0 <= attenuation_sine <= 32767;
            assert(-32768 * 32767 <= timbre * attenuation_tri <= 32767 * 32767) by (nonlinear_arith)
                requires -32768 <= timbre <= 32767, 0 <= attenuation_tri <= 32767;
        }
        self.analog_0.set_parameter(((timbre * attenuation_sine) >> 15) as i16);
        self.analog_1.set_parameter(((timbre * attenuation_tri) >> 15) as i16);
        self.analog_0.set_pitch(self.pitch);
        self.analog_1.set_pitch(self.pitch);
        self.analog_0.set_shape(AnalogOscillatorShape::SineFold);
        self.analog_1.set_shape(AnalogOscillatorShape::TriangleFold);
        self.render_two(sync, buffer, size, MixKind::SineTriangle);
    }

    /// The sub voices: the base shape (square or variable saw) shaped by the
    /// first parameter, and a square one or two octaves down.
    pub closed spec fn sub_voices(self, base: AnalogOscillatorShape) -> Self {
        let octave: int = if self.parameter@[1] < 16384 { 3072 } else { 1536 };
        MacroOscillator {
            analog_0: self.analog_0.with_parameter(self.parameter@[0]).with_shape(base).with_pitch(self.pitch),
            analog_1: self.analog_1.with_parameter(0).with_shape(AnalogOscillatorShape::Square).with_pitch(offset_pitch(self.pitch, -octave)),
            ..self
        }
    }

    fn render_sub(&mut self, sync: &[u8], buffer: &mut [i16], size: usize, base: AnalogOscillatorShape)
        requires
            1 <= size <= 24,
            size <= sync@.len(),
            size <= old(buffer)@.len(),
        ensures
            final(buffer)@.len() == old(buffer)@.len(),
            ({
                let o = old(self).sub_voices(base);
                &&& forall|k: int| 0 <= k < size ==> #[trigger] final(buffer)@[k] == ramp_mix(MixKind::Sub,
                    block_sample(o.analog_0.prepared(), sync@, size as nat, k as nat),
                    block_sample(o.analog_1.prepared(), sync@, size as nat, k as nat),
                    second_parameter_at(o.previous_parameter@[1], o.parameter@[1], size as nat, k as nat))
                &&& forall|k: int| size <= k < old(buffer)@.len() ==> #[trigger] final(buffer)@[k] == old(buffer)@[k]
                &&& *final(self) == (MacroOscillator {
                    analog_0: block_end(o.analog_0.prepared(), sync@, size as nat),
                    analog_1: block_end(o.analog_1.prepared(), sync@, size as nat),
                    temp_buffer: final(self).temp_buffer,
                    previous_parameter: [o.previous_parameter@[0], o.parameter@[1]],
                    ..o
                })
            }),
    {
        self.analog_0.set_parameter(self.parameter[0]);
        self.analog_0.set_shape(base);
        self.analog_0.set_pitch(self.pitch);
        self.analog_1.set_parameter(0);
        self.analog_1.set_shape(AnalogOscillatorShape::Square);
        let octave: i32 = if self.parameter[1] < 16384 { 3072 } else { 1536 };
        self.analog_1.set_pitch((self.pitch as i32 - octave) as i16);
        self.render_two(sync, buffer, size, MixKind::Sub);
    }

    /// The sync voices: master and slave of the base shape (square or saw),
    /// the slave a quarter of the first parameter higher.
    pub closed spec fn sync_voices(self, base: AnalogOscillatorShape) -> Self {
        MacroOscillator {
            analog_0: self.analog_0.with_parameter(0).with_shape(base).with_pitch(self.pitch),
            analog_1: self.analog_1.with_parameter(0).with_shape(base).with_pitch(offset_pitch(self.pitch, (self.parameter@[0] >> 2i16) as int)),
            ..self
        }
    }

    /// The sync pulses the master hands the slave: its own sync output over
    /// the block (the scratch buffer keeps the rest).
    pub closed spec fn slave_sync(self, sync: Seq<u8>, size: nat) -> Seq<u8> {
        Seq::new(24, |k: int| if k < size { block_sync(self.analog_0.prepared(), sync, size, k as nat) } else { self.sync_buffer@[k] })
    }

    fn render_dual_sync(&mut self, sync: &[u8], buffer: &mut [i16], size: usize, base: AnalogOscillatorShape)
        requires
            1 <= size <= 24,
            size <= sync@.len(),
            size <= old(buffer)@.len(),
            base == AnalogOscillatorShape::Square || base == AnalogOscillatorShape::Saw,
        ensures
            final(buffer)@.len() == old(buffer)@.len(),
            ({
                let o = old(self).sync_voices(base);
                let slave = o.slave_sync(sync@, size as nat);
                &&& forall|k: int| 0 <= k < size ==> #[trigger] final(buffer)@[k] == ramp_mix(MixKind::Sync,
                    block_sample(o.analog_0.prepared(), sync@, size as nat, k as nat),
                    block_sample(o.analog_1.prepared(), slave, size as nat, k as nat),
                    second_parameter_at(o.previous_parameter@[1], o.parameter@[1], size as nat, k as nat))
                &&& forall|k: int| size <= k < old(buffer)@.len() ==> #[trigger] final(buffer)@[k] == old(buffer)@[k]
                &&& final(self).sync_buffer@ == slave
                &&& *final(self) == (MacroOscillator {
                    analog_0: block_end(o.analog_0.prepared(), sync@, size as nat),
                    analog_1: block_end(o.analog_1.prepared(), slave, size as nat),
                    temp_buffer: final(self).temp_buffer,
                    sync_buffer: final(self).sync_buffer,
                    previous_parameter: [o.previous_parameter@[0], o.parameter@[1]],
                    ..o
                })
            }),
    {
        self.analog_0.set_parameter(0);
        self.analog_0.set_shape(base);
        self.analog_0.set_pitch(self.pitch);
        self.analog_1.set_parameter(0);
        self.analog_1.set_shape(base);
        self.analog_1.set_pitch((self.pitch as i32 + (self.parameter[0] >> 2) as i32) as i16);
        let ghost o = *self;
        let out: &mut [u8] = &mut self.sync_buffer;
        self.analog_0.render(sync, buffer, Some(out), size);
        proof {
            assert(self.sync_buffer@ =~= o.slave_sync(sync@, size as nat));
        }
        self.analog_1.render(&self.sync_buffer, &mut self.temp_buffer, None, size);
        mix_ramped(buffer, &self.temp_buffer, size, self.previous_parameter[1], self.parameter[1], MixKind::Sync);
        self.previous_parameter = [self.previous_parameter[0], self.parameter[1]];
    }

    /// The triple voices: three voices of the base shape, the second and
    /// third detuned by the two parameters.
    pub closed spec fn triple_voices(self, base: AnalogOscillatorShape) -> Self {
        MacroOscillator {
            analog_0: self.analog_0.with_parameter(0).with_pitch(self.pitch).with_shape(base),
            analog_1: self.analog_1.with_parameter(0).with_pitch(offset_pitch(self.pitch, triple_detune(self.parameter@[0]))).with_shape(base),
            analog_2: self.analog_2.with_parameter(0).with_pitch(offset_pitch(self.pitch, triple_detune(self.parameter@[1]))).with_shape(base),
            ..self
        }
    }

    fn render_triple(&mut self, sync: &[u8], buffer: &mut [i16], size: usize, base: AnalogOscillatorShape)
        requires
            1 <= size <= 24,
            size <= sync@.len(),
            size <= old(buffer)@.len(),
            old(self).parameter(0) >= 0,
            old(self).parameter(1) >= 0,
        ensures
            final(buffer)@.len() == old(buffer)@.len(),
            ({
                let o = old(self).triple_voices(base);
                &&& forall|k: int| 0 <= k < size ==> #[trigger] final(buffer)@[k] == triple_mix(
                    block_sample(o.analog_0.prepared(), sync@, size as nat, k as nat),
                    block_sample(o.analog_1.prepared(), sync@, size as nat, k as nat),
                    block_sample(o.analog_2.prepared(), sync@, size as nat, k as nat))
                &&& forall|k: int| size <= k < old(buffer)@.len() ==> #[trigger] final(buffer)@[k] == old(buffer)@[k]
                &&& *final(self) == (MacroOscillator {
                    analog_0: block_end(o.analog_0.prepared(), sync@, size as nat),
                    analog_1: block_end(o.analog_1.prepared(), sync@, size as nat),
                    analog_2: block_end(o.analog_2.prepared(), sync@, size as nat),
                    temp_buffer: final(self).temp_buffer,
                    ..o
                })
            }),
    {
        self.analog_0.set_parameter(0);
        self.analog_1.set_parameter(0);
        self.analog_2.set_parameter(0);
        self.analog_0.set_pitch(self.pitch);
        let d1 = triple_detune_exec(self.parameter[0]);
        self.analog_1.set_pitch((self.pitch as i32 + d1) as i16);
        let d2 = triple_detune_exec(self.parameter[1]);
        self.analog_2.set_pitch((self.pitch as i32 + d2) as i16);
        self.analog_0.set_shape(base);
        self.analog_1.set_shape(base);
        self.analog_2.set_shape(base);
        let ghost o = *self;
        let mut i: usize = 0;
        while i < size
            invariant
                i <= size,
                size <= buffer@.len(),
                buffer@.len() == old(buffer)@.len(),
                forall|k: int| 0 <= k < i ==> #[trigger] buffer@[k] == 0i16,
                forall|k: int| size <= k < buffer@.len() ==> #[trigger] buffer@[k] == old(buffer)@[k],
            decreases size - i,
        {
            buffer[i] = 0;
            i += 1;
        }
        let ghost zeroed = buffer@;
        self.analog_0.render(sync, &mut self.temp_buffer, None, size);
        add_third(buffer, &self.temp_buffer, size);
        let ghost first = buffer@;
        self.analog_1.render(sync, &mut self.temp_buffer, None, size);
        add_third(buffer, &self.temp_buffer, size);
        let ghost second = buffer@;
        self.analog_2.render(sync, &mut self.temp_buffer, None, size);
        add_third(buffer, &self.temp_buffer, size);
    }

    /// The morph voices: triangle into saw, saw into square, then a square of
    /// growing width over a sine, as the first parameter rises.
    pub closed spec fn morph_voices(self) -> Self {
        let p0 = self.parameter@[0];
        let a0 = self.analog_0.with_pitch(self.pitch);
        let a1 = self.analog_1.with_pitch(self.pitch);
        if p0 <= 10922 {
            MacroOscillator {
                analog_0: a0.with_parameter(0).with_shape(AnalogOscillatorShape::Triangle),
                analog_1: a1.with_parameter(0).with_shape(AnalogOscillatorShape::Saw),
                ..self
            }
        } else if p0 <= 21845 {
            MacroOscillator {
                analog_0: a0.with_parameter(0).with_shape(AnalogOscillatorShape::Square),
                analog_1: a1.with_parameter(0).with_shape(AnalogOscillatorShape::Saw),
                ..self
            }
        } else {
            MacroOscillator {
                analog_0: a0.with_parameter(((p0 as int - 21846) * 3) as i16).with_shape(AnalogOscillatorShape::Square),
                analog_1: a1.with_parameter(0).with_shape(AnalogOscillatorShape::Sine),
                ..self
            }
        }
    }

    fn render_morph(&mut self, sync: &[u8], buffer: &mut [i16], size: usize)
        requires
            1 <= size <= 24,
            size <= sync@.len(),
            size <= old(buffer)@.len(),
        ensures
            final(buffer)@.len() == old(buffer)@.len(),
            ({
                let o = old(self).morph_voices();
                let a = Seq::new(size as nat, |k: int| block_sample(o.analog_0.prepared(), sync@, size as nat, k as nat));
                let b = Seq::new(size as nat, |k: int| block_sample(o.analog_1.prepared(), sync@, size as nat, k as nat));
                let balance = morph_balance(o.parameter@[0]);
                let f = morph_coefficient(o.pitch, o.parameter@[1]);
                let fuzz = morph_fuzz(o.pitch, o.parameter@[1]);
                &&& forall|k: int| 0 <= k < size ==> #[trigger] final(buffer)@[k]
                    == morph_out(mix_i16_spec(a[k], b[k], balance), morph_run(o.lp_state, a, b, balance, f, (k + 1) as nat), fuzz)
                &&& forall|k: int| size <= k < old(buffer)@.len() ==> #[trigger] final(buffer)@[k] == old(buffer)@[k]
                &&& *final(self) == (MacroOscillator {
                    analog_0: block_end(o.analog_0.prepared(), sync@, size as nat),
                    analog_1: block_end(o.analog_1.prepared(), sync@, size as nat),
                    temp_buffer: final(self).temp_buffer,
                    lp_state: morph_run(o.lp_state, a, b, balance, f, size as nat),
                    ..o
                })
            }),
    {
        self.analog_0.set_pitch(self.pitch);
        self.analog_1.set_pitch(self.pitch);
        let p0 = self.parameter[0] as i32;
        let balance: u16;
        if p0 <= 10922 {
            self.analog_0.set_parameter(0);
            self.analog_1.set_parameter(0);
            self.analog_0.set_shape(AnalogOscillatorShape::Triangle);
            self.analog_1.set_shape(AnalogOscillatorShape::Saw);
            balance = (p0 * 6) as u16;
        } else if p0 <= 21845 {
            self.analog_0.set_parameter(0);
            self.analog_1.set_parameter(0);
            self.analog_0.set_shape(AnalogOscillatorShape::Square);
            self.analog_1.set_shape(AnalogOscillatorShape::Saw);
            balance = (65535 - (p0 - 10923) * 6) as u16;
        } else {
            self.analog_0.set_parameter(((p0 - 21846) * 3) as i16);
            self.analog_1.set_parameter(0);
            self.analog_0.set_shape(AnalogOscillatorShape::Square);
            self.analog_1.set_shape(AnalogOscillatorShape::Sine);
            balance = 0;
        }
        let ghost o = *self;
        self.analog_0.render(sync, buffer, None, size);
        self.analog_1.render(sync, &mut self.temp_buffer, None, size);
        let p1 = self.parameter[1];
        let pitch = self.pitch as i32;
        let mut lp_cutoff = pitch - (p1 >> 1) as i32 + 16384;
        if lp_cutoff < 0 {
            lp_cutoff = 0;
        } else if lp_cutoff > 32767 {
            lp_cutoff = 32767;
        }
        let f = interpolate_824_u16(&LUT_SVF_CUTOFF, (lp_cutoff << 17) as u32) as i32;
        let mut fuzz_amount = (p1 as i32) << 1;
        proof {
            lemma_i32_shl(p1 as i32);
        }
        if pitch > 10240 {
            proof {
                lemma_i32_shl((pitch - 10240) as i32);
            }
            fuzz_amount -= (pitch - 10240) << 4;
            if fuzz_amount < 0 {
                fuzz_amount = 0;
            }
        }
        let ghost first = buffer@;
        let lp = morph_filter(buffer, &self.temp_buffer, size, balance, f, fuzz_amount, self.lp_state);
        self.lp_state = lp;
        proof {
            let a = Seq::new(size as nat, |k: int| block_sample(o.analog_0.prepared(), sync@, size as nat, k as nat));
            let b = Seq::new(size as nat, |k: int| block_sample(o.analog_1.prepared(), sync@, size as nat, k as nat));
            assert forall|k: nat| k <= size implies #[trigger] morph_run(o.lp_state, first, self.temp_buffer@, balance, f, k)
                == morph_run(o.lp_state, a, b, balance, f, k) by {
                lemma_morph_run_prefix(o.lp_state, first, self.temp_buffer@, a, b, balance, f, k);
            }
        }
    }

    /// The digital oscillator as a digital shape configures it.
    /// Whether the next block plucks a string (the strings are struck, or
    /// the digital model changes to them).
    pub closed spec fn plucks(self) -> bool {
        self.digital_voice(DigitalModel::Plucked).prepared().struck()
    }

    /// Whether the clocked noise has a number of levels to quantize to (the
    /// second parameter, as the noise holds it, is not negative).
    pub closed spec fn noise_levels_ok(self) -> bool {
        self.digital_voice(DigitalModel::ClockedNoise).clock_levels_ok()
    }

    /// Whether a block of `size` samples of the drum shape stays within 32
    /// bits.
    pub closed spec fn drum_fits(self, size: nat) -> bool {
        match self.shape {
            MacroOscillatorShape::Kick => self.digital_voice(DigitalModel::Kick).prepared().kick_ok(size),
            MacroOscillatorShape::Snare => self.digital_voice(DigitalModel::Snare).prepared().snare_ok(size),
            _ => self.digital_voice(DigitalModel::Cymbal).prepared().cymbal_ok(size),
        }
    }

    pub closed spec fn digital_voice(self, model: DigitalModel) -> DigitalOscillator {
        self.digital.with_parameters(self.parameter@[0], self.parameter@[1])
            .with_pitch(smoothed_pitch(self.digital.pitch(), self.pitch)).with_shape(model)
    }

    /// The saw that the saw-comb feeds into the comb filter.
    pub closed spec fn saw_comb_voice(self) -> AnalogOscillator {
        self.analog_0.with_parameter(0).with_pitch(self.pitch).with_shape(AnalogOscillatorShape::Saw)
    }

    /// The buffer the comb filters in the saw-comb: the saw's block, then
    /// what `input` held.
    pub closed spec fn saw_comb_input(self, sync: Seq<u8>, input: Seq<i16>, size: nat) -> Seq<i16> {
        Seq::new(input.len(), |k: int| if k < size { block_sample(self.saw_comb_voice().prepared(), sync, size, k as nat) } else { input[k] })
    }

    fn render_digital(&mut self, sync: &[u8], buffer: &mut [i16], size: usize, model: DigitalModel)
        requires
            renders_model(model),
            size <= 24,
            size <= sync@.len(),
            size <= old(buffer)@.len(),
            divides_by_size(model) ==> size >= 1,
            renders_in_pairs(model) ==> size % 2 == 0,
            model == DigitalModel::Plucked && old(self).digital_voice(model).prepared().struck() ==> old(self).parameter(1) >= -5461,
            model == DigitalModel::ClockedNoise ==> old(self).digital_voice(model).clock_levels_ok(),
            model == DigitalModel::VowelFof ==> old(self).parameter(0) >= 0 && old(self).parameter(1) >= 0,
            model == DigitalModel::Kick ==> old(self).digital_voice(model).prepared().kick_ok(size as nat),
            model == DigitalModel::Snare ==> old(self).digital_voice(model).prepared().snare_ok(size as nat),
            model == DigitalModel::Cymbal ==> old(self).digital_voice(model).prepared().cymbal_ok(size as nat),
        ensures
            final(buffer)@.len() == old(buffer)@.len(),
            forall|k: int| 0 <= k < size ==> #[trigger] final(buffer)@[k]
                == old(self).digital_voice(model).prepared().rendered_sample(sync@, old(buffer)@, size as nat, k),
            forall|k: int| size <= k < old(buffer)@.len() ==> #[trigger] final(buffer)@[k] == old(buffer)@[k],
            old(self).digital_voice(model).prepared().rendered_into(sync@, old(buffer)@, size as nat, final(self).digital()),
            *final(self) == (MacroOscillator { digital: final(self).digital, ..*old(self) }),
    {
        proof {
            old(self).digital.lemma_set_parameters(old(self).parameter@[0], old(self).parameter@[1],
                smoothed_pitch(old(self).digital.pitch(), old(self).pitch), model);
        }
        self.digital.set_parameters(self.parameter[0], self.parameter[1]);
        self.digital.set_pitch(self.pitch);
        self.digital.set_shape(model);
        self.digital.render(sync, buffer, size);
    }

    fn render_saw_comb(&mut self, sync: &[u8], buffer: &mut [i16], size: usize)
        requires
            1 <= size <= 24,
            size <= sync@.len(),
            size <= old(buffer)@.len(),
        ensures
            final(buffer)@.len() == old(buffer)@.len(),
            ({
                let input = old(self).saw_comb_input(sync@, old(buffer)@, size as nat);
                let d = old(self).digital_voice(DigitalModel::Comb).prepared();
                &&& forall|k: int| 0 <= k < size ==> #[trigger] final(buffer)@[k] == d.rendered_sample(sync@, input, size as nat, k)
                &&& forall|k: int| size <= k < old(buffer)@.len() ==> #[trigger] final(buffer)@[k] == old(buffer)@[k]
                &&& d.rendered_into(sync@, input, size as nat, final(self).digital())
                &&& *final(self) == (MacroOscillator {
                    analog_0: block_end(old(self).saw_comb_voice().prepared(), sync@, size as nat),
                    digital: final(self).digital,
                    ..*old(self)
                })
            }),
    {
        let ghost o = *self;
        self.analog_0.set_parameter(0);
        self.analog_0.set_pitch(self.pitch);
        self.analog_0.set_shape(AnalogOscillatorShape::Saw);
        self.analog_0.render(sync, buffer, None, size);
        proof {
            assert(buffer@ =~= o.saw_comb_input(sync@, old(buffer)@, size as nat));
        }
        self.digital.set_parameters(self.parameter[0], self.parameter[1]);
        self.digital.set_pitch(self.pitch);
        self.digital.set_shape(DigitalModel::Comb);
        self.digital.render(sync, buffer, size);
    }

    /// The analog base shape of a triple shape.
    pub open spec fn triple_base(shape: MacroOscillatorShape) -> AnalogOscillatorShape {
        match shape {
            MacroOscillatorShape::TripleSaw => AnalogOscillatorShape::Saw,
            MacroOscillatorShape::TripleTriangle => AnalogOscillatorShape::Triangle,
            MacroOscillatorShape::TripleSquare => AnalogOscillatorShape::Square,
            _ => AnalogOscillatorShape::Sine,
        }
    }

    /// Sample `k` of a block of `size` samples rendered from this state with
    /// the sync pulses `sync` (`input`: what the buffer held).
    pub closed spec fn rendered_sample(self, sync: Seq<u8>, input: Seq<i16>, size: nat, k: int) -> i16 {
        let n = size;
        let kn = k as nat;
        match self.shape {
            MacroOscillatorShape::Csaw =>
                csaw_level(block_sample(self.csaw_voice().prepared(), sync, n, kn), self.parameter@[1]),
            MacroOscillatorShape::Morph => {
                let o = self.morph_voices();
                let a = Seq::new(n, |j: int| block_sample(o.analog_0.prepared(), sync, n, j as nat));
                let b = Seq::new(n, |j: int| block_sample(o.analog_1.prepared(), sync, n, j as nat));
                let balance = morph_balance(o.parameter@[0]);
                morph_out(mix_i16_spec(a[k], b[k], balance),
                    morph_run(o.lp_state, a, b, balance, morph_coefficient(o.pitch, o.parameter@[1]), (k + 1) as nat),
                    morph_fuzz(o.pitch, o.parameter@[1]))
            },
            MacroOscillatorShape::SawSquare => {
                let o = self.saw_square_voices();
                ramp_mix(MixKind::SawSquare, block_sample(o.analog_0.prepared(), sync, n, kn), block_sample(o.analog_1.prepared(), sync, n, kn),
                    second_parameter_at(o.previous_parameter@[1], o.parameter@[1], n, kn))
            },
            MacroOscillatorShape::SineTriangle => {
                let o = self.sine_triangle_voices();
                ramp_mix(MixKind::SineTriangle, block_sample(o.analog_0.prepared(), sync, n, kn), block_sample(o.analog_1.prepared(), sync, n, kn),
                    second_parameter_at(o.previous_parameter@[1], o.parameter@[1], n, kn))
            },
            MacroOscillatorShape::Buzz => {
                let (v0, v1) = self.buzz_voices();
                buzz_pair(block_sample(v0.prepared(), sync, n, kn), block_sample(v1.prepared(), sync, n, kn))
            },
            MacroOscillatorShape::SquareSub | MacroOscillatorShape::SawSub => {
                let base = if self.shape == MacroOscillatorShape::SquareSub { AnalogOscillatorShape::Square } else { AnalogOscillatorShape::VariableSaw };
                let o = self.sub_voices(base);
                ramp_mix(MixKind::Sub, block_sample(o.analog_0.prepared(), sync, n, kn), block_sample(o.analog_1.prepared(), sync, n, kn),
                    second_parameter_at(o.previous_parameter@[1], o.parameter@[1], n, kn))
            },
            MacroOscillatorShape::SquareSync | MacroOscillatorShape::SawSync => {
                let base = if self.shape == MacroOscillatorShape::SquareSync { AnalogOscillatorShape::Square } else { AnalogOscillatorShape::Saw };
                let o = self.sync_voices(base);
                ramp_mix(MixKind::Sync, block_sample(o.analog_0.prepared(), sync, n, kn),
                    block_sample(o.analog_1.prepared(), o.slave_sync(sync, n), n, kn),
                    second_parameter_at(o.previous_parameter@[1], o.parameter@[1], n, kn))
            },
            MacroOscillatorShape::TripleSaw | MacroOscillatorShape::TripleSquare
            | MacroOscillatorShape::TripleTriangle | MacroOscillatorShape::TripleSine => {
                let o = self.triple_voices(Self::triple_base(self.shape));
                triple_mix(block_sample(o.analog_0.prepared(), sync, n, kn), block_sample(o.analog_1.prepared(), sync, n, kn),
                    block_sample(o.analog_2.prepared(), sync, n, kn))
            },
            MacroOscillatorShape::SawComb =>
                self.digital_voice(DigitalModel::Comb).prepared().rendered_sample(sync, self.saw_comb_input(sync, input, n), n, k),
            _ => match digital_model(self.shape) {
                Some(m) => self.digital_voice(m).prepared().rendered_sample(sync, input, n, k),
                None => 0,
            },
        }
    }

    /// Whether `end` is the state after a block of `size` samples rendered
    /// from this state.
    pub closed spec fn rendered_into(self, sync: Seq<u8>, input: Seq<i16>, size: nat, end: Self) -> bool {
        let n = size;
        match self.shape {
            MacroOscillatorShape::Csaw =>
                end == (MacroOscillator { analog_0: block_end(self.csaw_voice().prepared(), sync, n), ..self }),
            MacroOscillatorShape::Morph => {
                let o = self.morph_voices();
                let a = Seq::new(n, |j: int| block_sample(o.analog_0.prepared(), sync, n, j as nat));
                let b = Seq::new(n, |j: int| block_sample(o.analog_1.prepared(), sync, n, j as nat));
                end == (MacroOscillator {
                    analog_0: block_end(o.analog_0.prepared(), sync, n),
                    analog_1: block_end(o.analog_1.prepared(), sync, n),
                    temp_buffer: end.temp_buffer,
                    lp_state: morph_run(o.lp_state, a, b, morph_balance(o.parameter@[0]), morph_coefficient(o.pitch, o.parameter@[1]), n),
                    ..o
                })
            },
            MacroOscillatorShape::SawSquare | MacroOscillatorShape::SineTriangle
            | MacroOscillatorShape::SquareSub | MacroOscillatorShape::SawSub => {
                let o = if self.shape == MacroOscillatorShape::SawSquare {
                    self.saw_square_voices()
                } else if self.shape == MacroOscillatorShape::SineTriangle {
                    self.sine_triangle_voices()
                } else if self.shape == MacroOscillatorShape::SquareSub {
                    self.sub_voices(AnalogOscillatorShape::Square)
                } else {
                    self.sub_voices(AnalogOscillatorShape::VariableSaw)
                };
                end == (MacroOscillator {
                    analog_0: block_end(o.analog_0.prepared(), sync, n),
                    analog_1: block_end(o.analog_1.prepared(), sync, n),
                    temp_buffer: end.temp_buffer,
                    previous_parameter: [o.previous_parameter@[0], o.parameter@[1]],
                    ..o
                })
            },
            MacroOscillatorShape::Buzz => {
                let (v0, v1) = self.buzz_voices();
                end == (MacroOscillator {
                    analog_0: block_end(v0.prepared(), sync, n),
                    analog_1: block_end(v1.prepared(), sync, n),
                    temp_buffer: end.temp_buffer,
                    ..self
                })
            },
            MacroOscillatorShape::SquareSync | MacroOscillatorShape::SawSync => {
                let base = if self.shape == MacroOscillatorShape::SquareSync { AnalogOscillatorShape::Square } else { AnalogOscillatorShape::Saw };
                let o = self.sync_voices(base);
                let slave = o.slave_sync(sync, n);
                &&& end.sync_buffer@ == slave
                &&& end == (MacroOscillator {
                    analog_0: block_end(o.analog_0.prepared(), sync, n),
                    analog_1: block_end(o.analog_1.prepared(), slave, n),
                    temp_buffer: end.temp_buffer,
                    sync_buffer: end.sync_buffer,
                    previous_parameter: [o.previous_parameter@[0], o.parameter@[1]],
                    ..o
                })
            },
            MacroOscillatorShape::TripleSaw | MacroOscillatorShape::TripleSquare
            | MacroOscillatorShape::TripleTriangle | MacroOscillatorShape::TripleSine => {
                let o = self.triple_voices(Self::triple_base(self.shape));
                end == (MacroOscillator {
                    analog_0: block_end(o.analog_0.prepared(), sync, n),
                    analog_1: block_end(o.analog_1.prepared(), sync, n),
                    analog_2: block_end(o.analog_2.prepared(), sync, n),
                    temp_buffer: end.temp_buffer,
                    ..o
                })
            },
            MacroOscillatorShape::SawComb => {
                &&& self.digital_voice(DigitalModel::Comb).prepared().rendered_into(sync, self.saw_comb_input(sync, input, n), n, end.digital)
                &&& end == (MacroOscillator {
                    analog_0: block_end(self.saw_comb_voice().prepared(), sync, n),
                    digital: end.digital,
                    ..self
                })
            },
            _ => match digital_model(self.shape) {
                Some(m) => {
                    &&& self.digital_voice(m).prepared().rendered_into(sync, input, n, end.digital)
                    &&& end == (MacroOscillator { digital: end.digital, ..self })
                },
                None => end == self,
            },
        }
    }

    /// Renders `size` samples of the current shape into `buffer`, following
    /// the sync pulses in `sync`.
    pub fn render(&mut self, sync: &[u8], buffer: &mut [i16], size: usize)
        requires
            size <= MAX_BLOCK_SIZE,
            size <= sync@.len(),
            size <= old(buffer)@.len(),
            renders_shape(old(self).shape_spec()),
            size == 0 ==> renders_empty_block(old(self).shape_spec()),
            size % 2 == 0 || renders_odd_block(old(self).shape_spec()),
            old(self).shape_spec() == MacroOscillatorShape::TripleSaw || old(self).shape_spec() == MacroOscillatorShape::TripleSquare
                || old(self).shape_spec() == MacroOscillatorShape::TripleTriangle || old(self).shape_spec() == MacroOscillatorShape::TripleSine
                ==> old(self).parameter(0) >= 0 && old(self).parameter(1) >= 0,
            old(self).shape_spec() == MacroOscillatorShape::Plucked && old(self).plucks() ==> old(self).parameter(1) >= -5461,
            old(self).shape_spec() == MacroOscillatorShape::ClockedNoise ==> old(self).noise_levels_ok(),
            old(self).shape_spec() == MacroOscillatorShape::VowelFof ==> old(self).parameter(0) >= 0 && old(self).parameter(1) >= 0,
            old(self).shape_spec() == MacroOscillatorShape::Kick || old(self).shape_spec() == MacroOscillatorShape::Snare
                || old(self).shape_spec() == MacroOscillatorShape::Cymbal ==> old(self).drum_fits(size as nat),
        ensures
            final(buffer)@.len() == old(buffer)@.len(),
            forall|k: int| 0 <= k < size ==> #[trigger] final(buffer)@[k] == old(self).rendered_sample(sync@, old(buffer)@, size as nat, k),
            forall|k: int| size <= k < old(buffer)@.len() ==> #[trigger] final(buffer)@[k] == old(buffer)@[k],
            old(self).rendered_into(sync@, old(buffer)@, size as nat, *final(self)),
    {
        match self.shape {
            MacroOscillatorShape::Csaw => self.render_csaw(sync, buffer, size),
            MacroOscillatorShape::Morph => self.render_morph(sync, buffer, size),
            MacroOscillatorShape::SawSquare => self.render_saw_square(sync, buffer, size),
            MacroOscillatorShape::SineTriangle => self.render_sine_triangle(sync, buffer, size),
            MacroOscillatorShape::Buzz => self.render_buzz(sync, buffer, size),
            MacroOscillatorShape::SquareSub => self.render_sub(sync, buffer, size, AnalogOscillatorShape::Square),
            MacroOscillatorShape::SawSub => self.render_sub(sync, buffer, size, AnalogOscillatorShape::VariableSaw),
            MacroOscillatorShape::SquareSync => self.render_dual_sync(sync, buffer, size, AnalogOscillatorShape::Square),
            MacroOscillatorShape::SawSync => self.render_dual_sync(sync, buffer, size, AnalogOscillatorShape::Saw),
            MacroOscillatorShape::TripleSaw => self.render_triple(sync, buffer, size, AnalogOscillatorShape::Saw),
            MacroOscillatorShape::TripleSquare => self.render_triple(sync, buffer, size, AnalogOscillatorShape::Square),
            MacroOscillatorShape::TripleTriangle => self.render_triple(sync, buffer, size, AnalogOscillatorShape::Triangle),
            MacroOscillatorShape::TripleSine => self.render_triple(sync, buffer, size, AnalogOscillatorShape::Sine),
            MacroOscillatorShape::SawComb => self.render_saw_comb(sync, buffer, size),
            MacroOscillatorShape::TripleRingMod => self.render_digital(sync, buffer, size, DigitalModel::TripleRingMod),
            MacroOscillatorShape::SawSwarm => self.render_digital(sync, buffer, size, DigitalModel::SawSwarm),
            MacroOscillatorShape::Toy => self.render_digital(sync, buffer, size, DigitalModel::Toy),
            MacroOscillatorShape::DigitalFilterLp => self.render_digital(sync, buffer, size, DigitalModel::DigitalFilterLp),
            MacroOscillatorShape::DigitalFilterPk => self.render_digital(sync, buffer, size, DigitalModel::DigitalFilterPk),
            MacroOscillatorShape::DigitalFilterBp => self.render_digital(sync, buffer, size, DigitalModel::DigitalFilterBp),
            MacroOscillatorShape::StruckDrum => self.render_digital(sync, buffer, size, DigitalModel::StruckDrum),
            MacroOscillatorShape::StruckBell => self.render_digital(sync, buffer, size, DigitalModel::StruckBell),
            MacroOscillatorShape::Plucked => self.render_digital(sync, buffer, size, DigitalModel::Plucked),
            MacroOscillatorShape::DigitalModulation => self.render_digital(sync, buffer, size, DigitalModel::DigitalModulation),
            MacroOscillatorShape::ClockedNoise => self.render_digital(sync, buffer, size, DigitalModel::ClockedNoise),
            MacroOscillatorShape::Harmonics => self.render_digital(sync, buffer, size, DigitalModel::Harmonics),
            MacroOscillatorShape::VowelFof => self.render_digital(sync, buffer, size, DigitalModel::VowelFof),
            MacroOscillatorShape::Kick => self.render_digital(sync, buffer, size, DigitalModel::Kick),
            MacroOscillatorShape::Snare => self.render_digital(sync, buffer, size, DigitalModel::Snare),
            MacroOscillatorShape::Cymbal => self.render_digital(sync, buffer, size, DigitalModel::Cymbal),
            MacroOscillatorShape::Fm => self.render_digital(sync, buffer, size, DigitalModel::Fm),
            MacroOscillatorShape::FeedbackFm => self.render_digital(sync, buffer, size, DigitalModel::FeedbackFm),
            MacroOscillatorShape::ChaoticFeedbackFm => self.render_digital(sync, buffer, size, DigitalModel::ChaoticFeedbackFm),
            _ => self.render_digital(sync, buffer, size, DigitalModel::DigitalFilterHp),
        }
    }

}

} // verus!
