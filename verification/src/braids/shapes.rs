//! The shape enumerations. The digital models are numbered in the order of
//! the macro shapes from `TripleRingMod` on, so a macro shape `m` at or past
//! `TripleRingMod` selects the digital model `m - TripleRingMod`.
use vstd::prelude::*;

verus! {

/// The user-selectable macro-oscillator models, in their stored-setting order.
#[derive(Debug, Clone, Copy, PartialEq, Eq, Structural)]
pub enum MacroOscillatorShape {
    Csaw,
    Morph,
    SawSquare,
    SineTriangle,
    Buzz,
    SquareSub,
    SawSub,
    SquareSync,
    SawSync,
    TripleSaw,
    TripleSquare,
    TripleTriangle,
    TripleSine,
    TripleRingMod,
    SawSwarm,
    SawComb,
    Toy,
    DigitalFilterLp,
    DigitalFilterPk,
    DigitalFilterBp,
    DigitalFilterHp,
    Vosim,
    Vowel,
    VowelFof,
    Harmonics,
    Fm,
    FeedbackFm,
    ChaoticFeedbackFm,
    Plucked,
    Bowed,
    Blown,
    Fluted,
    StruckBell,
    StruckDrum,
    Kick,
    Cymbal,
    Snare,
    Wavetables,
    WaveMap,
    WaveLine,
    WaveParaphonic,
    FilteredNoise,
    TwinPeaksNoise,
    ClockedNoise,
    GranularCloud,
    ParticleNoise,
    DigitalModulation,
    QuestionMark,
}

/// The position of a `MacroOscillatorShape` in its declaration order.
pub open spec fn macro_oscillator_shape_index(s: MacroOscillatorShape) -> int {
    match s {
        MacroOscillatorShape::Csaw => 0,
        MacroOscillatorShape::Morph => 1,
        MacroOscillatorShape::SawSquare => 2,
        MacroOscillatorShape::SineTriangle => 3,
        MacroOscillatorShape::Buzz => 4,
        MacroOscillatorShape::SquareSub => 5,
        MacroOscillatorShape::SawSub => 6,
        MacroOscillatorShape::SquareSync => 7,
        MacroOscillatorShape::SawSync => 8,
        MacroOscillatorShape::TripleSaw => 9,
        MacroOscillatorShape::TripleSquare => 10,
        MacroOscillatorShape::TripleTriangle => 11,
        MacroOscillatorShape::TripleSine => 12,
        MacroOscillatorShape::TripleRingMod => 13,
        MacroOscillatorShape::SawSwarm => 14,
        MacroOscillatorShape::SawComb => 15,
        MacroOscillatorShape::Toy => 16,
        MacroOscillatorShape::DigitalFilterLp => 17,
        MacroOscillatorShape::DigitalFilterPk => 18,
        MacroOscillatorShape::DigitalFilterBp => 19,
        MacroOscillatorShape::DigitalFilterHp => 20,
        MacroOscillatorShape::Vosim => 21,
        MacroOscillatorShape::Vowel => 22,
        MacroOscillatorShape::VowelFof => 23,
        MacroOscillatorShape::Harmonics => 24,
        MacroOscillatorShape::Fm => 25,
        MacroOscillatorShape::FeedbackFm => 26,
        MacroOscillatorShape::ChaoticFeedbackFm => 27,
        MacroOscillatorShape::Plucked => 28,
        MacroOscillatorShape::Bowed => 29,
        MacroOscillatorShape::Blown => 30,
        MacroOscillatorShape::Fluted => 31,
        MacroOscillatorShape::StruckBell => 32,
        MacroOscillatorShape::StruckDrum => 33,
        MacroOscillatorShape::Kick => 34,
        MacroOscillatorShape::Cymbal => 35,
        MacroOscillatorShape::Snare => 36,
        MacroOscillatorShape::Wavetables => 37,
        MacroOscillatorShape::WaveMap => 38,
        MacroOscillatorShape::WaveLine => 39,
        MacroOscillatorShape::WaveParaphonic => 40,
        MacroOscillatorShape::FilteredNoise => 41,
        MacroOscillatorShape::TwinPeaksNoise => 42,
        MacroOscillatorShape::ClockedNoise => 43,
        MacroOscillatorShape::GranularCloud => 44,
        MacroOscillatorShape::ParticleNoise => 45,
        MacroOscillatorShape::DigitalModulation => 46,
        MacroOscillatorShape::QuestionMark => 47,
    }
}

impl MacroOscillatorShape {
    pub const COUNT: usize = 48;

    /// Every value, in declaration order.
    pub const ALL: [MacroOscillatorShape; 48] = [
        MacroOscillatorShape::Csaw,
        MacroOscillatorShape::Morph,
        MacroOscillatorShape::SawSquare,
        MacroOscillatorShape::SineTriangle,
        MacroOscillatorShape::Buzz,
        MacroOscillatorShape::SquareSub,
        MacroOscillatorShape::SawSub,
        MacroOscillatorShape::SquareSync,
        MacroOscillatorShape::SawSync,
        MacroOscillatorShape::TripleSaw,
        MacroOscillatorShape::TripleSquare,
        MacroOscillatorShape::TripleTriangle,
        MacroOscillatorShape::TripleSine,
        MacroOscillatorShape::TripleRingMod,
        MacroOscillatorShape::SawSwarm,
        MacroOscillatorShape::SawComb,
        MacroOscillatorShape::Toy,
        MacroOscillatorShape::DigitalFilterLp,
        MacroOscillatorShape::DigitalFilterPk,
        MacroOscillatorShape::DigitalFilterBp,
        MacroOscillatorShape::DigitalFilterHp,
        MacroOscillatorShape::Vosim,
        MacroOscillatorShape::Vowel,
        MacroOscillatorShape::VowelFof,
        MacroOscillatorShape::Harmonics,
        MacroOscillatorShape::Fm,
        MacroOscillatorShape::FeedbackFm,
        MacroOscillatorShape::ChaoticFeedbackFm,
        MacroOscillatorShape::Plucked,
        MacroOscillatorShape::Bowed,
        MacroOscillatorShape::Blown,
        MacroOscillatorShape::Fluted,
        MacroOscillatorShape::StruckBell,
        MacroOscillatorShape::StruckDrum,
        MacroOscillatorShape::Kick,
        MacroOscillatorShape::Cymbal,
        MacroOscillatorShape::Snare,
        MacroOscillatorShape::Wavetables,
        MacroOscillatorShape::WaveMap,
        MacroOscillatorShape::WaveLine,
        MacroOscillatorShape::WaveParaphonic,
        MacroOscillatorShape::FilteredNoise,
        MacroOscillatorShape::TwinPeaksNoise,
        MacroOscillatorShape::ClockedNoise,
        MacroOscillatorShape::GranularCloud,
        MacroOscillatorShape::ParticleNoise,
        MacroOscillatorShape::DigitalModulation,
        MacroOscillatorShape::QuestionMark,
    ];

    /// The value at position `v`, if there is one.
    pub fn from_u8(v: u8) -> (r: Option<MacroOscillatorShape>)
        ensures
            (v as int) < 48 <==> r.is_some(),
            r matches Some(s) ==> macro_oscillator_shape_index(s) == v,
    {
        match v {
            0 => Some(MacroOscillatorShape::Csaw),
            1 => Some(MacroOscillatorShape::Morph),
            2 => Some(MacroOscillatorShape::SawSquare),
            3 => Some(MacroOscillatorShape::SineTriangle),
            4 => Some(MacroOscillatorShape::Buzz),
            5 => Some(MacroOscillatorShape::SquareSub),
            6 => Some(MacroOscillatorShape::SawSub),
            7 => Some(MacroOscillatorShape::SquareSync),
            8 => Some(MacroOscillatorShape::SawSync),
            9 => Some(MacroOscillatorShape::TripleSaw),
            10 => Some(MacroOscillatorShape::TripleSquare),
            11 => Some(MacroOscillatorShape::TripleTriangle),
            12 => Some(MacroOscillatorShape::TripleSine),
            13 => Some(MacroOscillatorShape::TripleRingMod),
            14 => Some(MacroOscillatorShape::SawSwarm),
            15 => Some(MacroOscillatorShape::SawComb),
            16 => Some(MacroOscillatorShape::Toy),
            17 => Some(MacroOscillatorShape::DigitalFilterLp),
            18 => Some(MacroOscillatorShape::DigitalFilterPk),
            19 => Some(MacroOscillatorShape::DigitalFilterBp),
            20 => Some(MacroOscillatorShape::DigitalFilterHp),
            21 => Some(MacroOscillatorShape::Vosim),
            22 => Some(MacroOscillatorShape::Vowel),
            23 => Some(MacroOscillatorShape::VowelFof),
            24 => Some(MacroOscillatorShape::Harmonics),
            25 => Some(MacroOscillatorShape::Fm),
            26 => Some(MacroOscillatorShape::FeedbackFm),
            27 => Some(MacroOscillatorShape::ChaoticFeedbackFm),
            28 => Some(MacroOscillatorShape::Plucked),
            29 => Some(MacroOscillatorShape::Bowed),
            30 => Some(MacroOscillatorShape::Blown),
            31 => Some(MacroOscillatorShape::Fluted),
            32 => Some(MacroOscillatorShape::StruckBell),
            33 => Some(MacroOscillatorShape::StruckDrum),
            34 => Some(MacroOscillatorShape::Kick),
            35 => Some(MacroOscillatorShape::Cymbal),
            36 => Some(MacroOscillatorShape::Snare),
            37 => Some(MacroOscillatorShape::Wavetables),
            38 => Some(MacroOscillatorShape::WaveMap),
            39 => Some(MacroOscillatorShape::WaveLine),
            40 => Some(MacroOscillatorShape::WaveParaphonic),
            41 => Some(MacroOscillatorShape::FilteredNoise),
            42 => Some(MacroOscillatorShape::TwinPeaksNoise),
            43 => Some(MacroOscillatorShape::ClockedNoise),
            44 => Some(MacroOscillatorShape::GranularCloud),
            45 => Some(MacroOscillatorShape::ParticleNoise),
            46 => Some(MacroOscillatorShape::DigitalModulation),
            47 => Some(MacroOscillatorShape::QuestionMark),
            _ => None,
        }
    }

    /// The position of this value in declaration order.
    pub fn index(self) -> (r: u8)
        ensures
            r == macro_oscillator_shape_index(self),
    {
        match self {
            MacroOscillatorShape::Csaw => 0,
            MacroOscillatorShape::Morph => 1,
            MacroOscillatorShape::SawSquare => 2,
            MacroOscillatorShape::SineTriangle => 3,
            MacroOscillatorShape::Buzz => 4,
            MacroOscillatorShape::SquareSub => 5,
            MacroOscillatorShape::SawSub => 6,
            MacroOscillatorShape::SquareSync => 7,
            MacroOscillatorShape::SawSync => 8,
            MacroOscillatorShape::TripleSaw => 9,
            MacroOscillatorShape::TripleSquare => 10,
            MacroOscillatorShape::TripleTriangle => 11,
            MacroOscillatorShape::TripleSine => 12,
            MacroOscillatorShape::TripleRingMod => 13,
            MacroOscillatorShape::SawSwarm => 14,
            MacroOscillatorShape::SawComb => 15,
            MacroOscillatorShape::Toy => 16,
            MacroOscillatorShape::DigitalFilterLp => 17,
            MacroOscillatorShape::DigitalFilterPk => 18,
            MacroOscillatorShape::DigitalFilterBp => 19,
            MacroOscillatorShape::DigitalFilterHp => 20,
            MacroOscillatorShape::Vosim => 21,
            MacroOscillatorShape::Vowel => 22,
            MacroOscillatorShape::VowelFof => 23,
            MacroOscillatorShape::Harmonics => 24,
            MacroOscillatorShape::Fm => 25,
            MacroOscillatorShape::FeedbackFm => 26,
            MacroOscillatorShape::ChaoticFeedbackFm => 27,
            MacroOscillatorShape::Plucked => 28,
            MacroOscillatorShape::Bowed => 29,
            MacroOscillatorShape::Blown => 30,
            MacroOscillatorShape::Fluted => 31,
            MacroOscillatorShape::StruckBell => 32,
            MacroOscillatorShape::StruckDrum => 33,
            MacroOscillatorShape::Kick => 34,
            MacroOscillatorShape::Cymbal => 35,
            MacroOscillatorShape::Snare => 36,
            MacroOscillatorShape::Wavetables => 37,
            MacroOscillatorShape::WaveMap => 38,
            MacroOscillatorShape::WaveLine => 39,
            MacroOscillatorShape::WaveParaphonic => 40,
            MacroOscillatorShape::FilteredNoise => 41,
            MacroOscillatorShape::TwinPeaksNoise => 42,
            MacroOscillatorShape::ClockedNoise => 43,
            MacroOscillatorShape::GranularCloud => 44,
            MacroOscillatorShape::ParticleNoise => 45,
            MacroOscillatorShape::DigitalModulation => 46,
            MacroOscillatorShape::QuestionMark => 47,
        }
    }
}

/// The digital synthesis models, in dispatch order.
#[derive(Debug, Clone, Copy, PartialEq, Eq, Structural)]
pub enum DigitalModel {
    TripleRingMod,
    SawSwarm,
    Comb,
    Toy,
    DigitalFilterLp,
    DigitalFilterPk,
    DigitalFilterBp,
    DigitalFilterHp,
    Vosim,
    Vowel,
    VowelFof,
    Harmonics,
    Fm,
    FeedbackFm,
    ChaoticFeedbackFm,
    Plucked,
    Bowed,
    Blown,
    Fluted,
    StruckBell,
    StruckDrum,
    Kick,
    Cymbal,
    Snare,
    Wavetables,
    WaveMap,
    WaveLine,
    WaveParaphonic,
    FilteredNoise,
    TwinPeaksNoise,
    ClockedNoise,
    GranularCloud,
    ParticleNoise,
    DigitalModulation,
    QuestionMark,
}

/// The position of a `DigitalModel` in its declaration order.
pub open spec fn digital_model_index(s: DigitalModel) -> int {
    match s {
        DigitalModel::TripleRingMod => 0,
        DigitalModel::SawSwarm => 1,
        DigitalModel::Comb => 2,
        DigitalModel::Toy => 3,
        DigitalModel::DigitalFilterLp => 4,
        DigitalModel::DigitalFilterPk => 5,
        DigitalModel::DigitalFilterBp => 6,
        DigitalModel::DigitalFilterHp => 7,
        DigitalModel::Vosim => 8,
        DigitalModel::Vowel => 9,
        DigitalModel::VowelFof => 10,
        DigitalModel::Harmonics => 11,
        DigitalModel::Fm => 12,
        DigitalModel::FeedbackFm => 13,
        DigitalModel::ChaoticFeedbackFm => 14,
        DigitalModel::Plucked => 15,
        DigitalModel::Bowed => 16,
        DigitalModel::Blown => 17,
        DigitalModel::Fluted => 18,
        DigitalModel::StruckBell => 19,
        DigitalModel::StruckDrum => 20,
        DigitalModel::Kick => 21,
        DigitalModel::Cymbal => 22,
        DigitalModel::Snare => 23,
        DigitalModel::Wavetables => 24,
        DigitalModel::WaveMap => 25,
        DigitalModel::WaveLine => 26,
        DigitalModel::WaveParaphonic => 27,
        DigitalModel::FilteredNoise => 28,
        DigitalModel::TwinPeaksNoise => 29,
        DigitalModel::ClockedNoise => 30,
        DigitalModel::GranularCloud => 31,
        DigitalModel::ParticleNoise => 32,
        DigitalModel::DigitalModulation => 33,
        DigitalModel::QuestionMark => 34,
    }
}

impl DigitalModel {
    pub const COUNT: usize = 35;

    /// Every value, in declaration order.
    pub const ALL: [DigitalModel; 35] = [
        DigitalModel::TripleRingMod,
        DigitalModel::SawSwarm,
        DigitalModel::Comb,
        DigitalModel::Toy,
        DigitalModel::DigitalFilterLp,
        DigitalModel::DigitalFilterPk,
        DigitalModel::DigitalFilterBp,
        DigitalModel::DigitalFilterHp,
        DigitalModel::Vosim,
        DigitalModel::Vowel,
        DigitalModel::VowelFof,
        DigitalModel::Harmonics,
        DigitalModel::Fm,
        DigitalModel::FeedbackFm,
        DigitalModel::ChaoticFeedbackFm,
        DigitalModel::Plucked,
        DigitalModel::Bowed,
        DigitalModel::Blown,
        DigitalModel::Fluted,
        DigitalModel::StruckBell,
        DigitalModel::StruckDrum,
        DigitalModel::Kick,
        DigitalModel::Cymbal,
        DigitalModel::Snare,
        DigitalModel::Wavetables,
        DigitalModel::WaveMap,
        DigitalModel::WaveLine,
        DigitalModel::WaveParaphonic,
        DigitalModel::FilteredNoise,
        DigitalModel::TwinPeaksNoise,
        DigitalModel::ClockedNoise,
        DigitalModel::GranularCloud,
        DigitalModel::ParticleNoise,
        DigitalModel::DigitalModulation,
        DigitalModel::QuestionMark,
    ];

    /// The value at position `v`, if there is one.
    pub fn from_u8(v: u8) -> (r: Option<DigitalModel>)
        ensures
            (v as int) < 35 <==> r.is_some(),
            r matches Some(s) ==> digital_model_index(s) == v,
    {
        match v {
            0 => Some(DigitalModel::TripleRingMod),
            1 => Some(DigitalModel::SawSwarm),
            2 => Some(DigitalModel::Comb),
            3 => Some(DigitalModel::Toy),
            4 => Some(DigitalModel::DigitalFilterLp),
            5 => Some(DigitalModel::DigitalFilterPk),
            6 => Some(DigitalModel::DigitalFilterBp),
            7 => Some(DigitalModel::DigitalFilterHp),
            8 => Some(DigitalModel::Vosim),
            9 => Some(DigitalModel::Vowel),
            10 => Some(DigitalModel::VowelFof),
            11 => Some(DigitalModel::Harmonics),
            12 => Some(DigitalModel::Fm),
            13 => Some(DigitalModel::FeedbackFm),
            14 => Some(DigitalModel::ChaoticFeedbackFm),
            15 => Some(DigitalModel::Plucked),
            16 => Some(DigitalModel::Bowed),
            17 => Some(DigitalModel::Blown),
            18 => Some(DigitalModel::Fluted),
            19 => Some(DigitalModel::StruckBell),
            20 => Some(DigitalModel::StruckDrum),
            21 => Some(DigitalModel::Kick),
            22 => Some(DigitalModel::Cymbal),
            23 => Some(DigitalModel::Snare),
            24 => Some(DigitalModel::Wavetables),
            25 => Some(DigitalModel::WaveMap),
            26 => Some(DigitalModel::WaveLine),
            27 => Some(DigitalModel::WaveParaphonic),
            28 => Some(DigitalModel::FilteredNoise),
            29 => Some(DigitalModel::TwinPeaksNoise),
            30 => Some(DigitalModel::ClockedNoise),
            31 => Some(DigitalModel::GranularCloud),
            32 => Some(DigitalModel::ParticleNoise),
            33 => Some(DigitalModel::DigitalModulation),
            34 => Some(DigitalModel::QuestionMark),
            _ => None,
        }
    }

    /// The position of this value in declaration order.
    pub fn index(self) -> (r: u8)
        ensures
            r == digital_model_index(self),
    {
        match self {
            DigitalModel::TripleRingMod => 0,
            DigitalModel::SawSwarm => 1,
            DigitalModel::Comb => 2,
            DigitalModel::Toy => 3,
            DigitalModel::DigitalFilterLp => 4,
            DigitalModel::DigitalFilterPk => 5,
            DigitalModel::DigitalFilterBp => 6,
            DigitalModel::DigitalFilterHp => 7,
            DigitalModel::Vosim => 8,
            DigitalModel::Vowel => 9,
            DigitalModel::VowelFof => 10,
            DigitalModel::Harmonics => 11,
            DigitalModel::Fm => 12,
            DigitalModel::FeedbackFm => 13,
            DigitalModel::ChaoticFeedbackFm => 14,
            DigitalModel::Plucked => 15,
            DigitalModel::Bowed => 16,
            DigitalModel::Blown => 17,
            DigitalModel::Fluted => 18,
            DigitalModel::StruckBell => 19,
            DigitalModel::StruckDrum => 20,
            DigitalModel::Kick => 21,
            DigitalModel::Cymbal => 22,
            DigitalModel::Snare => 23,
            DigitalModel::Wavetables => 24,
            DigitalModel::WaveMap => 25,
            DigitalModel::WaveLine => 26,
            DigitalModel::WaveParaphonic => 27,
            DigitalModel::FilteredNoise => 28,
            DigitalModel::TwinPeaksNoise => 29,
            DigitalModel::ClockedNoise => 30,
            DigitalModel::GranularCloud => 31,
            DigitalModel::ParticleNoise => 32,
            DigitalModel::DigitalModulation => 33,
            DigitalModel::QuestionMark => 34,
        }
    }
}

/// The analog-style band-limited waveforms.
#[derive(Debug, Clone, Copy, PartialEq, Eq, Structural)]
pub enum AnalogOscillatorShape {
    Saw,
    VariableSaw,
    Csaw,
    Square,
    Triangle,
    Sine,
    TriangleFold,
    SineFold,
    Buzz,
}

/// The digital model that a macro shape selects, when it selects one.
pub open spec fn digital_model_of(m: MacroOscillatorShape) -> int {
    macro_oscillator_shape_index(m) - 13
}

/// Every macro shape from `TripleRingMod` on selects the digital model of the
/// same name: `from_u8(m - TripleRingMod)` is that model.
pub proof fn lemma_digital_models_follow_macro_tail(m: MacroOscillatorShape, d: DigitalModel)
    requires
        macro_oscillator_shape_index(m) >= 13,
        digital_model_index(d) == macro_oscillator_shape_index(m) - 13,
    ensures
        (m == MacroOscillatorShape::QuestionMark) <==> (d == DigitalModel::QuestionMark),
        (m == MacroOscillatorShape::Plucked) <==> (d == DigitalModel::Plucked),
        (m == MacroOscillatorShape::SawComb) <==> (d == DigitalModel::Comb),
        (m == MacroOscillatorShape::TripleRingMod) <==> (d == DigitalModel::TripleRingMod),
{
}

} // verus!
