//! The processor's playback modes.
use vstd::prelude::*;

verus! {

/// How the processor plays back its recording buffer.
#[derive(Debug, Clone, Copy, PartialEq, Eq, Structural)]
pub enum PlaybackMode {
    /// Overlapping grains.
    Granular,
    /// Time-stretching by waveform-similarity overlap-add.
    Stretch,
    /// A looping delay.
    LoopingDelay,
    /// Spectral processing (renders silence).
    Spectral,
}

} // verus!
