//! The settings of the recording buffer that the players read from: how its
//! samples are stored and how they are read between sample positions.
use vstd::prelude::*;

verus! {

/// Guard samples kept past the end of a recording buffer for interpolation.
pub const INTERPOLATION_TAIL: usize = 8;

/// Sample storage format of a recording buffer.
#[derive(Debug, Clone, Copy, PartialEq, Eq, Structural)]
pub enum Resolution {
    /// 16-bit linear samples.
    Bit16,
    /// 8-bit mu-law samples.
    Bit8MuLaw,
}

/// How a buffer is read between two sample positions.
#[derive(Debug, Clone, Copy, PartialEq, Eq, Structural)]
pub enum InterpolationMethod {
    /// Zero-order hold.
    Zoh,
    /// Linear.
    Linear,
    /// Four-point Hermite.
    Hermite,
}

} // verus!
