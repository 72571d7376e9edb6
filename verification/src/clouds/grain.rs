//! The quality of a grain, which also picks how the recording buffer is
//! read.
use vstd::prelude::*;
use super::audio_buffer::InterpolationMethod;

verus! {

/// The quality of the grains' reads.
#[derive(Debug, Clone, Copy, PartialEq, Eq, Structural, PartialOrd, Ord)]
pub enum GrainQuality {
    /// Zero-order hold reads.
    Low,
    /// Linear reads.
    Medium,
    /// Hermite reads.
    High,
}

impl GrainQuality {
    /// The buffer reading of the quality: hold, linear or Hermite.
    pub fn interpolation(self) -> (r: InterpolationMethod)
        ensures
            r == match self {
                GrainQuality::Low => InterpolationMethod::Zoh,
                GrainQuality::Medium => InterpolationMethod::Linear,
                GrainQuality::High => InterpolationMethod::Hermite,
            },
    {
        match self {
            GrainQuality::Low => InterpolationMethod::Zoh,
            GrainQuality::Medium => InterpolationMethod::Linear,
            GrainQuality::High => InterpolationMethod::Hermite,
        }
    }
}

} // verus!
