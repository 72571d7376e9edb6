//! Interleaved stereo frames in the 16-bit hardware format.
use vstd::prelude::*;

verus! {

/// The largest block a processor accepts.
pub const MAX_BLOCK_SIZE: usize = 32;

/// The largest number of channels.
pub const MAX_NUM_CHANNELS: usize = 2;

/// A 16-bit stereo sample.
#[derive(Debug, Clone, Copy, Default, PartialEq, Eq, Structural)]
pub struct ShortFrame {
    pub l: i16,
    pub r: i16,
}

} // verus!
