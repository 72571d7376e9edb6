//! The integer parts of a granular texture processor: the sign-bit
//! correlator that finds splice points, the layout of the effects' delay
//! memory, and the settings and frame format the processor works with.

pub mod audio_buffer;
pub mod correlator;
pub mod frame;
pub mod fx_engine;
pub mod grain;
pub mod granular_processor;
