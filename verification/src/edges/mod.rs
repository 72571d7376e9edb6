//! A chiptune oscillator bank: a sampled oscillator with six shapes on a
//! 24-bit phase accumulator, and the timer arithmetic of the square-wave
//! channels.

pub mod resources;
pub mod digital_oscillator;
pub mod timer_oscillator;

pub use self::digital_oscillator::{AUDIO_BLOCK_SIZE, DigitalOscillator, OscillatorShape};
pub use self::timer_oscillator::{PulseWidth, TimerOscillator, TimerPrescaler};
