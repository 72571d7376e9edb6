//! The effects' delay-memory layout and the grain qualities.

use eurorack::clouds::audio_buffer::InterpolationMethod;
use eurorack::clouds::fx_engine::bases;
use eurorack::clouds::grain::GrainQuality;

#[test]
fn delay_lines_follow_each_other_with_a_guard_word() {
    assert_eq!(bases([10usize, 20, 30]), [0, 11, 32]);
    assert_eq!(bases([150usize, 214, 319, 527, 2182, 2690, 4501, 2525, 2197, 6312]),
        [0, 151, 366, 686, 1214, 3397, 6088, 10590, 13116, 15314]);
    assert_eq!(bases([7usize]), [0]);
}

#[test]
fn each_grain_quality_picks_its_reading() {
    assert_eq!(GrainQuality::Low.interpolation(), InterpolationMethod::Zoh);
    assert_eq!(GrainQuality::Medium.interpolation(), InterpolationMethod::Linear);
    assert_eq!(GrainQuality::High.interpolation(), InterpolationMethod::Hermite);
    assert!(GrainQuality::Low < GrainQuality::High);
}
