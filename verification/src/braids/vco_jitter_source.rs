//! Slow pseudo-random pitch drift ("analog temperature"): rare random events
//! move an external temperature along a sine; the room temperature follows it
//! through a very slow one-pole filter.
use vstd::prelude::*;
use crate::bits::{lemma_i32_shl, lemma_i32_shr, lemma_u32_shr};
use super::random::{Random, lcg_next};
use super::resources::WAV_SINE;

verus! {

#[derive(Debug, Clone, Copy)]
pub struct VcoJitterSource {
    phase_step: u32,
    phase: u32,
    external_temperature: i32,
    room_temperature: i32,
}

/// The room temperature moved 1/65536 of the way (rounded down) to the
/// external temperature.
pub open spec fn follow(room: i32, external: i32) -> int {
    room + (external - room) / 65536
}

impl VcoJitterSource {
    pub closed spec fn phase_step(self) -> u32 { self.phase_step }
    pub closed spec fn phase(self) -> u32 { self.phase }
    pub closed spec fn external_temperature(self) -> i32 { self.external_temperature }
    pub closed spec fn room_temperature(self) -> i32 { self.room_temperature }

    /// Both temperatures stay within a 24-bit signed range (a sine sample
    /// shifted left by 8).
    #[verifier::type_invariant]
    spec fn wf(self) -> bool {
        &&& -0x80_0000 <= self.external_temperature <= 0x80_0000
        &&& -0x80_0000 <= self.room_temperature <= 0x80_0000
    }

    /// A source at rest.
    pub fn new() -> (r: Self)
        ensures
            r.phase_step() == 0,
            r.phase() == 0,
            r.external_temperature() == 0,
            r.room_temperature() == 0,
    {
        VcoJitterSource { phase_step: 0, phase: 0, external_temperature: 0, room_temperature: 0 }
    }

    /// Back to rest.
    pub fn init(&mut self)
        ensures
            final(self).phase_step() == 0,
            final(self).phase() == 0,
            final(self).external_temperature() == 0,
            final(self).room_temperature() == 0,
    {
        *self = VcoJitterSource::new();
    }

    /// One control-rate step; returns the drift scaled by `intensity`:
    /// `room * intensity >> 19` (the product wrapping at 32 bits). When the
    /// low 16 bits of the next random word are all zero, the external
    /// temperature jumps to a new point of a slow pseudo-random sine sweep.
    /// The random word is drawn from the oscillators' shared generator `rng`.
    pub fn render(&mut self, rng: &mut Random, intensity: i32) -> (r: i16)
        ensures
            final(rng).state() == lcg_next(old(rng).state()),
            ({
                let toss = (lcg_next(old(rng).state()) as u16) == 0;
                let step = old(self).phase_step().wrapping_mul(1664525).wrapping_add(1013904223);
                let phase = old(self).phase().wrapping_add((step >> 16u32).wrapping_mul(step >> 16u32));
                &&& final(self).phase_step() == (if toss { step } else { old(self).phase_step() })
                &&& final(self).phase() == (if toss { phase } else { old(self).phase() })
                &&& final(self).external_temperature() == (if toss {
                    WAV_SINE[(phase >> 24u32) as int] as i32 * 256
                } else {
                    old(self).external_temperature() as int
                })
            }),
            final(self).room_temperature() == follow(old(self).room_temperature(), final(self).external_temperature()),
            r == (final(self).room_temperature().wrapping_mul(intensity) >> 19i32) as i16,
    {
        proof {
            use_type_invariant(&*self);
        }
        let toss = rng.get_word() as u16;
        if toss == 0 {
            self.phase_step = self.phase_step.wrapping_mul(1664525).wrapping_add(1013904223);
            self.phase = self.phase.wrapping_add((self.phase_step >> 16).wrapping_mul(self.phase_step >> 16));
            let ph = self.phase;
            proof {
                lemma_u32_shr(ph);
            }
            let s = WAV_SINE[(ph >> 24) as usize] as i32;
            proof {
                lemma_i32_shl(s);
            }
            self.external_temperature = s << 8;
        }
        let room = self.room_temperature;
        let ext = self.external_temperature;
        proof {
            let d = (ext - room) as i32;
            lemma_i32_shr(d);
        }
        self.room_temperature = room + ((ext - room) >> 16);
        (self.room_temperature.wrapping_mul(intensity) >> 19) as i16
    }
}

impl Default for VcoJitterSource {
    fn default() -> (r: Self)
        ensures
            r.room_temperature() == 0,
            r.external_temperature() == 0,
    {
        VcoJitterSource::new()
    }
}

/// The room temperature never overshoots: one step moves it toward the
/// external temperature and stays between the two.
pub proof fn lemma_follow_between(room: i32, external: i32)
    ensures
        room <= external ==> room <= follow(room, external) <= external,
        external <= room ==> external <= follow(room, external) <= room,
{
}

} // verus!
