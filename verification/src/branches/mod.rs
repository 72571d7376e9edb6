//! A dual Bernoulli gate: on each rising trigger edge a channel draws a
//! 16-bit random number and lets the trigger through when the draw clears a
//! probability threshold; in toggle mode the outcome is XORed with the
//! channel's previous outcome, and in latch mode its gate output is held until the
//! next trigger instead of following the input's falling edge.

pub mod resources;
pub mod rng;

use vstd::prelude::*;
use self::resources::LINEAR_TABLE;
use self::rng::{Rng, lfsr_next};

verus! {

/// The 16-bit threshold that an 8-bit ADC reading selects: `LINEAR_TABLE[adc]`,
/// which is `adc * 257`.
pub open spec fn threshold_of(adc_value: u8) -> u16 {
    LINEAR_TABLE[adc_value as int]
}

/// Converts an 8-bit ADC reading into the 16-bit probability threshold that
/// `Channel::step` compares its random draw against.
pub fn probability_to_threshold(adc_value: u8) -> (r: u16)
    ensures
        r == threshold_of(adc_value),
        r == adc_value as int * 257,
{
    LINEAR_TABLE[adc_value as usize]
}

/// Every entry of the threshold table is `adc * 257`, so the table starts at 0,
/// ends at 65535 and is non-decreasing.
pub proof fn lemma_threshold_table_linear(adc_value: u8)
    ensures
        threshold_of(adc_value) == adc_value as int * 257,
        adc_value == 0 ==> threshold_of(adc_value) == 0,
        adc_value == 255 ==> threshold_of(adc_value) == 65535,
{
}

/// A larger ADC reading never selects a smaller threshold.
pub proof fn lemma_threshold_monotonic(a: u8, b: u8)
    requires
        a <= b,
    ensures
        threshold_of(a) <= threshold_of(b),
{
    lemma_threshold_table_linear(a);
    lemma_threshold_table_linear(b);
}

/// One channel of the Bernoulli gate pair.
#[derive(Debug, Clone, Copy)]
pub struct Channel {
    pub toggle_mode: bool,
    pub latch_mode: bool,
    input_state: bool,
    previous_state: bool,
    gate: bool,
}

/// Whether a rising-edge draw `random` clears `threshold` (65535 never does).
pub open spec fn draw_passes(random: u16, threshold: u16) -> bool {
    random >= threshold && threshold != 65535
}

impl Channel {
    /// Whether toggle mode is on.
    pub closed spec fn toggles(self) -> bool {
        self.toggle_mode
    }

    /// Whether latch mode is on.
    pub closed spec fn latches(self) -> bool {
        self.latch_mode
    }

    /// The input level seen at the previous step.
    pub closed spec fn input_state(self) -> bool {
        self.input_state
    }

    /// The outcome decided at the last rising edge.
    pub closed spec fn previous_state(self) -> bool {
        self.previous_state
    }

    /// The current gate output level.
    pub closed spec fn gate_level(self) -> bool {
        self.gate
    }

    /// What a step leaves of the channel: the modes are kept and the input
    /// is remembered; on a rising edge its output level and the remembered
    /// outcome become the draw (flipped from the previous outcome in toggle
    /// mode); on a falling edge outside latch mode its output drops;
    /// otherwise output and outcome hold.
    pub proof fn lemma_after_step(self, input: bool, random: u16, threshold: u16)
        ensures
            ({
                let a = self.after_step(input, random, threshold);
                let rising = input && !self.input_state();
                let outcome = if self.toggles() {
                    draw_passes(random, threshold) != self.previous_state()
                } else {
                    draw_passes(random, threshold)
                };
                &&& a.toggles() == self.toggles()
                &&& a.latches() == self.latches()
                &&& a.input_state() == input
                &&& a.previous_state() == (if rising { outcome } else { self.previous_state() })
                &&& a.gate_level() == (if rising {
                    outcome
                } else if !input && self.input_state() && !self.latches() {
                    false
                } else {
                    self.gate_level()
                })
            }),
    {
    }

    /// The channel after one control-rate step: on a rising edge its gate output
    /// becomes the outcome of the draw (XORed with the previous outcome in
    /// toggle mode), on a falling edge outside latch mode its gate output drops, and
    /// otherwise it holds.
    pub closed spec fn after_step(self, input: bool, random: u16, threshold: u16) -> Channel {
        if input && !self.input_state {
            let outcome = if self.toggle_mode {
                draw_passes(random, threshold) != self.previous_state
            } else {
                draw_passes(random, threshold)
            };
            Channel { previous_state: outcome, gate: outcome, input_state: input, ..self }
        } else if !input && self.input_state && !self.latch_mode {
            Channel { gate: false, input_state: input, ..self }
        } else {
            Channel { input_state: input, ..self }
        }
    }

    /// A channel at rest: both modes off, input low, gate low.
    pub fn new() -> (r: Self)
        ensures
            r == Channel::new_spec(),
            !r.toggles(),
            !r.latches(),
            !r.input_state(),
            !r.previous_state(),
            !r.gate_level(),
    {
        Channel {
            toggle_mode: false,
            latch_mode: false,
            input_state: false,
            previous_state: false,
            gate: false,
        }
    }

    /// The current gate output level.
    pub fn gate(&self) -> (r: bool)
        ensures
            r == self.gate_level(),
    {
        self.gate
    }

    /// One control-rate step with the input level `input`, the 16-bit random
    /// draw and the threshold; returns the new gate level.
    pub fn step(&mut self, input: bool, random: u16, threshold: u16) -> (r: bool)
        ensures
            *final(self) == old(self).after_step(input, random, threshold),
            r == final(self).gate_level(),
    {
        if input && !self.input_state {
            let mut outcome = random >= threshold && threshold != 65535;
            if self.toggle_mode {
                outcome = outcome ^ self.previous_state;
            }
            self.previous_state = outcome;
            self.gate = outcome;
        } else if !input && self.input_state && !self.latch_mode {
            self.gate = false;
        }
        self.input_state = input;
        self.gate
    }
}

impl Default for Channel {
    fn default() -> (r: Self)
        ensures
            r == Channel::new_spec(),
    {
        Channel::new()
    }
}

impl Channel {
    /// The channel that `new` returns.
    pub closed spec fn new_spec() -> Channel {
        Channel {
            toggle_mode: false,
            latch_mode: false,
            input_state: false,
            previous_state: false,
            gate: false,
        }
    }

    /// The channel that `new` returns is at rest: both modes off, input low,
    /// gate low.
    pub proof fn lemma_new_spec()
        ensures
            !Channel::new_spec().toggles(),
            !Channel::new_spec().latches(),
            !Channel::new_spec().input_state(),
            !Channel::new_spec().previous_state(),
            !Channel::new_spec().gate_level(),
    {
    }

    /// The channel with toggle mode set to `on`, the rest kept.
    pub closed spec fn with_toggle(self, on: bool) -> Channel {
        Channel { toggle_mode: on, ..self }
    }

    /// The channel with latch mode set to `on`, the rest kept.
    pub closed spec fn with_latch(self, on: bool) -> Channel {
        Channel { latch_mode: on, ..self }
    }

    /// Setting a mode changes that mode and nothing else.
    pub proof fn lemma_with_modes(self, on: bool)
        ensures
            self.with_toggle(on).toggles() == on,
            self.with_toggle(on).latches() == self.latches(),
            self.with_latch(on).latches() == on,
            self.with_latch(on).toggles() == self.toggles(),
            self.with_toggle(on).input_state() == self.input_state() && self.with_latch(on).input_state() == self.input_state(),
            self.with_toggle(on).previous_state() == self.previous_state()
                && self.with_latch(on).previous_state() == self.previous_state(),
            self.with_toggle(on).gate_level() == self.gate_level() && self.with_latch(on).gate_level() == self.gate_level(),
    {
    }

    /// Turns toggle mode on or off.
    pub fn set_toggle_mode(&mut self, on: bool)
        ensures
            *final(self) == old(self).with_toggle(on),
            final(self).toggles() == on,
            final(self).latches() == old(self).latches(),
            final(self).input_state() == old(self).input_state(),
            final(self).previous_state() == old(self).previous_state(),
            final(self).gate_level() == old(self).gate_level(),
    {
        self.toggle_mode = on;
    }

    /// Turns latch mode on or off.
    pub fn set_latch_mode(&mut self, on: bool)
        ensures
            *final(self) == old(self).with_latch(on),
            final(self).latches() == on,
            final(self).toggles() == old(self).toggles(),
            final(self).input_state() == old(self).input_state(),
            final(self).previous_state() == old(self).previous_state(),
            final(self).gate_level() == old(self).gate_level(),
    {
        self.latch_mode = on;
    }
}

/// With toggle mode off, a rising edge at threshold 0 always opens its gate output.
pub proof fn lemma_threshold_zero_passes(c: Channel, random: u16)
    requires
        !c.toggles(),
        !c.input_state(),
    ensures
        c.after_step(true, random, 0).gate_level(),
{
}

/// With toggle mode off, threshold 65535 never opens its gate output: a closed gate
/// stays closed, whatever the input and the draw.
pub proof fn lemma_threshold_max_blocks(c: Channel, input: bool, random: u16)
    requires
        !c.toggles(),
        !c.gate_level(),
    ensures
        !c.after_step(input, random, 65535).gate_level(),
{
}

/// In toggle mode with threshold 0 every rising edge inverts the previous
/// outcome, so its gate output flip-flops from one trigger to the next.
pub proof fn lemma_toggle_flips(c: Channel, random: u16)
    requires
        c.toggles(),
        !c.input_state(),
    ensures
        c.after_step(true, random, 0).gate_level() == !c.previous_state(),
        c.after_step(true, random, 0).previous_state() == !c.previous_state(),
{
}

/// On a falling edge its gate output holds in latch mode and drops otherwise.
pub proof fn lemma_falling_edge(c: Channel, random: u16, threshold: u16)
    requires
        c.input_state(),
    ensures
        c.latches() ==> c.after_step(false, random, threshold).gate_level() == c.gate_level(),
        !c.latches() ==> !c.after_step(false, random, threshold).gate_level(),
{
}

/// A closed output only ever opens on a rising edge.
pub proof fn lemma_opens_only_on_rising_edge(c: Channel, input: bool, random: u16, threshold: u16)
    requires
        !c.gate_level(),
        c.after_step(input, random, threshold).gate_level(),
    ensures
        input && !c.input_state(),
{
}

/// Both channels plus the shared free-running random source they draw from.
#[derive(Debug, Clone, Copy)]
pub struct Branches {
    pub channel: [Channel; 2],
    rng: Rng,
}

impl Branches {
    /// Channel `i` (0 or 1).
    pub closed spec fn channel_at(self, i: int) -> Channel {
        self.channel[i]
    }

    /// The random register shared by both channels.
    pub closed spec fn rng_state(self) -> u32 {
        self.rng.state()
    }

    /// Sets channel `i`'s toggle and latch modes; the other channel and the
    /// random register are kept.
    pub fn set_modes(&mut self, i: usize, toggle: bool, latch: bool)
        requires
            i < 2,
        ensures
            final(self).channel_at(i as int) == old(self).channel_at(i as int).with_toggle(toggle).with_latch(latch),
            final(self).channel_at(1 - i) == old(self).channel_at(1 - i),
            final(self).rng_state() == old(self).rng_state(),
    {
        let mut c = self.channel[i];
        c.set_toggle_mode(toggle);
        c.set_latch_mode(latch);
        self.channel[i] = c;
    }

    /// Both channels at rest and the random register seeded with 1.
    pub fn new() -> (r: Self)
        ensures
            r.channel_at(0) == Channel::new_spec(),
            r.channel_at(1) == Channel::new_spec(),
            forall|i: int| 0 <= i < 2 ==> {
                &&& !(#[trigger] r.channel_at(i)).toggles()
                &&& !r.channel_at(i).latches()
                &&& !r.channel_at(i).input_state()
                &&& !r.channel_at(i).previous_state()
                &&& !r.channel_at(i).gate_level()
            },
            r.rng_state() == 1,
    {
        Branches { channel: [Channel::new(), Channel::new()], rng: Rng::new() }
    }

    /// One control-rate step for both channels: one 32-bit snapshot of the
    /// random register is split into a low half for channel 0 and a high half
    /// for channel 1, then the register advances. Returns both gate levels.
    pub fn step(&mut self, input: [bool; 2], threshold: [u16; 2]) -> (r: [bool; 2])
        ensures
            final(self).channel_at(0) == old(self).channel_at(0).after_step(
                input[0],
                (old(self).rng_state() & 0xffff) as u16,
                threshold[0],
            ),
            final(self).channel_at(1) == old(self).channel_at(1).after_step(
                input[1],
                (old(self).rng_state() >> 16) as u16,
                threshold[1],
            ),
            final(self).rng_state() == lfsr_next(old(self).rng_state()),
            r[0] == final(self).channel_at(0).gate_level(),
            r[1] == final(self).channel_at(1).gate_level(),
    {
        let random_words = self.rng.next_words();
        let mut c0 = self.channel[0];
        let out_0 = c0.step(input[0], (random_words & 0xffff) as u16, threshold[0]);
        self.channel[0] = c0;
        let mut c1 = self.channel[1];
        let out_1 = c1.step(input[1], (random_words >> 16) as u16, threshold[1]);
        self.channel[1] = c1;
        [out_0, out_1]
    }
}

impl Default for Branches {
    fn default() -> (r: Self)
        ensures
            r.channel_at(0) == Channel::new_spec(),
            r.channel_at(1) == Channel::new_spec(),
            r.rng_state() == 1,
    {
        Branches::new()
    }
}

} // verus!
