//! An exponentially decaying impulse, released after a delay, used to excite
//! resonators.
use vstd::prelude::*;
use crate::bits::{lemma_i32_shr};

verus! {

#[derive(Debug, Clone, Copy)]
pub struct Excitation {
    delay: u32,
    decay: u32,
    counter: i32,
    state: i32,
    level: i32,
}

/// `|x|` for an `i32` other than `i32::MIN`.
pub open spec fn abs_i32(x: i32) -> i32 {
    (if x < 0 { -x } else { x as int }) as i32
}

impl Excitation {
    pub closed spec fn delay(self) -> u32 { self.delay }
    pub closed spec fn decay(self) -> u32 { self.decay }
    pub closed spec fn counter(self) -> i32 { self.counter }
    pub closed spec fn state(self) -> i32 { self.state }
    pub closed spec fn level(self) -> i32 { self.level }

    /// The decayed state before the impulse lands: `state * decay >> 12`
    /// with 32-bit wrap-around of the product.
    pub open spec fn decayed(self) -> i32 {
        self.state().wrapping_mul(self.decay() as i32) >> 12i32
    }

    /// Whether the next `process` call releases the impulse.
    pub open spec fn releases_now(self) -> bool {
        self.counter() == 1
    }

    /// The internal state after one `process` call.
    pub open spec fn next_state(self) -> int {
        if self.releases_now() {
            self.decayed() + abs_i32(self.level())
        } else {
            self.decayed() as int
        }
    }

    /// The counter after one `process` call (counts down to zero and stays).
    pub open spec fn next_counter(self) -> i32 {
        if self.counter() > 0 { (self.counter() - 1) as i32 } else { self.counter() }
    }

    /// The excitation after `init`.
    pub closed spec fn reset(self) -> Self {
        Excitation { delay: 0, decay: 4093, counter: 0, state: 0, ..self }
    }

    /// The excitation with another delay.
    pub closed spec fn with_delay(self, delay: u32) -> Self {
        Excitation { delay, ..self }
    }

    /// The excitation with another decay.
    pub closed spec fn with_decay(self, decay: u32) -> Self {
        Excitation { decay, ..self }
    }

    /// The excitation armed with `level`.
    pub closed spec fn triggered(self, level: i32) -> Self {
        Excitation { level, counter: ((self.delay as i32) as int + 1) as i32, ..self }
    }

    /// The excitation after one `process` call.
    pub closed spec fn processed(self) -> Self {
        Excitation { state: self.next_state() as i32, counter: self.next_counter(), ..self }
    }

    /// What one `process` call returns: the next state, signed like the
    /// level.
    pub open spec fn output(self) -> int {
        if self.level() < 0 { -self.next_state() } else { self.next_state() }
    }

    /// Whether one `process` call stays within 32 bits.
    pub open spec fn process_ok(self) -> bool {
        &&& self.releases_now() ==> self.level() != i32::MIN
        &&& self.next_state() <= i32::MAX
    }

    /// The excitation after `n` calls of `process`.
    pub open spec fn processed_times(self, n: nat) -> Self
        decreases n,
    {
        if n == 0 { self } else { self.processed_times((n - 1) as nat).processed() }
    }

    /// A trigger lands after exactly `delay + 1` samples: after `n` further
    /// `process` calls (up to `delay + 1`) the countdown reads
    /// `delay + 1 - n`, so `done` turns true only after the last of them,
    /// and that last call is the one that adds the level's magnitude; the
    /// level, delay and decay are kept throughout.
    pub proof fn lemma_trigger_lands_after_delay(self, level: i32, n: nat)
        requires
            self.delay() < 0x7fff_ffff,
            n <= self.delay() + 1,
        ensures
            ({
                let e = self.triggered(level).processed_times(n);
                &&& e.counter() == self.delay() + 1 - n
                &&& e.level() == level
                &&& e.delay() == self.delay()
                &&& e.decay() == self.decay()
                &&& (e.counter() == 0 <==> n == self.delay() + 1)
                &&& (e.releases_now() <==> n == self.delay())
            }),
        decreases n,
    {
        if n > 0 {
            self.lemma_trigger_lands_after_delay(level, (n - 1) as nat);
        }
    }

    /// An idle excitation: no delay, decay 4093/4096 per sample, silent.
    pub fn new() -> (r: Self)
        ensures
            r.delay() == 0,
            r.decay() == 4093,
            r.counter() == 0,
            r.state() == 0,
            r.level() == 0,
    {
        Excitation { delay: 0, decay: 4093, counter: 0, state: 0, level: 0 }
    }

    /// Resets delay, decay, countdown and state (the level is kept).
    pub fn init(&mut self)
        ensures
            final(self).delay() == 0,
            final(self).decay() == 4093,
            final(self).counter() == 0,
            final(self).state() == 0,
            final(self).level() == old(self).level(),
            *final(self) == old(self).reset(),
    {
        self.delay = 0;
        self.decay = 4093;
        self.counter = 0;
        self.state = 0;
    }

    /// Sets the number of samples between a trigger and the impulse.
    pub fn set_delay(&mut self, delay: u32)
        ensures
            final(self).delay() == delay,
            final(self).decay() == old(self).decay(),
            final(self).counter() == old(self).counter(),
            final(self).state() == old(self).state(),
            final(self).level() == old(self).level(),
            *final(self) == old(self).with_delay(delay),
    {
        self.delay = delay;
    }

    /// Sets the per-sample decay factor (in 1/4096).
    pub fn set_decay(&mut self, decay: u32)
        ensures
            final(self).decay() == decay,
            final(self).delay() == old(self).delay(),
            final(self).counter() == old(self).counter(),
            final(self).state() == old(self).state(),
            final(self).level() == old(self).level(),
            *final(self) == old(self).with_decay(decay),
    {
        self.decay = decay;
    }

    /// Arms the impulse: it lands `delay + 1` samples from now with the
    /// magnitude and sign of `level`.
    pub fn trigger(&mut self, level: i32)
        requires
            (old(self).delay() as i32) < i32::MAX,
        ensures
            final(self).level() == level,
            final(self).counter() == old(self).delay() as i32 + 1,
            final(self).delay() == old(self).delay(),
            final(self).decay() == old(self).decay(),
            final(self).state() == old(self).state(),
            *final(self) == old(self).triggered(level),
    {
        self.level = level;
        self.counter = self.delay as i32 + 1;
    }

    /// Whether the next `process` call stays within 32 bits (see
    /// `process_ok`).
    pub fn process_fits(&self) -> (r: bool)
        ensures
            r == self.process_ok(),
    {
        let decayed = self.state.wrapping_mul(self.decay as i32) >> 12;
        if self.counter == 1 {
            if self.level == i32::MIN {
                return false;
            }
            let magnitude: i64 = if self.level < 0 { -(self.level as i64) } else { self.level as i64 };
            decayed as i64 + magnitude <= i32::MAX as i64
        } else {
            true
        }
    }

    /// Whether arming now keeps the countdown within 32 bits.
    pub fn can_trigger(&self) -> (r: bool)
        ensures
            r == ((self.delay() as i32) < i32::MAX),
    {
        (self.delay as i32) < i32::MAX
    }

    /// Whether the armed impulse has landed (the countdown is over).
    pub fn done(&self) -> (r: bool)
        ensures
            r == (self.counter() == 0),
    {
        self.counter == 0
    }

    /// One sample: decays the state, lands the impulse when the countdown
    /// reaches zero, and returns the state signed like the level.
    pub fn process(&mut self) -> (r: i32)
        requires
            old(self).releases_now() ==> old(self).level() != i32::MIN,
            old(self).next_state() <= i32::MAX,
        ensures
            final(self).state() == old(self).next_state(),
            final(self).counter() == old(self).next_counter(),
            final(self).delay() == old(self).delay(),
            final(self).decay() == old(self).decay(),
            final(self).level() == old(self).level(),
            r == (if old(self).level() < 0 { -final(self).state() } else { final(self).state() as int }),
            *final(self) == old(self).processed(),
            r == old(self).output(),
    {
        self.state = self.state.wrapping_mul(self.decay as i32) >> 12;
        proof {
            lemma_i32_shr(old(self).state().wrapping_mul(old(self).decay() as i32));
        }
        if self.counter > 0 {
            self.counter -= 1;
            if self.counter == 0 {
                let magnitude = if self.level < 0 { -self.level } else { self.level };
                self.state += magnitude;
            }
        }
        if self.level < 0 {
            -self.state
        } else {
            self.state
        }
    }
}

impl Default for Excitation {
    fn default() -> (r: Self)
        ensures
            r.delay() == 0,
            r.decay() == 4093,
            r.counter() == 0,
            r.state() == 0,
            r.level() == 0,
    {
        Excitation::new()
    }
}

} // verus!
