//! A Chamberlin state-variable filter in 16-bit fixed point, with an optional
//! "punch" that raises cutoff and damping with the low-pass level.
use vstd::prelude::*;
use crate::bits::{lemma_i32_shr, lemma_i64_shr, lemma_u32_shr};
use crate::fixed::{clip16_sym, clip16_sym_spec, interpolate_824_u16, interpolate_824_u16_spec};
use super::resources::{LUT_SVF_CUTOFF, LUT_SVF_DAMP};

verus! {

#[derive(Debug, Clone, Copy, PartialEq, Eq, Structural)]
pub enum SvfMode {
    Lp,
    Bp,
    Hp,
}

#[derive(Debug, Clone, Copy)]
pub struct Svf {
    dirty: bool,
    frequency: i16,
    resonance: i16,
    punch: i32,
    f: i32,
    damp: i32,
    lp: i32,
    bp: i32,
    mode: SvfMode,
}

/// The filter quantities after one sample, computed without wrap-around.
pub struct SvfStep {
    pub f: int,
    pub damp: int,
    pub notch: int,
    pub lp: int,
    pub hp: int,
    pub bp: int,
}

impl Svf {
    pub closed spec fn dirty(self) -> bool { self.dirty }
    pub closed spec fn frequency(self) -> i16 { self.frequency }
    pub closed spec fn resonance(self) -> i16 { self.resonance }
    pub closed spec fn punch(self) -> i32 { self.punch }
    pub closed spec fn cached_f(self) -> i32 { self.f }
    pub closed spec fn cached_damp(self) -> i32 { self.damp }
    pub closed spec fn lp(self) -> i32 { self.lp }
    pub closed spec fn bp(self) -> i32 { self.bp }
    pub closed spec fn mode(self) -> SvfMode { self.mode }

    /// The frequency coefficient from the cutoff table (the note number is
    /// the top 8 bits of the 7.7 pitch).
    pub open spec fn table_f(self) -> i32 {
        interpolate_824_u16_spec(LUT_SVF_CUTOFF@, ((self.frequency() as i32) << 17i32) as u32) as i32
    }

    /// The damping coefficient from the damping table.
    pub open spec fn table_damp(self) -> i32 {
        interpolate_824_u16_spec(LUT_SVF_DAMP@, ((self.resonance() as i32) << 17i32) as u32) as i32
    }

    /// The coefficients used for the next sample (recomputed when dirty).
    pub open spec fn base_f(self) -> i32 {
        if self.dirty() { self.table_f() } else { self.cached_f() }
    }

    pub open spec fn base_damp(self) -> i32 {
        if self.dirty() { self.table_damp() } else { self.cached_damp() }
    }

    /// One sample of the filter on `input`, in unbounded integers:
    /// `notch = in - bp*damp>>15`, `lp += f*bp>>15` (clipped),
    /// `hp = notch - lp`, `bp += f*hp>>15` (clipped); with punch, `f` and
    /// `damp` grow with the low-pass level.
    pub open spec fn step(self, input: i32) -> SvfStep {
        let punch_signal: int = if self.lp() > 4096 { self.lp() as int } else { 2048 };
        let f: int = if self.punch() != 0 {
            self.base_f() + (((punch_signal / 16) * self.punch()) / 512)
        } else {
            self.base_f() as int
        };
        let damp: int = if self.punch() != 0 {
            self.base_damp() + (punch_signal - 2048) / 8
        } else {
            self.base_damp() as int
        };
        let notch = input - (self.bp() * damp) / 32768;
        let lp = clip16_sym_spec((self.lp() + (f * self.bp()) / 32768) as i32) as int;
        let hp = notch - lp;
        let bp = clip16_sym_spec((self.bp() + (f * hp) / 32768) as i32) as int;
        SvfStep { f, damp, notch, lp, hp, bp }
    }

    /// Every intermediate of `step(input)` fits in 32 bits.
    pub open spec fn in_range(self, input: i32) -> bool {
        let s = self.step(input);
        let fits = |x: int| i32::MIN <= x <= i32::MAX;
        &&& fits(self.bp() * s.damp)
        &&& fits(s.notch)
        &&& fits(s.f * self.bp())
        &&& fits(self.lp() + (s.f * self.bp()) / 32768)
        &&& fits(s.hp)
        &&& fits(s.f * s.hp)
        &&& fits(self.bp() + (s.f * s.hp) / 32768)
    }

    /// The integrators stay clipped to 16 bits and the punch is at most 255.
    #[verifier::type_invariant]
    spec fn wf(self) -> bool {
        &&& -32767 <= self.lp <= 32767
        &&& -32767 <= self.bp <= 32767
        &&& 0 <= self.punch <= 255
        &&& 0 <= self.f <= 65535
        &&& 0 <= self.damp <= 65535
    }

    /// The filter after `init` (the cached coefficients are kept).
    pub closed spec fn cleared(self) -> Self {
        Svf { lp: 0, bp: 0, frequency: 4224, resonance: 16384, dirty: true, punch: 0, mode: SvfMode::Bp, ..self }
    }

    /// The filter after `set_frequency(frequency)`.
    pub closed spec fn with_frequency(self, frequency: i16) -> Self {
        Svf { dirty: self.dirty || self.frequency != frequency, frequency, ..self }
    }

    /// The filter after `set_resonance(resonance)`.
    pub closed spec fn with_resonance(self, resonance: i16) -> Self {
        Svf { resonance, dirty: true, ..self }
    }

    /// The filter after `set_punch(punch)`.
    pub closed spec fn with_punch(self, punch: u16) -> Self {
        Svf { punch: ((punch as int * punch as int) / 0x100_0000) as i32, ..self }
    }

    /// The filter after `set_mode(mode)`.
    pub closed spec fn with_mode(self, mode: SvfMode) -> Self {
        Svf { mode, ..self }
    }

    /// The filter after filtering one sample of `input`.
    pub closed spec fn processed(self, input: i32) -> Self {
        Svf {
            dirty: false,
            f: self.base_f(),
            damp: self.base_damp(),
            lp: self.step(input).lp as i32,
            bp: self.step(input).bp as i32,
            ..self
        }
    }

    /// What filtering one sample of `input` returns: the selected output.
    pub open spec fn output(self, input: i32) -> int {
        match self.mode() {
            SvfMode::Bp => self.step(input).bp,
            SvfMode::Hp => self.step(input).hp,
            SvfMode::Lp => self.step(input).lp,
        }
    }

    /// A band-pass filter at MIDI note 33, half resonance, no punch, silent.
    pub fn new() -> (r: Self)
        ensures
            r.dirty(),
            r.frequency() == 33 * 128,
            r.resonance() == 16384,
            r.punch() == 0,
            r.lp() == 0,
            r.bp() == 0,
            r.mode() == SvfMode::Bp,
    {
        Svf {
            dirty: true,
            frequency: 4224,
            resonance: 16384,
            punch: 0,
            f: 0,
            damp: 0,
            lp: 0,
            bp: 0,
            mode: SvfMode::Bp,
        }
    }

    /// Silences the filter and restores the settings of `new`.
    pub fn init(&mut self)
        ensures
            final(self).dirty(),
            final(self).frequency() == 33 * 128,
            final(self).resonance() == 16384,
            final(self).punch() == 0,
            final(self).lp() == 0,
            final(self).bp() == 0,
            final(self).mode() == SvfMode::Bp,
            *final(self) == old(self).cleared(),
    {
        proof {
            use_type_invariant(&*self);
        }
        self.lp = 0;
        self.bp = 0;
        self.frequency = 4224;
        self.resonance = 16384;
        self.dirty = true;
        self.punch = 0;
        self.mode = SvfMode::Bp;
    }

    /// Sets the cutoff (7.7 MIDI pitch); the coefficient is recomputed when it
    /// changes.
    pub fn set_frequency(&mut self, frequency: i16)
        ensures
            final(self).frequency() == frequency,
            final(self).dirty() == (old(self).dirty() || old(self).frequency() != frequency),
            final(self).resonance() == old(self).resonance(),
            final(self).punch() == old(self).punch(),
            final(self).cached_f() == old(self).cached_f(),
            final(self).cached_damp() == old(self).cached_damp(),
            final(self).lp() == old(self).lp(),
            final(self).bp() == old(self).bp(),
            final(self).mode() == old(self).mode(),
            *final(self) == old(self).with_frequency(frequency),
    {
        proof {
            use_type_invariant(&*self);
        }
        self.dirty = self.dirty || (self.frequency != frequency);
        self.frequency = frequency;
    }

    /// Sets the resonance; the coefficients are recomputed.
    pub fn set_resonance(&mut self, resonance: i16)
        ensures
            final(self).resonance() == resonance,
            final(self).dirty(),
            final(self).frequency() == old(self).frequency(),
            final(self).punch() == old(self).punch(),
            final(self).cached_f() == old(self).cached_f(),
            final(self).cached_damp() == old(self).cached_damp(),
            final(self).lp() == old(self).lp(),
            final(self).bp() == old(self).bp(),
            final(self).mode() == old(self).mode(),
            *final(self) == old(self).with_resonance(resonance),
    {
        proof {
            use_type_invariant(&*self);
        }
        self.resonance = resonance;
        self.dirty = true;
    }

    /// Sets the punch amount: `punch^2 >> 24`, so 0 to 255.
    pub fn set_punch(&mut self, punch: u16)
        ensures
            final(self).punch() == (punch as int * punch as int) / 0x100_0000,
            final(self).dirty() == old(self).dirty(),
            final(self).frequency() == old(self).frequency(),
            final(self).resonance() == old(self).resonance(),
            final(self).cached_f() == old(self).cached_f(),
            final(self).cached_damp() == old(self).cached_damp(),
            final(self).lp() == old(self).lp(),
            final(self).bp() == old(self).bp(),
            final(self).mode() == old(self).mode(),
            *final(self) == old(self).with_punch(punch),
    {
        proof {
            use_type_invariant(&*self);
        }
        proof {
            assert(punch as int * punch as int <= 65535 * 65535) by (nonlinear_arith)
                requires punch <= 65535;
            lemma_u32_shr((punch as u32 * punch as u32) as u32);
        }
        self.punch = ((punch as u32 * punch as u32) >> 24) as i32;
    }

    /// Selects which output `process` returns.
    pub fn set_mode(&mut self, mode: SvfMode)
        ensures
            final(self).mode() == mode,
            final(self).dirty() == old(self).dirty(),
            final(self).frequency() == old(self).frequency(),
            final(self).resonance() == old(self).resonance(),
            final(self).punch() == old(self).punch(),
            final(self).cached_f() == old(self).cached_f(),
            final(self).cached_damp() == old(self).cached_damp(),
            final(self).lp() == old(self).lp(),
            final(self).bp() == old(self).bp(),
            *final(self) == old(self).with_mode(mode),
    {
        proof {
            use_type_invariant(&*self);
        }
        self.mode = mode;
    }

    /// Whether filtering `input` now stays within 32 bits (see `in_range`).
    #[verifier::rlimit(40)]
    pub fn fits(&self, input: i32) -> (r: bool)
        ensures
            r == self.in_range(input),
    {
        proof {
            use_type_invariant(self);
        }
        let (mut f, mut damp) = if self.dirty {
            (interpolate_824_u16(&LUT_SVF_CUTOFF, ((self.frequency as i32) << 17) as u32) as i32,
             interpolate_824_u16(&LUT_SVF_DAMP, ((self.resonance as i32) << 17) as u32) as i32)
        } else {
            (self.f, self.damp)
        };
        if self.punch != 0 {
            let punch_signal = if self.lp > 4096 { self.lp } else { 2048 };
            proof {
                lemma_i32_shr(punch_signal);
                assert(0 <= (punch_signal >> 4i32) * self.punch <= 2047 * 255) by (nonlinear_arith)
                    requires 0 <= (punch_signal >> 4i32) <= 2047, 0 <= self.punch <= 255;
                let x = ((punch_signal >> 4i32) * self.punch) as i32;
                lemma_i32_shr(x);
                let y = (punch_signal - 2048) as i32;
                lemma_i32_shr(y);
            }
            f += ((punch_signal >> 4) * self.punch) >> 9;
            damp += (punch_signal - 2048) >> 3;
        }
        let ghost st = self.step(input);
        assert(f == st.f && damp == st.damp);
        let bp = self.bp as i64;
        let lp = self.lp as i64;
        let f = f as i64;
        let damp = damp as i64;
        proof {
            assert(-32767 * 70000 <= bp * damp <= 32767 * 70000) by (nonlinear_arith)
                requires -32767 <= bp <= 32767, 0 <= damp <= 70000;
            assert(-32767 * 70000 <= f * bp <= 32767 * 70000) by (nonlinear_arith)
                requires -32767 <= bp <= 32767, 0 <= f <= 70000;
            lemma_i64_shr((bp * damp) as i64);
            lemma_i64_shr((f * bp) as i64);
        }
        let bd = bp * damp;
        let notch = input as i64 - (bd >> 15);
        let fb = f * bp;
        let sum = lp + (fb >> 15);
        let lp_new: i64 = clip16_sym(sum as i32) as i64;
        assert(lp_new == st.lp);
        let hp = notch - lp_new;
        proof {
            assert(-0x2_0000_0000 * 70000 <= f * hp <= 0x2_0000_0000 * 70000) by (nonlinear_arith)
                requires -0x2_0000_0000 <= hp <= 0x2_0000_0000, 0 <= f <= 70000;
            lemma_i64_shr((f * hp) as i64);
        }
        let fh = f * hp;
        let bp_sum = bp + (fh >> 15);
        let lo = i32::MIN as i64;
        let hi = i32::MAX as i64;
        lo <= bd && bd <= hi && lo <= notch && notch <= hi && lo <= fb && fb <= hi && lo <= sum && sum <= hi
            && lo <= hp && hp <= hi && lo <= fh && fh <= hi && lo <= bp_sum && bp_sum <= hi
    }

    /// Filters one sample and returns the selected output.
    #[verifier::rlimit(40)]
    pub fn process(&mut self, input: i32) -> (r: i32)
        requires
            old(self).in_range(input),
        ensures
            !final(self).dirty(),
            final(self).cached_f() == old(self).base_f(),
            final(self).cached_damp() == old(self).base_damp(),
            final(self).lp() == old(self).step(input).lp,
            final(self).bp() == old(self).step(input).bp,
            final(self).frequency() == old(self).frequency(),
            final(self).resonance() == old(self).resonance(),
            final(self).punch() == old(self).punch(),
            final(self).mode() == old(self).mode(),
            r == match old(self).mode() {
                SvfMode::Bp => old(self).step(input).bp,
                SvfMode::Hp => old(self).step(input).hp,
                SvfMode::Lp => old(self).step(input).lp,
            },
            *final(self) == old(self).processed(input),
            r == old(self).output(input),
    {
        proof {
            use_type_invariant(&*self);
        }
        if self.dirty {
            self.f = interpolate_824_u16(&LUT_SVF_CUTOFF, ((self.frequency as i32) << 17) as u32) as i32;
            self.damp = interpolate_824_u16(&LUT_SVF_DAMP, ((self.resonance as i32) << 17) as u32) as i32;
            self.dirty = false;
        }
        let ghost s = old(self).step(input);
        let mut f = self.f;
        let mut damp = self.damp;
        if self.punch != 0 {
            let punch_signal = if self.lp > 4096 { self.lp } else { 2048 };
            proof {
                lemma_i32_shr(punch_signal);
                assert(0 <= (punch_signal >> 4i32) * self.punch <= 2047 * 255) by (nonlinear_arith)
                    requires 0 <= (punch_signal >> 4i32) <= 2047, 0 <= self.punch <= 255;
                let x = ((punch_signal >> 4i32) * self.punch) as i32;
                lemma_i32_shr(x);
                let y = (punch_signal - 2048) as i32;
                lemma_i32_shr(y);
            }
            f += ((punch_signal >> 4) * self.punch) >> 9;
            damp += (punch_signal - 2048) >> 3;
        }
        proof {
            lemma_shr15(self.bp * damp);
            lemma_shr15(f * self.bp);
        }
        let notch = input - (self.bp * damp >> 15);
        self.lp = clip16_sym(self.lp + (f * self.bp >> 15));
        let hp = notch - self.lp;
        proof {
            lemma_shr15(f * hp);
        }
        self.bp = clip16_sym(self.bp + (f * hp >> 15));
        match self.mode {
            SvfMode::Bp => self.bp,
            SvfMode::Hp => hp,
            SvfMode::Lp => self.lp,
        }
    }
}

/// An arithmetic shift right by 15 is floor division by 32768.
proof fn lemma_shr15(x: int)
    requires
        i32::MIN <= x <= i32::MAX,
    ensures
        (x as i32) >> 15i32 == x / 32768,
{
    let y = x as i32;
    lemma_i32_shr(y);
}

impl Default for Svf {
    fn default() -> (r: Self)
        ensures
            r.dirty(),
            r.lp() == 0,
            r.bp() == 0,
            r.mode() == SvfMode::Bp,
    {
        Svf::new()
    }
}

} // verus!
