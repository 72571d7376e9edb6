//! The timer arithmetic of the square-wave channels: from a pitch and a pulse
//! width, the dual-slope PWM period, compare value and clock prescaler.
use vstd::prelude::*;
use super::resources::LUT_RES_TIMER_COUNT;

verus! {

pub const K_OCTAVE: i16 = 1536;
/// MIDI note 24 in 1/128 semitone: the bottom of the timer table.
pub const K_FIRST_NOTE_NORMAL_MODE: i16 = 3072;
/// MIDI note -12: the bottom of the table in LFO mode (clock / 64).
pub const K_FIRST_NOTE_LFO_MODE: i16 = -1536;

/// The compare value as a fraction of 256 for the five fixed pulse widths.
pub const PULSE_WIDTHS: [u8; 5] = [128, 85, 64, 32, 13];

#[derive(Debug, Clone, Copy, PartialEq, Eq, Structural)]
pub enum PulseWidth {
    Pw50,
    Pw66,
    Pw75,
    Pw87,
    Pw95,
    CvControlled,
}

/// The index of a fixed pulse width in `PULSE_WIDTHS`.
pub open spec fn pulse_width_index(p: PulseWidth) -> int {
    match p {
        PulseWidth::Pw50 => 0,
        PulseWidth::Pw66 => 1,
        PulseWidth::Pw75 => 2,
        PulseWidth::Pw87 => 3,
        PulseWidth::Pw95 => 4,
        PulseWidth::CvControlled => 5,
    }
}

/// The timer clock prescalers: divide by 1, by 8, and by 64 ("LFO mode").
#[derive(Debug, Clone, Copy, PartialEq, Eq, Structural)]
pub enum TimerPrescaler {
    Clk1,
    Clk8,
    Clk64,
}

/// `a * b >> 8`.
pub open spec fn mul_shift8(a: u16, b: u8) -> u16 {
    ((a as int * b as int) / 256) as u16
}

fn u16_u8_mul_shift8(a: u16, b: u8) -> (r: u16)
    ensures
        r == mul_shift8(a, b),
{
    proof {
        assert(a as int * b as int <= 65535 * 255) by (nonlinear_arith)
            requires a <= 65535, b <= 255;
    }
    let p = a as u32 * b as u32;
    proof {
        assert(p >> 8u32 == p / 256) by (bit_vector);
    }
    (p >> 8) as u16
}

/// The number of octaves to subtract from `p` (raised to zero or above by
/// octaves first) to bring it below one octave.
pub open spec fn octaves_above(p: int) -> nat
    decreases (if p >= 1536 { p } else { 0 }),
{
    if p >= 1536 { 1 + octaves_above(p - 1536) } else { 0 }
}

/// `p` raised by octaves until non-negative.
pub open spec fn raised(p: int) -> int
    decreases (if p < 0 { -p } else { 0 }),
{
    if p < 0 { raised(p + 1536) } else { p }
}

/// The timer period and compare value for a pitch, pulse width and prescaler.
pub struct TimerSetting {
    pub period: u16,
    pub value: u16,
}

/// The setting for `pitch`: the pitch relative to the table bottom (note 24,
/// or note -12 in LFO mode), raised into range, split into octaves above the
/// table and a position within it; the period is the interpolated table count
/// halved per octave (0 once 16 or more), and the compare value is the period
/// times the pulse width over 256.
pub open spec fn timer_setting(pitch: i16, pw: PulseWidth, lfo: bool, cv_pw: u8) -> TimerSetting {
    let base: i16 = if lfo { K_FIRST_NOTE_LFO_MODE } else { K_FIRST_NOTE_NORMAL_MODE };
    let p0 = raised(pitch.wrapping_sub(base) as int);
    let shifts = octaves_above(p0);
    let p = p0 - shifts * 1536;
    let count = LUT_RES_TIMER_COUNT[p / 16];
    let next = LUT_RES_TIMER_COUNT[p / 16 + 1];
    let c = count.wrapping_sub(mul_shift8(count.wrapping_sub(next), ((p % 16) * 16) as u8));
    let period: u16 = if shifts < 16 { c >> (shifts as u16) } else { 0 };
    let width: u8 = if pw == PulseWidth::CvControlled { cv_pw } else { PULSE_WIDTHS[pulse_width_index(pw)] };
    TimerSetting { period, value: mul_shift8(period, width) }
}

pub struct TimerOscillator {
    value: u16,
    period: u16,
    cv_pw: u8,
    prescaler: TimerPrescaler,
}

impl TimerOscillator {
    pub closed spec fn value_spec(self) -> u16 { self.value }
    pub closed spec fn period_spec(self) -> u16 { self.period }
    pub closed spec fn cv_pw_spec(self) -> u8 { self.cv_pw }
    pub closed spec fn prescaler_spec(self) -> TimerPrescaler { self.prescaler }

    /// The prescaler after a pitch update: LFO mode below note 24, back to
    /// divide-by-8 above note 104, unchanged in between (hysteresis).
    pub open spec fn next_prescaler(self, pitch: i16) -> TimerPrescaler {
        if pitch > 104 * 128 {
            TimerPrescaler::Clk8
        } else if pitch < 24 * 128 {
            TimerPrescaler::Clk64
        } else {
            self.prescaler_spec()
        }
    }

    /// A stopped oscillator (period 0) with prescaler 8.
    pub fn new() -> (r: Self)
        ensures
            r.value_spec() == 0,
            r.period_spec() == 0,
            r.cv_pw_spec() == 0,
            r.prescaler_spec() == TimerPrescaler::Clk8,
    {
        TimerOscillator { value: 0, period: 0, cv_pw: 0, prescaler: TimerPrescaler::Clk8 }
    }

    /// Back to the state of `new`.
    pub fn init(&mut self)
        ensures
            final(self).value_spec() == 0,
            final(self).period_spec() == 0,
            final(self).cv_pw_spec() == 0,
            final(self).prescaler_spec() == TimerPrescaler::Clk8,
    {
        *self = TimerOscillator::new();
    }

    /// Sets the pulse width used in CV-controlled mode, clamped to 6..=250.
    pub fn set_cv_pw(&mut self, pw: u8)
        ensures
            final(self).cv_pw_spec() == (if pw < 6 { 6 } else if pw > 250 { 250 } else { pw }),
            final(self).value_spec() == old(self).value_spec(),
            final(self).period_spec() == old(self).period_spec(),
            final(self).prescaler_spec() == old(self).prescaler_spec(),
    {
        self.cv_pw = if pw < 6 { 6 } else if pw > 250 { 250 } else { pw };
    }

    /// The timer period.
    pub fn period(&self) -> (r: u16)
        ensures
            r == self.period_spec(),
    {
        self.period
    }

    /// The timer compare value.
    pub fn value(&self) -> (r: u16)
        ensures
            r == self.value_spec(),
    {
        self.value
    }

    /// The timer clock prescaler.
    pub fn prescaler(&self) -> (r: TimerPrescaler)
        ensures
            r == self.prescaler_spec(),
    {
        self.prescaler
    }

    /// Retunes to `pitch` (MIDI note times 128) with `pulse_width`.
    pub fn update_pitch(&mut self, pitch: i16, pulse_width: PulseWidth)
        ensures
            final(self).prescaler_spec() == old(self).next_prescaler(pitch),
            ({
                let s = timer_setting(pitch, pulse_width,
                    old(self).next_prescaler(pitch) == TimerPrescaler::Clk64, old(self).cv_pw_spec());
                final(self).period_spec() == s.period && final(self).value_spec() == s.value
            }),
            final(self).cv_pw_spec() == old(self).cv_pw_spec(),
    {
        if pitch < 3072 && self.prescaler != TimerPrescaler::Clk64 {
            self.prescaler = TimerPrescaler::Clk64;
        }
        if pitch > 13312 && self.prescaler != TimerPrescaler::Clk8 {
            self.prescaler = TimerPrescaler::Clk8;
        }
        self.update_timer_parameters(pitch, pulse_width);
    }

    /// Follows `t` as its sub-oscillator: half its period, a 50% duty cycle,
    /// and a prescaler eight times faster.
    pub fn sub_follow(&mut self, t: &TimerOscillator)
        ensures
            final(self).period_spec() == t.period_spec() / 2,
            final(self).value_spec() == t.period_spec() / 4,
            final(self).prescaler_spec() == (if t.prescaler_spec() == TimerPrescaler::Clk64 {
                TimerPrescaler::Clk8
            } else {
                TimerPrescaler::Clk1
            }),
            final(self).cv_pw_spec() == old(self).cv_pw_spec(),
    {
        let tp = t.period;
        let period = tp >> 1;
        proof {
            assert(tp >> 1u16 == tp / 2 && (tp / 2) >> 1u16 == tp / 4) by (bit_vector);
        }
        self.value = period >> 1;
        self.period = period;
        self.prescaler = if t.prescaler == TimerPrescaler::Clk64 { TimerPrescaler::Clk8 } else { TimerPrescaler::Clk1 };
    }

    fn update_timer_parameters(&mut self, pitch: i16, pulse_width: PulseWidth)
        ensures
            ({
                let s = timer_setting(pitch, pulse_width,
                    old(self).prescaler_spec() == TimerPrescaler::Clk64, old(self).cv_pw_spec());
                final(self).period_spec() == s.period && final(self).value_spec() == s.value
            }),
            final(self).cv_pw_spec() == old(self).cv_pw_spec(),
            final(self).prescaler_spec() == old(self).prescaler_spec(),
    {
        let base = if self.prescaler == TimerPrescaler::Clk64 { K_FIRST_NOTE_LFO_MODE } else { K_FIRST_NOTE_NORMAL_MODE };
        let mut p: i16 = pitch.wrapping_sub(base);
        let ghost p_start = p as int;
        while p < 0
            invariant
                raised(p_start) == raised(p as int),
                p <= 32767,
            decreases 32767 - p,
        {
            p = p + K_OCTAVE;
        }
        let ghost p0 = p as int;
        let mut shifts: u32 = 0;
        while p >= K_OCTAVE
            invariant
                0 <= p,
                octaves_above(p0) == shifts + octaves_above(p as int),
                p as int == p0 - shifts * 1536,
                p0 <= 32767,
                shifts <= 22,
            decreases p,
        {
            p = p - K_OCTAVE;
            shifts += 1;
        }
        let index_integral = ((p as u16) >> 4) as usize;
        let ph = p as u16;
        proof {
            assert(ph >> 4u16 == ph / 16) by (bit_vector);
            assert((ph & 0xf) <= 15 && (ph & 0xf) == ph % 16) by (bit_vector);
        }
        let index_fractional = ((p as u16 & 0xf) * 16) as u8;
        let count = LUT_RES_TIMER_COUNT[index_integral];
        let next = LUT_RES_TIMER_COUNT[index_integral + 1];
        let count = count.wrapping_sub(u16_u8_mul_shift8(count.wrapping_sub(next), index_fractional));
        self.period = if shifts < 16 { count >> (shifts as u16) } else { 0 };
        let pw = match pulse_width {
            PulseWidth::Pw50 => PULSE_WIDTHS[0],
            PulseWidth::Pw66 => PULSE_WIDTHS[1],
            PulseWidth::Pw75 => PULSE_WIDTHS[2],
            PulseWidth::Pw87 => PULSE_WIDTHS[3],
            PulseWidth::Pw95 => PULSE_WIDTHS[4],
            PulseWidth::CvControlled => self.cv_pw,
        };
        self.value = u16_u8_mul_shift8(self.period, pw);
    }
}

impl Default for TimerOscillator {
    fn default() -> (r: Self)
        ensures
            r.period_spec() == 0,
            r.prescaler_spec() == TimerPrescaler::Clk8,
    {
        TimerOscillator::new()
    }
}

} // verus!
