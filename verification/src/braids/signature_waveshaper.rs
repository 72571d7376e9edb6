//! A waveshaper whose transfer curve is derived from a seed (a unit's serial
//! number): a skewed sigmoid with small sine "bumplets" mixed in, giving each
//! unit its own slight impurities.
use vstd::prelude::*;
use crate::bits::{lemma_i32_shl, lemma_i32_shr, lemma_u16_shr};
use crate::fixed::{mix_i16, mix_i16_spec};
use super::resources::WAV_SINE;

verus! {

/// Signed division rounding toward zero.
pub open spec fn div_trunc(n: int, d: int) -> int {
    if n >= 0 { n / d } else { -((-n) / d) }
}

/// The curve parameters packed in a seed: skew (4 bits), sigmoid strength
/// (5 bits), bumplet frequency (2 bits, plus 3) and bumplet width (3 bits).
pub struct CurveParams {
    pub skew: int,
    pub sigmoid_strength: int,
    pub bumplets_frequency: int,
    pub bumplets_width: int,
}

pub open spec fn curve_params(seed: u32) -> CurveParams {
    let w = ((seed / 0x800) % 8 + 1) * 128;
    CurveParams {
        skew: (seed % 16) as int,
        sigmoid_strength: ((seed / 16) % 32) as int,
        bumplets_frequency: ((seed / 512) % 4) as int + 3,
        bumplets_width: w * w,
    }
}

/// Entry `i` (0..256) of the transfer curve for `seed`.
pub open spec fn transfer_entry(seed: u32, i: int) -> i32 {
    let p = curve_params(seed);
    let x0 = ((i - 128) * 256) as i16;
    let x_skew = (i * i - 32768) as i16;
    let x = mix_i16_spec(x0, x_skew, (p.skew * 2048) as u16) as int;
    let ax = if x < 0 { -x } else { x };
    let sigmoid = div_trunc(x * (8192 + p.sigmoid_strength * 1024), 8192 + (p.sigmoid_strength * ax) / 32) as i16;
    let bumplets = WAV_SINE[(i * p.bumplets_frequency) % 256];
    let gain0 = ((x * x) / p.bumplets_width + 16) as u16;
    let gain = (4194304int / (128 + gain0 as int)) as u16;
    mix_i16_spec(sigmoid, bumplets, gain) as i32
}

#[derive(Debug, Clone, Copy)]
pub struct SignatureWaveshaper {
    transfer: [i32; 257],
}

impl SignatureWaveshaper {
    /// The 257-point transfer curve.
    pub closed spec fn transfer(self) -> Seq<i32> {
        self.transfer@
    }

    #[verifier::type_invariant]
    spec fn wf(self) -> bool {
        forall|i: int| 0 <= i < 257 ==> -32768 <= #[trigger] self.transfer[i] <= 32767
    }

    /// A waveshaper with the curve of `seed`.
    pub fn new(seed: u32) -> (r: Self)
        ensures
            forall|i: int| 0 <= i < 256 ==> #[trigger] r.transfer()[i] == transfer_entry(seed, i),
            r.transfer()[256] == transfer_entry(seed, 255),
    {
        let mut transfer = [0i32; 257];
        fill_transfer(&mut transfer, seed);
        SignatureWaveshaper { transfer }
    }

    /// Recomputes the curve for `seed`.
    pub fn init(&mut self, seed: u32)
        ensures
            forall|i: int| 0 <= i < 256 ==> #[trigger] final(self).transfer()[i] == transfer_entry(seed, i),
            final(self).transfer()[256] == transfer_entry(seed, 255),
    {
        let mut transfer = [0i32; 257];
        fill_transfer(&mut transfer, seed);
        self.transfer = transfer;
    }

    /// Curve entry `i`.
    pub fn transfer_at(&self, i: u16) -> (r: i32)
        requires
            i < 257,
        ensures
            r == self.transfer()[i as int],
    {
        self.transfer[i as usize]
    }

    /// Shapes a sample: the curve read at the sample's top 8 bits (offset to
    /// unsigned) and interpolated linearly by its low 8 bits.
    pub fn transform(&self, sample: i16) -> (r: i32)
        ensures
            ({
                let u = (sample as int + 32768) as u16;
                let a = self.transfer()[(u / 256) as int];
                let b = self.transfer()[(u / 256) as int + 1];
                r == a + ((b - a) * ((u % 256) as int)) / 256
            }),
    {
        proof {
            use_type_invariant(self);
        }
        let i = (sample as i32 + 32768) as u16;
        proof {
            lemma_u16_shr(i);
        }
        let a = self.transfer[(i >> 8) as usize];
        let b = self.transfer[((i >> 8) + 1) as usize];
        proof {
            assert(-65535 * 255 <= (b - a) * ((i & 0xff) as int) <= 65535 * 255) by (nonlinear_arith)
                requires -65535 <= b - a <= 65535, 0 <= (i & 0xff) <= 255;
        }
        let d = (b - a) * (i & 0xff) as i32;
        proof {
            lemma_i32_shr(d);
        }
        a + (d >> 8)
    }
}

/// Fills `transfer` with the curve of `seed`.
fn fill_transfer(transfer: &mut [i32; 257], seed: u32)
    ensures
        forall|i: int| 0 <= i < 256 ==> #[trigger] final(transfer)@[i] == transfer_entry(seed, i),
        final(transfer)@[256] == transfer_entry(seed, 255),
        forall|i: int| 0 <= i < 257 ==> -32768 <= #[trigger] final(transfer)@[i] <= 32767,
{
    proof {
        assert((seed & 15) == seed % 16 && ((seed >> 4u32) & 31) == (seed / 16) % 32
            && (((seed >> 4u32) >> 5u32) & 3) == (seed / 512) % 4
            && ((((seed >> 4u32) >> 5u32) >> 2u32) & 7) == (seed / 0x800) % 8) by (bit_vector);
    }
    let mut s = seed;
    let skew = (s & 15) as i32;
    s = s >> 4;
    let sigmoid_strength = (s & 31) as i32;
    s = s >> 5;
    let mut bumplets_frequency = (s & 3) as i32;
    s = s >> 2;
    bumplets_frequency = bumplets_frequency + 3;
    let mut bumplets_width = (s & 7) as i32;
    bumplets_width = bumplets_width + 1;
    proof {
        let w = bumplets_width;
        lemma_i32_shl(w);
    }
    bumplets_width = bumplets_width << 7;
    proof {
        assert(bumplets_width * bumplets_width <= 1048576) by (nonlinear_arith)
            requires 128 <= bumplets_width <= 1024;
        assert(bumplets_width * bumplets_width >= 16384) by (nonlinear_arith)
            requires 128 <= bumplets_width <= 1024;
    }
    bumplets_width = bumplets_width * bumplets_width;
    let ghost p = curve_params(seed);
    let mut i: i32 = 0;
    while i < 256
        invariant
            0 <= i <= 256,
            skew == p.skew,
            sigmoid_strength == p.sigmoid_strength,
            bumplets_frequency == p.bumplets_frequency,
            bumplets_width == p.bumplets_width,
            p == curve_params(seed),
            16384 <= bumplets_width <= 1048576,
            0 <= skew < 16,
            0 <= sigmoid_strength < 32,
            3 <= bumplets_frequency <= 6,
            forall|k: int| 0 <= k < i ==> #[trigger] transfer@[k] == transfer_entry(seed, k),
            forall|k: int| 0 <= k < i ==> -32768 <= #[trigger] transfer@[k] <= 32767,
        decreases 256 - i,
    {
        proof {
            assert(0 <= i * i <= 65536) by (nonlinear_arith) requires 0 <= i <= 256;
        }
        let x0 = ((i - 128) * 256) as i16;
        let x_skew = (i * i - 32768) as i16;
        let x = mix_i16(x0, x_skew, (skew * 2048) as u16);
        let xi = x as i32;
        let ax = if xi < 0 { -xi } else { xi };
        proof {
            assert(-32768 * 39936 <= xi * (8192 + sigmoid_strength * 1024) <= 32767 * 39936) by (nonlinear_arith)
                requires -32768 <= xi <= 32767, 0 <= sigmoid_strength < 32;
            assert(0 <= sigmoid_strength * ax <= 31 * 32768) by (nonlinear_arith)
                requires 0 <= sigmoid_strength < 32, 0 <= ax <= 32768;
        }
        let num = xi * (8192 + sigmoid_strength * 1024);
        let den = 8192 + sigmoid_strength * ax / 32;
        let q = if num >= 0 { num / den } else { -((-num) / den) };
        let sigmoid = q as i16;
        proof {
            assert(0 <= i * bumplets_frequency <= 256 * 6) by (nonlinear_arith)
                requires 0 <= i <= 256, 3 <= bumplets_frequency <= 6;
        }
        let idx = ((i * bumplets_frequency) % 256) as usize;
        proof {
            assert(0 <= xi * xi <= 0x4000_0000) by (nonlinear_arith)
                requires -32768 <= xi <= 32767;
        }
        let bumplets = WAV_SINE[idx];
        let gain0 = (xi * xi / bumplets_width + 16) as u16;
        let gain = (32768u32 * 128 / (128 + gain0 as u32)) as u16;
        let v = mix_i16(sigmoid, bumplets, gain) as i32;
        transfer[i as usize] = v;
        i += 1;
    }
    let last = transfer[255];
    transfer[256] = last;
}

impl Default for SignatureWaveshaper {
    fn default() -> (r: Self)
        ensures
            forall|i: int| 0 <= i < 256 ==> #[trigger] r.transfer()[i] == transfer_entry(0, i),
    {
        SignatureWaveshaper::new(0)
    }
}

} // verus!
