//! A hysteretic pitch quantizer with a 128-entry codebook: a pitch snaps to
//! the nearest codebook entry and stays there until it moves past a boundary
//! set 7/16 of the way toward the neighbouring entries.
use vstd::prelude::*;
use crate::bits::{lemma_i32_shr};
use crate::fixed::{clip16_sym, clip16_sym_spec};

verus! {

/// A scale: `span` is the interval that repeats (usually one octave,
/// `12 << 7`), `notes` the offsets within it, in 1/128 semitone.
#[derive(Debug, Clone, Copy)]
pub struct Scale {
    pub span: i16,
    pub notes: &'static [i16],
}

pub const SCALE_NOTES_1: [i16; 12] = [0, 128, 256, 384, 512, 640, 768, 896, 1024, 1152, 1280, 1408];
pub const SCALE_NOTES_2: [i16; 7] = [0, 256, 512, 640, 896, 1152, 1408];
pub const SCALE_NOTES_3: [i16; 7] = [0, 256, 384, 640, 896, 1152, 1280];
pub const SCALE_NOTES_4: [i16; 7] = [0, 128, 384, 640, 896, 1024, 1280];
pub const SCALE_NOTES_5: [i16; 7] = [0, 256, 512, 768, 896, 1152, 1408];
pub const SCALE_NOTES_6: [i16; 7] = [0, 256, 512, 640, 896, 1152, 1280];
pub const SCALE_NOTES_7: [i16; 7] = [0, 256, 384, 640, 896, 1024, 1280];
pub const SCALE_NOTES_8: [i16; 7] = [0, 128, 384, 640, 768, 1024, 1280];
pub const SCALE_NOTES_9: [i16; 6] = [0, 384, 512, 896, 1152, 1280];
pub const SCALE_NOTES_10: [i16; 6] = [0, 384, 640, 768, 896, 1280];
pub const SCALE_NOTES_11: [i16; 5] = [0, 256, 512, 896, 1152];
pub const SCALE_NOTES_12: [i16; 5] = [0, 384, 640, 896, 1280];
pub const SCALE_NOTES_13: [i16; 8] = [0, 128, 384, 512, 640, 896, 1024, 1280];
pub const SCALE_NOTES_14: [i16; 5] = [0, 128, 640, 896, 1024];
pub const SCALE_NOTES_15: [i16; 5] = [0, 128, 384, 896, 1024];
pub const SCALE_NOTES_16: [i16; 7] = [0, 256, 384, 768, 896, 1024, 1408];
pub const SCALE_NOTES_17: [i16; 7] = [0, 128, 512, 640, 896, 1024, 1408];
pub const SCALE_NOTES_18: [i16; 7] = [0, 128, 512, 640, 896, 1024, 1280];
pub const SCALE_NOTES_19: [i16; 6] = [0, 256, 512, 768, 1024, 1280];
pub const SCALE_NOTES_20: [i16; 12] = [0, 115, 261, 376, 522, 637, 783, 899, 1014, 1160, 1275, 1421];
pub const SCALE_NOTES_21: [i16; 12] = [0, 128, 256, 384, 448, 640, 768, 896, 1024, 1152, 1280, 1344];
pub const SCALE_NOTES_22: [i16; 12] = [0, 128, 256, 384, 448, 640, 768, 896, 1024, 1152, 1280, 1408];
pub const SCALE_NOTES_23: [i16; 12] = [0, 128, 256, 384, 448, 640, 768, 896, 1024, 1088, 1280, 1408];
pub const SCALE_NOTES_24: [i16; 7] = [0, 115, 494, 637, 899, 1014, 1393];
pub const SCALE_NOTES_25: [i16; 5] = [0, 143, 637, 899, 1042];
pub const SCALE_NOTES_26: [i16; 6] = [0, 143, 494, 755, 1132, 1393];
pub const SCALE_NOTES_27: [i16; 7] = [0, 115, 494, 755, 899, 1014, 1393];
pub const SCALE_NOTES_28: [i16; 7] = [0, 143, 494, 755, 899, 1042, 1393];
pub const SCALE_NOTES_29: [i16; 7] = [0, 261, 494, 637, 899, 1160, 1393];
pub const SCALE_NOTES_30: [i16; 7] = [0, 261, 522, 783, 899, 1160, 1421];
pub const SCALE_NOTES_31: [i16; 7] = [0, 233, 376, 637, 899, 1132, 1275];
pub const SCALE_NOTES_32: [i16; 7] = [0, 261, 404, 637, 899, 1160, 1303];
pub const SCALE_NOTES_33: [i16; 7] = [0, 261, 376, 637, 899, 1014, 1275];
pub const SCALE_NOTES_34: [i16; 7] = [0, 261, 494, 637, 899, 1132, 1275];
pub const SCALE_NOTES_35: [i16; 8] = [0, 261, 494, 637, 899, 1160, 1275, 1421];
pub const SCALE_NOTES_36: [i16; 8] = [0, 261, 376, 637, 899, 1132, 1275, 1393];
pub const SCALE_NOTES_37: [i16; 6] = [0, 115, 376, 637, 1132, 1275];
pub const SCALE_NOTES_38: [i16; 6] = [0, 261, 376, 637, 899, 1393];
pub const SCALE_NOTES_39: [i16; 6] = [0, 494, 637, 899, 1014, 1275];
pub const SCALE_NOTES_40: [i16; 6] = [0, 261, 755, 899, 1132, 1275];
pub const SCALE_NOTES_41: [i16; 7] = [0, 261, 376, 637, 899, 1160, 1275];
pub const SCALE_NOTES_42: [i16; 7] = [0, 261, 494, 637, 899, 1014, 1393];
pub const SCALE_NOTES_43: [i16; 6] = [0, 261, 522, 637, 1014, 1275];
pub const SCALE_NOTES_44: [i16; 5] = [0, 115, 637, 899, 1275];
pub const SCALE_NOTES_45: [i16; 5] = [0, 115, 376, 899, 1275];
pub const SCALE_NOTES_46: [i16; 5] = [0, 376, 637, 899, 1275];
pub const SCALE_NOTES_47: [i16; 5] = [0, 376, 637, 755, 1014];
pub const SCALE_NOTES_48: [i16; 6] = [0, 376, 494, 637, 1132, 1275];

/// The number of built-in scales.
pub const NUM_SCALES: usize = 49;

/// Built-in scale `index`; scale 0 (empty) disables quantization, the others
/// repeat every octave.
pub fn scale(index: usize) -> (r: Scale)
    requires
        index < NUM_SCALES,
    ensures
        index == 0 ==> r.span == 0 && r.notes@.len() == 0,
        index > 0 ==> r.span == 1536 && r.notes@.len() > 0,
{
    match index {
        0 => Scale { span: 0, notes: &[] },
        1 => Scale { span: 1536, notes: &SCALE_NOTES_1 },
        2 => Scale { span: 1536, notes: &SCALE_NOTES_2 },
        3 => Scale { span: 1536, notes: &SCALE_NOTES_3 },
        4 => Scale { span: 1536, notes: &SCALE_NOTES_4 },
        5 => Scale { span: 1536, notes: &SCALE_NOTES_5 },
        6 => Scale { span: 1536, notes: &SCALE_NOTES_6 },
        7 => Scale { span: 1536, notes: &SCALE_NOTES_7 },
        8 => Scale { span: 1536, notes: &SCALE_NOTES_8 },
        9 => Scale { span: 1536, notes: &SCALE_NOTES_9 },
        10 => Scale { span: 1536, notes: &SCALE_NOTES_10 },
        11 => Scale { span: 1536, notes: &SCALE_NOTES_11 },
        12 => Scale { span: 1536, notes: &SCALE_NOTES_12 },
        13 => Scale { span: 1536, notes: &SCALE_NOTES_13 },
        14 => Scale { span: 1536, notes: &SCALE_NOTES_14 },
        15 => Scale { span: 1536, notes: &SCALE_NOTES_15 },
        16 => Scale { span: 1536, notes: &SCALE_NOTES_16 },
        17 => Scale { span: 1536, notes: &SCALE_NOTES_17 },
        18 => Scale { span: 1536, notes: &SCALE_NOTES_18 },
        19 => Scale { span: 1536, notes: &SCALE_NOTES_19 },
        20 => Scale { span: 1536, notes: &SCALE_NOTES_20 },
        21 => Scale { span: 1536, notes: &SCALE_NOTES_21 },
        22 => Scale { span: 1536, notes: &SCALE_NOTES_22 },
        23 => Scale { span: 1536, notes: &SCALE_NOTES_23 },
        24 => Scale { span: 1536, notes: &SCALE_NOTES_24 },
        25 => Scale { span: 1536, notes: &SCALE_NOTES_25 },
        26 => Scale { span: 1536, notes: &SCALE_NOTES_26 },
        27 => Scale { span: 1536, notes: &SCALE_NOTES_27 },
        28 => Scale { span: 1536, notes: &SCALE_NOTES_28 },
        29 => Scale { span: 1536, notes: &SCALE_NOTES_29 },
        30 => Scale { span: 1536, notes: &SCALE_NOTES_30 },
        31 => Scale { span: 1536, notes: &SCALE_NOTES_31 },
        32 => Scale { span: 1536, notes: &SCALE_NOTES_32 },
        33 => Scale { span: 1536, notes: &SCALE_NOTES_33 },
        34 => Scale { span: 1536, notes: &SCALE_NOTES_34 },
        35 => Scale { span: 1536, notes: &SCALE_NOTES_35 },
        36 => Scale { span: 1536, notes: &SCALE_NOTES_36 },
        37 => Scale { span: 1536, notes: &SCALE_NOTES_37 },
        38 => Scale { span: 1536, notes: &SCALE_NOTES_38 },
        39 => Scale { span: 1536, notes: &SCALE_NOTES_39 },
        40 => Scale { span: 1536, notes: &SCALE_NOTES_40 },
        41 => Scale { span: 1536, notes: &SCALE_NOTES_41 },
        42 => Scale { span: 1536, notes: &SCALE_NOTES_42 },
        43 => Scale { span: 1536, notes: &SCALE_NOTES_43 },
        44 => Scale { span: 1536, notes: &SCALE_NOTES_44 },
        45 => Scale { span: 1536, notes: &SCALE_NOTES_45 },
        46 => Scale { span: 1536, notes: &SCALE_NOTES_46 },
        47 => Scale { span: 1536, notes: &SCALE_NOTES_47 },
        _ => Scale { span: 1536, notes: &SCALE_NOTES_48 },
    }
}

/// Codebook entry `i` of a scale: entries 64 and up climb through the notes
/// octave by octave from the root; entries below 64 descend through them in
/// reverse from one span below; each is clipped to 16 bits.
pub open spec fn scale_entry(notes: Seq<i16>, span: i16, i: int) -> i16 {
    let n = notes.len() as int;
    if i >= 64 {
        let k = i - 64;
        clip16_sym_spec((notes[k % n] + span * (k / n)) as i32) as i16
    } else {
        let k = 63 - i;
        clip16_sym_spec((notes[n - 1 - k % n] + (-(k / n) - 1) * span) as i32) as i16
    }
}

/// The chromatic codebook: entry `i` is `(i - 64) << 7`.
pub open spec fn chromatic_entry(i: int) -> i16 {
    ((i - 64) * 128) as i16
}

/// The binary search for the first codebook index in `lo..hi` whose entry
/// exceeds `t` (exact when the entries there are sorted).
pub open spec fn upper_bound(s: Seq<i16>, lo: int, hi: int, t: i16) -> int
    decreases hi - lo,
{
    if lo >= hi {
        lo
    } else {
        let mid = lo + (hi - lo) / 2;
        if s[mid] <= t { upper_bound(s, mid + 1, hi, t) } else { upper_bound(s, lo, mid, t) }
    }
}

/// `|pitch - entry|` truncated to 16 bits.
pub open spec fn distance(pitch: i32, entry: i16) -> i16 {
    let d = pitch - entry;
    (if d < 0 { -d } else { d }) as i16
}

/// The nearest of the three entries at `u - 2`, `u - 1` and `u` (the earliest
/// on ties), among those closer than 16384; -1 if none is.
pub open spec fn nearest_of_three(s: Seq<i16>, pitch: i32, u: int) -> int {
    let d0 = distance(pitch, s[u - 2]);
    let d1 = distance(pitch, s[u - 1]);
    let d2 = distance(pitch, s[u]);
    let (b0, q0) = if d0 < 16384 { (d0, u - 2) } else { (16384i16, -1) };
    let (b1, q1) = if d1 < b0 { (d1, u - 1) } else { (b0, q0) };
    if d2 < b1 { u } else { q1 }
}

/// The codebook index a search for `pitch` settles on.
pub open spec fn search(s: Seq<i16>, pitch: i32) -> int {
    nearest_of_three(s, pitch, upper_bound(s, 3, 126, pitch as i16))
}

/// Whether the entries from index 3 to 125 are in ascending order.
pub open spec fn window_sorted(s: Seq<i16>) -> bool {
    forall|i: int, j: int| 3 <= i <= j < 126 ==> s[i] <= s[j]
}

#[derive(Debug, Clone)]
pub struct Quantizer {
    enabled: bool,
    codebook: [i16; 128],
    codeword: i32,
    previous_boundary: i32,
    next_boundary: i32,
}

impl Quantizer {
    pub closed spec fn enabled(self) -> bool { self.enabled }
    pub closed spec fn codebook(self) -> Seq<i16> { self.codebook@ }
    pub closed spec fn codeword(self) -> i32 { self.codeword }
    pub closed spec fn previous_boundary(self) -> i32 { self.previous_boundary }
    pub closed spec fn next_boundary(self) -> i32 { self.next_boundary }

    /// Whether `pitch` (relative to the root) is held at the current codeword.
    pub open spec fn holds(self, pitch: i32) -> bool {
        self.previous_boundary() <= pitch <= self.next_boundary()
    }

    /// A search for `pitch` runs without overflow and finds an entry within
    /// 16384.
    pub open spec fn can_search(self, pitch: i32) -> bool {
        let s = self.codebook();
        let u = upper_bound(s, 3, 126, pitch as i16);
        &&& forall|i: int| u - 2 <= i <= u ==> i32::MIN < pitch - #[trigger] s[i] <= i32::MAX
        &&& search(s, pitch) != -1
    }

    /// The output for `pitch` is computable: without overflow when the root
    /// is removed and added back, and, outside the held window, with a
    /// successful search.
    pub open spec fn can_process(self, pitch: i32, root: i32) -> bool {
        !self.enabled() || {
            let p = pitch - root;
            &&& i32::MIN <= p <= i32::MAX
            &&& !self.holds(p as i32) ==> self.can_search(p as i32)
            &&& self.holds(p as i32) ==> i32::MIN <= self.codeword() + root <= i32::MAX
            &&& !self.holds(p as i32) ==>
                i32::MIN <= self.codebook()[search(self.codebook(), p as i32)] + root <= i32::MAX
        }
    }

    /// An enabled quantizer with the chromatic codebook.
    pub fn new() -> (r: Self)
        ensures
            r.enabled(),
            forall|i: int| 0 <= i < 128 ==> #[trigger] r.codebook()[i] == chromatic_entry(i),
            r.codeword() == 0,
            r.previous_boundary() == 0,
            r.next_boundary() == 0,
    {
        let mut q = Quantizer { enabled: true, codebook: [0; 128], codeword: 0, previous_boundary: 0, next_boundary: 0 };
        q.init();
        q
    }

    /// Enables the quantizer with the chromatic codebook and resets its state.
    pub fn init(&mut self)
        ensures
            final(self).enabled(),
            forall|i: int| 0 <= i < 128 ==> #[trigger] final(self).codebook()[i] == chromatic_entry(i),
            final(self).codeword() == 0,
            final(self).previous_boundary() == 0,
            final(self).next_boundary() == 0,
    {
        self.enabled = true;
        self.codeword = 0;
        self.previous_boundary = 0;
        self.next_boundary = 0;
        let mut i: i16 = 0;
        while i < 128
            invariant
                0 <= i <= 128,
                forall|k: int| 0 <= k < i ==> #[trigger] self.codebook@[k] == chromatic_entry(k),
                self.enabled,
                self.codeword == 0,
                self.previous_boundary == 0,
                self.next_boundary == 0,
            decreases 128 - i,
        {
            proof {
                let v = (i - 64) as i16;
                assert(v << 7i16 == ((v as int) * 128) as i16) by (bit_vector);
            }
            self.codebook[i as usize] = (i - 64) << 7;
            i += 1;
        }
    }

    /// Loads a scale's codebook.
    pub fn configure(&mut self, scale: &Scale)
        ensures
            final(self).enabled() == (scale.notes@.len() > 0 && scale.span != 0),
            final(self).enabled() ==> forall|i: int| 0 <= i < 128 ==>
                #[trigger] final(self).codebook()[i] == scale_entry(scale.notes@, scale.span, i),
            !final(self).enabled() ==> final(self).codebook() == old(self).codebook(),
            final(self).codeword() == old(self).codeword(),
            final(self).previous_boundary() == old(self).previous_boundary(),
            final(self).next_boundary() == old(self).next_boundary(),
    {
        self.configure_raw(scale.notes, scale.span);
    }

    /// Loads the codebook of the scale with `notes` repeating every `span`;
    /// an empty scale or a zero span disables the quantizer.
    pub fn configure_raw(&mut self, notes: &[i16], span: i16)
        ensures
            final(self).enabled() == (notes@.len() > 0 && span != 0),
            final(self).enabled() ==> forall|i: int| 0 <= i < 128 ==>
                #[trigger] final(self).codebook()[i] == scale_entry(notes@, span, i),
            !final(self).enabled() ==> final(self).codebook() == old(self).codebook(),
            final(self).codeword() == old(self).codeword(),
            final(self).previous_boundary() == old(self).previous_boundary(),
            final(self).next_boundary() == old(self).next_boundary(),
    {
        self.enabled = notes.len() > 0 && span != 0;
        if !self.enabled {
            return;
        }
        let num_notes = notes.len();
        let mut octave: i32 = 0;
        let mut note: usize = 0;
        let mut i: i32 = 0;
        while i < 64
            invariant
                0 <= i <= 64,
                num_notes == notes@.len(),
                num_notes > 0,
                span != 0,
                self.enabled,
                note as int == (i as int) % (num_notes as int),
                octave as int == (i as int) / (num_notes as int),
                0 <= octave <= 64,
                self.codeword == old(self).codeword,
                self.previous_boundary == old(self).previous_boundary,
                self.next_boundary == old(self).next_boundary,
                forall|k: int| 64 <= k < 64 + i ==> #[trigger] self.codebook@[k] == scale_entry(notes@, span, k),
                forall|k: int| 64 - i <= k < 64 ==> #[trigger] self.codebook@[k] == scale_entry(notes@, span, k),
            decreases 64 - i,
        {
            proof {
                assert(-32768 * 65 <= span * octave <= 32767 * 65) by (nonlinear_arith)
                    requires -32768 <= span <= 32767, 0 <= octave <= 64;
                assert(-32768 * 65 <= (-octave - 1) * span <= 32768 * 65) by (nonlinear_arith)
                    requires -32768 <= span <= 32767, 0 <= octave <= 64;
            }
            let up = notes[note] as i32 + span as i32 * octave;
            let down = notes[num_notes - 1 - note] as i32 + (-octave - 1) * span as i32;
            self.codebook[(64 + i) as usize] = clip16_sym(up) as i16;
            self.codebook[(63 - i) as usize] = clip16_sym(down) as i16;
            proof {
                assert((i as int) % (num_notes as int) == note);
            }
            note += 1;
            if note >= num_notes {
                note = 0;
                octave += 1;
            }
            proof {
                lemma_div_mod_step(i as int, num_notes as int, note as int, octave as int);
            }
            i += 1;
        }
    }

    /// Quantizes `pitch` with no root offset.
    pub fn process(&mut self, pitch: i32) -> (r: i32)
        requires
            old(self).can_process(pitch, 0),
        ensures
            r == old(self).output(pitch, 0),
            old(self).processed_is(pitch, 0, *final(self)),
    {
        self.process_with_root(pitch, 0)
    }

    /// The quantized pitch.
    pub open spec fn output(self, pitch: i32, root: i32) -> int {
        if !self.enabled() {
            pitch as int
        } else {
            let p = (pitch - root) as i32;
            if self.holds(p) {
                self.codeword() + root
            } else {
                self.codebook()[search(self.codebook(), p)] + root
            }
        }
    }

    /// The state after quantizing: outside the held window the nearest entry
    /// becomes the codeword, and the boundaries move 7/16 of the way from it
    /// toward its neighbours.
    pub open spec fn processed_is(self, pitch: i32, root: i32, r: Quantizer) -> bool {
        let p = (pitch - root) as i32;
        &&& r.enabled() == self.enabled()
        &&& r.codebook() == self.codebook()
        &&& if !self.enabled() || self.holds(p) {
            &&& r.codeword() == self.codeword()
            &&& r.previous_boundary() == self.previous_boundary()
            &&& r.next_boundary() == self.next_boundary()
        } else {
            let s = self.codebook();
            let q = search(s, p);
            &&& r.codeword() == s[q]
            &&& r.previous_boundary() == (9 * s[q - 1] + 7 * s[q]) / 16
            &&& r.next_boundary() == (9 * s[q + 1] + 7 * s[q]) / 16
        }
    }

    /// The root only shifts the quantization grid: quantizing `pitch`
    /// against `root` gives `root` plus the quantization of `pitch - root`
    /// with no root, and leaves the same state.
    pub proof fn lemma_root_shifts_grid(self, pitch: i32, root: i32)
        requires
            i32::MIN <= pitch - root <= i32::MAX,
        ensures
            self.output(pitch, root) == self.output((pitch - root) as i32, 0) + root,
            forall|r: Quantizer| #[trigger] self.processed_is(pitch, root, r) == self.processed_is((pitch - root) as i32, 0, r),
    {
    }

    /// After a pitch outside the held window is quantized to an entry whose
    /// neighbours lie at least 3 below and above it, the new window holds
    /// the new codeword and lies strictly between the neighbours: a pitch
    /// equal to a neighbouring entry is not held at the new codeword.
    pub proof fn lemma_window_between_neighbours(self, pitch: i32, root: i32, r: Quantizer)
        requires
            self.enabled(),
            i32::MIN <= pitch - root <= i32::MAX,
            !self.holds((pitch - root) as i32),
            self.processed_is(pitch, root, r),
            ({
                let s = self.codebook();
                let q = search(s, (pitch - root) as i32);
                &&& s[q - 1] + 3 <= s[q]
                &&& s[q] + 3 <= s[q + 1]
            }),
        ensures
            ({
                let s = self.codebook();
                let q = search(s, (pitch - root) as i32);
                &&& s[q - 1] < r.previous_boundary() <= r.codeword() <= r.next_boundary() < s[q + 1]
                &&& !r.holds(s[q - 1] as i32)
                &&& !r.holds(s[q + 1] as i32)
                &&& r.holds(r.codeword() as i32)
            }),
    {
    }

    /// Quantizes `pitch` relative to `root`.
    pub fn process_with_root(&mut self, pitch: i32, root: i32) -> (r: i32)
        requires
            old(self).can_process(pitch, root),
        ensures
            r == old(self).output(pitch, root),
            old(self).processed_is(pitch, root, *final(self)),
    {
        if !self.enabled {
            return pitch;
        }
        let pitch = pitch - root;
        if pitch >= self.previous_boundary && pitch <= self.next_boundary {
            return self.codeword + root;
        }
        let target = pitch as i16;
        let upper = self.upper_bound_index(target);
        let lower = upper - 2;
        let mut best_distance: i16 = 16384;
        let mut q: i32 = -1;
        let mut i: usize = lower;
        let ghost s = self.codebook@;
        while i <= upper
            invariant
                3 <= upper <= 126,
                lower == upper - 2,
                lower <= i <= upper + 1,
                s == self.codebook@,
                forall|k: int| upper - 2 <= k <= upper ==> i32::MIN < pitch - #[trigger] s[k] <= i32::MAX,
                ({
                    let d0 = distance(pitch, s[upper - 2]);
                    let d1 = distance(pitch, s[upper - 1]);
                    let (b0, q0) = if d0 < 16384 { (d0, upper - 2) } else { (16384i16, -1) };
                    let (b1, q1) = if d1 < b0 { (d1, upper - 1) } else { (b0, q0) };
                    &&& i == lower ==> best_distance == 16384 && q == -1
                    &&& i == lower + 1 ==> best_distance == b0 && q == q0
                    &&& i == lower + 2 ==> best_distance == b1 && q == q1
                    &&& i == lower + 3 ==> q == nearest_of_three(s, pitch, upper as int)
                }),
            decreases upper + 1 - i,
        {
            let d = pitch - self.codebook[i] as i32;
            let distance = (if d < 0 { -d } else { d }) as i16;
            if distance < best_distance {
                best_distance = distance;
                q = i as i32;
            }
            i += 1;
        }
        let q = q as usize;
        proof {
            assert(1 <= q <= 126);
        }
        self.codeword = self.codebook[q] as i32;
        let prev = 9 * self.codebook[q - 1] as i32 + 7 * self.codeword;
        let next = 9 * self.codebook[q + 1] as i32 + 7 * self.codeword;
        proof {
            lemma_i32_shr(prev);
            lemma_i32_shr(next);
        }
        self.previous_boundary = prev >> 4;
        self.next_boundary = next >> 4;
        self.codeword + root
    }

    /// The binary search over codebook indices 3..126.
    fn upper_bound_index(&self, target: i16) -> (r: usize)
        ensures
            r == upper_bound(self.codebook(), 3, 126, target),
            3 <= r <= 126,
    {
        let mut lo: usize = 3;
        let mut hi: usize = 126;
        while lo < hi
            invariant
                3 <= lo <= hi <= 126,
                upper_bound(self.codebook@, lo as int, hi as int, target)
                    == upper_bound(self.codebook@, 3, 126, target),
            decreases hi - lo,
        {
            let mid = lo + (hi - lo) / 2;
            if self.codebook[mid] <= target {
                lo = mid + 1;
            } else {
                hi = mid;
            }
        }
        proof {
            lemma_upper_bound_range(self.codebook@, 3, 126, target);
        }
        lo
    }
}

/// Advancing `i` by one moves its quotient and remainder by `n` as a
/// counter with carry does.
proof fn lemma_div_mod_step(i: int, n: int, note: int, octave: int)
    requires
        n > 0,
        i >= 0,
        (note == 0 && octave == i / n + 1 && i % n == n - 1) || (note == i % n + 1 && octave == i / n && i % n + 1 < n),
    ensures
        note == (i + 1) % n,
        octave == (i + 1) / n,
{
    vstd::arithmetic::div_mod::lemma_fundamental_div_mod(i, n);
    vstd::arithmetic::div_mod::lemma_fundamental_div_mod(i + 1, n);
    vstd::arithmetic::div_mod::lemma_mod_bound(i + 1, n);
    if note == 0 {
        assert((i / n + 1) * n == (i / n) * n + n) by (nonlinear_arith);
        assert(i + 1 == (i / n + 1) * n + 0);
        vstd::arithmetic::div_mod::lemma_fundamental_div_mod_converse(i + 1, n, i / n + 1, 0);
    } else {
        vstd::arithmetic::div_mod::lemma_fundamental_div_mod_converse(i + 1, n, i / n, i % n + 1);
    }
}

proof fn lemma_upper_bound_range(s: Seq<i16>, lo: int, hi: int, t: i16)
    requires
        lo <= hi,
    ensures
        lo <= upper_bound(s, lo, hi, t) <= hi,
    decreases hi - lo,
{
    if lo < hi {
        let mid = lo + (hi - lo) / 2;
        if s[mid] <= t {
            lemma_upper_bound_range(s, mid + 1, hi, t);
        } else {
            lemma_upper_bound_range(s, lo, mid, t);
        }
    }
}

/// On an ascending codebook window the binary search finds the first entry
/// above the target: everything before it is at most the target and
/// everything from it on is above.
pub proof fn lemma_upper_bound_sorted(s: Seq<i16>, lo: int, hi: int, t: i16)
    requires
        3 <= lo <= hi <= 126,
        s.len() == 128,
        window_sorted(s),
        lo > 3 ==> s[lo - 1] <= t,
        hi < 126 ==> s[hi] > t,
    ensures
        ({
            let u = upper_bound(s, lo, hi, t);
            &&& forall|i: int| 3 <= i < u ==> s[i] <= t
            &&& forall|i: int| u <= i < 126 ==> s[i] > t
        }),
    decreases hi - lo,
{
    if lo < hi {
        let mid = lo + (hi - lo) / 2;
        if s[mid] <= t {
            lemma_upper_bound_sorted(s, mid + 1, hi, t);
        } else {
            lemma_upper_bound_sorted(s, lo, mid, t);
        }
    }
}

/// On the chromatic codebook a search settles on the nearest semitone: the
/// entry it finds is within half a semitone (64) of the pitch.
pub proof fn lemma_chromatic_search_is_nearest(s: Seq<i16>, pitch: i32)
    requires
        s.len() == 128,
        forall|i: int| 0 <= i < 128 ==> #[trigger] s[i] == chromatic_entry(i),
        -7808 <= pitch < 7808,
    ensures
        3 <= search(s, pitch) < 126,
        -64 <= pitch - s[search(s, pitch)] <= 64,
{
    lemma_chromatic_sorted(s);
    let t = pitch as i16;
    lemma_upper_bound_sorted(s, 3, 126, t);
    let u = upper_bound(s, 3, 126, t);
    lemma_upper_bound_range(s, 3, 126, t);
    assert(s[3] == -7808);
    assert(s[125] == 7808);
    assert(4 <= u <= 125) by {
        if u < 4 {
            assert(s[3] > t);
        }
        if u > 125 {
            assert(s[125] <= t);
        }
    }
    assert(s[u] == s[u - 1] + 128);
    assert(s[u - 1] == s[u - 2] + 128);
    assert(s[u - 1] <= t < s[u]);
}

/// The chromatic codebook is ascending.
pub proof fn lemma_chromatic_sorted(s: Seq<i16>)
    requires
        s.len() == 128,
        forall|i: int| 0 <= i < 128 ==> #[trigger] s[i] == chromatic_entry(i),
    ensures
        window_sorted(s),
{
}

impl Default for Quantizer {
    fn default() -> (r: Self)
        ensures
            r.enabled(),
            forall|i: int| 0 <= i < 128 ==> #[trigger] r.codebook()[i] == chromatic_entry(i),
    {
        Quantizer::new()
    }
}

} // verus!
