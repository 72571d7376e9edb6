//! Splice-point search by cross-correlation of sample sign bits: 32 signs
//! per word, so 32 samples are compared with one XOR and a bit count.
use vstd::prelude::*;

verus! {

/// Words of room for the source window.
pub const SOURCE_WORDS: usize = 160;
/// Words of room for the destination window (read up to one word past the
/// source length from the candidate's word).
pub const DESTINATION_WORDS: usize = 320;

/// The number of set bits of `x`.
pub open spec fn ones(x: u32) -> u32 {
    (((x >> 0u32) & 1) + ((x >> 1u32) & 1) + ((x >> 2u32) & 1) + ((x >> 3u32) & 1) + ((x >> 4u32) & 1) + ((x >> 5u32) & 1) + ((x >> 6u32) & 1) + ((x >> 7u32) & 1) + ((x >> 8u32) & 1) + ((x >> 9u32) & 1) + ((x >> 10u32) & 1) + ((x >> 11u32) & 1) + ((x >> 12u32) & 1) + ((x >> 13u32) & 1) + ((x >> 14u32) & 1) + ((x >> 15u32) & 1) + ((x >> 16u32) & 1) + ((x >> 17u32) & 1) + ((x >> 18u32) & 1) + ((x >> 19u32) & 1) + ((x >> 20u32) & 1) + ((x >> 21u32) & 1) + ((x >> 22u32) & 1) + ((x >> 23u32) & 1) + ((x >> 24u32) & 1) + ((x >> 25u32) & 1) + ((x >> 26u32) & 1) + ((x >> 27u32) & 1) + ((x >> 28u32) & 1) + ((x >> 29u32) & 1) + ((x >> 30u32) & 1) + ((x >> 31u32) & 1)) as u32
}

/// The number of positions at which `a` and `b` agree.
pub open spec fn agreements(a: u32, b: u32) -> u32 {
    ones(!(a ^ b))
}

/// The 32 destination bits that line up with source word `i` for a candidate
/// lag of `candidate` bits.
pub open spec fn destination_word(dst: Seq<u32>, candidate: int, i: int) -> u32 {
    let w = candidate / 32;
    let b = (candidate % 32) as u32;
    (dst[w + i] << b) | (dst[w + i + 1] >> ((32u32.wrapping_sub(b)) & 31))
}

/// The score of a candidate lag over the first `n` source words: the number
/// of agreeing sign bits.
pub open spec fn score(src: Seq<u32>, dst: Seq<u32>, candidate: int, n: nat) -> int
    decreases n,
{
    if n == 0 {
        0
    } else {
        score(src, dst, candidate, (n - 1) as nat)
            + agreements(src[n - 1], destination_word(dst, candidate, n - 1)) as int
    }
}

/// The best (score, lag) over the first `k` candidates, the earliest lag
/// winning ties, starting from (0, 0): a lag replaces the best only with a
/// strictly higher score.
pub open spec fn search_best(src: Seq<u32>, dst: Seq<u32>, n: nat, k: nat) -> (int, int)
    decreases k,
{
    if k == 0 {
        (0, 0)
    } else {
        let (s, m) = search_best(src, dst, n, (k - 1) as nat);
        let c = score(src, dst, (k - 1) as int, n);
        if c > s { (c, (k - 1) as int) } else { (s, m) }
    }
}

/// Counts the set bits of `x` by summing bit fields of growing width.
fn count_ones(x: u32) -> (r: u32)
    ensures
        r == ones(x),
        r <= 32,
{
    let mut count = x;
    count = count.wrapping_sub((count >> 1) & 0x5555_5555);
    let c1 = count;
    proof {
        assert((c1 & 0x3333_3333u32) <= 0x3333_3333u32 && ((c1 >> 2u32) & 0x3333_3333u32) <= 0x3333_3333u32)
            by (bit_vector);
    }
    count = (count & 0x3333_3333) + ((count >> 2) & 0x3333_3333);
    count = ((count.wrapping_add(count >> 4)) & 0x0f0f_0f0f).wrapping_mul(0x0101_0101) >> 24;
    proof {
        lemma_count_ones(x);
    }
    count
}

proof fn lemma_count_ones(x: u32)
    ensures
        ({
            let c1 = x.wrapping_sub((x >> 1u32) & 0x5555_5555u32);
            let c2 = ((c1 & 0x3333_3333u32) + ((c1 >> 2u32) & 0x3333_3333u32)) as u32;
            ((c2.wrapping_add(c2 >> 4u32)) & 0x0f0f_0f0fu32).wrapping_mul(0x0101_0101u32) >> 24u32
        }) == ones(x),
        ones(x) <= 32,
{
    assert(({
        let c1 = x.wrapping_sub((x >> 1u32) & 0x5555_5555u32);
        let c2 = ((c1 & 0x3333_3333u32) + ((c1 >> 2u32) & 0x3333_3333u32)) as u32;
        ((c2.wrapping_add(c2 >> 4u32)) & 0x0f0f_0f0fu32).wrapping_mul(0x0101_0101u32) >> 24u32
    }) == ((((x >> 0u32) & 1) + ((x >> 1u32) & 1) + ((x >> 2u32) & 1) + ((x >> 3u32) & 1) + ((x >> 4u32) & 1) + ((x >> 5u32) & 1) + ((x >> 6u32) & 1) + ((x >> 7u32) & 1) + ((x >> 8u32) & 1) + ((x >> 9u32) & 1) + ((x >> 10u32) & 1) + ((x >> 11u32) & 1) + ((x >> 12u32) & 1) + ((x >> 13u32) & 1) + ((x >> 14u32) & 1) + ((x >> 15u32) & 1) + ((x >> 16u32) & 1) + ((x >> 17u32) & 1) + ((x >> 18u32) & 1) + ((x >> 19u32) & 1) + ((x >> 20u32) & 1) + ((x >> 21u32) & 1) + ((x >> 22u32) & 1) + ((x >> 23u32) & 1) + ((x >> 24u32) & 1) + ((x >> 25u32) & 1) + ((x >> 26u32) & 1) + ((x >> 27u32) & 1) + ((x >> 28u32) & 1) + ((x >> 29u32) & 1) + ((x >> 30u32) & 1) + ((x >> 31u32) & 1)) as u32)) by (bit_vector);
    assert(((((x >> 0u32) & 1) + ((x >> 1u32) & 1) + ((x >> 2u32) & 1) + ((x >> 3u32) & 1) + ((x >> 4u32) & 1) + ((x >> 5u32) & 1) + ((x >> 6u32) & 1) + ((x >> 7u32) & 1) + ((x >> 8u32) & 1) + ((x >> 9u32) & 1) + ((x >> 10u32) & 1) + ((x >> 11u32) & 1) + ((x >> 12u32) & 1) + ((x >> 13u32) & 1) + ((x >> 14u32) & 1) + ((x >> 15u32) & 1) + ((x >> 16u32) & 1) + ((x >> 17u32) & 1) + ((x >> 18u32) & 1) + ((x >> 19u32) & 1) + ((x >> 20u32) & 1) + ((x >> 21u32) & 1) + ((x >> 22u32) & 1) + ((x >> 23u32) & 1) + ((x >> 24u32) & 1) + ((x >> 25u32) & 1) + ((x >> 26u32) & 1) + ((x >> 27u32) & 1) + ((x >> 28u32) & 1) + ((x >> 29u32) & 1) + ((x >> 30u32) & 1) + ((x >> 31u32) & 1)) as u32) <= 32) by (bit_vector);
}

pub struct Correlator {
    source: [u32; 160],
    destination: [u32; 320],
    offset: i32,
    increment: i32,
    size: i32,
    candidate: i32,
    best_score: u32,
    best_match: i32,
    done: bool,
}

impl Correlator {
    pub closed spec fn source(self) -> Seq<u32> { self.source@ }
    pub closed spec fn destination(self) -> Seq<u32> { self.destination@ }
    pub closed spec fn offset(self) -> i32 { self.offset }
    pub closed spec fn increment(self) -> i32 { self.increment }
    pub closed spec fn size(self) -> i32 { self.size }
    pub closed spec fn candidate(self) -> i32 { self.candidate }
    pub closed spec fn best_score(self) -> u32 { self.best_score }
    pub closed spec fn best_lag(self) -> i32 { self.best_match }
    pub closed spec fn is_done(self) -> bool { self.done }

    /// The number of whole source words compared per candidate.
    pub open spec fn words(self) -> nat {
        (self.size() / 32) as nat
    }

    /// The next candidate can be scored within the windows.
    pub open spec fn in_bounds(self) -> bool {
        self.is_done() || {
            &&& 0 <= self.size()
            &&& 0 <= self.candidate()
            &&& self.size() / 32 <= 160
            &&& self.candidate() / 32 + self.size() / 32 < 320
        }
    }

    /// The best score and lag are those of a search over the candidates
    /// before the current one.
    pub open spec fn consistent(self) -> bool {
        &&& 0 <= self.candidate()
        &&& search_best(self.source(), self.destination(), self.words(), self.candidate() as nat)
            == (self.best_score() as int, self.best_lag() as int)
    }

    /// Whether `after` is this correlator after one call of
    /// `evaluate_next_candidate`: a finished search is left alone; otherwise
    /// the current candidate is scored, kept when it beats the best, and the
    /// search moves on, ending once every lag below the size is scored.
    pub open spec fn evaluates_to(self, after: Correlator) -> bool {
        &&& after.same_windows(self)
        &&& self.is_done() ==> after == self
        &&& !self.is_done() ==> {
            let c = score(self.source(), self.destination(), self.candidate() as int, self.words());
            &&& after.candidate() == self.candidate() + 1
            &&& after.is_done() == (after.candidate() >= self.size())
            &&& c > self.best_score() ==> after.best_score() == c && after.best_lag() == self.candidate()
            &&& c <= self.best_score() ==> after.best_score() == self.best_score() && after.best_lag() == self.best_lag()
        }
        &&& self.consistent() && !self.is_done() ==> after.consistent()
    }

    /// Everything but the search bookkeeping is as in `other`.
    pub open spec fn same_windows(self, other: Correlator) -> bool {
        &&& self.source() == other.source()
        &&& self.destination() == other.destination()
        &&& self.offset() == other.offset()
        &&& self.increment() == other.increment()
        &&& self.size() == other.size()
    }

    /// A correlator with cleared windows and no search running.
    pub fn new() -> (r: Self)
        ensures
            r.is_done(),
            r.source() == Seq::new(160, |i: int| 0u32),
            r.destination() == Seq::new(320, |i: int| 0u32),
            r.offset() == 0,
            r.best_lag() == 0,
    {
        let r = Correlator {
            source: [0; 160],
            destination: [0; 320],
            offset: 0,
            increment: 0,
            size: 0,
            candidate: 0,
            best_score: 0,
            best_match: 0,
            done: true,
        };
        assert(r.source@ =~= Seq::new(160, |i: int| 0u32));
        assert(r.destination@ =~= Seq::new(320, |i: int| 0u32));
        r
    }

    /// Stops any search and clears the offset and the best lag.
    pub fn init(&mut self)
        ensures
            final(self).is_done(),
            final(self).offset() == 0,
            final(self).best_lag() == 0,
            final(self).source() == old(self).source(),
            final(self).destination() == old(self).destination(),
            final(self).increment() == old(self).increment(),
            final(self).size() == old(self).size(),
            final(self).candidate() == old(self).candidate(),
            final(self).best_score() == old(self).best_score(),
    {
        self.offset = 0;
        self.best_match = 0;
        self.done = true;
    }

    /// The source window, one sign bit per sample.
    pub fn source_mut(&mut self) -> (r: &mut [u32; 160])
        ensures
            r@ == old(self).source(),
            final(self).source() == final(r)@,
            final(self).destination() == old(self).destination(),
            final(self).offset() == old(self).offset(),
            final(self).increment() == old(self).increment(),
            final(self).size() == old(self).size(),
            final(self).candidate() == old(self).candidate(),
            final(self).best_score() == old(self).best_score(),
            final(self).best_lag() == old(self).best_lag(),
            final(self).is_done() == old(self).is_done(),
    {
        &mut self.source
    }

    /// The destination window, one sign bit per sample.
    pub fn destination_mut(&mut self) -> (r: &mut [u32; 320])
        ensures
            r@ == old(self).destination(),
            final(self).destination() == final(r)@,
            final(self).source() == old(self).source(),
            final(self).offset() == old(self).offset(),
            final(self).increment() == old(self).increment(),
            final(self).size() == old(self).size(),
            final(self).candidate() == old(self).candidate(),
            final(self).best_score() == old(self).best_score(),
            final(self).best_lag() == old(self).best_lag(),
            final(self).is_done() == old(self).is_done(),
    {
        &mut self.destination
    }

    /// Starts a search over `size` candidate lags (in bits).
    pub fn start_search(&mut self, size: i32, offset: i32, increment: i32)
        ensures
            final(self).size() == size,
            final(self).offset() == offset,
            final(self).increment() == increment,
            final(self).candidate() == 0,
            final(self).best_score() == 0,
            final(self).best_lag() == 0,
            !final(self).is_done(),
            final(self).source() == old(self).source(),
            final(self).destination() == old(self).destination(),
            final(self).consistent(),
    {
        self.offset = offset;
        self.increment = increment;
        self.best_score = 0;
        self.best_match = 0;
        self.candidate = 0;
        self.size = size;
        self.done = false;
    }

    /// The splice offset the best lag stands for:
    /// `offset + best_lag * (increment >> 4) >> 12`.
    pub fn best_match(&self) -> (r: i32)
        requires
            i32::MIN <= self.offset() + (self.best_lag().wrapping_mul(self.increment() >> 4i32) >> 12i32) <= i32::MAX,
        ensures
            r == self.offset() + (self.best_lag().wrapping_mul(self.increment() >> 4i32) >> 12i32),
    {
        self.offset + (self.best_match.wrapping_mul(self.increment >> 4) >> 12)
    }

    /// Whether the search is over.
    pub fn done(&self) -> (r: bool)
        ensures
            r == self.is_done(),
    {
        self.done
    }

    /// Scores the next candidate lag; keeps it when it beats the best so far;
    /// the search is over once every lag below the size has been scored.
    pub fn evaluate_next_candidate(&mut self)
        requires
            old(self).in_bounds(),
        ensures
            final(self).same_windows(*old(self)),
            old(self).is_done() ==> *final(self) == *old(self),
            !old(self).is_done() ==> {
                let c = score(old(self).source(), old(self).destination(), old(self).candidate() as int, old(self).words());
                &&& final(self).candidate() == old(self).candidate() + 1
                &&& final(self).is_done() == (final(self).candidate() >= old(self).size())
                &&& c > old(self).best_score() ==> final(self).best_score() == c
                    && final(self).best_lag() == old(self).candidate()
                &&& c <= old(self).best_score() ==> final(self).best_score() == old(self).best_score()
                    && final(self).best_lag() == old(self).best_lag()
            },
            old(self).consistent() && !old(self).is_done() ==> final(self).consistent(),
            old(self).evaluates_to(*final(self)),
    {
        if self.done {
            return;
        }
        let size = self.size;
        let candidate = self.candidate;
        proof {
            assert(size >> 5i32 == size / 32 && candidate >> 5i32 == candidate / 32 && (candidate & 0x1f) == candidate % 32)
                by (bit_vector) requires size >= 0, candidate >= 0;
        }
        let num_words = (size >> 5) as usize;
        let offset_words = (candidate >> 5) as usize;
        let offset_bits = (candidate & 0x1f) as u32;
        let ghost src = self.source@;
        let ghost dst = self.destination@;
        let mut xcorr: u32 = 0;
        let mut i: usize = 0;
        while i < num_words
            invariant
                num_words <= 160,
                offset_words + num_words < 320,
                i <= num_words,
                src == self.source@,
                dst == self.destination@,
                offset_words == candidate / 32,
                offset_bits == candidate % 32,
                candidate >= 0,
                xcorr == score(src, dst, candidate as int, i as nat),
                xcorr <= 32 * i,
            decreases num_words - i,
        {
            let source_bits = self.source[i];
            let mut destination_bits: u32 = 0;
            destination_bits = destination_bits | (self.destination[offset_words + i] << offset_bits);
            let shift = (32u32.wrapping_sub(offset_bits)) & 31;
            proof {
                assert((32u32.wrapping_sub(offset_bits) & 31) < 32) by (bit_vector);
                let a = dst[offset_words + i];
                assert((0u32 | (a << offset_bits)) == (a << offset_bits)) by (bit_vector);
            }
            destination_bits = destination_bits | (self.destination[offset_words + i + 1] >> shift);
            let count = count_ones(!(source_bits ^ destination_bits));
            xcorr = xcorr + count;
            i += 1;
        }
        if xcorr > self.best_score {
            self.best_match = self.candidate;
            self.best_score = xcorr;
        }
        self.candidate = self.candidate + 1;
        self.done = self.candidate >= self.size;
    }

    /// Scores up to `size / 4 + 16` further candidates (stopping when the
    /// search is over).
    pub fn evaluate_some_candidates(&mut self)
        requires
            old(self).in_bounds(),
            old(self).is_done() || {
                &&& old(self).candidate() <= old(self).size() <= 5120
            },
        ensures
            final(self).same_windows(*old(self)),
            old(self).consistent() ==> final(self).consistent(),
            old(self).is_done() ==> *final(self) == *old(self),
            !old(self).is_done() ==> {
                let c0 = old(self).candidate() as int;
                let size = old(self).size() as int;
                let budget = size / 4 + 16;
                &&& final(self).candidate() == (if c0 >= size {
                    c0 + 1
                } else if c0 + budget < size {
                    c0 + budget
                } else {
                    size
                })
                &&& final(self).is_done() == (final(self).candidate() >= size)
            },
    {
        let ghost s0 = *self;
        let ghost c0 = self.candidate as int;
        let mut num_candidates: i32 = 0;
        if !self.done {
            let size = self.size;
            proof {
                assert(size >> 2i32 == size / 4) by (bit_vector) requires 0 <= size <= 5120;
            }
            num_candidates = (size >> 2) + 16;
        }
        let ghost total = num_candidates as int;
        while num_candidates > 0
            invariant
                self.same_windows(s0),
                s0.consistent() ==> self.consistent(),
                s0.is_done() ==> *self == s0 && num_candidates == 0,
                c0 == s0.candidate(),
                !s0.is_done() ==> {
                    let t = total - num_candidates;
                    let size = s0.size() as int;
                    &&& 0 <= s0.candidate()
                    &&& 0 <= size <= 5120
                    &&& total == size / 4 + 16
                    &&& 0 <= num_candidates <= total
                    &&& self.candidate() == (if t == 0 {
                        c0
                    } else if c0 >= size {
                        c0 + 1
                    } else if c0 + t < size {
                        c0 + t
                    } else {
                        size
                    })
                    &&& self.is_done() == (t > 0 && self.candidate() >= size)
                    &&& t == 0 ==> self.in_bounds() && c0 <= size
                },
            decreases num_candidates,
        {
            self.evaluate_next_candidate();
            num_candidates -= 1;
        }
    }
}

impl Default for Correlator {
    fn default() -> (r: Self)
        ensures
            r.is_done(),
    {
        Correlator::new()
    }
}

/// The search keeps the earliest lag with the highest score: after `k`
/// candidates the kept score is the maximum over them, the kept lag reaches
/// it, and no earlier lag does.
pub proof fn lemma_search_finds_earliest_maximum(src: Seq<u32>, dst: Seq<u32>, n: nat, k: nat)
    ensures
        ({
            let (s, m) = search_best(src, dst, n, k);
            &&& forall|j: int| 0 <= j < k ==> #[trigger] score(src, dst, j, n) <= s
            &&& s > 0 ==> 0 <= m < k && score(src, dst, m, n) == s
            &&& forall|j: int| 0 <= j < m ==> #[trigger] score(src, dst, j, n) < s
            &&& s >= 0
            &&& s == 0 ==> m == 0
        }),
    decreases k,
{
    if k > 0 {
        lemma_search_finds_earliest_maximum(src, dst, n, (k - 1) as nat);
    }
}

/// The first `i` calls of a search just started over `size` lags: each
/// scores the next lag; the search is over exactly when every lag is scored.
proof fn lemma_search_progress(cs: Seq<Correlator>, i: nat)
    requires
        0 < cs[0].size(),
        i < cs.len(),
        i <= cs[0].size(),
        cs[0].candidate() == 0,
        !cs[0].is_done(),
        cs[0].consistent(),
        forall|j: int| 0 <= j < cs.len() - 1 ==> #[trigger] cs[j].evaluates_to(cs[j + 1]),
    ensures
        cs[i as int].same_windows(cs[0]),
        cs[i as int].candidate() == i,
        cs[i as int].is_done() == (i == cs[0].size()),
        cs[i as int].consistent(),
    decreases i,
{
    if i > 0 {
        lemma_search_progress(cs, (i - 1) as nat);
        let j: int = i - 1;
        assert(cs[j].evaluates_to(cs[j + 1]));
        assert(j + 1 == i);
    }
}

/// A whole search: from a search just started over `size > 0` lags (as
/// `start_search` leaves it), `size` calls of `evaluate_next_candidate` end
/// it, with the earliest lag of the highest score over all lags below the
/// size (lag 0 when every score is 0); the windows are untouched.
pub proof fn lemma_whole_search(cs: Seq<Correlator>)
    requires
        cs.len() == cs[0].size() + 1,
        0 < cs[0].size(),
        cs[0].candidate() == 0,
        cs[0].best_score() == 0,
        cs[0].best_lag() == 0,
        !cs[0].is_done(),
        forall|j: int| 0 <= j < cs.len() - 1 ==> #[trigger] cs[j].evaluates_to(cs[j + 1]),
    ensures
        ({
            let e = cs[cs.len() - 1];
            &&& e.is_done()
            &&& e.same_windows(cs[0])
            &&& forall|j: int| 0 <= j < cs.len() - 1 ==> !(#[trigger] cs[j]).is_done()
            &&& forall|j: int| 0 <= j < e.size() ==> #[trigger] score(e.source(), e.destination(), j, e.words()) <= e.best_score()
            &&& e.best_score() > 0 ==> 0 <= e.best_lag() < e.size()
                && score(e.source(), e.destination(), e.best_lag() as int, e.words()) == e.best_score()
            &&& forall|j: int| 0 <= j < e.best_lag() ==> #[trigger] score(e.source(), e.destination(), j, e.words()) < e.best_score()
            &&& e.best_score() == 0 ==> e.best_lag() == 0
        }),
{
    assert(cs[0].consistent());
    let n = cs[0].size() as nat;
    lemma_search_progress(cs, n);
    assert forall|j: int| 0 <= j < cs.len() - 1 implies !(#[trigger] cs[j]).is_done() by {
        lemma_search_progress(cs, j as nat);
    }
    lemma_finished_search(cs[cs.len() - 1]);
}

/// A search that has scored every lag below its size has found the
/// earliest lag with the highest score over all of them (lag 0 when every
/// score is 0).
pub proof fn lemma_finished_search(c: Correlator)
    requires
        c.consistent(),
        c.candidate() == c.size(),
    ensures
        forall|j: int| 0 <= j < c.size() ==> #[trigger] score(c.source(), c.destination(), j, c.words()) <= c.best_score(),
        c.best_score() > 0 ==> 0 <= c.best_lag() < c.size()
            && score(c.source(), c.destination(), c.best_lag() as int, c.words()) == c.best_score(),
        forall|j: int| 0 <= j < c.best_lag() ==> #[trigger] score(c.source(), c.destination(), j, c.words()) < c.best_score(),
        c.best_score() == 0 ==> c.best_lag() == 0,
{
    lemma_search_finds_earliest_maximum(c.source(), c.destination(), c.words(), c.candidate() as nat);
}

} // verus!
