//! The layout of the effects' delay memory: the delay lines sit one after
//! the other in one ring buffer, each followed by a guard word; and the
//! three storage formats of that buffer.
use vstd::prelude::*;

verus! {

/// The offset meaning "the tail of the delay line".
pub const TAIL: i32 = -1;

/// Where line `i` starts: after every earlier line and its guard word.
pub open spec fn line_base(lengths: Seq<usize>, i: int) -> int
    decreases i,
{
    if i <= 0 {
        0
    } else {
        line_base(lengths, i - 1) + lengths[i - 1] + 1
    }
}

/// Later lines start no earlier.
pub proof fn lemma_line_base_grows(lengths: Seq<usize>, i: int, j: int)
    requires
        0 <= i <= j,
    ensures
        line_base(lengths, i) <= line_base(lengths, j),
    decreases j - i,
{
    if i < j {
        lemma_line_base_grows(lengths, i, j - 1);
    }
}

/// The start of each delay line whose lengths are given, in order.
pub fn bases<const N: usize>(lengths: [usize; N]) -> (r: [usize; N])
    requires
        N >= 1 ==> line_base(lengths@, N - 1) <= usize::MAX,
    ensures
        forall|i: int| 0 <= i < N ==> #[trigger] r@[i] == line_base(lengths@, i),
{
    let mut b = lengths;
    if N >= 1 {
        b[0] = 0;
    }
    let mut i: usize = 1;
    while i < N
        invariant
            1 <= i,
            N >= 1 ==> i <= N,
            N >= 1 ==> line_base(lengths@, N - 1) <= usize::MAX,
            b@.len() == N,
            forall|j: int| 0 <= j < i && j < N ==> #[trigger] b@[j] == line_base(lengths@, j),
        decreases N - i,
    {
        proof {
            lemma_line_base_grows(lengths@, i as int, N - 1);
        }
        b[i] = b[i - 1] + lengths[i - 1] + 1;
        i += 1;
    }
    b
}

/// Samples stored as 12-bit fixed point.
pub struct Format12;

/// Samples stored as 16-bit fixed point.
pub struct Format16;

/// Samples stored uncompressed.
pub struct Format32;

} // verus!
