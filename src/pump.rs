//! The driver loop: each round takes one sample from a source and hands it
//! to a destination, and what happens over a run of rounds.

use crate::roles::{Destination, PlaybackErr, Sample, Source};
use vstd::prelude::*;

verus! {

/// A run of rounds with states and samples laid out: in round `i` the
/// source goes from `srcs[i]` to `srcs[i + 1]` handing out `xs[i]`, and the
/// destination goes from `dsts[i]` to `dsts[i + 1]` answering `outcomes[i]`.
pub open spec fn run_of<S: Source, D: Destination>(
    srcs: Seq<S>,
    dsts: Seq<D>,
    xs: Seq<Sample>,
    outcomes: Seq<Result<(), PlaybackErr>>,
) -> bool {
    &&& srcs.len() == xs.len() + 1
    &&& dsts.len() == xs.len() + 1
    &&& outcomes.len() == xs.len()
    &&& forall|i: int|
        0 <= i < xs.len() ==> {
            &&& #[trigger] srcs[i].emits(srcs[i + 1], xs[i])
            &&& dsts[i].plays(dsts[i + 1], xs[i], outcomes[i])
        }
}

/// Rounds that start from `src0` and `dst0`, move the samples `xs` in that
/// order, answer `outcomes`, and leave the two at `src1` and `dst1`.
pub open spec fn pumped<S: Source, D: Destination>(
    src0: S,
    dst0: D,
    xs: Seq<Sample>,
    outcomes: Seq<Result<(), PlaybackErr>>,
    src1: S,
    dst1: D,
) -> bool {
    exists|srcs: Seq<S>, dsts: Seq<D>|
        {
            &&& run_of(srcs, dsts, xs, outcomes)
            &&& srcs[0] == src0
            &&& srcs.last() == src1
            &&& dsts[0] == dst0
            &&& dsts.last() == dst1
        }
}

/// Runs `n` rounds: each takes one sample from `src` and hands it straight
/// to `dst`. Returns what `dst` answered in each round, in order; a failure
/// does not stop the rounds that follow.
pub fn pump<S: Source, D: Destination>(src: &mut S, dst: &mut D, n: usize) -> (r: Vec<
    Result<(), PlaybackErr>,
>)
    ensures
        r@.len() == n,
        exists|xs: Seq<Sample>| pumped(*old(src), *old(dst), xs, r@, *final(src), *final(dst)),
{
    let mut out: Vec<Result<(), PlaybackErr>> = Vec::new();
    let ghost mut srcs: Seq<S> = seq![*src];
    let ghost mut dsts: Seq<D> = seq![*dst];
    let ghost mut xs: Seq<Sample> = seq![];
    let mut k: usize = 0;
    while k < n
        invariant
            k <= n,
            xs.len() == k,
            run_of(srcs, dsts, xs, out@),
            srcs[0] == *old(src),
            dsts[0] == *old(dst),
            srcs.last() == *src,
            dsts.last() == *dst,
        decreases n - k,
    {
        let s = src.sample();
        let r = dst.play(s);
        out.push(r);
        proof {
            let ghost prev_srcs = srcs;
            let ghost prev_dsts = dsts;
            srcs = srcs.push(*src);
            dsts = dsts.push(*dst);
            xs = xs.push(s);
            assert forall|i: int| 0 <= i < xs.len() implies {
                &&& #[trigger] srcs[i].emits(srcs[i + 1], xs[i])
                &&& dsts[i].plays(dsts[i + 1], xs[i], out@[i])
            } by {
                if i < xs.len() - 1 {
                    assert(srcs[i] == prev_srcs[i] && srcs[i + 1] == prev_srcs[i + 1]);
                    assert(dsts[i] == prev_dsts[i] && dsts[i + 1] == prev_dsts[i + 1]);
                }
            }
        }
        k = k + 1;
    }
    assert(pumped(*old(src), *old(dst), xs, out@, *src, *dst));
    out
}

} // verus!
