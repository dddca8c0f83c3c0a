//! What holds of a run of rounds for the stock sources and destinations.

use crate::pump::{pumped, run_of};
use crate::roles::{Destination, PlaybackErr, Sample, Source};
use crate::stock::{clip, Recorder, Refuser, StepSource};
use vstd::prelude::*;

verus! {

/// The first `n` values of the sequence that starts at `start` and moves by
/// `step`.
pub open spec fn ramp(start: int, step: int, n: nat) -> Seq<int> {
    Seq::new(n, |i: int| start + i * step)
}

/// Whether every value of `ramp(start, step, n)` is a sample.
pub open spec fn ramp_fits(start: int, step: int, n: nat) -> bool {
    forall|i: int| 0 <= i < n ==> i16::MIN <= #[trigger] (start + i * step) <= i16::MAX
}

proof fn lemma_recorder_prefix<S: Source>(
    srcs: Seq<S>,
    dsts: Seq<Recorder>,
    xs: Seq<Sample>,
    outcomes: Seq<Result<(), PlaybackErr>>,
    k: int,
)
    requires
        run_of(srcs, dsts, xs, outcomes),
        0 <= k <= xs.len(),
    ensures
        dsts[k].samples@ == dsts[0].samples@ + xs.subrange(0, k),
    decreases k,
{
    if k > 0 {
        lemma_recorder_prefix(srcs, dsts, xs, outcomes, k - 1);
        assert(srcs[k - 1].emits(srcs[k - 1 + 1], xs[k - 1]));
        assert(xs.subrange(0, k) == xs.subrange(0, k - 1).push(xs[k - 1]));
        assert(dsts[0].samples@ + xs.subrange(0, k) == (dsts[0].samples@ + xs.subrange(
            0,
            k - 1,
        )).push(xs[k - 1]));
    } else {
        assert(dsts[0].samples@ + xs.subrange(0, 0) == dsts[0].samples@);
    }
}

/// A recorder accepts every sample a run hands it, and ends up holding what
/// it held before followed by exactly the samples the source handed out, in
/// that order.
pub proof fn lemma_recorder_keeps_every_sample<S: Source>(
    src0: S,
    dst0: Recorder,
    xs: Seq<Sample>,
    outcomes: Seq<Result<(), PlaybackErr>>,
    src1: S,
    dst1: Recorder,
)
    requires
        pumped(src0, dst0, xs, outcomes, src1, dst1),
    ensures
        outcomes.len() == xs.len(),
        forall|i: int| 0 <= i < outcomes.len() ==> #[trigger] outcomes[i] is Ok,
        dst1.samples@ == dst0.samples@ + xs,
{
    let (srcs, dsts) = choose|srcs: Seq<S>, dsts: Seq<Recorder>|
        {
            &&& run_of(srcs, dsts, xs, outcomes)
            &&& srcs[0] == src0
            &&& srcs.last() == src1
            &&& dsts[0] == dst0
            &&& dsts.last() == dst1
        };
    assert forall|i: int| 0 <= i < outcomes.len() implies #[trigger] outcomes[i] is Ok by {
        assert(srcs[i].emits(srcs[i + 1], xs[i]));
    }
    lemma_recorder_prefix(srcs, dsts, xs, outcomes, xs.len() as int);
    assert(xs.subrange(0, xs.len() as int) == xs);
}

/// A refuser answers every round of a run with a failure that carries its
/// own message, unchanged.
pub proof fn lemma_refuser_fails_every_round<S: Source>(
    src0: S,
    dst0: Refuser,
    xs: Seq<Sample>,
    outcomes: Seq<Result<(), PlaybackErr>>,
    src1: S,
    dst1: Refuser,
)
    requires
        pumped(src0, dst0, xs, outcomes, src1, dst1),
    ensures
        outcomes.len() == xs.len(),
        forall|i: int|
            0 <= i < outcomes.len() ==> (#[trigger] outcomes[i] matches Err(e) && e.msg@
                == dst0.msg@),
        dst1.msg@ == dst0.msg@,
{
    let (srcs, dsts) = choose|srcs: Seq<S>, dsts: Seq<Refuser>|
        {
            &&& run_of(srcs, dsts, xs, outcomes)
            &&& srcs[0] == src0
            &&& srcs.last() == src1
            &&& dsts[0] == dst0
            &&& dsts.last() == dst1
        };
    assert forall|k: int| 0 <= k <= xs.len() implies #[trigger] dsts[k].msg@ == dst0.msg@ by {
        lemma_refuser_keeps_message(srcs, dsts, xs, outcomes, k);
    }
    assert forall|i: int| 0 <= i < outcomes.len() implies (#[trigger] outcomes[i] matches Err(
        e,
    ) && e.msg@ == dst0.msg@) by {
        assert(srcs[i].emits(srcs[i + 1], xs[i]));
        assert(dsts[i].msg@ == dst0.msg@);
    }
    assert(dsts[xs.len() as int].msg@ == dst0.msg@);
}

proof fn lemma_refuser_keeps_message<S: Source>(
    srcs: Seq<S>,
    dsts: Seq<Refuser>,
    xs: Seq<Sample>,
    outcomes: Seq<Result<(), PlaybackErr>>,
    k: int,
)
    requires
        run_of(srcs, dsts, xs, outcomes),
        0 <= k <= xs.len(),
    ensures
        dsts[k].msg@ == dsts[0].msg@,
    decreases k,
{
    if k > 0 {
        lemma_refuser_keeps_message(srcs, dsts, xs, outcomes, k - 1);
        assert(srcs[k - 1].emits(srcs[k - 1 + 1], xs[k - 1]));
    }
}

proof fn lemma_step_prefix<D: Destination>(
    srcs: Seq<StepSource>,
    dsts: Seq<D>,
    xs: Seq<Sample>,
    outcomes: Seq<Result<(), PlaybackErr>>,
    k: int,
)
    requires
        run_of(srcs, dsts, xs, outcomes),
        ramp_fits(srcs[0].next as int, srcs[0].step as int, xs.len()),
        0 <= k <= xs.len(),
    ensures
        srcs[k].step == srcs[0].step,
        k < xs.len() ==> srcs[k].next == srcs[0].next + k * srcs[0].step,
    decreases k,
{
    if k > 0 {
        let a = srcs[0].next as int;
        let d = srcs[0].step as int;
        lemma_step_prefix(srcs, dsts, xs, outcomes, k - 1);
        assert(srcs[k - 1].emits(srcs[k - 1 + 1], xs[k - 1]));
        assert(a + k * d == (a + (k - 1) * d) + d) by (nonlinear_arith);
        if k < xs.len() {
            assert(i16::MIN <= a + k * d <= i16::MAX);
            assert(clip(srcs[k - 1].next + srcs[k - 1].step) == a + k * d);
        }
    }
}

/// A source that steps by a fixed amount, played into a recorder: the
/// recorder takes the rounds' samples as the sequence that starts at the
/// source's first sample and moves by its step, in call order, as long as
/// that sequence stays within the range of a sample.
pub proof fn lemma_step_source_into_recorder(
    src0: StepSource,
    dst0: Recorder,
    xs: Seq<Sample>,
    outcomes: Seq<Result<(), PlaybackErr>>,
    src1: StepSource,
    dst1: Recorder,
)
    requires
        pumped(src0, dst0, xs, outcomes, src1, dst1),
        ramp_fits(src0.next as int, src0.step as int, xs.len()),
    ensures
        xs.map_values(|x: Sample| x as int) == ramp(src0.next as int, src0.step as int, xs.len()),
        dst1.samples@ == dst0.samples@ + xs,
{
    let (srcs, dsts) = choose|srcs: Seq<StepSource>, dsts: Seq<Recorder>|
        {
            &&& run_of(srcs, dsts, xs, outcomes)
            &&& srcs[0] == src0
            &&& srcs.last() == src1
            &&& dsts[0] == dst0
            &&& dsts.last() == dst1
        };
    assert forall|i: int| 0 <= i < xs.len() implies xs[i] == src0.next + i * src0.step by {
        lemma_step_prefix(srcs, dsts, xs, outcomes, i);
        assert(srcs[i].emits(srcs[i + 1], xs[i]));
    }
    assert(xs.map_values(|x: Sample| x as int) =~= ramp(
        src0.next as int,
        src0.step as int,
        xs.len(),
    ));
    lemma_recorder_keeps_every_sample(src0, dst0, xs, outcomes, src1, dst1);
}

/// A run of no rounds moves no sample, reports no failure, and leaves both
/// ends as they were.
pub proof fn lemma_no_rounds<S: Source, D: Destination>(
    src0: S,
    dst0: D,
    xs: Seq<Sample>,
    outcomes: Seq<Result<(), PlaybackErr>>,
    src1: S,
    dst1: D,
)
    requires
        pumped(src0, dst0, xs, outcomes, src1, dst1),
        outcomes.len() == 0,
    ensures
        xs.len() == 0,
        src1 == src0,
        dst1 == dst0,
{
}

} // verus!
