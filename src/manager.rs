//! A run of several workers against one target: the workers are created
//! together, run in isolation, and their outcomes gathered by sequence
//! number once every one of them is finished.

use vstd::prelude::*;
use crate::runs::{lemma_run_keeps_seq, run};
use crate::worker::{new_worker, Input, Phase, ProbeOutcome, Target, Worker};

verus! {

/// Every worker is finished, holds its outcome, and stands at the index of
/// its sequence number.
pub open spec fn all_finished(ws: Seq<Worker>) -> bool {
    forall|i: int| 0 <= i < ws.len() ==> {
        &&& (#[trigger] ws[i]).finished()
        &&& ws[i].outcome is Some
        &&& ws[i].seq == i
    }
}

/// The workers of a run on `t` after worker `i` took `ins[i]`: each one
/// depends on its own inputs only.
pub open spec fn run_all(t: Target, ins: Seq<Seq<Input>>) -> Seq<Worker> {
    Seq::new(ins.len(), |i: int| run(new_worker(t, i as usize), ins[i]))
}

/// Workers run in isolation keep their sequence numbers `0..n`, so their
/// outcomes can be gathered exactly when each of the `n` is finished, and
/// the gathered outcome at `i` is that of worker `i`.
pub proof fn lemma_gather_after_all_finished(t: Target, ins: Seq<Seq<Input>>)
    requires
        ins.len() <= usize::MAX,
    ensures
        run_all(t, ins).len() == ins.len(),
        forall|i: int| 0 <= i < ins.len() ==> (#[trigger] run_all(t, ins)[i]).seq == i,
        all_finished(run_all(t, ins)) <==> forall|i: int| 0 <= i < ins.len() ==> {
            &&& (#[trigger] run_all(t, ins)[i]).finished()
            &&& run_all(t, ins)[i].outcome is Some
        },
{
    assert forall|i: int| 0 <= i < ins.len() implies (#[trigger] run_all(t, ins)[i]).seq == i by {
        lemma_run_keeps_seq(new_worker(t, i as usize), ins[i]);
    }
}

/// Creates `count` fresh workers for `target`, numbered `0..count`.
pub fn spawn_workers(target: &Target, count: usize) -> (ws: Vec<Worker>)
    ensures
        ws@.len() == count,
        forall|i: int| 0 <= i < count ==> #[trigger] ws@[i] == new_worker(*target, i as usize),
        forall|i: int, j: int| 0 <= i < count && 0 <= j < count && i != j ==> #[trigger] ws@[i].seq
            != #[trigger] ws@[j].seq,
        forall|i: int| 0 <= i < count ==> (#[trigger] ws@[i]).wf(),
{
    let mut ws: Vec<Worker> = Vec::new();
    let mut i: usize = 0;
    while i < count
        invariant
            i <= count,
            ws@.len() == i,
            forall|k: int| 0 <= k < i ==> #[trigger] ws@[k] == new_worker(*target, k as usize),
        decreases count - i,
    {
        ws.push(Worker::new(target, i));
        i = i + 1;
    }
    ws
}

/// The outcomes of a finished run, indexed by sequence number: `Some`
/// exactly when every worker is finished and they stand in order of their
/// sequence numbers; `None` while any of them is not done.
pub fn collect_outcomes(workers: &Vec<Worker>) -> (r: Option<Vec<ProbeOutcome>>)
    ensures
        r is Some <==> all_finished(workers@),
        r matches Some(os) ==> os@.len() == workers@.len() && forall|i: int| 0 <= i < os@.len()
            ==> Some(#[trigger] os@[i]) == workers@[i].outcome,
{
    let mut os: Vec<ProbeOutcome> = Vec::new();
    let mut i: usize = 0;
    while i < workers.len()
        invariant
            i <= workers@.len(),
            os@.len() == i,
            forall|k: int| 0 <= k < i ==> {
                &&& (#[trigger] workers@[k]).finished()
                &&& workers@[k].outcome is Some
                &&& workers@[k].seq == k
                &&& Some(os@[k]) == workers@[k].outcome
            },
        decreases workers@.len() - i,
    {
        let w = &workers[i];
        if w.stopping || w.seq != i {
            return None;
        }
        match (&w.phase, &w.outcome) {
            (Phase::Terminated, Some(o)) => {
                os.push(o.duplicate());
            },
            _ => {
                return None;
            },
        }
        i = i + 1;
    }
    Some(os)
}

} // verus!
