//! Runs of a worker over a sequence of inputs, and what holds of every run.

use vstd::prelude::*;
use crate::classify::class_of;
use crate::worker::{is_live, new_worker, next, Action, Input, Phase, ProbeOutcome, Target, Worker};

verus! {

/// The worker after taking `ins` in order.
pub open spec fn run(w: Worker, ins: Seq<Input>) -> Worker
    decreases ins.len(),
{
    if ins.len() == 0 {
        w
    } else {
        run(next(w, ins[0]).0, ins.drop_first())
    }
}

/// The requests the worker makes while taking `ins` in order.
pub open spec fn trace(w: Worker, ins: Seq<Input>) -> Seq<Action>
    decreases ins.len(),
{
    if ins.len() == 0 {
        Seq::empty()
    } else {
        let (w1, a) = next(w, ins[0]);
        seq![a] + trace(w1, ins.drop_first())
    }
}

/// How many of `acts` ask to stop the session.
pub open spec fn stop_count(acts: Seq<Action>) -> nat
    decreases acts.len(),
{
    if acts.len() == 0 {
        0
    } else {
        (if acts[0] == Action::Deactivate { 1nat } else { 0nat }) + stop_count(acts.drop_first())
    }
}

proof fn lemma_trace_len(w: Worker, ins: Seq<Input>)
    ensures
        trace(w, ins).len() == ins.len(),
    decreases ins.len(),
{
    if ins.len() > 0 {
        lemma_trace_len(next(w, ins[0]).0, ins.drop_first());
    }
}

/// A worker keeps its sequence number.
pub proof fn lemma_run_keeps_seq(w: Worker, ins: Seq<Input>)
    ensures
        run(w, ins).seq == w.seq,
    decreases ins.len(),
{
    if ins.len() > 0 {
        lemma_run_keeps_seq(next(w, ins[0]).0, ins.drop_first());
    }
}

/// Once terminated, a worker stays terminated with the same outcome, never
/// asks again to stop its session, and once finished stays finished.
pub proof fn lemma_terminated_absorbing(w: Worker, ins: Seq<Input>)
    requires
        w.phase == Phase::Terminated,
    ensures
        run(w, ins).phase == Phase::Terminated,
        run(w, ins).outcome == w.outcome,
        stop_count(trace(w, ins)) == 0,
        w.finished() ==> run(w, ins).finished(),
        w.stopping && ins.len() > 0 && (ins[0] is Deactivated || ins[0] is DeactivationFailed)
            ==> run(w, ins).finished(),
    decreases ins.len(),
{
    if ins.len() > 0 {
        let (w1, a) = next(w, ins[0]);
        lemma_terminated_absorbing(w1, ins.drop_first());
        assert(trace(w, ins) == seq![a] + trace(w1, ins.drop_first()));
        assert((seq![a] + trace(w1, ins.drop_first())).drop_first() =~= trace(w1, ins.drop_first()));
    }
}

/// Whatever it receives, a worker asks at most once for its session to be
/// stopped, and never again once terminated.
pub proof fn lemma_stop_at_most_once(w: Worker, ins: Seq<Input>)
    ensures
        stop_count(trace(w, ins)) <= (if w.phase == Phase::Terminated { 0nat } else { 1nat }),
    decreases ins.len(),
{
    if w.phase == Phase::Terminated {
        lemma_terminated_absorbing(w, ins);
    } else if ins.len() > 0 {
        let (w1, a) = next(w, ins[0]);
        lemma_stop_at_most_once(w1, ins.drop_first());
        let t = trace(w, ins);
        assert(t == seq![a] + trace(w1, ins.drop_first()));
        assert(t.drop_first() =~= trace(w1, ins.drop_first()));
        assert(a == Action::Deactivate ==> w1.phase == Phase::Terminated);
    }
}

/// A live worker that receives the end of the stream ends `Completed` and
/// asks for its session to be stopped exactly once, whatever follows (a
/// failed stop included). Once told the stop's result it is finished.
pub proof fn lemma_end_of_stream_completes(w: Worker, rest: Seq<Input>)
    requires
        w.wf(),
        is_live(w.phase),
    ensures
        run(w, seq![Input::EndOfStream] + rest).outcome == Some(ProbeOutcome::Completed),
        stop_count(trace(w, seq![Input::EndOfStream] + rest)) == 1,
        rest.len() > 0 && (rest[0] is Deactivated || rest[0] is DeactivationFailed)
            ==> run(w, seq![Input::EndOfStream] + rest).finished(),
{
    let ins = seq![Input::EndOfStream] + rest;
    assert(ins[0] == Input::EndOfStream);
    assert(ins.drop_first() =~= rest);
    let (w1, a) = next(w, Input::EndOfStream);
    lemma_terminated_absorbing(w1, rest);
    assert(stop_count(trace(w, ins)) == 1 + stop_count(trace(w1, rest))) by {
        let t = trace(w, ins);
        assert(t == seq![a] + trace(w1, rest));
        assert(t.drop_first() =~= trace(w1, rest));
    }
}

/// A live worker that receives an error ends `Failed` with the error's
/// class and message, never `Completed`, and asks for its session to be
/// stopped exactly once, whatever follows (a failed stop included).
pub proof fn lemma_error_fails(w: Worker, err: Input, rest: Seq<Input>)
    requires
        w.wf(),
        is_live(w.phase),
        err is Error,
    ensures
        ({
            let r = run(w, seq![err] + rest);
            match err {
                Input::Error(d, c, m) => r.outcome == Some(ProbeOutcome::Failed(class_of(d.domain(), c), m)),
                _ => false,
            }
        }),
        run(w, seq![err] + rest).outcome != Some(ProbeOutcome::Completed),
        stop_count(trace(w, seq![err] + rest)) == 1,
        rest.len() > 0 && (rest[0] is Deactivated || rest[0] is DeactivationFailed)
            ==> run(w, seq![err] + rest).finished(),
{
    let ins = seq![err] + rest;
    assert(ins[0] == err);
    assert(ins.drop_first() =~= rest);
    let (w1, a) = next(w, err);
    lemma_terminated_absorbing(w1, rest);
    assert(stop_count(trace(w, ins)) == 1 + stop_count(trace(w1, rest))) by {
        let t = trace(w, ins);
        assert(t == seq![a] + trace(w1, rest));
        assert(t.drop_first() =~= trace(w1, rest));
    }
}

proof fn lemma_credentials_kept(w: Worker, ins: Seq<Input>)
    ensures
        forall|k: int| 0 <= k < trace(w, ins).len() ==> (#[trigger] trace(w, ins)[k] matches Action::ApplyCredentials(u, p)
            ==> w.credentials == Some((u, p))),
    decreases ins.len(),
{
    lemma_trace_len(w, ins);
    if ins.len() > 0 {
        let (w1, a) = next(w, ins[0]);
        lemma_credentials_kept(w1, ins.drop_first());
        assert(w1.credentials == w.credentials);
        let t = trace(w, ins);
        assert(t == seq![a] + trace(w1, ins.drop_first()));
        assert forall|k: int| 0 <= k < t.len() implies (#[trigger] t[k] matches Action::ApplyCredentials(u, p)
            ==> w.credentials == Some((u, p))) by {
            if k > 0 {
                assert(t[k] == trace(w1, ins.drop_first())[k - 1]);
            }
        }
    }
}

/// Credentials reach the session only when the target has both a username
/// and a password, and then exactly those: a worker for a target with only
/// one of them never asks to apply credentials, whatever it receives. With
/// both, the request comes as soon as the session is built.
pub proof fn lemma_credentials_iff_both(t: Target, seq_no: usize, ins: Seq<Input>)
    ensures
        forall|k: int| 0 <= k < trace(new_worker(t, seq_no), ins).len()
            ==> (#[trigger] trace(new_worker(t, seq_no), ins)[k] matches Action::ApplyCredentials(u, p)
            ==> t.username == Some(u) && t.password == Some(p)),
        (t.username is Some && t.password is Some) ==> next(new_worker(t, seq_no), Input::Built).1
            == Action::ApplyCredentials(t.username.unwrap(), t.password.unwrap()),
        !(t.username is Some && t.password is Some) ==> next(new_worker(t, seq_no), Input::Built).1
            == Action::Activate,
{
    lemma_credentials_kept(new_worker(t, seq_no), ins);
}

} // verus!
