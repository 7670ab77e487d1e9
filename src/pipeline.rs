use vstd::prelude::*;

use crate::error::DataError;

verus! {

/// What a processor of the graph does; the indices name the sources and
/// transform factories that the caller holds.
#[derive(Clone, Copy, Debug, PartialEq, Eq, Structural)]
pub enum ProcessorKind {
    Source(usize),
    Transform(usize),
    Merge,
}

/// A processor and the processors whose output it reads.
#[derive(Debug)]
pub struct Processor {
    pub kind: ProcessorKind,
    pub inputs: Vec<usize>,
}

/// A processor graph built bottom-up: sources, then transforms applied to
/// every open branch, then merges that fan the branches back into one.
#[derive(Debug)]
pub struct Pipeline {
    pub processors: Vec<Processor>,
    /// The processors no other processor reads yet, in order.
    pub ends: Vec<usize>,
}

/// Every processor reads only processors built before it, and the ends are
/// increasing positions of the graph.
pub open spec fn graph_wf(ps: Seq<Processor>, ends: Seq<usize>) -> bool {
    &&& forall|i: int, j: int|
        0 <= i < ps.len() && 0 <= j < ps[i].inputs@.len() ==> #[trigger] ps[i].inputs@[j] < i
    &&& forall|j: int| 0 <= j < ends.len() ==> #[trigger] ends[j] < ps.len()
    &&& forall|a: int, b: int| 0 <= a < b < ends.len() ==> #[trigger] ends[a] < #[trigger] ends[b]
}

/// Whether every open branch ends in a source.
pub open spec fn ends_are_sources(ps: Seq<Processor>, ends: Seq<usize>) -> bool {
    forall|j: int| 0 <= j < ends.len() ==> #[trigger] ps[ends[j] as int].kind is Source
}

/// `ps`, `ends` is the graph `ps0`, `ends0` with one transform processor
/// appended after each open branch, those becoming the new ends.
pub open spec fn transformed(
    ps0: Seq<Processor>,
    ends0: Seq<usize>,
    ps: Seq<Processor>,
    ends: Seq<usize>,
    transform: usize,
) -> bool {
    let n = ps0.len();
    &&& ps.len() == n + ends0.len()
    &&& ps.take(n as int) == ps0
    &&& ends.len() == ends0.len()
    &&& forall|j: int|
        0 <= j < ends0.len() ==> #[trigger] ends[j] == n + j && ps[n + j].kind
            == ProcessorKind::Transform(transform) && ps[n + j].inputs@ == seq![ends0[j]]
}

impl Pipeline {
    pub open spec fn wf(&self) -> bool {
        graph_wf(self.processors@, self.ends@)
    }

    pub fn create() -> (r: Pipeline)
        ensures
            r.wf(),
            r.processors@.len() == 0,
            r.ends@.len() == 0,
    {
        Pipeline { processors: Vec::new(), ends: Vec::new() }
    }

    /// The number of open branches.
    pub fn nums(&self) -> (r: usize)
        ensures
            r == self.ends@.len(),
    {
        self.ends.len()
    }

    fn ends_all_sources(&self) -> (r: bool)
        requires
            self.wf(),
        ensures
            r == ends_are_sources(self.processors@, self.ends@),
    {
        let mut j: usize = 0;
        while j < self.ends.len()
            invariant
                j <= self.ends@.len(),
                self.wf(),
                forall|k: int| 0 <= k < j ==> #[trigger] self.processors@[self.ends@[k] as int].kind is Source,
            decreases self.ends@.len() - j,
        {
            match self.processors[self.ends[j]].kind {
                ProcessorKind::Source(_) => {},
                _ => {
                    return false;
                },
            }
            j = j + 1;
        }
        true
    }

    /// Opens a branch that reads from source `source`; sources come before
    /// any transform of the current stage.
    pub fn add_source(&mut self, source: usize) -> (r: Result<(), DataError>)
        requires
            old(self).wf(),
        ensures
            final(self).wf(),
            if ends_are_sources(old(self).processors@, old(self).ends@) {
                &&& r is Ok
                &&& final(self).processors@.len() == old(self).processors@.len() + 1
                &&& final(self).processors@.drop_last() == old(self).processors@
                &&& final(self).processors@.last().kind == ProcessorKind::Source(source)
                &&& final(self).processors@.last().inputs@.len() == 0
                &&& final(self).ends@ == old(self).ends@.push(
                    (old(self).processors@.len()) as usize,
                )
            } else {
                &&& r == Err::<(), DataError>(
                    DataError::Pipeline { terminals: old(self).ends@.len() as usize },
                )
                &&& final(self).processors@ == old(self).processors@
                &&& final(self).ends@ == old(self).ends@
            },
    {
        if !self.ends_all_sources() {
            return Err(DataError::Pipeline { terminals: self.ends.len() });
        }
        let idx = self.processors.len();
        let inputs: Vec<usize> = Vec::new();
        assert(inputs@.len() == 0);
        self.processors.push(Processor { kind: ProcessorKind::Source(source), inputs });
        self.ends.push(idx);
        assert(self.processors@.drop_last() =~= old(self).processors@);
        proof {
            let ps = self.processors@;
            assert forall|i: int, j: int|
                0 <= i < ps.len() && 0 <= j < ps[i].inputs@.len() implies #[trigger] ps[i].inputs@[j]
                < i by {
                if i < ps.len() - 1 {
                    assert(ps[i] == old(self).processors@[i]);
                } else {
                    assert(ps[i].inputs@.len() == 0);
                }
            }
        }
        Ok(())
    }

    /// Puts transform `transform` at the end of every open branch.
    pub fn add_simple_transform(&mut self, transform: usize) -> (r: Result<(), DataError>)
        requires
            old(self).wf(),
        ensures
            final(self).wf(),
            old(self).ends@.len() == 0 ==> r == Err::<(), DataError>(
                DataError::Pipeline { terminals: 0 },
            ) && final(self).processors@ == old(self).processors@ && final(self).ends@
                == old(self).ends@,
            old(self).ends@.len() > 0 ==> r is Ok && transformed(
                old(self).processors@,
                old(self).ends@,
                final(self).processors@,
                final(self).ends@,
                transform,
            ),
    {
        if self.ends.len() == 0 {
            return Err(DataError::Pipeline { terminals: 0 });
        }
        let n = self.processors.len();
        let w = self.ends.len();
        let ghost ps0 = self.processors@;
        let ghost ends0 = self.ends@;
        let mut new_ends: Vec<usize> = Vec::new();
        let mut j: usize = 0;
        while j < w
            invariant
                j <= w,
                w == ends0.len(),
                n == ps0.len(),
                ends0 == self.ends@,
                ends0 == old(self).ends@,
                ps0 == old(self).processors@,
                graph_wf(ps0, ends0),
                self.processors@.len() == n + j,
                self.processors@.take(n as int) == ps0,
                new_ends@.len() == j,
                forall|k: int|
                    0 <= k < j ==> #[trigger] new_ends@[k] == n + k && self.processors@[n + k].kind
                        == ProcessorKind::Transform(transform) && self.processors@[n + k].inputs@
                        == seq![ends0[k]],
                forall|i: int, k: int|
                    0 <= i < self.processors@.len() && 0 <= k < self.processors@[i].inputs@.len()
                        ==> #[trigger] self.processors@[i].inputs@[k] < i,
            decreases w - j,
        {
            let e = self.ends[j];
            let mut inputs: Vec<usize> = Vec::new();
            inputs.push(e);
            assert(inputs@ =~= seq![ends0[j as int]]);
            let ghost before = self.processors@;
            let idx = self.processors.len();
            self.processors.push(Processor { kind: ProcessorKind::Transform(transform), inputs });
            new_ends.push(idx);
            proof {
                let ps = self.processors@;
                assert(ps.take(n as int) =~= before.take(n as int));
                assert forall|i: int, k: int|
                    0 <= i < ps.len() && 0 <= k < ps[i].inputs@.len() implies #[trigger] ps[i].inputs@[k]
                    < i by {
                    if i < ps.len() - 1 {
                        assert(ps[i] == before[i]);
                    }
                }
                assert forall|k: int| 0 <= k < j + 1 implies #[trigger] new_ends@[k] == n + k
                    && ps[n + k].kind == ProcessorKind::Transform(transform) && ps[n + k].inputs@
                    == seq![ends0[k]] by {
                    if k < j {
                        assert(ps[n + k] == before[n + k]);
                    }
                }
            }
            j = j + 1;
        }
        let ghost ne = new_ends@;
        self.ends = new_ends;
        proof {
            let ps = self.processors@;
            assert forall|k: int| 0 <= k < w implies #[trigger] self.ends@[k] == n + k && ps[n
                + k].kind == ProcessorKind::Transform(transform) && ps[n + k].inputs@ == seq![
                ends0[k],
            ] by {
                assert(ne[k] == n + k);
            }
            assert(transformed(ps0, ends0, ps, self.ends@, transform));
            assert forall|a: int, b: int| 0 <= a < b < self.ends@.len() implies #[trigger] self.ends@[a]
                < #[trigger] self.ends@[b] by {
                assert(ne[a] == n + a && ne[b] == n + b);
            }
            assert forall|k: int| 0 <= k < self.ends@.len() implies #[trigger] self.ends@[k]
                < ps.len() by {
                assert(ne[k] == n + k);
            }
        }
        Ok(())
    }

    /// Fans every open branch into one merge processor.
    pub fn merge_processor(&mut self) -> (r: Result<(), DataError>)
        requires
            old(self).wf(),
        ensures
            final(self).wf(),
            if old(self).ends@.len() == 0 {
                &&& r == Err::<(), DataError>(DataError::Pipeline { terminals: 0 })
                &&& final(self).processors@ == old(self).processors@
                &&& final(self).ends@ == old(self).ends@
            } else {
                &&& r is Ok
                &&& final(self).processors@.drop_last() == old(self).processors@
                &&& final(self).processors@.last().kind == ProcessorKind::Merge
                &&& final(self).processors@.last().inputs@ == old(self).ends@
                &&& final(self).ends@ == seq![old(self).processors@.len() as usize]
            },
    {
        if self.ends.len() == 0 {
            return Err(DataError::Pipeline { terminals: 0 });
        }
        let idx = self.processors.len();
        let mut inputs: Vec<usize> = Vec::new();
        std::mem::swap(&mut inputs, &mut self.ends);
        let ghost ps0 = self.processors@;
        self.processors.push(Processor { kind: ProcessorKind::Merge, inputs });
        let mut ends: Vec<usize> = Vec::new();
        ends.push(idx);
        self.ends = ends;
        assert(self.processors@.drop_last() =~= old(self).processors@);
        proof {
            let ps = self.processors@;
            assert forall|i: int, j: int|
                0 <= i < ps.len() && 0 <= j < ps[i].inputs@.len() implies #[trigger] ps[i].inputs@[j]
                < i by {
                if i < ps.len() - 1 {
                    assert(ps[i] == ps0[i]);
                }
            }
        }
        Ok(())
    }

    /// The terminal processor to pull from; the graph must have exactly one.
    pub fn execute(&self) -> (r: Result<usize, DataError>)
        ensures
            if self.ends@.len() == 1 {
                &&& r == Ok::<usize, DataError>(self.ends@[0])
                &&& self.wf() ==> self.ends@[0] < self.processors@.len()
            } else {
                r == Err::<usize, DataError>(
                    DataError::Pipeline { terminals: self.ends@.len() as usize },
                )
            },
    {
        if self.ends.len() == 1 {
            Ok(self.ends[0])
        } else {
            Err(DataError::Pipeline { terminals: self.ends.len() })
        }
    }
}

/// What one input of a merge reported.
#[derive(Clone, Copy, Debug, PartialEq, Eq, Structural)]
pub enum MergeEvent {
    /// Input `i` yielded its next item.
    Item(usize),
    /// Input `i` is exhausted.
    End(usize),
    /// Input `i` failed.
    Error(usize),
}

/// What the merge does next.
#[derive(Clone, Copy, Debug, PartialEq, Eq, Structural)]
pub enum MergeAction {
    /// Pass the item on.
    Emit,
    /// Keep pulling the inputs that are still open.
    Wait,
    /// Every input is exhausted: the merged stream ends.
    Done,
    /// End the merged stream with the error and stop pulling the others.
    Fail,
}

/// The decisions of a merge processor over its inputs' events, and the
/// record of every item passed on, as (input, position in that input).
pub struct MergeState {
    pub yielded: Vec<usize>,
    pub finished: Vec<bool>,
    pub failed: bool,
    pub log: Ghost<Seq<(int, int)>>,
}

/// The log holds each item of each input once: every entry is an item
/// already yielded, no entry repeats, and every yielded item is there.
pub open spec fn log_exact(yielded: Seq<usize>, log: Seq<(int, int)>) -> bool {
    &&& forall|j: int|
        0 <= j < log.len() ==> 0 <= (#[trigger] log[j]).0 < yielded.len() && 0 <= log[j].1
            < yielded[log[j].0]
    &&& forall|a: int, b: int| 0 <= a < b < log.len() ==> #[trigger] log[a] != #[trigger] log[b]
    &&& forall|i: int, k: int|
        0 <= i < yielded.len() && 0 <= k < yielded[i] ==> #[trigger] logged(log, i, k)
}

/// Item `k` of input `i` is in the log.
pub open spec fn logged(log: Seq<(int, int)>, i: int, k: int) -> bool {
    exists|j: int| 0 <= j < log.len() && #[trigger] log[j] == (i, k)
}

pub open spec fn all_finished(f: Seq<bool>) -> bool {
    forall|i: int| 0 <= i < f.len() ==> #[trigger] f[i]
}

impl MergeState {
    pub open spec fn wf(&self) -> bool {
        &&& self.yielded@.len() == self.finished@.len()
        &&& log_exact(self.yielded@, self.log@)
    }

    /// The state of a merge over `n` inputs, none of them heard from.
    pub fn new(n: usize) -> (r: MergeState)
        ensures
            r.wf(),
            r.yielded@ == Seq::new(n as nat, |i: int| 0usize),
            r.finished@ == Seq::new(n as nat, |i: int| false),
            !r.failed,
            r.log@.len() == 0,
    {
        let mut yielded: Vec<usize> = Vec::new();
        let mut finished: Vec<bool> = Vec::new();
        let mut i: usize = 0;
        while i < n
            invariant
                i <= n,
                yielded@ == Seq::new(i as nat, |k: int| 0usize),
                finished@ == Seq::new(i as nat, |k: int| false),
            decreases n - i,
        {
            yielded.push(0);
            finished.push(false);
            i = i + 1;
            assert(yielded@ =~= Seq::new(i as nat, |k: int| 0usize));
            assert(finished@ =~= Seq::new(i as nat, |k: int| false));
        }
        MergeState { yielded, finished, failed: false, log: Ghost(Seq::empty()) }
    }

    /// Decides what to do with one event. An item of an open input is
    /// passed on and logged; the end of the last open input ends the merge;
    /// an error, or an event that breaks the protocol, fails it.
    pub fn on_event(&mut self, ev: MergeEvent) -> (r: MergeAction)
        requires
            old(self).wf(),
        ensures
            final(self).wf(),
            old(self).failed ==> r == MergeAction::Fail && final(self).log@ == old(self).log@,
            !old(self).failed ==> match ev {
                MergeEvent::Item(i) => if i < old(self).yielded@.len() && !old(self).finished@[i as int]
                    && old(self).yielded@[i as int] < usize::MAX {
                    &&& r == MergeAction::Emit
                    &&& final(self).log@ == old(self).log@.push(
                        (i as int, old(self).yielded@[i as int] as int),
                    )
                    &&& final(self).yielded@ == old(self).yielded@.update(
                        i as int,
                        (old(self).yielded@[i as int] + 1) as usize,
                    )
                    &&& final(self).finished@ == old(self).finished@
                } else {
                    r == MergeAction::Fail && final(self).failed && final(self).log@ == old(self).log@
                },
                MergeEvent::End(i) => if i < old(self).yielded@.len() {
                    &&& final(self).finished@ == old(self).finished@.update(i as int, true)
                    &&& final(self).yielded@ == old(self).yielded@
                    &&& final(self).log@ == old(self).log@
                    &&& r == (if all_finished(final(self).finished@) {
                        MergeAction::Done
                    } else {
                        MergeAction::Wait
                    })
                } else {
                    r == MergeAction::Fail && final(self).failed && final(self).log@ == old(self).log@
                },
                MergeEvent::Error(_) => r == MergeAction::Fail && final(self).failed
                    && final(self).log@ == old(self).log@,
            },
    {
        if self.failed {
            return MergeAction::Fail;
        }
        match ev {
            MergeEvent::Item(i) => {
                if i < self.yielded.len() && !self.finished[i] && self.yielded[i] < usize::MAX {
                    let k = self.yielded[i];
                    let ghost y0 = self.yielded@;
                    let ghost l0 = self.log@;
                    self.yielded.set(i, k + 1);
                    self.log = Ghost(self.log@.push((i as int, k as int)));
                    proof {
                        let y = self.yielded@;
                        let l = self.log@;
                        assert forall|j: int| 0 <= j < l.len() implies 0 <= (#[trigger] l[j]).0
                            < y.len() && 0 <= l[j].1 < y[l[j].0] by {
                            if j < l0.len() {
                                assert(l[j] == l0[j]);
                            }
                        }
                        assert forall|a: int, b: int| 0 <= a < b < l.len() implies #[trigger] l[a]
                            != #[trigger] l[b] by {
                            if b == l0.len() {
                                assert(l[a] == l0[a]);
                                assert(l0[a].1 < y0[l0[a].0]);
                            } else {
                                assert(l[a] == l0[a] && l[b] == l0[b]);
                            }
                        }
                        assert forall|ii: int, kk: int| 0 <= ii < y.len() && 0 <= kk < y[ii] implies #[trigger] logged(
                            l,
                            ii,
                            kk,
                        ) by {
                            if ii == i && kk == k {
                                assert(l[l0.len() as int] == (ii, kk));
                            } else {
                                assert(kk < y0[ii]);
                                assert(logged(l0, ii, kk));
                                let j0 = choose|j: int| 0 <= j < l0.len() && #[trigger] l0[j] == (ii, kk);
                                assert(l[j0] == (ii, kk));
                            }
                        }
                    }
                    MergeAction::Emit
                } else {
                    self.failed = true;
                    MergeAction::Fail
                }
            },
            MergeEvent::End(i) => {
                if i < self.finished.len() {
                    self.finished.set(i, true);
                    let mut all = true;
                    let mut k: usize = 0;
                    while k < self.finished.len()
                        invariant
                            k <= self.finished@.len(),
                            all == forall|m: int| 0 <= m < k ==> #[trigger] self.finished@[m],
                        decreases self.finished@.len() - k,
                    {
                        if !self.finished[k] {
                            all = false;
                        }
                        k = k + 1;
                    }
                    if all {
                        MergeAction::Done
                    } else {
                        MergeAction::Wait
                    }
                } else {
                    self.failed = true;
                    MergeAction::Fail
                }
            },
            MergeEvent::Error(_) => {
                self.failed = true;
                MergeAction::Fail
            },
        }
    }
}

} // verus!

verus! {

/// A stage whose input is a sub-plan running on another node: it holds the
/// job id, the node's address and the serialized sub-plan, and stands in
/// the graph as a transform over the processor it is connected to.
#[derive(Debug)]
pub struct RemoteTransform {
    pub job_id: String,
    pub remote_addr: String,
    pub plan: Vec<u8>,
    pub input: Option<usize>,
}

impl RemoteTransform {
    pub fn try_create(job_id: String, remote_addr: String, plan: Vec<u8>) -> (r: Result<
        RemoteTransform,
        DataError,
    >)
        ensures
            r matches Ok(t) && t.job_id == job_id && t.remote_addr == remote_addr && t.plan@
                == plan@ && t.input is None,
    {
        Ok(RemoteTransform { job_id, remote_addr, plan, input: None })
    }

    pub fn name(&self) -> (r: &'static str)
        ensures
            r@ == "RemoteTransform"@,
    {
        "RemoteTransform"
    }

    /// Reads from processor `input` from now on.
    pub fn connect_to(&mut self, input: usize) -> (r: Result<(), DataError>)
        ensures
            r is Ok,
            final(self).input == Some(input),
            final(self).job_id == old(self).job_id,
            final(self).remote_addr == old(self).remote_addr,
            final(self).plan@ == old(self).plan@,
    {
        self.input = Some(input);
        Ok(())
    }

    /// The processors this one reads from.
    pub fn inputs(&self) -> (r: Vec<usize>)
        ensures
            r@ == (match self.input {
                Some(i) => seq![i],
                None => Seq::<usize>::empty(),
            }),
    {
        let mut v: Vec<usize> = Vec::new();
        match self.input {
            Some(i) => {
                v.push(i);
                assert(v@ =~= seq![i]);
            },
            None => {},
        }
        v
    }
}

} // verus!
