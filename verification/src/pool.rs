//! A bounded worker pool with a fixed number of persistent workers, an
//! unbounded FIFO queue from submitters to workers, and a deterministic,
//! wait-for-completion shutdown.
//!
//! The pool is modelled as an explicit state machine. A [`Job`] stands for
//! one submitted unit of work: the pool never looks inside a job beyond
//! recording whether its run failed, so a job is reduced to its identity
//! and to whether running it raises an error. The queue, the workers and
//! the record of completed jobs are all plain data, and every transition —
//! accepting a job, a worker taking the next job, a worker finishing the
//! job it holds, the shutdown drain — is an executable function with a
//! contract. The central invariant is an exact accounting: every accepted
//! job sits in exactly one place, waiting in the queue, held by one worker,
//! or completed. From that invariant the shutdown barrier's guarantee —
//! no job is lost and none runs twice — is proved, not asserted.
//!
//! The host around the pool (threads, channels, connections) performs the
//! transitions in whatever order its scheduler yields; each interleaving of
//! the transition functions is covered by these contracts.

use vstd::prelude::*;
use vstd::multiset::Multiset;

verus! {

/// One submitted unit of work: an identity for bookkeeping, and whether
/// running it fails. The pool treats the work itself as opaque.
#[derive(Clone, Copy, PartialEq, Eq, Structural, Debug)]
pub struct Job {
    pub id: u64,
    pub fails: bool,
}

/// The errors the pool facade surfaces.
#[derive(Clone, Copy, PartialEq, Eq, Structural, Debug)]
pub enum PoolError {
    /// A pool of size zero could never make progress; construction refuses it.
    ZeroSize,
    /// The intake was already closed when the job arrived.
    ShutDown,
}

/// A worker is looping for jobs, or its thread of control has returned.
#[derive(Clone, Copy, PartialEq, Eq, Structural, Debug)]
pub enum WorkerState {
    Running,
    Terminated,
}

/// A persistent worker: a stable identity, its state, and the job it is
/// executing at this moment, if any.
#[derive(Clone, Copy, PartialEq, Eq, Structural, Debug)]
pub struct Worker {
    pub id: usize,
    pub state: WorkerState,
    pub current: Option<Job>,
}

/// The (zero- or one-element) multiset of jobs one worker holds.
pub open spec fn held(w: Worker) -> Multiset<Job> {
    match w.current {
        Some(j) => Multiset::singleton(j),
        None => Multiset::empty(),
    }
}

/// The multiset of jobs the workers are executing right now.
pub open spec fn inflight(ws: Seq<Worker>) -> Multiset<Job>
    decreases ws.len(),
{
    if ws.len() == 0 {
        Multiset::empty()
    } else {
        inflight(ws.drop_last()).add(held(ws.last()))
    }
}

/// Replacing one worker exchanges only that worker's held job in the
/// in-flight multiset.
proof fn lemma_inflight_update(ws: Seq<Worker>, i: int, w2: Worker)
    requires
        0 <= i < ws.len(),
    ensures
        inflight(ws.update(i, w2)).add(held(ws[i])) =~= inflight(ws).add(held(w2)),
    decreases ws.len(),
{
    broadcast use vstd::multiset::group_multiset_axioms;

    let upd = ws.update(i, w2);
    if i == ws.len() - 1 {
        assert(upd.drop_last() =~= ws.drop_last());
        assert(inflight(upd) == inflight(ws.drop_last()).add(held(w2)));
        assert(inflight(ws) == inflight(ws.drop_last()).add(held(ws[i])));
        assert forall|v: Job|
            inflight(upd).add(held(ws[i])).count(v) == inflight(ws).add(held(w2)).count(v) by {}
        assert(inflight(upd).add(held(ws[i])) =~= inflight(ws).add(held(w2)));
    } else {
        assert(upd.drop_last() =~= ws.drop_last().update(i, w2));
        lemma_inflight_update(ws.drop_last(), i, w2);
        assert(ws.drop_last()[i] == ws[i]);
        assert(inflight(upd) == inflight(upd.drop_last()).add(held(ws.last())));
        assert(inflight(ws) == inflight(ws.drop_last()).add(held(ws.last())));
        assert forall|v: Job|
            inflight(upd).add(held(ws[i])).count(v) == inflight(ws).add(held(w2)).count(v) by {
            assert(inflight(ws.drop_last().update(i, w2)).add(held(ws[i])).count(v) == inflight(
                ws.drop_last(),
            ).add(held(w2)).count(v));
        }
        assert(inflight(upd).add(held(ws[i])) =~= inflight(ws).add(held(w2)));
    }
}

/// Workers that hold nothing have an empty in-flight multiset.
proof fn lemma_inflight_all_idle(ws: Seq<Worker>)
    requires
        forall|i: int| 0 <= i < ws.len() ==> (#[trigger] ws[i]).current is None,
    ensures
        inflight(ws) =~= Multiset::empty(),
    decreases ws.len(),
{
    broadcast use vstd::multiset::group_multiset_axioms;

    if ws.len() > 0 {
        lemma_inflight_all_idle(ws.drop_last());
    }
}

/// No more jobs are in flight than there are workers.
proof fn lemma_inflight_len(ws: Seq<Worker>)
    ensures
        inflight(ws).len() <= ws.len(),
    decreases ws.len(),
{
    broadcast use vstd::multiset::group_multiset_axioms;

    if ws.len() > 0 {
        lemma_inflight_len(ws.drop_last());
    }
}

/// The pool facade: the fixed worker count, the producer side of the queue
/// (open or closed), the queue itself, the workers, and the completion
/// record. `submitted` is the ghost history of every accepted job, which
/// the contracts are stated against.
pub struct Pool {
    pub size: usize,
    pub accepting: bool,
    pub queue: Vec<Job>,
    pub workers: Vec<Worker>,
    pub done: Vec<Job>,
    pub failed: Vec<u64>,
    pub submitted: Ghost<Seq<Job>>,
}

impl Pool {
    /// The shape and accounting invariant. Every accepted job is in exactly
    /// one place: waiting in the queue, held by one worker, or completed.
    /// A terminated worker holds nothing and only appears once the intake
    /// is closed and the queue has drained, so no accepted work can be
    /// stranded behind it.
    pub open spec fn wf(&self) -> bool {
        &&& self.size >= 1
        &&& self.workers@.len() == self.size
        &&& forall|i: int|
            0 <= i < self.workers@.len() ==> (#[trigger] self.workers@[i]).id == i
        &&& forall|i: int|
            0 <= i < self.workers@.len() && (#[trigger] self.workers@[i]).state is Terminated
                ==> self.workers@[i].current is None
        &&& forall|i: int|
            0 <= i < self.workers@.len() && (#[trigger] self.workers@[i]).state is Terminated
                ==> !self.accepting && self.queue@.len() == 0
        &&& self.submitted@.to_multiset() =~= self.queue@.to_multiset().add(
            inflight(self.workers@),
        ).add(self.done@.to_multiset())
    }

    /// The pool after a completed shutdown: intake closed, queue drained,
    /// every worker terminated.
    pub open spec fn is_shut_down(&self) -> bool {
        &&& !self.accepting
        &&& self.queue@.len() == 0
        &&& forall|i: int|
            0 <= i < self.workers@.len() ==> (#[trigger] self.workers@[i]).state is Terminated
    }

    /// Field-for-field equality of two pool states.
    pub open spec fn state_eq(&self, other: &Pool) -> bool {
        &&& self.size == other.size
        &&& self.accepting == other.accepting
        &&& self.queue@ == other.queue@
        &&& self.workers@ == other.workers@
        &&& self.done@ == other.done@
        &&& self.failed@ == other.failed@
        &&& self.submitted@ == other.submitted@
    }

    /// Constructs a pool with `size` workers, each running and waiting for
    /// its first job. A requested size of zero is refused outright, before
    /// any job could be submitted; it is never silently clamped.
    pub fn new(size: usize) -> (r: Result<Pool, PoolError>)
        ensures
            r is Err <==> size == 0,
            match r {
                Ok(p) => {
                    &&& p.wf()
                    &&& p.size == size
                    &&& p.accepting
                    &&& p.queue@.len() == 0
                    &&& p.done@.len() == 0
                    &&& p.failed@.len() == 0
                    &&& p.submitted@.len() == 0
                    &&& forall|i: int|
                        0 <= i < p.workers@.len() ==> (#[trigger] p.workers@[i]).state
                            is Running && p.workers@[i].current is None
                },
                Err(e) => e is ZeroSize,
            },
    {
        broadcast use vstd::seq_lib::group_to_multiset_ensures;
        broadcast use vstd::multiset::group_multiset_axioms;
        broadcast use vstd::multiset::group_multiset_properties;
        broadcast use vstd::multiset::lemma_multiset_empty_len;

        if size == 0 {
            return Err(PoolError::ZeroSize);
        }
        let mut workers: Vec<Worker> = Vec::new();
        let mut i: usize = 0;
        while i < size
            invariant
                i <= size,
                workers@.len() == i,
                forall|k: int|
                    0 <= k < i ==> (#[trigger] workers@[k]).id == k && workers@[k].state
                        is Running && workers@[k].current is None,
            decreases size - i,
        {
            workers.push(Worker { id: i, state: WorkerState::Running, current: None });
            i += 1;
        }
        let p = Pool {
            size,
            accepting: true,
            queue: Vec::new(),
            workers,
            done: Vec::new(),
            failed: Vec::new(),
            submitted: Ghost(Seq::empty()),
        };
        proof {
            lemma_inflight_all_idle(p.workers@);
            assert(Seq::<Job>::empty().to_multiset().len() == 0);
            assert(p.submitted@.to_multiset() =~= p.queue@.to_multiset().add(
                inflight(p.workers@),
            ).add(p.done@.to_multiset()));
        }
        Ok(p)
    }

    /// Accepts one job while the intake is open: the job is appended to the
    /// queue and the call returns at once, without waiting for any
    /// execution. Once the intake has closed the job is refused, never
    /// silently run late. No accepted job is ever discarded.
    pub fn submit(&mut self, job: Job) -> (r: Result<(), PoolError>)
        requires
            old(self).wf(),
        ensures
            final(self).wf(),
            old(self).accepting ==> {
                &&& r is Ok
                &&& final(self).queue@ == old(self).queue@.push(job)
                &&& final(self).submitted@ == old(self).submitted@.push(job)
                &&& final(self).accepting
                &&& final(self).workers@ == old(self).workers@
                &&& final(self).done@ == old(self).done@
                &&& final(self).failed@ == old(self).failed@
                &&& final(self).size == old(self).size
            },
            !old(self).accepting ==> r == Err::<(), PoolError>(PoolError::ShutDown)
                && final(self).state_eq(old(self)),
    {
        broadcast use vstd::seq_lib::group_to_multiset_ensures;
        broadcast use vstd::multiset::group_multiset_axioms;
        broadcast use vstd::multiset::group_multiset_properties;
        broadcast use vstd::multiset::lemma_multiset_empty_len;

        if !self.accepting {
            return Err(PoolError::ShutDown);
        }
        self.queue.push(job);
        proof {
            self.submitted@ = self.submitted@.push(job);
            assert(self.submitted@.to_multiset() =~= self.queue@.to_multiset().add(
                inflight(self.workers@),
            ).add(self.done@.to_multiset()));
        }
        Ok(())
    }

    /// One idle running worker attempts to take the next job — the step
    /// performed under the queue's mutual exclusion, and nothing more, so
    /// that execution itself happens outside the exclusion. Delivery is
    /// FIFO: the front job, to exactly this one worker. On a drained queue
    /// the worker terminates if the intake is closed, and otherwise stays
    /// blocked waiting (the state is unchanged).
    pub fn worker_take(&mut self, w: usize)
        requires
            old(self).wf(),
            w < old(self).workers@.len(),
            old(self).workers@[w as int].state is Running,
            old(self).workers@[w as int].current is None,
        ensures
            final(self).wf(),
            final(self).size == old(self).size,
            final(self).accepting == old(self).accepting,
            final(self).done@ == old(self).done@,
            final(self).failed@ == old(self).failed@,
            final(self).submitted@ == old(self).submitted@,
            old(self).queue@.len() > 0 ==> {
                &&& final(self).queue@ == old(self).queue@.drop_first()
                &&& final(self).workers@ == old(self).workers@.update(
                    w as int,
                    (Worker {
                        id: w,
                        state: WorkerState::Running,
                        current: Some(old(self).queue@[0]),
                    }),
                )
            },
            old(self).queue@.len() == 0 && !old(self).accepting ==> {
                &&& final(self).queue@ == old(self).queue@
                &&& final(self).workers@ == old(self).workers@.update(
                    w as int,
                    (Worker { id: w, state: WorkerState::Terminated, current: None }),
                )
            },
            old(self).queue@.len() == 0 && old(self).accepting ==> final(self).state_eq(
                old(self),
            ),
    {
        broadcast use vstd::seq_lib::group_to_multiset_ensures;
        broadcast use vstd::multiset::group_multiset_axioms;
        broadcast use vstd::multiset::group_multiset_properties;
        broadcast use vstd::multiset::lemma_multiset_empty_len;

        if self.queue.len() > 0 {
            let j = self.queue.remove(0);
            let wk = Worker { id: w, state: WorkerState::Running, current: Some(j) };
            self.workers.set(w, wk);
            proof {
                let qold = old(self).queue@;
                let wsold = old(self).workers@;
                lemma_inflight_update(wsold, w as int, wk);
                assert(qold.contains(j)) by {
                    assert(qold[0] == j);
                }
                assert(qold.to_multiset().count(j) > 0);
                assert(self.queue@.to_multiset() =~= qold.to_multiset().remove(j));
                assert forall|v: Job| #![all_triggers]
                    self.queue@.to_multiset().add(inflight(self.workers@)).add(
                        self.done@.to_multiset(),
                    ).count(v) == qold.to_multiset().add(inflight(wsold)).add(
                        self.done@.to_multiset(),
                    ).count(v) by {
                    assert(inflight(self.workers@).add(held(wsold[w as int])).count(v)
                        == inflight(wsold).add(held(wk)).count(v));
                }
                assert(self.submitted@.to_multiset() =~= self.queue@.to_multiset().add(
                    inflight(self.workers@),
                ).add(self.done@.to_multiset()));
                assert(qold.remove(0) =~= qold.drop_first());
            }
        } else if !self.accepting {
            let wk = Worker { id: w, state: WorkerState::Terminated, current: None };
            self.workers.set(w, wk);
            proof {
                let wsold = old(self).workers@;
                lemma_inflight_update(wsold, w as int, wk);
                assert forall|v: Job| #![all_triggers]
                    inflight(self.workers@).count(v) == inflight(wsold).count(v) by {
                    assert(inflight(self.workers@).add(held(wsold[w as int])).count(v)
                        == inflight(wsold).add(held(wk)).count(v));
                }
                assert(inflight(self.workers@) =~= inflight(wsold));
                assert(self.submitted@.to_multiset() =~= self.queue@.to_multiset().add(
                    inflight(self.workers@),
                ).add(self.done@.to_multiset()));
            }
        }
    }

    /// The worker runs the job it holds to completion, outside any
    /// exclusion. The job is recorded as done exactly once, whether or not
    /// its run failed; a failure is additionally recorded and contained, so
    /// the worker stays running and the pool is untouched.
    pub fn worker_finish(&mut self, w: usize)
        requires
            old(self).wf(),
            w < old(self).workers@.len(),
            old(self).workers@[w as int].current is Some,
        ensures
            final(self).wf(),
            final(self).size == old(self).size,
            final(self).accepting == old(self).accepting,
            final(self).queue@ == old(self).queue@,
            final(self).submitted@ == old(self).submitted@,
            final(self).done@ == old(self).done@.push(
                old(self).workers@[w as int].current->Some_0,
            ),
            final(self).failed@ == if old(self).workers@[w as int].current->Some_0.fails {
                old(self).failed@.push(old(self).workers@[w as int].current->Some_0.id)
            } else {
                old(self).failed@
            },
            final(self).workers@ == old(self).workers@.update(
                w as int,
                (Worker { id: w, state: WorkerState::Running, current: None }),
            ),
    {
        broadcast use vstd::seq_lib::group_to_multiset_ensures;
        broadcast use vstd::multiset::group_multiset_axioms;
        broadcast use vstd::multiset::group_multiset_properties;
        broadcast use vstd::multiset::lemma_multiset_empty_len;

        let wk_before = self.workers[w];
        let j = wk_before.current.unwrap();
        self.done.push(j);
        if j.fails {
            self.failed.push(j.id);
        }
        let wk = Worker { id: w, state: WorkerState::Running, current: None };
        self.workers.set(w, wk);
        proof {
            let wsold = old(self).workers@;
            lemma_inflight_update(wsold, w as int, wk);
            assert(self.done@.to_multiset() =~= old(self).done@.to_multiset().insert(j));
            assert forall|v: Job| #![all_triggers]
                self.queue@.to_multiset().add(inflight(self.workers@)).add(
                    self.done@.to_multiset(),
                ).count(v) == self.queue@.to_multiset().add(inflight(wsold)).add(
                    old(self).done@.to_multiset(),
                ).count(v) by {
                assert(inflight(self.workers@).add(held(wsold[w as int])).count(v)
                    == inflight(wsold).add(held(wk)).count(v));
            }
            assert(self.submitted@.to_multiset() =~= self.queue@.to_multiset().add(
                inflight(self.workers@),
            ).add(self.done@.to_multiset()));
        }
    }

    /// Closes the intake, then waits until every accepted job — including
    /// any submitted moments before — has completed and every worker has
    /// observed the closed, drained queue and terminated. When it returns,
    /// the completion record holds exactly the accepted jobs: none lost,
    /// none duplicated. Shutting down an already shut-down pool changes
    /// nothing, so the call is idempotent.
    pub fn shutdown(&mut self)
        requires
            old(self).wf(),
        ensures
            final(self).wf(),
            final(self).is_shut_down(),
            final(self).size == old(self).size,
            final(self).submitted@ == old(self).submitted@,
            final(self).done@.to_multiset() =~= final(self).submitted@.to_multiset(),
            final(self).done@.len() == old(self).submitted@.len(),
            old(self).is_shut_down() ==> final(self).state_eq(old(self)),
    {
        broadcast use vstd::seq_lib::group_to_multiset_ensures;
        broadcast use vstd::multiset::group_multiset_axioms;
        broadcast use vstd::multiset::group_multiset_properties;
        broadcast use vstd::multiset::lemma_multiset_empty_len;

        self.accepting = false;
        let ghost entry = *old(self);
        let mut w: usize = 0;
        while w < self.workers.len()
            invariant
                self.wf(),
                !self.accepting,
                w <= self.workers@.len(),
                self.size == entry.size,
                self.submitted@ == entry.submitted@,
                forall|k: int|
                    0 <= k < w ==> (#[trigger] self.workers@[k]).state is Terminated,
                entry.is_shut_down() ==> self.state_eq(&entry),
            decreases self.workers@.len() - w,
        {
            while self.workers[w].state == WorkerState::Running
                invariant
                    self.wf(),
                    !self.accepting,
                    w < self.workers@.len(),
                    self.size == entry.size,
                    self.submitted@ == entry.submitted@,
                    forall|k: int|
                        0 <= k < w ==> (#[trigger] self.workers@[k]).state is Terminated,
                    entry.is_shut_down() ==> self.state_eq(&entry),
                decreases 2 * self.queue@.len() + (if self.workers@[w as int].current is Some {
                    1int
                } else {
                    0int
                }) + (if self.workers@[w as int].state is Running {
                    1int
                } else {
                    0int
                }),
            {
                if self.workers[w].current.is_some() {
                    self.worker_finish(w);
                } else {
                    self.worker_take(w);
                }
            }
            w += 1;
        }
        proof {
            lemma_inflight_all_idle(self.workers@);
            assert(self.queue@.to_multiset().len() == 0);
            assert(self.done@.to_multiset() =~= self.submitted@.to_multiset());
            assert(self.done@.to_multiset().len() == self.done@.len());
            assert(self.submitted@.to_multiset().len() == self.submitted@.len());
        }
    }
}

/// Law: once shutdown has completed, every accepted job has run exactly
/// once — the completion record is the submission history as a multiset,
/// so the number of completed jobs equals the number submitted and no job
/// is lost or duplicated.
pub proof fn law_exactly_once(p: &Pool)
    requires
        p.wf(),
        p.is_shut_down(),
    ensures
        p.done@.to_multiset() =~= p.submitted@.to_multiset(),
        p.done@.len() == p.submitted@.len(),
        forall|j: Job| p.done@.to_multiset().count(j) == p.submitted@.to_multiset().count(j),
{
    broadcast use vstd::seq_lib::group_to_multiset_ensures;
    broadcast use vstd::multiset::group_multiset_axioms;
    broadcast use vstd::multiset::lemma_multiset_empty_len;

    lemma_inflight_all_idle(p.workers@);
    assert(p.queue@.to_multiset().len() == 0);
    assert(p.done@.to_multiset() =~= p.submitted@.to_multiset());
    assert(p.done@.to_multiset().len() == p.done@.len());
    assert(p.submitted@.to_multiset().len() == p.submitted@.len());
}

/// Law: concurrency is bounded — in every well-formed pool state at most
/// `size` jobs are executing simultaneously, because each of the `size`
/// workers holds at most one job.
pub proof fn law_bounded_concurrency(p: &Pool)
    requires
        p.wf(),
    ensures
        inflight(p.workers@).len() <= p.size,
{
    lemma_inflight_len(p.workers@);
}

/// Law: a failing job is isolated — after shutdown every accepted job has
/// completed at least once, whether or not it failed and whether or not
/// any job accepted before it failed.
pub proof fn law_failure_isolated(p: &Pool, i: int)
    requires
        p.wf(),
        p.is_shut_down(),
        0 <= i < p.submitted@.len(),
    ensures
        p.done@.to_multiset().count(p.submitted@[i]) >= 1,
{
    broadcast use vstd::seq_lib::group_to_multiset_ensures;

    law_exactly_once(p);
    assert(p.submitted@.contains(p.submitted@[i]));
}

} // verus!
