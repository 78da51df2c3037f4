use vstd::prelude::*;

verus! {

/// Where a worker stands in its serving loop.
#[derive(Clone, Copy, Debug, PartialEq, Eq, Structural)]
pub enum WorkerPhase {
    /// Between requests, not holding the accept lock.
    Waiting,
    /// Holding the accept lock, inside the native accept.
    Accepting,
    /// Lock released, reading and answering an accepted request.
    Serving,
    /// The channel was shut down: the loop is over.
    Stopped,
}

/// What happens to a worker.
#[derive(Clone, Copy, Debug, PartialEq, Eq, Structural)]
pub enum WorkerEvent {
    /// The worker took the accept lock.
    LockTaken,
    /// The native accept returned, with or without a request; the lock is
    /// released at once.
    Accepted(bool),
    /// The worker finished the request it was serving.
    Finished,
}

/// The phase that follows `p` on event `e`; none where the event cannot
/// happen in that phase.
pub open spec fn worker_next(p: WorkerPhase, e: WorkerEvent) -> Option<WorkerPhase> {
    match (p, e) {
        (WorkerPhase::Waiting, WorkerEvent::LockTaken) => Some(WorkerPhase::Accepting),
        (WorkerPhase::Accepting, WorkerEvent::Accepted(ok)) => Some(
            if ok {
                WorkerPhase::Serving
            } else {
                WorkerPhase::Stopped
            },
        ),
        (WorkerPhase::Serving, WorkerEvent::Finished) => Some(WorkerPhase::Waiting),
        _ => None,
    }
}

/// The accept lock is free when no worker of the group is accepting.
pub open spec fn lock_free(ws: Seq<WorkerPhase>) -> bool {
    forall|i: int| 0 <= i < ws.len() ==> ws[i] != WorkerPhase::Accepting
}

/// At most one worker of the group is inside the native accept.
pub open spec fn exclusive(ws: Seq<WorkerPhase>) -> bool {
    forall|i: int, j: int|
        0 <= i < ws.len() && 0 <= j < ws.len() && ws[i] == WorkerPhase::Accepting && ws[j]
            == WorkerPhase::Accepting ==> i == j
}

/// Whether worker `w` of a group may take event `e` now. Taking the lock
/// waits until it is free; nothing else waits on the other workers.
pub open spec fn enabled(ws: Seq<WorkerPhase>, w: int, e: WorkerEvent) -> bool {
    &&& 0 <= w < ws.len()
    &&& worker_next(ws[w], e) is Some
    &&& (e == WorkerEvent::LockTaken ==> lock_free(ws))
}

/// The group after worker `w` took event `e`.
pub open spec fn group_step(ws: Seq<WorkerPhase>, w: int, e: WorkerEvent) -> Seq<WorkerPhase> {
    ws.update(w, worker_next(ws[w], e)->0)
}

/// A group of workers that have not yet started is in the exclusive state.
pub proof fn lemma_start_exclusive(n: nat)
    ensures
        exclusive(group_start(n)),
{
}

/// Whatever the number of workers sharing the channel, every step that the
/// group can take keeps at most one of them inside the native accept.
pub proof fn lemma_accept_exclusive(ws: Seq<WorkerPhase>, w: int, e: WorkerEvent)
    requires
        exclusive(ws),
        enabled(ws, w, e),
    ensures
        exclusive(group_step(ws, w, e)),
{
    let next = group_step(ws, w, e);
    assert forall|i: int, j: int|
        0 <= i < next.len() && 0 <= j < next.len() && next[i] == WorkerPhase::Accepting
            && next[j] == WorkerPhase::Accepting implies i == j by {
        if i != w && j != w {
        } else if e == WorkerEvent::LockTaken {
            assert(ws[i] != WorkerPhase::Accepting || i == w);
            assert(ws[j] != WorkerPhase::Accepting || j == w);
        } else {
            assert(next[w] != WorkerPhase::Accepting);
        }
    }
}

/// The group of `n` workers before any of them has started.
pub open spec fn group_start(n: nat) -> Seq<WorkerPhase> {
    Seq::new(n, |i: int| WorkerPhase::Waiting)
}

/// Whether every step of `trace`, a worker index and an event each, can be
/// taken in turn from `ws`.
pub open spec fn admitted(ws: Seq<WorkerPhase>, trace: Seq<(int, WorkerEvent)>) -> bool
    decreases trace.len(),
{
    trace.len() == 0 || (enabled(ws, trace[0].0, trace[0].1) && admitted(
        group_step(ws, trace[0].0, trace[0].1),
        trace.drop_first(),
    ))
}

/// The group after the steps of `trace`.
pub open spec fn run(ws: Seq<WorkerPhase>, trace: Seq<(int, WorkerEvent)>) -> Seq<WorkerPhase>
    decreases trace.len(),
{
    if trace.len() == 0 {
        ws
    } else {
        run(group_step(ws, trace[0].0, trace[0].1), trace.drop_first())
    }
}

/// However many workers share the channel and whatever steps they take, at
/// no point is more than one of them inside the native accept.
pub proof fn lemma_trace_exclusive(n: nat, trace: Seq<(int, WorkerEvent)>)
    requires
        n >= 1,
        admitted(group_start(n), trace),
    ensures
        exclusive(run(group_start(n), trace)),
{
    lemma_start_exclusive(n);
    lemma_run_exclusive(group_start(n), trace);
}

proof fn lemma_run_exclusive(ws: Seq<WorkerPhase>, trace: Seq<(int, WorkerEvent)>)
    requires
        exclusive(ws),
        admitted(ws, trace),
    ensures
        exclusive(run(ws, trace)),
    decreases trace.len(),
{
    if trace.len() > 0 {
        lemma_accept_exclusive(ws, trace[0].0, trace[0].1);
        lemma_run_exclusive(group_step(ws, trace[0].0, trace[0].1), trace.drop_first());
    }
}

/// A worker serving a request finishes it without waiting on the accept
/// lock, whatever the other workers are doing.
pub proof fn lemma_serving_never_waits(ws: Seq<WorkerPhase>, w: int)
    requires
        0 <= w < ws.len(),
        ws[w] == WorkerPhase::Serving,
    ensures
        enabled(ws, w, WorkerEvent::Finished),
        group_step(ws, w, WorkerEvent::Finished)[w] == WorkerPhase::Waiting,
{
}

/// The serving loop of one worker: take the accept lock, accept, release the
/// lock, serve the request, finish, and again, until accept reports that the
/// channel was shut down.
pub struct Worker {
    phase: WorkerPhase,
}

impl Worker {
    pub closed spec fn spec_phase(&self) -> WorkerPhase {
        self.phase
    }

    pub fn new() -> (r: Worker)
        ensures
            r.spec_phase() == WorkerPhase::Waiting,
    {
        Worker { phase: WorkerPhase::Waiting }
    }

    pub fn phase(&self) -> (r: WorkerPhase)
        ensures
            r == self.spec_phase(),
    {
        self.phase
    }

    /// Whether the worker holds the accept lock.
    pub fn holds_lock(&self) -> (r: bool)
        ensures
            r == (self.spec_phase() == WorkerPhase::Accepting),
    {
        self.phase == WorkerPhase::Accepting
    }

    /// Records that the worker took the accept lock.
    pub fn lock_taken(&mut self)
        requires
            old(self).spec_phase() == WorkerPhase::Waiting,
        ensures
            Some(final(self).spec_phase()) == worker_next(
                old(self).spec_phase(),
                WorkerEvent::LockTaken,
            ),
    {
        self.phase = WorkerPhase::Accepting;
    }

    /// Records what the native accept returned and releases the lock. The
    /// result tells whether a request is to be served: when accept found
    /// none, the loop stops before any body is read.
    pub fn accepted(&mut self, ok: bool) -> (r: bool)
        requires
            old(self).spec_phase() == WorkerPhase::Accepting,
        ensures
            r == ok,
            Some(final(self).spec_phase()) == worker_next(
                old(self).spec_phase(),
                WorkerEvent::Accepted(ok),
            ),
            !r ==> final(self).spec_phase() == WorkerPhase::Stopped,
    {
        self.phase = if ok {
            WorkerPhase::Serving
        } else {
            WorkerPhase::Stopped
        };
        ok
    }

    /// Records that the request being served was finished.
    pub fn finished(&mut self)
        requires
            old(self).spec_phase() == WorkerPhase::Serving,
        ensures
            Some(final(self).spec_phase()) == worker_next(
                old(self).spec_phase(),
                WorkerEvent::Finished,
            ),
    {
        self.phase = WorkerPhase::Waiting;
    }
}

} // verus!
