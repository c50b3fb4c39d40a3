//! The index coordinator: single source of truth for whether a usable
//! index exists and which one is current.
//!
//! The engine handle itself is opaque to this logic; the coordinator tracks
//! it as a generation number, assigned when a rebuild succeeds. The server
//! holds the coordinator behind a multi-reader/single-writer guard, keyed by
//! the generation, and drives it in two steps: it asks [`Coordinator::begin_read`]
//! whether a read may run and against which handle, performs the engine call
//! itself, and maps the result back through the facade. A rebuild likewise
//! constructs the new handle outside any lock and then commits its outcome
//! with [`Coordinator::apply_rebuild`] while holding exclusive access, so the
//! swap is atomic with respect to reads.

use vstd::prelude::*;

use crate::facade::{not_ready_reply, Body, ReadKind, Reply};

verus! {

/// Coordinator state: the current handle's generation, if any, the
/// generation the next successful rebuild will receive, and the project
/// root every rebuild reads from, fixed at startup.
///
/// The handle starts absent and, once set, never becomes absent again: a
/// failed rebuild leaves the previous handle untouched.
pub struct Coordinator {
    pub handle: Option<u64>,
    pub next_gen: u64,
    pub project_root: String,
}

/// What a read request should do next: answer immediately with the given
/// reply (no index exists yet, the engine is not consulted), or run the
/// engine operation against the handle of the given generation.
pub enum ReadStep<T> {
    Refused(Reply<T>),
    Query(u64),
}

/// How one rebuild attempt ended, as the trace model records it.
#[derive(Clone, Copy, PartialEq, Eq, Structural, Debug)]
pub enum RebuildOutcome {
    Built,
    Failed,
}

impl Coordinator {
    /// Every generation held current was assigned by some earlier rebuild.
    pub open spec fn wf(&self) -> bool {
        self.handle matches Some(g) ==> g < self.next_gen
    }

    /// Whether a usable index handle exists.
    pub open spec fn is_ready(&self) -> bool {
        self.handle is Some
    }

    /// A fresh coordinator over the given project root: no index has ever
    /// been built.
    pub fn new(project_root: String) -> (r: Coordinator)
        ensures
            r.wf(),
            !r.is_ready(),
            r.handle is None,
            r.next_gen == 0,
            r.project_root == project_root,
    {
        Coordinator { handle: None, next_gen: 0, project_root }
    }

    /// First half of the read pattern: if no handle exists, the read is
    /// answered service-unavailable at once and the engine is never
    /// consulted; otherwise the caller is told which single, fully
    /// installed handle to query.
    pub fn begin_read<T>(&self, kind: ReadKind) -> (r: ReadStep<T>)
        ensures
            self.handle matches Some(g) ==> {
                &&& r matches ReadStep::Query(h)
                &&& h == g
            },
            self.handle is None ==> {
                &&& r matches ReadStep::Refused(rep)
                &&& rep.status == 503
                &&& rep.body matches Body::Error(m)
                &&& m@ == crate::facade::not_ready_text(kind)
            },
    {
        match self.handle {
            Some(g) => ReadStep::Query(g),
            None => ReadStep::Refused(not_ready_reply(kind)),
        }
    }

    /// Second half of the rebuild pattern: commit how the build ended.
    /// On success the freshly built handle — carrying the build report —
    /// becomes current under a new generation; on failure the state is
    /// left exactly as it was and the build error is reported, so an
    /// already-working index stays serviceable.
    pub fn apply_rebuild<T>(&mut self, outcome: Result<T, String>) -> (r: Reply<T>)
        requires
            old(self).wf(),
            old(self).next_gen < u64::MAX,
        ensures
            final(self).wf(),
            final(self).project_root == old(self).project_root,
            outcome matches Ok(report) ==> {
                &&& *final(self) == step(*old(self), RebuildOutcome::Built)
                &&& final(self).handle == Some(old(self).next_gen)
                &&& final(self).next_gen == old(self).next_gen + 1
                &&& r.status == 200
                &&& r.body matches Body::Data(d)
                &&& d == report
            },
            outcome matches Err(e) ==> {
                &&& *final(self) == *old(self)
                &&& r.status == 500
                &&& r.body matches Body::Error(m)
                &&& m == e
            },
    {
        match outcome {
            Ok(report) => {
                let g: u64 = self.next_gen;
                self.handle = Some(g);
                self.next_gen = g + 1;
                Reply { status: 200, body: Body::Data(report) }
            },
            Err(e) => Reply { status: 500, body: Body::Error(e) },
        }
    }
}

/// One rebuild outcome applied to a coordinator state: a successful build
/// installs the next generation as current; a failed one changes nothing.
pub open spec fn step(s: Coordinator, ev: RebuildOutcome) -> Coordinator {
    match ev {
        RebuildOutcome::Built => Coordinator {
            handle: Some(s.next_gen),
            next_gen: (s.next_gen + 1) as u64,
            project_root: s.project_root,
        },
        RebuildOutcome::Failed => s,
    }
}

/// The state after a whole trace of rebuild outcomes, applied in order.
pub open spec fn state_after(init: Coordinator, evs: Seq<RebuildOutcome>) -> Coordinator
    decreases evs.len(),
{
    if evs.len() == 0 {
        init
    } else {
        step(state_after(init, evs.drop_last()), evs.last())
    }
}

/// How many rebuilds in the trace succeeded.
pub open spec fn success_count(evs: Seq<RebuildOutcome>) -> nat
    decreases evs.len(),
{
    if evs.len() == 0 {
        0
    } else {
        success_count(evs.drop_last()) + if evs.last() is Built { 1nat } else { 0nat }
    }
}

/// Closed form of a whole rebuild history: generations count the successes,
/// and the current handle is the one the last successful rebuild installed —
/// or still the initial one if none succeeded.
pub proof fn lemma_rebuild_history(init: Coordinator, evs: Seq<RebuildOutcome>)
    requires
        init.wf(),
        init.next_gen + success_count(evs) <= u64::MAX,
    ensures
        state_after(init, evs).wf(),
        state_after(init, evs).project_root == init.project_root,
        state_after(init, evs).next_gen == init.next_gen + success_count(evs),
        success_count(evs) == 0 ==> state_after(init, evs).handle == init.handle,
        success_count(evs) > 0 ==> state_after(init, evs).handle
            == Some((init.next_gen + success_count(evs) - 1) as u64),
    decreases evs.len(),
{
    if evs.len() > 0 {
        lemma_rebuild_history(init, evs.drop_last());
    }
}

/// Once a handle exists it never becomes absent again: however later
/// rebuilds end, the coordinator stays ready.
pub proof fn lemma_ready_is_stable(s: Coordinator, evs: Seq<RebuildOutcome>)
    requires
        s.is_ready(),
    ensures
        state_after(s, evs).is_ready(),
    decreases evs.len(),
{
    if evs.len() > 0 {
        lemma_ready_is_stable(s, evs.drop_last());
    }
}

/// A rebuild that fails leaves the coordinator exactly as it was, so the
/// status snapshot and every read behave as before the attempt.
pub proof fn lemma_failed_rebuild_is_identity(s: Coordinator)
    ensures
        step(s, RebuildOutcome::Failed) == s,
{
}

/// A trace in which no rebuild succeeds leaves the state unchanged.
pub proof fn lemma_failed_trace_is_identity(init: Coordinator, evs: Seq<RebuildOutcome>)
    requires
        forall|k: int| 0 <= k < evs.len() ==> evs[k] is Failed,
    ensures
        state_after(init, evs) == init,
    decreases evs.len(),
{
    if evs.len() > 0 {
        lemma_failed_trace_is_identity(init, evs.drop_last());
    }
}

/// Reads issued while no rebuild completes are consistent: at any two
/// points of a trace of failed rebuilds, a read observes the same single
/// handle, never a partially swapped one.
pub proof fn lemma_reads_agree_without_rebuild(
    init: Coordinator,
    evs: Seq<RebuildOutcome>,
    i: int,
    j: int,
)
    requires
        forall|k: int| 0 <= k < evs.len() ==> evs[k] is Failed,
        0 <= i <= evs.len(),
        0 <= j <= evs.len(),
    ensures
        state_after(init, evs.take(i)).handle == state_after(init, evs.take(j)).handle,
{
    assert forall|k: int| 0 <= k < evs.take(i).len() implies evs.take(i)[k] is Failed by {
        assert(evs.take(i)[k] == evs[k]);
    }
    assert forall|k: int| 0 <= k < evs.take(j).len() implies evs.take(j)[k] is Failed by {
        assert(evs.take(j)[k] == evs[k]);
    }
    lemma_failed_trace_is_identity(init, evs.take(i));
    lemma_failed_trace_is_identity(init, evs.take(j));
}

/// Until some rebuild has succeeded, no handle exists: every read begun on
/// such a state is answered not-ready, and the engine is never consulted.
pub proof fn lemma_not_ready_until_first_success(init: Coordinator, evs: Seq<RebuildOutcome>)
    requires
        !init.is_ready(),
        forall|k: int| 0 <= k < evs.len() ==> evs[k] is Failed,
    ensures
        !state_after(init, evs).is_ready(),
{
    lemma_failed_trace_is_identity(init, evs);
}

/// A successful rebuild installs a handle that was never current before,
/// so a read begun strictly after the swap observes the new handle, while
/// one begun earlier observed the old, still-whole one.
pub proof fn lemma_success_installs_fresh_handle(s: Coordinator)
    requires
        s.wf(),
        s.next_gen < u64::MAX,
    ensures
        step(s, RebuildOutcome::Built).wf(),
        step(s, RebuildOutcome::Built).handle == Some(s.next_gen),
        step(s, RebuildOutcome::Built).handle != s.handle,
{
}

/// Two rebuilds racing to completion: whichever commits last wins, and
/// afterwards exactly one whole handle — the later one's — is current,
/// never a mixture of the two builds.
pub proof fn lemma_racing_rebuilds_last_writer_wins(s: Coordinator)
    requires
        s.wf(),
        s.next_gen + 2 <= u64::MAX,
    ensures
        step(step(s, RebuildOutcome::Built), RebuildOutcome::Built).wf(),
        step(step(s, RebuildOutcome::Built), RebuildOutcome::Built).handle
            == Some((s.next_gen + 1) as u64),
{
}

} // verus!
