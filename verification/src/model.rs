//! The pool's protocol, over ghost state.
//!
//! The queue is shared between threads, so no contract on a single call can
//! say what it holds; what can be said is how the system as a whole is
//! allowed to evolve.  `PoolState` is the ghost state of one pool, and
//! `step` the transitions: a submission appends to the queue, a dequeue
//! moves the queue's head to some worker, a completion finishes a task some
//! worker had started, and closing ends submission.  The theorems at the
//! bottom state the pool's guarantees of every run: dispatch is in enqueue
//! order, no task is dispatched or completed twice, and a run that ends
//! closed, drained and with no task still in flight has completed exactly
//! the tasks submitted.

use vstd::prelude::*;
use vstd::multiset::Multiset;

verus! {

/// Ghost state of one pool.  Tasks are identified by `int` labels; the
/// labels are arbitrary, and a caller who never submits the same label twice
/// gets the per-task exactly-once guarantees below.
pub struct PoolState {
    /// The producer handle has not been dropped yet: `execute` still works.
    pub accepting: bool,
    /// Every task ever submitted, in enqueue order.  Enqueue order is total
    /// even with many concurrent submitters: each send is atomic.
    pub submitted: Seq<int>,
    /// Tasks still waiting in the queue, oldest first.
    pub pending: Seq<int>,
    /// Tasks handed to some worker, in dequeue order.
    pub started: Seq<int>,
    /// Tasks that have run to completion.  A multiset: workers finish
    /// independently, so completion order is not part of the protocol.
    pub completed: Multiset<int>,
}

/// A pool starts accepting, with nothing submitted, queued, started or done.
pub open spec fn init(s: PoolState) -> bool {
    &&& s.accepting
    &&& s.submitted == Seq::<int>::empty()
    &&& s.pending == Seq::<int>::empty()
    &&& s.started == Seq::<int>::empty()
    &&& s.completed == Multiset::<int>::empty()
}

/// `execute(id)` succeeded: the task is appended to the queue's tail.
pub open spec fn submit_step(pre: PoolState, post: PoolState, id: int) -> bool {
    &&& pre.accepting
    &&& post == (PoolState {
        submitted: pre.submitted.push(id),
        pending: pre.pending.push(id),
        ..pre
    })
}

/// Some worker's receive returned: it took the head of the queue, and the
/// task counts as started on that worker.
pub open spec fn dequeue_step(pre: PoolState, post: PoolState) -> bool {
    &&& pre.pending.len() > 0
    &&& post == (PoolState {
        pending: pre.pending.drop_first(),
        started: pre.started.push(pre.pending.first()),
        ..pre
    })
}

/// A worker finished running a task it had started: `id` must have more
/// starts than completions, that is, a run of it is still in flight.
pub open spec fn complete_step(pre: PoolState, post: PoolState, id: int) -> bool {
    &&& pre.completed.count(id) < pre.started.to_multiset().count(id)
    &&& post == (PoolState { completed: pre.completed.insert(id), ..pre })
}

/// Teardown began: the sole producer handle was dropped.  Irreversible, and
/// the only thing it changes is that submission now fails.
pub open spec fn close_step(pre: PoolState, post: PoolState) -> bool {
    &&& pre.accepting
    &&& post == (PoolState { accepting: false, ..pre })
}

/// The four things that may happen to a pool.
pub enum PoolStep {
    Submit(int),
    Dequeue,
    Complete(int),
    Close,
}

pub open spec fn step(pre: PoolState, post: PoolState, s: PoolStep) -> bool {
    match s {
        PoolStep::Submit(id) => submit_step(pre, post, id),
        PoolStep::Dequeue => dequeue_step(pre, post),
        PoolStep::Complete(id) => complete_step(pre, post, id),
        PoolStep::Close => close_step(pre, post),
    }
}

pub open spec fn next(pre: PoolState, post: PoolState) -> bool {
    exists|s: PoolStep| #[trigger] step(pre, post, s)
}

/// A run of the pool: a nonempty sequence of states, starting at the initial
/// one, each following from the one before by one step.
pub open spec fn valid_run(states: Seq<PoolState>) -> bool {
    &&& states.len() > 0
    &&& init(states.first())
    &&& forall|i: int| 0 <= i < states.len() - 1 ==> next(#[trigger] states[i], states[i + 1])
}

/// What holds of every reachable state: the tasks handed to workers,
/// followed by the tasks still queued, are exactly the tasks submitted, in
/// enqueue order - so dispatch is FIFO, nothing is lost and nothing is
/// dispatched twice - and no task completes more often than it started.
pub open spec fn inv(s: PoolState) -> bool {
    &&& s.submitted == s.started + s.pending
    &&& forall|id: int| #[trigger] s.completed.count(id) <= s.started.to_multiset().count(id)
}

/// A drained teardown: submission is closed, the queue is empty, and every
/// started task has completed (no worker still holds one).
pub open spec fn drained(s: PoolState) -> bool {
    &&& !s.accepting
    &&& s.pending.len() == 0
    &&& s.completed == s.started.to_multiset()
}

pub proof fn lemma_init_inv(s: PoolState)
    requires
        init(s),
    ensures
        inv(s),
{
    broadcast use vstd::multiset::group_multiset_axioms;
    broadcast use vstd::seq_lib::group_to_multiset_ensures;

    assert(s.started + s.pending =~= s.submitted);
    assert(s.started.to_multiset() =~= Multiset::<int>::empty());
}

/// Each step of the protocol preserves the invariant.
pub proof fn lemma_step_preserves_inv(pre: PoolState, post: PoolState, s: PoolStep)
    requires
        inv(pre),
        step(pre, post, s),
    ensures
        inv(post),
{
    broadcast use vstd::multiset::group_multiset_axioms;
    broadcast use vstd::seq_lib::group_to_multiset_ensures;

    match s {
        PoolStep::Submit(id) => {
            assert(post.started + post.pending =~= post.submitted);
        },
        PoolStep::Dequeue => {
            assert(post.started + post.pending =~= post.submitted);
            assert(pre.started.push(pre.pending.first()).to_multiset() =~= pre.started.to_multiset().insert(pre.pending.first()));
        },
        PoolStep::Complete(id) => {},
        PoolStep::Close => {},
    }
}

/// The invariant holds of every state of every run.
pub proof fn lemma_run_inv(states: Seq<PoolState>, i: int)
    requires
        valid_run(states),
        0 <= i < states.len(),
    ensures
        inv(states[i]),
    decreases i,
{
    if i == 0 {
        lemma_init_inv(states[0]);
    } else {
        lemma_run_inv(states, i - 1);
        let s = choose|s: PoolStep| #[trigger] step(states[i - 1], states[i], s);
        lemma_step_preserves_inv(states[i - 1], states[i], s);
    }
}

/// No double dispatch: in any reachable state, a task label submitted once
/// has been handed to a worker at most once, and completed at most once.
pub proof fn theorem_no_double_dispatch(states: Seq<PoolState>, i: int, id: int)
    requires
        valid_run(states),
        0 <= i < states.len(),
        states[i].submitted.no_duplicates(),
    ensures
        states[i].started.to_multiset().count(id) <= 1,
        states[i].completed.count(id) <= 1,
{
    broadcast use vstd::multiset::group_multiset_axioms;
    broadcast use vstd::seq_lib::group_to_multiset_ensures;

    lemma_run_inv(states, i);
    let s = states[i];
    vstd::seq_lib::lemma_multiset_commutative(s.started, s.pending);
    assert(s.submitted.to_multiset() == s.started.to_multiset().add(s.pending.to_multiset()));
    s.submitted.lemma_multiset_has_no_duplicates();
    if s.submitted.to_multiset().count(id) > 0 {
        assert(s.submitted.to_multiset().contains(id));
    }
}

/// Dispatch is FIFO: in every reachable state, the tasks handed to workers
/// so far are exactly the first submitted ones, in submission order - none
/// skipped, none reordered; and once the queue has been drained they are all
/// of the submitted ones.  In particular, a one-worker pool - which runs
/// each task to completion before receiving the next - executes tasks
/// exactly in submission order.
pub proof fn theorem_fifo_dispatch(states: Seq<PoolState>, i: int)
    requires
        valid_run(states),
        0 <= i < states.len(),
    ensures
        states[i].started == states[i].submitted.take(states[i].started.len() as int),
        states[i].pending.len() == 0 ==> states[i].started == states[i].submitted,
{
    lemma_run_inv(states, i);
    let s = states[i];
    assert(s.started =~= s.submitted.take(s.started.len() as int));
    if s.pending.len() == 0 {
        assert(s.started + s.pending =~= s.started);
    }
}

/// Nothing runs that was never submitted: in every reachable state, no task
/// label has completed more often than it was submitted.
pub proof fn theorem_no_invented_tasks(states: Seq<PoolState>, i: int, id: int)
    requires
        valid_run(states),
        0 <= i < states.len(),
    ensures
        states[i].completed.count(id) <= states[i].submitted.to_multiset().count(id),
{
    broadcast use vstd::multiset::group_multiset_axioms;

    lemma_run_inv(states, i);
    let s = states[i];
    vstd::seq_lib::lemma_multiset_commutative(s.started, s.pending);
    assert(s.submitted.to_multiset() == s.started.to_multiset().add(s.pending.to_multiset()));
}

/// Completeness, and drain-on-teardown: a run that ends closed, with the
/// queue empty and no task still in flight, has completed exactly the
/// submitted tasks - each submitted label as many times as it was submitted,
/// so for distinct labels each task ran exactly once, and nothing ran that
/// was never submitted.
pub proof fn theorem_drained_completeness(states: Seq<PoolState>)
    requires
        valid_run(states),
        drained(states.last()),
    ensures
        states.last().completed == states.last().submitted.to_multiset(),
{
    lemma_run_inv(states, states.len() - 1);
    let s = states.last();
    assert(s.started + s.pending =~= s.started);
    assert(s.started == s.submitted);
}

} // verus!
