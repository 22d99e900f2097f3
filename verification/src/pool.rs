//! The pool: construction, submission, two-phase teardown, and one round of
//! a worker's receive-then-execute loop.
//!
//! `T` is the unit of work carried through the queue; `W` is the handle the
//! caller's spawner returns for one worker (typically a join handle).  The
//! pool never looks inside a task: a worker applies the action given to
//! `worker_step` to each task it receives, in the order the queue hands them
//! out.

use vstd::prelude::*;

use crate::channel::clone_receiver;
use crate::channel::close_sender;
use crate::channel::new_channel;
use crate::channel::recv_item;
use crate::channel::send_item;

verus! {

/// A fixed-size worker pool: the sole producer handle of one shared queue,
/// plus one handle per worker.  The worker set is fixed at construction; the
/// handles can only be recovered through `shutdown`, which closes the queue
/// first, so a caller can never join the workers while submission is still
/// open.
#[verifier::reject_recursive_types(T)]
pub struct ThreadPool<T, W> {
    sender: crossbeam_channel::Sender<T>,
    workers: Vec<W>,
    consumer: Ghost<crossbeam_channel::Receiver<T>>,
}

impl<T, W> ThreadPool<T, W> {
    /// The handles of the pool's workers, in ordinal order.
    pub closed spec fn worker_handles(self) -> Seq<W> {
        self.workers@
    }

    /// How many workers the pool was built with.
    pub open spec fn worker_count(self) -> nat {
        self.worker_handles().len()
    }

    /// The consumer end of the pool's own queue: the one handle, kept as a
    /// ghost copy, of which every worker was given a clone.
    pub closed spec fn consumer_handle(self) -> crossbeam_channel::Receiver<T> {
        self.consumer@
    }

    /// Create a pool with `thread_num` workers.
    ///
    /// Builds the shared queue, then calls `spawn` exactly once per worker,
    /// with the worker's ordinal (`0` up to `thread_num - 1`, in order) and
    /// that worker's own clone of the consumer end of that queue; the pool
    /// keeps the sole producer handle.  `spawn` is expected to start the
    /// worker - typically a thread repeating `worker_step` on the given
    /// consumer end until it reports closure - and return its handle.  The
    /// second ensures says the wiring: the handle at each ordinal is an
    /// output of `spawn` for that ordinal and the pool's own consumer
    /// handle, so no worker can be attached to some other queue.
    pub fn new<S: Fn(usize, crossbeam_channel::Receiver<T>) -> W>(
        thread_num: usize,
        spawn: S,
    ) -> (pool: ThreadPool<T, W>)
        requires
            1 <= thread_num,
            forall|id: usize, receiver: crossbeam_channel::Receiver<T>|
                id < thread_num ==> #[trigger] call_requires(spawn, (id, receiver)),
        ensures
            pool.worker_count() == thread_num,
            forall|i: usize|
                i < thread_num ==> #[trigger] call_ensures(
                    spawn,
                    (i, pool.consumer_handle()),
                    pool.worker_handles()[i as int],
                ),
    {
        let (sender, receiver) = new_channel::<T>();
        let mut workers: Vec<W> = Vec::new();
        let mut id: usize = 0;
        while id < thread_num
            invariant
                workers@.len() == id,
                id <= thread_num,
                forall|i: usize, r: crossbeam_channel::Receiver<T>|
                    i < thread_num ==> #[trigger] call_requires(spawn, (i, r)),
                forall|j: usize|
                    j < id ==> #[trigger] call_ensures(spawn, (j, receiver), workers@[j as int]),
            decreases thread_num - id,
        {
            let worker_receiver = clone_receiver(&receiver);
            let worker = spawn(id, worker_receiver);
            workers.push(worker);
            id = id + 1;
        }
        let ghost handles = workers@;
        let pool = ThreadPool { sender, workers, consumer: Ghost(receiver) };
        proof {
            assert forall|i: usize|
                i < thread_num implies #[trigger] call_ensures(
                spawn,
                (i, pool.consumer_handle()),
                pool.worker_handles()[i as int],
            ) by {
                assert(call_ensures(spawn, (i, receiver), handles[i as int]));
                assert(pool.worker_handles() == handles);
                assert(pool.consumer_handle() == receiver);
            }
        }
        pool
    }

    /// Submit one task: append it to the tail of the shared queue and return
    /// at once, without waiting for any worker to run it.
    ///
    /// Fails only if the queue is permanently closed - every worker's
    /// consumer handle already dropped - which cannot happen under correct
    /// use before teardown; the rejected task is handed back unchanged, so
    /// nothing is silently dropped.  A successful call is one
    /// `crate::model::submit_step` of the pool's protocol.
    pub fn execute(&self, task: T) -> (r: Result<(), T>)
        ensures
            r is Err ==> r->Err_0 == task,
    {
        send_item(&self.sender, task)
    }

    /// Tear the pool down, in the one order that cannot deadlock: first close
    /// the submission side by dropping the sole producer handle, then hand
    /// the worker handles back for joining.
    ///
    /// Once the producer handle is gone, each worker drains what is left of
    /// the queue and then observes closure and stops; joining the returned
    /// handles therefore blocks exactly until every previously submitted
    /// task has run.  The handles are reachable in no other way, so closing
    /// always precedes joining.  The close is the `crate::model::close_step`
    /// of the pool's protocol, after which only dequeues and completions
    /// remain possible.
    pub fn shutdown(self) -> (handles: Vec<W>)
        ensures
            handles@ == self.worker_handles(),
    {
        let ThreadPool { sender, workers, consumer: _ } = self;
        close_sender(sender);
        workers
    }
}

/// One round of a worker's receive-then-execute loop.
///
/// Blocks on the consumer end until the queue hands out its head task;
/// applies `run` to it, synchronously, to completion, and returns `true`:
/// the worker has more to do.  Returns `false` only once the queue reports
/// itself closed and fully drained, upon which the worker must stop.  The
/// worker's thread repeats this round until it returns `false`; the
/// repetition itself has no bound - the pool runs as long as tasks keep
/// coming - so the driver loop stays outside the verified core.  A fault
/// inside `run` is not caught here: it tears down exactly this worker's
/// thread, and the pool runs on with one worker fewer.  A round that
/// received a task is one `crate::model::dequeue_step` followed, once `run`
/// returns, by one `crate::model::complete_step` of the pool's protocol.
pub fn worker_step<T, R: Fn(T)>(receiver: &crossbeam_channel::Receiver<T>, run: &R) -> (more: bool)
    requires
        forall|task: T| #[trigger] call_requires(*run, (task,)),
    ensures
        more ==> exists|task: T| #[trigger] call_ensures(*run, (task,), ()),
{
    run_received(recv_item(receiver), run)
}

/// The decision half of one worker round, verified for every value the
/// queue's receive can hand back: a task means run it, synchronously, to
/// completion, and report more work; no task means the queue is closed and
/// drained, and the worker must stop.
pub fn run_received<T, R: Fn(T)>(received: Option<T>, run: &R) -> (more: bool)
    requires
        forall|task: T| #[trigger] call_requires(*run, (task,)),
    ensures
        more == received is Some,
        received is Some ==> call_ensures(*run, (received->0,), ()),
{
    match received {
        Option::Some(task) => {
            run(task);
            true
        },
        Option::None => false,
    }
}

} // verus!
