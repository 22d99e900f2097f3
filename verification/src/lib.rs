//! A fixed-size worker pool.
//!
//! A pool owns the producer end of one unbounded, closable, FIFO channel and a
//! fixed set of workers, each of which holds a clone of the consumer end and
//! runs a blocking receive-then-execute loop.  Submission is decoupled from
//! execution: `execute` enqueues a task and returns at once; teardown closes
//! the producer end first and only then hands the worker handles back for
//! joining, so every previously enqueued task is run before the pool is gone.
//!
//! The pool itself is generic: `T` is the unit of work carried through the
//! queue and `W` is whatever handle the spawner returns for one worker.  The
//! action a worker applies to each received task is passed to `worker_step`,
//! so the pool moves tasks without ever looking inside them.
//!
//! The `model` module states the pool's protocol over ghost state - what may
//! happen to the queue at each step - and proves the guarantees that hold of
//! any run: nothing is lost, nothing runs twice, dispatch is in enqueue order,
//! and a drained teardown has run everything exactly once.

pub mod channel;
pub mod model;
pub mod pool;

pub use pool::run_received;
pub use pool::worker_step;
pub use pool::ThreadPool;
