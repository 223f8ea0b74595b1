//! Background workers and their handles.
//!
//! A worker is known to the host by its number in a [`WorkerSet`], which
//! holds what the handle of each worker has come to. The handle itself is
//! held by the module that spawned the worker. Giving it up through
//! [`ThreadHandle::stop`] raises the worker's cancel flag, which the worker
//! meets at its next cooperative emission; [`ThreadHandle::detach`] gives it
//! up without that.

use vstd::prelude::*;

verus! {

/// What has become of the handle of a worker.
#[derive(Clone, Copy, Debug, PartialEq, Eq, Structural)]
pub enum WorkerState {
    /// The module still holds the handle.
    Attached,
    /// The handle was detached: the worker runs until it ends by itself.
    Detached,
    /// The handle was given up: the worker is asked to stop.
    Cancelled,
    /// The worker was aborted: it is asked to stop, and the host ends it
    /// without waiting for it to notice.
    Aborted,
}

/// The cancel flag of a worker in the given state.
pub open spec fn cancel_flag(state: WorkerState) -> bool {
    state is Cancelled || state is Aborted
}

/// The workers after the handle of `worker` went the way that leads to
/// `state`. Only a handle that is still attached can go anywhere.
pub open spec fn spec_release(workers: Seq<WorkerState>, worker: int, state: WorkerState) -> Seq<
    WorkerState,
> {
    if 0 <= worker < workers.len() && workers[worker] is Attached {
        workers.update(worker, state)
    } else {
        workers
    }
}

/// The workers after the handle of `worker` was dropped or stopped.
pub open spec fn spec_stop(workers: Seq<WorkerState>, worker: int) -> Seq<WorkerState> {
    spec_release(workers, worker, WorkerState::Cancelled)
}

/// The workers after the handle of `worker` was detached.
pub open spec fn spec_detach(workers: Seq<WorkerState>, worker: int) -> Seq<WorkerState> {
    spec_release(workers, worker, WorkerState::Detached)
}

/// The workers after `worker` was aborted.
pub open spec fn spec_abort(workers: Seq<WorkerState>, worker: int) -> Seq<WorkerState> {
    spec_release(workers, worker, WorkerState::Aborted)
}

/// The workers the host has spawned, by number.
pub struct WorkerSet {
    states: Vec<WorkerState>,
}

impl View for WorkerSet {
    type V = Seq<WorkerState>;

    closed spec fn view(&self) -> Seq<WorkerState> {
        self.states@
    }
}

impl WorkerSet {
    /// A set without workers.
    pub fn new() -> (workers: WorkerSet)
        ensures
            workers@ == Seq::<WorkerState>::empty(),
    {
        WorkerSet { states: Vec::new() }
    }

    /// Number of workers spawned so far.
    pub fn len(&self) -> (n: usize)
        ensures
            n == self@.len(),
    {
        self.states.len()
    }

    /// The state of `worker`, if there is such a worker.
    pub fn state(&self, worker: usize) -> (state: Option<WorkerState>)
        ensures
            state == if worker < self@.len() {
                Some(self@[worker as int])
            } else {
                None
            },
    {
        if worker < self.states.len() {
            Some(self.states[worker])
        } else {
            None
        }
    }

    /// Tells whether the cancel flag of `worker` is raised.
    pub fn is_cancelled(&self, worker: usize) -> (raised: bool)
        ensures
            raised == (worker < self@.len() && cancel_flag(self@[worker as int])),
    {
        if worker < self.states.len() {
            match self.states[worker] {
                WorkerState::Cancelled => true,
                WorkerState::Aborted => true,
                _ => false,
            }
        } else {
            false
        }
    }

    /// Enters a new worker, with its handle attached and its flag down, and
    /// gives its number.
    pub(crate) fn enroll(&mut self) -> (worker: usize)
        ensures
            worker == old(self)@.len(),
            final(self)@ == old(self)@.push(WorkerState::Attached),
    {
        let worker = self.states.len();
        self.states.push(WorkerState::Attached);
        worker
    }

    fn release(&mut self, worker: usize, state: WorkerState)
        ensures
            final(self)@ == spec_release(old(self)@, worker as int, state),
    {
        if worker < self.states.len() {
            match self.states[worker] {
                WorkerState::Attached => {
                    self.states.set(worker, state);
                },
                _ => {},
            }
        }
    }
}

/// Handle of a worker that stops by cooperation.
#[derive(Debug)]
pub struct ThreadHandle {
    worker: usize,
}

impl ThreadHandle {
    /// Number of the worker this handle belongs to.
    pub closed spec fn worker(self) -> int {
        self.worker as int
    }

    pub(crate) fn attach(worker: usize) -> (handle: ThreadHandle)
        ensures
            handle.worker() == worker,
    {
        ThreadHandle { worker }
    }

    /// The number of the worker this handle belongs to.
    pub fn id(&self) -> (worker: usize)
        ensures
            worker == self.worker(),
    {
        self.worker
    }

    /// Gives the handle up without asking the worker to stop. The cancel flag
    /// stays down, now and whatever is done with the handle's number later.
    pub fn detach(self, workers: &mut WorkerSet)
        ensures
            final(workers)@ == spec_detach(old(workers)@, self.worker()),
    {
        workers.release(self.worker, WorkerState::Detached);
    }

    /// Gives the handle up and raises the cancel flag of its worker. This is
    /// what dropping the handle comes to.
    pub fn stop(self, workers: &mut WorkerSet)
        ensures
            final(workers)@ == spec_stop(old(workers)@, self.worker()),
    {
        workers.release(self.worker, WorkerState::Cancelled);
    }
}

/// Handle of a worker the host can end at once.
#[derive(Debug)]
pub struct TaskHandle {
    worker: usize,
}

impl TaskHandle {
    /// Number of the worker this handle belongs to.
    pub closed spec fn worker(self) -> int {
        self.worker as int
    }

    pub(crate) fn attach(worker: usize) -> (handle: TaskHandle)
        ensures
            handle.worker() == worker,
    {
        TaskHandle { worker }
    }

    /// The number of the worker this handle belongs to.
    pub fn id(&self) -> (worker: usize)
        ensures
            worker == self.worker(),
    {
        self.worker
    }

    /// Gives the handle up and marks its worker as aborted. This is also
    /// what dropping the handle comes to.
    pub fn abort(self, workers: &mut WorkerSet)
        ensures
            final(workers)@ == spec_abort(old(workers)@, self.worker()),
    {
        workers.release(self.worker, WorkerState::Aborted);
    }
}

} // verus!
