//! The capability handle: all a module can do to the world outside it.

use core::ops::ControlFlow;
use vstd::prelude::*;
use vstd::slice::slice_to_vec;
use crate::emitter::OutputQueue;
use crate::event::InputEvent;
use crate::worker::{
    cancel_flag,
    spec_detach,
    spec_stop,
    TaskHandle,
    ThreadHandle,
    WorkerSet,
    WorkerState,
};

verus! {

/// The handle passed into every module call and into every worker. It is
/// cheap to copy and owns nothing.
#[derive(Clone, Copy, Debug, PartialEq, Eq, Structural)]
pub struct Incro {
    owning_worker: Option<usize>,
}

/// The queue after a batch of `events` was enqueued.
pub open spec fn spec_force_emit(queue: Seq<Seq<InputEvent>>, events: Seq<InputEvent>) -> Seq<
    Seq<InputEvent>,
> {
    queue.push(events)
}

impl Incro {
    /// The worker this handle was made for, if any.
    pub closed spec fn owner(self) -> Option<int> {
        match self.owning_worker {
            Some(worker) => Some(worker as int),
            None => None,
        }
    }

    /// True when cooperative emission through this handle is refused: the
    /// handle was made for a worker, and that worker's cancel flag is up.
    pub open spec fn must_stop(self, workers: Seq<WorkerState>) -> bool {
        match self.owner() {
            Some(worker) => 0 <= worker < workers.len() && cancel_flag(workers[worker]),
            None => false,
        }
    }

    /// The queue after a cooperative emission of `events` through this
    /// handle.
    pub open spec fn spec_emit(
        self,
        workers: Seq<WorkerState>,
        queue: Seq<Seq<InputEvent>>,
        events: Seq<InputEvent>,
    ) -> Seq<Seq<InputEvent>> {
        if self.must_stop(workers) {
            queue
        } else {
            spec_force_emit(queue, events)
        }
    }

    /// A handle that belongs to no worker, as a module gets it with each
    /// dispatched event.
    pub fn new() -> (incro: Incro)
        ensures
            incro.owner() is None,
    {
        Incro { owning_worker: None }
    }

    /// The number of the worker this handle was made for, if any.
    pub fn owning_worker(&self) -> (worker: Option<usize>)
        ensures
            match worker {
                Some(w) => self.owner() == Some(w as int),
                None => self.owner() is None,
            },
    {
        self.owning_worker
    }

    /// Emits `events` unless the worker of this handle is asked to stop. In
    /// that case nothing is enqueued and the answer is `Break`: the caller is
    /// to unwind.
    #[must_use]
    pub fn emit(&self, workers: &WorkerSet, events: &[InputEvent], queue: &mut OutputQueue) -> (flow:
        ControlFlow<()>)
        ensures
            final(queue)@ == self.spec_emit(workers@, old(queue)@, events@),
            self.must_stop(workers@) ==> flow == ControlFlow::<(), ()>::Break(()) && final(queue)@
                == old(queue)@,
            !self.must_stop(workers@) ==> flow == ControlFlow::<(), ()>::Continue(())
                && final(queue)@ == old(queue)@.push(events@),
    {
        match self.owning_worker {
            Some(worker) => {
                if workers.is_cancelled(worker) {
                    return ControlFlow::Break(());
                }
            },
            None => {},
        }
        self.force_emit(events, queue);
        ControlFlow::Continue(())
    }

    /// Emits `events` whatever the state of the worker of this handle.
    pub fn force_emit(&self, events: &[InputEvent], queue: &mut OutputQueue)
        ensures
            final(queue)@ == spec_force_emit(old(queue)@, events@),
    {
        queue.push(slice_to_vec(events));
    }

    /// Enters a new cooperative worker. The answer is the handle for the
    /// module that spawns it and the fresh capability handle for its body.
    pub fn thread(&self, workers: &mut WorkerSet) -> (spawned: (ThreadHandle, Incro))
        ensures
            final(workers)@ == old(workers)@.push(WorkerState::Attached),
            spawned.0.worker() == old(workers)@.len(),
            spawned.1.owner() == Some(old(workers)@.len() as int),
            !spawned.1.must_stop(final(workers)@),
    {
        let worker = workers.enroll();
        (ThreadHandle::attach(worker), Incro { owning_worker: Some(worker) })
    }

    /// Enters a new worker that the host can abort. The answer is the handle
    /// for the module that spawns it and the fresh capability handle for its
    /// body.
    pub fn spawn(&self, workers: &mut WorkerSet) -> (spawned: (TaskHandle, Incro))
        ensures
            final(workers)@ == old(workers)@.push(WorkerState::Attached),
            spawned.0.worker() == old(workers)@.len(),
            spawned.1.owner() == Some(old(workers)@.len() as int),
            !spawned.1.must_stop(final(workers)@),
    {
        let worker = workers.enroll();
        (TaskHandle::attach(worker), Incro { owning_worker: Some(worker) })
    }
}

/// Once the handle of a worker is dropped or stopped, every cooperative
/// emission through a capability handle made for that worker is refused:
/// nothing is enqueued.
pub proof fn lemma_stop_refuses_emit(
    workers: Seq<WorkerState>,
    incro: Incro,
    worker: int,
    queue: Seq<Seq<InputEvent>>,
    events: Seq<InputEvent>,
)
    requires
        0 <= worker < workers.len(),
        workers[worker] is Attached,
        incro.owner() == Some(worker),
    ensures
        incro.must_stop(spec_stop(workers, worker)),
        incro.spec_emit(spec_stop(workers, worker), queue, events) == queue,
{
}

/// Detaching a handle leaves the cancel flag of its worker down, and giving
/// the same handle up afterwards changes nothing: the worker's emissions go
/// on being enqueued.
pub proof fn lemma_detach_keeps_emitting(
    workers: Seq<WorkerState>,
    incro: Incro,
    worker: int,
    queue: Seq<Seq<InputEvent>>,
    events: Seq<InputEvent>,
)
    requires
        0 <= worker < workers.len(),
        workers[worker] is Attached,
        incro.owner() == Some(worker),
    ensures
        !incro.must_stop(spec_detach(workers, worker)),
        spec_stop(spec_detach(workers, worker), worker) == spec_detach(workers, worker),
        incro.spec_emit(spec_stop(spec_detach(workers, worker), worker), queue, events)
            == queue.push(events),
{
}

/// What is done with the handle of one worker does not reach another.
pub proof fn lemma_stop_is_local(workers: Seq<WorkerState>, worker: int, other: int)
    requires
        0 <= other < workers.len(),
        other != worker,
    ensures
        spec_stop(workers, worker)[other] == workers[other],
        spec_stop(workers, worker).len() == workers.len(),
{
}

} // verus!
