//! The emitter's side of the pipeline: the queue every producer feeds, and
//! the rule by which the single consumer writes batches out or gives up.

use std::collections::VecDeque;
use vstd::prelude::*;
use crate::event::InputEvent;
use crate::fault::Fault;

verus! {

/// Batches waiting to be written to the output device, oldest first.
pub struct OutputQueue {
    batches: VecDeque<Vec<InputEvent>>,
}

impl View for OutputQueue {
    type V = Seq<Seq<InputEvent>>;

    closed spec fn view(&self) -> Seq<Seq<InputEvent>> {
        Seq::new(self.batches@.len(), |i: int| self.batches@[i]@)
    }
}

impl OutputQueue {
    /// An empty queue.
    pub fn new() -> (queue: OutputQueue)
        ensures
            queue@ == Seq::<Seq<InputEvent>>::empty(),
    {
        let queue = OutputQueue { batches: VecDeque::new() };
        assert(queue@ =~= Seq::<Seq<InputEvent>>::empty());
        queue
    }

    /// Number of batches waiting.
    pub fn len(&self) -> (n: usize)
        ensures
            n == self@.len(),
    {
        self.batches.len()
    }

    /// Appends a batch behind all that wait.
    pub fn push(&mut self, batch: Vec<InputEvent>)
        ensures
            final(self)@ == old(self)@.push(batch@),
    {
        self.batches.push_back(batch);
        assert(self@ =~= old(self)@.push(batch@));
    }

    /// Takes out the batch that has waited longest.
    pub fn pop(&mut self) -> (batch: Option<Vec<InputEvent>>)
        ensures
            match batch {
                Some(b) => old(self)@.len() > 0 && b@ == old(self)@[0]
                    && final(self)@ == old(self)@.drop_first(),
                None => old(self)@.len() == 0 && final(self)@ == old(self)@,
            },
    {
        let batch = self.batches.pop_front();
        assert(batch is Some ==> self@ =~= old(self)@.drop_first());
        batch
    }
}

/// What the emitter finds when it waits on its queue.
#[derive(Debug, PartialEq, Eq)]
pub enum Arrival {
    /// The next batch, in the order batches were enqueued.
    Batch(Vec<InputEvent>),
    /// Every producer is gone: nothing will ever arrive.
    Closed,
}

/// What the emitter does next.
#[derive(Debug, PartialEq, Eq)]
pub enum EmitterStep {
    /// Write this batch to the output device as one report.
    Write(Vec<InputEvent>),
    /// Stop for good and have the host shut down, for this reason.
    Halt(Fault),
}

/// The single writer of the output device. Once it has met a fault it halts
/// on every further step: there is no retry.
pub struct Emitter {
    fault: Option<Fault>,
}

impl View for Emitter {
    type V = Option<Fault>;

    closed spec fn view(&self) -> Option<Fault> {
        self.fault
    }
}

/// The step the emitter takes on an arrival, given the fault it may have met
/// before.
pub open spec fn spec_receive(fault: Option<Fault>, arrival: Arrival) -> Result<
    Seq<InputEvent>,
    Fault,
> {
    match fault {
        Some(met) => Err(met),
        None => match arrival {
            Arrival::Batch(batch) => Ok(batch@),
            Arrival::Closed => Err(Fault::ChannelClosed),
        },
    }
}

/// The fault the emitter holds after a write that went well or not.
pub open spec fn spec_written(fault: Option<Fault>, ok: bool) -> Option<Fault> {
    match fault {
        Some(met) => Some(met),
        None => if ok {
            None
        } else {
            Some(Fault::DeviceWriteFailure)
        },
    }
}

impl Emitter {
    /// An emitter that has met no fault.
    pub fn new() -> (emitter: Emitter)
        ensures
            emitter@ is None,
    {
        Emitter { fault: None }
    }

    /// The fault that halted the emitter, if it has halted.
    pub fn fault(&self) -> (fault: Option<Fault>)
        ensures
            fault == self@,
    {
        self.fault
    }

    /// Takes what arrived on the queue: a batch is written as it is, a closed
    /// queue halts the emitter.
    pub fn receive(&mut self, arrival: Arrival) -> (step: EmitterStep)
        ensures
            match spec_receive(old(self)@, arrival) {
                Ok(batch) => step matches EmitterStep::Write(b) && b@ == batch && final(self)@
                    == old(self)@,
                Err(fault) => step == EmitterStep::Halt(fault) && final(self)@ == Some(fault),
            },
    {
        match self.fault {
            Some(met) => EmitterStep::Halt(met),
            None => match arrival {
                Arrival::Batch(batch) => EmitterStep::Write(batch),
                Arrival::Closed => {
                    self.fault = Some(Fault::ChannelClosed);
                    EmitterStep::Halt(Fault::ChannelClosed)
                },
            },
        }
    }

    /// Takes the outcome of a write. A failed write halts the emitter.
    pub fn written(&mut self, ok: bool) -> (fault: Option<Fault>)
        ensures
            fault == spec_written(old(self)@, ok),
            final(self)@ == fault,
    {
        if self.fault.is_none() && !ok {
            self.fault = Some(Fault::DeviceWriteFailure);
        }
        self.fault
    }
}

/// Batches leave the queue in the order they entered it.
pub proof fn lemma_queue_is_fifo(queue: Seq<Seq<InputEvent>>, batch: Seq<InputEvent>)
    ensures
        queue.len() > 0 ==> queue.push(batch)[0] == queue[0] && queue.push(batch).drop_first()
            == queue.drop_first().push(batch),
        queue.len() == 0 ==> queue.push(batch)[0] == batch && queue.push(batch).drop_first()
            == queue,
{
    if queue.len() > 0 {
        assert(queue.push(batch).drop_first() =~= queue.drop_first().push(batch));
    } else {
        assert(queue.push(batch).drop_first() =~= queue);
    }
}

} // verus!
