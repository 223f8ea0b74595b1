//! The per-device absorber: it batches the events of one device between
//! synchronization markers and withholds those a module consumed.
//!
//! The absorber never runs a module itself. For each event it hands out a
//! [`Dispatch`] round, the host calls the modules in the order the round
//! names them and records each verdict, and the outcome comes back through
//! [`Absorber::settle`].

use vstd::prelude::*;
use crate::event::InputEvent;

verus! {

/// The verdict on an event: absorbed as soon as one module consumed it.
pub open spec fn absorbed(verdicts: Seq<bool>) -> bool {
    verdicts.contains(true)
}

/// The module a round calls next, given the verdicts recorded so far: modules
/// are called by position in load order, each once.
pub open spec fn spec_next_module(modules: nat, verdicts: Seq<bool>) -> Option<nat> {
    if verdicts.len() < modules {
        Some(verdicts.len())
    } else {
        None
    }
}

/// The verdicts of a round after one more is recorded: it counts as that of
/// the module the round was to call next, if there was one.
pub open spec fn spec_record(modules: nat, verdicts: Seq<bool>, consumed: bool) -> Seq<bool> {
    if verdicts.len() < modules {
        verdicts.push(consumed)
    } else {
        verdicts
    }
}

/// The batch after one more event has been dispatched.
pub open spec fn spec_settle(batch: Seq<InputEvent>, event: InputEvent, consumed: bool) -> Seq<
    InputEvent,
> {
    if consumed {
        batch
    } else {
        batch.push(event)
    }
}

/// The batch that builds up from nothing while `events` are dispatched in
/// order and `consumed` holds the verdict on each.
pub open spec fn forwarded(events: Seq<InputEvent>, consumed: Seq<bool>) -> Seq<InputEvent>
    recommends
        events.len() == consumed.len(),
    decreases events.len(),
{
    if events.len() == 0 {
        Seq::empty()
    } else {
        spec_settle(
            forwarded(events.drop_last(), consumed.drop_last()),
            events.last(),
            consumed.last(),
        )
    }
}

/// The positions, in rising order, of the events no module consumed.
pub open spec fn kept_positions(consumed: Seq<bool>) -> Seq<int>
    decreases consumed.len(),
{
    if consumed.len() == 0 {
        Seq::empty()
    } else if consumed.last() {
        kept_positions(consumed.drop_last())
    } else {
        kept_positions(consumed.drop_last()).push(consumed.len() - 1)
    }
}

/// One round of dispatch: a single event offered to every loaded module.
pub struct Dispatch {
    modules: usize,
    next: usize,
    absorbed: bool,
    verdicts: Ghost<Seq<bool>>,
}

impl Dispatch {
    #[verifier::type_invariant]
    spec fn consistent(self) -> bool {
        &&& self.next <= self.modules
        &&& self.verdicts@.len() == self.next
        &&& self.absorbed == absorbed(self.verdicts@)
    }

    /// Number of modules the round runs over.
    pub closed spec fn modules(self) -> nat {
        self.modules as nat
    }

    /// The verdicts recorded so far, in the order the modules were called.
    pub closed spec fn verdicts(self) -> Seq<bool> {
        self.verdicts@
    }

    /// Opens a round over `modules` loaded modules.
    pub fn begin(modules: usize) -> (round: Dispatch)
        ensures
            round.modules() == modules,
            round.verdicts() == Seq::<bool>::empty(),
    {
        Dispatch { modules, next: 0, absorbed: false, verdicts: Ghost(Seq::empty()) }
    }

    /// The position in load order of the module to call next, or `None` once
    /// every module has been called.
    pub fn next_module(&self) -> (next: Option<usize>)
        ensures
            self.verdicts().len() <= self.modules(),
            match next {
                Some(i) => spec_next_module(self.modules(), self.verdicts()) == Some(i as nat),
                None => spec_next_module(self.modules(), self.verdicts()) is None,
            },
    {
        proof {
            use_type_invariant(self);
        }
        if self.next < self.modules {
            Some(self.next)
        } else {
            None
        }
    }

    /// Records what the module named by [`Dispatch::next_module`] returned.
    /// Once every module has been called there is no verdict left to take,
    /// and the round stays as it is.
    pub fn record(&mut self, consumed: bool)
        ensures
            final(self).modules() == old(self).modules(),
            final(self).verdicts() == spec_record(
                old(self).modules(),
                old(self).verdicts(),
                consumed,
            ),
    {
        proof {
            use_type_invariant(&*self);
        }
        if self.next < self.modules {
            let ghost before = self.verdicts@;
            proof {
                lemma_absorbed_push(before, consumed);
            }
            let round = Dispatch {
                modules: self.modules,
                next: self.next + 1,
                absorbed: self.absorbed || consumed,
                verdicts: Ghost(before.push(consumed)),
            };
            *self = round;
        }
    }

    /// Tells whether a module called so far consumed the event.
    pub fn is_absorbed(&self) -> (r: bool)
        ensures
            r == absorbed(self.verdicts()),
    {
        proof {
            use_type_invariant(self);
        }
        self.absorbed
    }
}

/// Collects the events of one device that are to be forwarded.
pub struct Absorber {
    batch: Vec<InputEvent>,
}

/// What the host does with an event it read from the device.
#[derive(Debug, PartialEq, Eq)]
pub enum Step {
    /// The event closed a batch: send this batch downstream, even if empty.
    Flush(Vec<InputEvent>),
    /// Offer this event to the modules.
    Dispatch(InputEvent),
}

impl View for Absorber {
    type V = Seq<InputEvent>;

    closed spec fn view(&self) -> Seq<InputEvent> {
        self.batch@
    }
}

impl Absorber {
    /// An absorber with an empty batch.
    pub fn new() -> (absorber: Absorber)
        ensures
            absorber@ == Seq::<InputEvent>::empty(),
    {
        Absorber { batch: Vec::new() }
    }

    /// Number of events waiting in the current batch.
    pub fn pending(&self) -> (n: usize)
        ensures
            n == self@.len(),
    {
        self.batch.len()
    }

    /// Takes the next event of the device. A synchronization marker closes
    /// the batch, which leaves the absorber and is never part of it; every
    /// other event is to be dispatched.
    pub fn receive(&mut self, event: InputEvent) -> (step: Step)
        ensures
            event.is_sync_report() ==> (step matches Step::Flush(batch) && batch@ == old(self)@)
                && final(self)@ == Seq::<InputEvent>::empty(),
            !event.is_sync_report() ==> step == Step::Dispatch(event)
                && final(self)@ == old(self)@,
    {
        if event.is_sync_report() {
            let mut batch: Vec<InputEvent> = Vec::new();
            core::mem::swap(&mut self.batch, &mut batch);
            Step::Flush(batch)
        } else {
            Step::Dispatch(event)
        }
    }

    /// Closes the dispatch of `event`: it joins the batch unless a module
    /// consumed it.
    pub fn settle(&mut self, event: InputEvent, consumed: bool)
        ensures
            final(self)@ == spec_settle(old(self)@, event, consumed),
    {
        if !consumed {
            self.batch.push(event);
        }
    }
}

/// One more verdict makes an event absorbed if it already was or if the
/// verdict is "consumed".
pub proof fn lemma_absorbed_push(verdicts: Seq<bool>, consumed: bool)
    ensures
        absorbed(verdicts.push(consumed)) == (absorbed(verdicts) || consumed),
{
    let grown = verdicts.push(consumed);
    if absorbed(verdicts) {
        let i = choose|i: int| 0 <= i < verdicts.len() && verdicts[i] == true;
        assert(grown[i] == true);
    }
    if consumed {
        assert(grown[verdicts.len() as int] == true);
    }
    if absorbed(grown) {
        let i = choose|i: int| 0 <= i < grown.len() && grown[i] == true;
        if i < verdicts.len() {
            assert(verdicts[i] == true);
        }
    }
}

/// A single "consumed" decides, whatever the modules before and after it
/// said.
pub proof fn lemma_one_consumer_absorbs(verdicts: Seq<bool>, i: int)
    requires
        0 <= i < verdicts.len(),
        verdicts[i],
    ensures
        absorbed(verdicts),
{
}

/// The verdict on each event of a batch, given what each module said of it.
pub open spec fn verdicts_on(rounds: Seq<Seq<bool>>) -> Seq<bool> {
    Seq::new(rounds.len(), |i: int| absorbed(rounds[i]))
}

/// An event that some module consumed is not forwarded, whatever the other
/// modules said of it: its position is not among those kept.
pub proof fn lemma_consumed_event_is_dropped(rounds: Seq<Seq<bool>>, event: int, module: int)
    requires
        0 <= event < rounds.len(),
        0 <= module < rounds[event].len(),
        rounds[event][module],
    ensures
        verdicts_on(rounds)[event],
        !kept_positions(verdicts_on(rounds)).contains(event),
{
    let consumed = verdicts_on(rounds);
    lemma_one_consumer_absorbs(rounds[event], module);
    lemma_kept_positions(consumed);
    let kept = kept_positions(consumed);
    if kept.contains(event) {
        let k = choose|k: int| 0 <= k < kept.len() && kept[k] == event;
        assert(!consumed[kept[k]]);
    }
}

/// Modules are called in load order: after `k` verdicts the round calls the
/// module at position `k`, whatever those verdicts were, and it stops when
/// each module has been called once. Nothing else enters into it: a round
/// shares no state with the rounds other devices run at the same time.
pub proof fn lemma_dispatch_in_load_order(modules: nat, verdicts: Seq<bool>)
    ensures
        verdicts.len() < modules ==> spec_next_module(modules, verdicts) == Some(verdicts.len()),
        verdicts.len() >= modules ==> spec_next_module(modules, verdicts) is None,
{
}

/// The kept positions are positions of unconsumed events, in strictly rising
/// order, and no unconsumed event is missing from them.
pub proof fn lemma_kept_positions(consumed: Seq<bool>)
    ensures
        ({
            let kept = kept_positions(consumed);
            &&& forall|k: int|
                0 <= k < kept.len() ==> 0 <= #[trigger] kept[k] < consumed.len()
                    && !consumed[kept[k]]
            &&& forall|k: int, l: int|
                0 <= k < l < kept.len() ==> #[trigger] kept[k] < #[trigger] kept[l]
            &&& forall|i: int|
                0 <= i < consumed.len() && !#[trigger] consumed[i] ==> kept.contains(i)
        }),
    decreases consumed.len(),
{
    if consumed.len() > 0 {
        let shorter = consumed.drop_last();
        lemma_kept_positions(shorter);
        let kept = kept_positions(consumed);
        let before = kept_positions(shorter);
        assert forall|i: int|
            0 <= i < consumed.len() && !#[trigger] consumed[i] implies kept.contains(i) by {
            if i < shorter.len() {
                assert(!shorter[i]);
                let k = choose|k: int| 0 <= k < before.len() && before[k] == i;
                assert(kept[k] == i);
            } else {
                assert(kept[kept.len() - 1] == i);
            }
        }
    }
}

/// The forwarded batch is exactly the events at the kept positions, in that
/// order. With [`lemma_kept_positions`]: it is a sub-sequence of the device's
/// events, and an event a module consumed is not in it.
pub proof fn lemma_forwarded_is_kept(events: Seq<InputEvent>, consumed: Seq<bool>)
    requires
        events.len() == consumed.len(),
    ensures
        ({
            let batch = forwarded(events, consumed);
            let kept = kept_positions(consumed);
            &&& batch.len() == kept.len()
            &&& forall|k: int| 0 <= k < kept.len() ==> #[trigger] batch[k] == events[kept[k]]
        }),
    decreases events.len(),
{
    if events.len() > 0 {
        lemma_forwarded_is_kept(events.drop_last(), consumed.drop_last());
        lemma_kept_positions(consumed.drop_last());
    }
}

/// An event value that was consumed wherever it occurred is absent from the
/// forwarded batch.
pub proof fn lemma_consumed_is_withheld(
    events: Seq<InputEvent>,
    consumed: Seq<bool>,
    event: InputEvent,
)
    requires
        events.len() == consumed.len(),
        forall|i: int| 0 <= i < events.len() && events[i] == event ==> consumed[i],
    ensures
        !forwarded(events, consumed).contains(event),
{
    lemma_forwarded_is_kept(events, consumed);
    lemma_kept_positions(consumed);
    let batch = forwarded(events, consumed);
    if batch.contains(event) {
        let k = choose|k: int| 0 <= k < batch.len() && batch[k] == event;
        let i = kept_positions(consumed)[k];
        assert(events[i] == event);
        assert(!consumed[i]);
    }
}

/// Where no module consumes anything, the forwarded batch is the device's
/// events, unchanged and in order.
pub proof fn lemma_nothing_consumed_forwards_all(events: Seq<InputEvent>, consumed: Seq<bool>)
    requires
        events.len() == consumed.len(),
        forall|i: int| 0 <= i < consumed.len() ==> !consumed[i],
    ensures
        forwarded(events, consumed) == events,
    decreases events.len(),
{
    if events.len() > 0 {
        lemma_nothing_consumed_forwards_all(events.drop_last(), consumed.drop_last());
        assert(events.drop_last().push(events.last()) =~= events);
    }
}

} // verus!
