//! Event handlers and what it means to deliver a run of events to one.

use vstd::prelude::*;

verus! {

/// Something that reacts to window events, one at a time.
///
/// A handler may say in `handles` what a single event does to it; one that
/// says nothing may end up in any state. The display promises nothing about
/// a handler beyond the order in which it hands the events over; what a
/// handler makes of them is its own affair.
pub trait EventHandler<E>: Sized {
    /// Whether handling `event` may take the handler from `self` to `next`.
    open spec fn handles(&self, event: E, next: &Self) -> bool {
        true
    }

    /// Reacts to one event.
    fn handle(&mut self, event: E)
        ensures
            old(self).handles(event, final(self)),
    ;
}

/// Whether handing `events` to the handler `before`, each exactly once and
/// from the first to the last, may leave the handler as `after`.
pub open spec fn delivers<E, H: EventHandler<E>>(before: H, events: Seq<E>, after: H) -> bool
    decreases events.len(),
{
    if events.len() == 0 {
        after == before
    } else {
        exists|mid: H|
            delivers(before, events.drop_last(), mid) && #[trigger] mid.handles(
                events.last(),
                &after,
            )
    }
}

/// Delivering one run of events and then another is delivering the two runs
/// joined: nothing is handed over twice and nothing out of turn.
pub proof fn lemma_delivers_chain<E, H: EventHandler<E>>(
    before: H,
    first: Seq<E>,
    mid: H,
    second: Seq<E>,
    after: H,
)
    requires
        delivers(before, first, mid),
        delivers(mid, second, after),
    ensures
        delivers(before, first + second, after),
    decreases second.len(),
{
    if second.len() == 0 {
        assert(first + second =~= first);
    } else {
        let last = choose|last: H|
            delivers(mid, second.drop_last(), last) && #[trigger] last.handles(
                second.last(),
                &after,
            );
        lemma_delivers_chain(before, first, mid, second.drop_last(), last);
        assert((first + second).drop_last() =~= first + second.drop_last());
        assert((first + second).last() == second.last());
    }
}

/// A handler that keeps every event it is given, in the order of arrival.
pub struct Recorder<E> {
    events: Vec<E>,
}

impl<E> View for Recorder<E> {
    type V = Seq<E>;

    closed spec fn view(&self) -> Seq<E> {
        self.events@
    }
}

impl<E> Recorder<E> {
    /// A recorder that has seen nothing yet.
    pub fn new() -> (recorder: Self)
        ensures
            recorder@ == Seq::<E>::empty(),
    {
        Recorder { events: Vec::new() }
    }

    /// The events recorded so far, oldest first.
    pub fn events(&self) -> (events: &Vec<E>)
        ensures
            events@ == self@,
    {
        &self.events
    }
}

impl<E> EventHandler<E> for Recorder<E> {
    open spec fn handles(&self, event: E, next: &Self) -> bool {
        next@ == self@.push(event)
    }

    fn handle(&mut self, event: E) {
        self.events.push(event);
    }
}

/// A recorder that was handed a run of events holds what it held before,
/// followed by that run in its order.
pub proof fn lemma_recorder_keeps_order<E>(before: Recorder<E>, events: Seq<E>, after: Recorder<E>)
    requires
        delivers(before, events, after),
    ensures
        after@ == before@ + events,
    decreases events.len(),
{
    if events.len() == 0 {
        assert(after@ =~= before@ + events);
    } else {
        let mid = choose|mid: Recorder<E>|
            delivers(before, events.drop_last(), mid) && #[trigger] mid.handles(
                events.last(),
                &after,
            );
        lemma_recorder_keeps_order(before, events.drop_last(), mid);
        assert(after@ =~= before@ + events);
    }
}

} // verus!
