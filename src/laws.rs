//! Laws of the session protocol, stated over the same transition functions
//! that the operations' contracts use.
use vstd::prelude::*;
use crate::session::{SessionView, after_take, push_step};

verus! {

/// One operation on a session: a fragment pushed, with what the engine
/// returned for it, or the result taken.
pub enum SessionEvent {
    Push { frag: Seq<u8>, outcome: Option<Seq<u8>> },
    Take,
}

/// The session after one event.
pub open spec fn step(v: SessionView, e: SessionEvent) -> SessionView {
    match e {
        SessionEvent::Push { frag, outcome } => push_step(v, frag, outcome).0,
        SessionEvent::Take => after_take(v),
    }
}

/// Whether an event is a push that completed the object.
pub open spec fn completes(v: SessionView, e: SessionEvent) -> bool {
    match e {
        SessionEvent::Push { frag, outcome } => push_step(v, frag, outcome).1,
        SessionEvent::Take => false,
    }
}

/// The session after a run of events, first to last.
pub open spec fn run(v: SessionView, events: Seq<SessionEvent>) -> SessionView
    decreases events.len(),
{
    if events.len() == 0 {
        v
    } else {
        run(step(v, events[0]), events.drop_first())
    }
}

/// How many pushes of a run reply that they completed the object.
pub open spec fn completions(v: SessionView, events: Seq<SessionEvent>) -> nat
    decreases events.len(),
{
    if events.len() == 0 {
        0
    } else {
        (if completes(v, events[0]) {
            1nat
        } else {
            0nat
        }) + completions(step(v, events[0]), events.drop_first())
    }
}

/// Whether a run takes the result at some point.
pub open spec fn takes_result(events: Seq<SessionEvent>) -> bool {
    exists|i: int| 0 <= i < events.len() && events[i] is Take
}

/// Once the result is taken, taking it again gives nothing and changes
/// nothing.
pub proof fn take_is_single_use(v: SessionView)
    ensures
        after_take(v).slot is None,
        after_take(after_take(v)) == after_take(v),
{
}

/// A session that holds its object keeps holding the same object, whatever
/// fragments follow, until the result is taken.
pub proof fn completion_persists(v: SessionView, events: Seq<SessionEvent>)
    requires
        v.wf(),
        v.slot is Some,
        !takes_result(events),
    ensures
        run(v, events).slot == v.slot,
        run(v, events).finished,
    decreases events.len(),
{
    if events.len() > 0 {
        let rest = events.drop_first();
        assert(events[0] is Push);
        assert forall|i: int| 0 <= i < rest.len() implies !(rest[i] is Take) by {
            assert(rest[i] == events[i + 1]);
        }
        completion_persists(step(v, events[0]), rest);
    }
}

/// However many fragments a session is fed, and with results taken in
/// between, at most one push replies that it completed the object; none
/// does once the session is finished.
pub proof fn at_most_one_completion(v: SessionView, events: Seq<SessionEvent>)
    ensures
        completions(v, events) <= 1,
        v.finished ==> completions(v, events) == 0,
    decreases events.len(),
{
    if events.len() > 0 {
        let next = step(v, events[0]);
        at_most_one_completion(next, events.drop_first());
        assert(completes(v, events[0]) ==> !v.finished && next.finished);
        assert(v.finished ==> next.finished);
    }
}

/// The object held by a well-formed session is exactly as long as the
/// transfer length it was built for.
pub proof fn held_object_has_transfer_length(v: SessionView)
    requires
        v.wf(),
        v.slot is Some,
    ensures
        v.slot->0.len() == v.params.transfer_length,
{
}

} // verus!
