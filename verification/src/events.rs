//! Input events and the quit-preemption rule.
//!
//! The event source hands the main driver a batch of events each iteration.
//! One reserved variant means "quit requested"; every other variant is an
//! opaque payload forwarded verbatim to the interactive entities. Within
//! one batch, quit preempts the rest: events queued after the first quit
//! are discarded, not dispatched.

use vstd::prelude::*;

verus! {

/// One event polled from the event source. `Quit` is the reserved quit
/// request; the other variants are payloads forwarded verbatim.
#[derive(Clone, Copy, PartialEq, Eq, Structural, Debug)]
pub enum InputEvent {
    /// The reserved quit request.
    Quit,
    /// A key was pressed; the payload is an opaque key code.
    KeyDown(i32),
    /// A key was released; the payload is an opaque key code.
    KeyUp(i32),
    /// Any other event, carried as an opaque payload.
    Other(i64),
}

/// Whether a batch contains a quit request anywhere.
pub open spec fn has_quit(events: Seq<InputEvent>) -> bool {
    exists|i: int| 0 <= i < events.len() && events[i] is Quit
}

/// The prefix of a batch that is actually dispatched: everything before
/// the first quit request, or the whole batch if there is none.
pub open spec fn events_before_quit(events: Seq<InputEvent>) -> Seq<InputEvent>
    decreases events.len(),
{
    if events.len() == 0 {
        Seq::empty()
    } else if events[0] is Quit {
        Seq::empty()
    } else {
        seq![events[0]] + events_before_quit(events.drop_first())
    }
}

/// Report whether the batch contains a quit request.
pub fn batch_has_quit(events: &Vec<InputEvent>) -> (b: bool)
    ensures
        b == has_quit(events@),
{
    let n = events.len();
    let mut i: usize = 0;
    while i < n
        invariant
            n == events@.len(),
            i <= n,
            forall|j: int| 0 <= j < i ==> !((#[trigger] events@[j]) is Quit),
        decreases n - i,
    {
        if matches!(events[i], InputEvent::Quit) {
            return true;
        }
        i += 1;
    }
    false
}

/// The events the main driver will dispatch from this batch: the prefix
/// before the first quit request.
pub fn dispatchable_events(events: &Vec<InputEvent>) -> (r: Vec<InputEvent>)
    ensures
        r@ == events_before_quit(events@),
{
    let mut out: Vec<InputEvent> = Vec::new();
    let n = events.len();
    let mut i: usize = 0;
    while i < n
        invariant
            n == events@.len(),
            i <= n,
            forall|j: int| 0 <= j < i ==> !((#[trigger] events@[j]) is Quit),
            out@ == events@.subrange(0, i as int),
        decreases n - i,
    {
        let e = events[i];
        if matches!(e, InputEvent::Quit) {
            proof {
                lemma_events_before_quit_stops(events@, i as int);
            }
            return out;
        }
        out.push(e);
        proof {
            assert(events@.subrange(0, i as int + 1) =~= events@.subrange(0, i as int).push(
                events@[i as int],
            ));
        }
        i += 1;
    }
    proof {
        lemma_events_before_quit_stops(events@, n as int);
        assert(events@.subrange(0, n as int) =~= events@);
    }
    out
}

/// Quit preempts the remaining input of its batch: if the first quit
/// request sits at position `i`, exactly the events before `i` are
/// dispatched and the batch requests termination.
pub proof fn lemma_quit_preempts(events: Seq<InputEvent>, i: int)
    requires
        0 <= i < events.len(),
        events[i] is Quit,
        forall|j: int| 0 <= j < i ==> !((#[trigger] events[j]) is Quit),
    ensures
        events_before_quit(events) == events.subrange(0, i),
        has_quit(events),
{
    lemma_events_before_quit_stops(events, i);
}

/// Helper: scanning a quit-free prefix of length `i`, the dispatched
/// events are that prefix when position `i` holds a quit request or ends
/// the batch.
proof fn lemma_events_before_quit_stops(events: Seq<InputEvent>, i: int)
    requires
        0 <= i <= events.len(),
        forall|j: int| 0 <= j < i ==> !((#[trigger] events[j]) is Quit),
    ensures
        i < events.len() && events[i] is Quit ==> events_before_quit(events) == events.subrange(
            0,
            i,
        ),
        i == events.len() ==> events_before_quit(events) == events,
    decreases i,
{
    if events.len() == 0 {
    } else if i == 0 {
        if events[0] is Quit {
            assert(events.subrange(0, 0) =~= Seq::<InputEvent>::empty());
        }
    } else {
        let rest = events.drop_first();
        assert(forall|j: int| 0 <= j < i - 1 ==> !((#[trigger] rest[j]) is Quit));
        lemma_events_before_quit_stops(rest, i - 1);
        if i < events.len() && events[i] is Quit {
            assert(events.subrange(0, i) =~= seq![events[0]] + rest.subrange(0, i - 1));
        } else if i == events.len() {
            assert(events =~= seq![events[0]] + rest);
        }
    }
}

} // verus!
