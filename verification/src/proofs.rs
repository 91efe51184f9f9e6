//! What holds of the local side whatever happens: one request on the wire at
//! a time, a drain that serves everything that was taken in, and failures that
//! stay with the request that met them.

use crate::listener::{Admission, ContextView, Event, Outcome, Phase};
use vstd::prelude::*;

verus! {

/// What passes over the tunnel connection.
pub enum Wire {
    /// The request with this ticket is sent.
    Request(u64),
    /// The request with this ticket has come back, answered or failed.
    Reply(u64),
}

/// What passes over the wire because of `event` in `state`.
pub open spec fn wire_of(state: ContextView, event: Event) -> Seq<Wire> {
    match event {
        Event::Arrived => match state.admission() {
            Admission::Forward(ticket) => seq![Wire::Request(ticket)],
            _ => Seq::empty(),
        },
        Event::Completed(outcome) => {
            let completion = state.completion(outcome);
            match (completion.finished, completion.forward) {
                (Some(done), Some(next)) => seq![Wire::Reply(done), Wire::Request(next)],
                (Some(done), None) => seq![Wire::Reply(done)],
                _ => Seq::empty(),
            }
        },
        Event::Interrupt => Seq::empty(),
    }
}

/// The state after a run of events.
pub open spec fn run(state: ContextView, events: Seq<Event>) -> ContextView
    decreases events.len(),
{
    if events.len() == 0 {
        state
    } else {
        run(state.step(events[0]), events.drop_first())
    }
}

/// All that passes over the wire during a run of events.
pub open spec fn traffic(state: ContextView, events: Seq<Event>) -> Seq<Wire>
    decreases events.len(),
{
    if events.len() == 0 {
        Seq::empty()
    } else {
        wire_of(state, events[0]) + traffic(state.step(events[0]), events.drop_first())
    }
}

/// Whether requests and replies take turns in `traffic`, beginning with the
/// reply to `open` if a request is on the wire: no request is sent before the
/// one before it has come back.
pub open spec fn serial(traffic: Seq<Wire>, open: Option<u64>) -> bool
    decreases traffic.len(),
{
    if traffic.len() == 0 {
        true
    } else {
        match (traffic[0], open) {
            (Wire::Request(ticket), None) => serial(traffic.drop_first(), Some(ticket)),
            (Wire::Reply(ticket), Some(sent)) => ticket == sent && serial(
                traffic.drop_first(),
                None,
            ),
            _ => false,
        }
    }
}

/// Every event leaves a well-formed state well-formed, and the state in which
/// the listener starts is well-formed.
pub proof fn law_states_stay_well_formed(state: ContextView, event: Event)
    requires
        state.wf(),
    ensures
        ContextView::initial().wf(),
        state.step(event).wf(),
        state.halt().wf(),
{
    match event {
        Event::Arrived => {},
        Event::Completed(outcome) => {
            if state.pending.len() > 0 && outcome != Outcome::Closed {
                let rest = state.pending.drop_first();
                assert forall|i: int| 0 <= i < rest.len() implies rest[i] == state.pending[i + 1] by {}
            }
        },
        Event::Interrupt => {},
    }
}

/// Whatever happens at the local side, the requests do not mix on the wire:
/// each request is sent only after the one before it has come back.
pub proof fn law_one_request_on_the_wire(state: ContextView, events: Seq<Event>)
    ensures
        serial(traffic(state, events), state.on_wire()),
    decreases events.len(),
{
    if events.len() > 0 {
        let event = events[0];
        let after = state.step(event);
        let first = wire_of(state, event);
        let rest = traffic(after, events.drop_first());
        law_one_request_on_the_wire(after, events.drop_first());
        let all = first + rest;
        if first.len() == 0 {
            // nothing passes: what was on the wire stays there
            assert(all =~= rest);
            assert(after.on_wire() == state.on_wire());
        } else if first.len() == 1 {
            // a request goes out on the free wire, or a reply frees the wire
            assert(all.drop_first() =~= rest);
        } else {
            // a reply frees the wire and the next request takes it
            let tail = all.drop_first();
            assert(tail.drop_first() =~= rest);
            assert(serial(tail, None));
        }
    }
}

/// How many of the events are a request that came back.
pub open spec fn completions_in(events: Seq<Event>) -> nat
    decreases events.len(),
{
    if events.len() == 0 {
        0
    } else {
        let rest = completions_in(events.drop_first());
        match events[0] {
            Event::Completed(_) => rest + 1,
            _ => rest,
        }
    }
}

/// How many requests are taken in during a run of events.
pub open spec fn taken_in(state: ContextView, events: Seq<Event>) -> nat
    decreases events.len(),
{
    if events.len() == 0 {
        0
    } else {
        let rest = taken_in(state.step(events[0]), events.drop_first());
        if events[0] == Event::Arrived && state.accepts() {
            rest + 1
        } else {
            rest
        }
    }
}

/// The tickets of the requests that get their answer during a run of events,
/// in the order in which they get it: the one that came back, then those that
/// were dropped with it.
pub open spec fn answered_in(state: ContextView, events: Seq<Event>) -> Seq<u64>
    decreases events.len(),
{
    if events.len() == 0 {
        Seq::empty()
    } else {
        let rest = answered_in(state.step(events[0]), events.drop_first());
        match events[0] {
            Event::Completed(outcome) => {
                let completion = state.completion(outcome);
                match completion.finished {
                    Some(done) => seq![done] + completion.dropped + rest,
                    None => rest,
                }
            },
            _ => rest,
        }
    }
}

/// A listener that has stopped taking requests in never takes one in again,
/// and serves what it had taken in before: once as many requests have come
/// back as were pending, each of them has got its answer, in the order of
/// their arrival, and the listener has stopped.
pub proof fn law_drain_serves_all(state: ContextView, events: Seq<Event>)
    requires
        state.wf(),
        state.phase != Phase::Running,
        completions_in(events) >= state.pending.len(),
    ensures
        run(state, events).phase == Phase::Stopped,
        taken_in(state, events) == 0,
        answered_in(state, events) == state.pending,
    decreases events.len(),
{
    if events.len() > 0 {
        law_states_stay_well_formed(state, events[0]);
        law_drain_serves_all(state.step(events[0]), events.drop_first());
    }
    assert(answered_in(state, events) =~= state.pending);
}

/// An interrupt while requests are pending lets every one of them get its
/// answer and lets no new request in; the listener has stopped once they have
/// all come back.
pub proof fn law_interrupt_drains(state: ContextView, events: Seq<Event>)
    requires
        state.wf(),
        state.phase == Phase::Running,
        completions_in(events) >= state.pending.len(),
    ensures
        state.interrupt().pending == state.pending,
        taken_in(state.interrupt(), events) == 0,
        answered_in(state.interrupt(), events) == state.pending,
        run(state.interrupt(), events).phase == Phase::Stopped,
{
    law_states_stay_well_formed(state, Event::Interrupt);
    law_drain_serves_all(state.interrupt(), events);
}

/// A second interrupt has no effect.
pub proof fn law_interrupt_counts_once(state: ContextView)
    ensures
        state.interrupt().interrupt() == state.interrupt(),
        !state.interrupt().signals(),
{
}

/// A request that fails takes no other request with it: the tunnel stays
/// open, the next in line takes the wire, and a request that arrives after the
/// failure is taken in as before.
pub proof fn law_failure_stays_with_its_request(state: ContextView)
    requires
        state.wf(),
        state.phase == Phase::Running,
        state.pending.len() > 0,
    ensures
        state.complete(Outcome::Failed).phase == Phase::Running,
        !state.complete(Outcome::Failed).closed,
        state.completion(Outcome::Failed).dropped.len() == 0,
        state.pending.len() > 1 ==> state.completion(Outcome::Failed).forward == Some(
            state.pending[1],
        ),
        state.complete(Outcome::Failed).admission() == state.complete(
            Outcome::Answered,
        ).admission(),
        state.next_ticket < u64::MAX ==> state.complete(Outcome::Failed).admission()
            != Admission::Refuse,
        state.next_ticket < u64::MAX && state.pending.len() == 1 ==> state.complete(
            Outcome::Failed,
        ).admission() == Admission::Forward(state.next_ticket),
{
}

/// Once the tunnel connection is closed, every request that waited is dropped
/// and every request that arrives is refused, whatever happens later.
pub proof fn law_closed_tunnel_refuses(state: ContextView, events: Seq<Event>)
    requires
        state.pending.len() > 0,
    ensures
        state.completion(Outcome::Closed).dropped == state.pending.drop_first(),
        run(state.complete(Outcome::Closed), events).closed,
        run(state.complete(Outcome::Closed), events).admission() == Admission::Refuse,
{
    lemma_closed_stays(state.complete(Outcome::Closed), events);
}

proof fn lemma_closed_stays(state: ContextView, events: Seq<Event>)
    requires
        state.closed,
    ensures
        run(state, events).closed,
    decreases events.len(),
{
    if events.len() > 0 {
        lemma_closed_stays(state.step(events[0]), events.drop_first());
    }
}

} // verus!
