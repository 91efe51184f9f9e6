//! The local side of the tunnel. Requests that arrive at the local port share
//! one sender: one request is on the wire at a time, the others wait in the
//! order of their arrival. An interrupt lets the requests that were taken in
//! run to their end and then stops the listener.
//!
//! The caller owns the sockets and the sender. It tells the `Context` what
//! happened and does what the `Context` answers.

use crate::error::{KubeErr, TunnelError};
use std::collections::VecDeque;
use vstd::prelude::*;
use vstd::string::*;

verus! {

pub const STOP_SERVER_MSG: &'static str = "Stopping port forwarding";

pub const CTRL_C_MSG: &'static str = "Use Ctrl-C / Cmd-C to stop the server";

pub const LOCAL_ADDR: [u8; 4] = [127, 0, 0, 1];

/// The HTTP status with which a local request is answered when it was refused
/// or dropped, or when its forwarding failed.
pub const FAILURE_STATUS: u16 = 502;

/// The life of the listener.
#[derive(Debug, Clone, Copy, PartialEq, Eq, Structural)]
pub enum Phase {
    /// Requests are taken in and served.
    Running,
    /// No request is taken in any more; those taken in before are served.
    Draining,
    /// Nothing is served any more.
    Stopped,
}

/// How the forwarding of one request ended.
#[derive(Debug, Clone, Copy, PartialEq, Eq, Structural)]
pub enum Outcome {
    /// The response came back.
    Answered,
    /// Sending or receiving failed; the tunnel is still there.
    Failed,
    /// The sender reported that the tunnel connection is closed.
    Closed,
}

/// Whether `err` reports that the sender's channel to the connection is
/// closed: what `hyper::Error::is_closed` answers for it.
pub uninterp spec fn reports_closed(err: hyper::Error) -> bool;

/// `hyper::Error::is_closed` looks at the kind of the error and at nothing
/// else, so the same error always gets the same answer. The answer is given
/// the name `reports_closed`; nothing more is claimed of it.
pub assume_specification[ hyper::Error::is_closed ](err: &hyper::Error) -> (closed: bool)
    ensures
        closed == reports_closed(*err),
;

/// How the forwarding of one request ended, given whether it failed and
/// whether the failure reports the tunnel connection closed.
pub open spec fn outcome_for(failed: bool, closed: bool) -> Outcome {
    if !failed {
        Outcome::Answered
    } else if closed {
        Outcome::Closed
    } else {
        Outcome::Failed
    }
}

/// How the forwarding of one request ended, given whether it failed and
/// whether the failure reports the tunnel connection closed.
pub fn classify(failed: bool, closed: bool) -> (outcome: Outcome)
    ensures
        outcome == outcome_for(failed, closed),
{
    if !failed {
        Outcome::Answered
    } else if closed {
        Outcome::Closed
    } else {
        Outcome::Failed
    }
}

/// How the forwarding of one request ended, given the failure that the sender
/// reported for it, if any. A failure counts against the tunnel only where the
/// sender says that its connection is closed.
pub fn outcome_of(failure: Option<&hyper::Error>) -> (outcome: Outcome)
    ensures
        outcome == outcome_for(failure is Some, failure matches Some(err) && reports_closed(*err)),
{
    match failure {
        None => classify(false, false),
        Some(err) => classify(true, err.is_closed()),
    }
}

/// What becomes of a request that arrived.
#[derive(Debug, Clone, Copy, PartialEq, Eq, Structural)]
pub enum Admission {
    /// It is taken in under this ticket and goes on the wire now.
    Forward(u64),
    /// It is taken in under this ticket and waits for its turn.
    Wait(u64),
    /// It is not taken in: it is answered with a failure at once.
    Refuse,
}

/// What follows when the request on the wire has come back.
pub struct CompletionView {
    /// The ticket of the request that came back; `None` if none was on the wire.
    pub finished: Option<u64>,
    /// The ticket of the request that goes on the wire now.
    pub forward: Option<u64>,
    /// The tickets of the requests that waited and are answered with a failure.
    pub dropped: Seq<u64>,
    /// Whether the listener has stopped with this.
    pub stopped: bool,
}

/// What follows when the request on the wire has come back.
#[derive(Debug)]
pub struct Completion {
    pub finished: Option<u64>,
    pub forward: Option<u64>,
    pub dropped: Vec<u64>,
    pub stopped: bool,
}

impl View for Completion {
    type V = CompletionView;

    open spec fn view(&self) -> CompletionView {
        CompletionView {
            finished: self.finished,
            forward: self.forward,
            dropped: self.dropped@,
            stopped: self.stopped,
        }
    }
}

/// Where the listener listens.
#[derive(Debug, Clone, Copy)]
pub struct Endpoint {
    pub address: [u8; 4],
    pub port: u16,
}

/// The state of the local side.
pub struct ContextView {
    pub phase: Phase,
    /// The tickets of the requests that were taken in and are not answered
    /// yet, in the order of their arrival. The first one is on the wire.
    pub pending: Seq<u64>,
    /// Whether the sender has reported the tunnel connection closed.
    pub closed: bool,
    /// The ticket that the next request gets.
    pub next_ticket: u64,
}

impl ContextView {
    /// The tickets are handed out in rising order; nothing waits for a closed
    /// tunnel or a stopped listener; a listener drains only while something is
    /// left to serve.
    pub open spec fn wf(self) -> bool {
        &&& forall|i: int| 0 <= i < self.pending.len() ==> self.pending[i] < self.next_ticket
        &&& forall|i: int, j: int|
            0 <= i < j < self.pending.len() ==> self.pending[i] < self.pending[j]
        &&& self.closed ==> self.pending.len() == 0
        &&& self.phase == Phase::Stopped ==> self.pending.len() == 0
        &&& self.phase == Phase::Draining ==> self.pending.len() > 0
    }

    /// The state in which the listener starts.
    pub open spec fn initial() -> ContextView {
        ContextView { phase: Phase::Running, pending: Seq::empty(), closed: false, next_ticket: 0 }
    }

    /// The ticket of the request that is on the wire.
    pub open spec fn on_wire(self) -> Option<u64> {
        if self.pending.len() > 0 {
            Some(self.pending[0])
        } else {
            None
        }
    }

    /// Whether a request that arrives now is taken in.
    pub open spec fn accepts(self) -> bool {
        self.phase == Phase::Running && !self.closed && self.next_ticket < u64::MAX
    }

    /// What becomes of a request that arrives now.
    pub open spec fn admission(self) -> Admission {
        if !self.accepts() {
            Admission::Refuse
        } else if self.pending.len() == 0 {
            Admission::Forward(self.next_ticket)
        } else {
            Admission::Wait(self.next_ticket)
        }
    }

    /// The state after a request arrived.
    pub open spec fn arrive(self) -> ContextView {
        if self.accepts() {
            ContextView {
                pending: self.pending.push(self.next_ticket),
                next_ticket: (self.next_ticket + 1) as u64,
                ..self
            }
        } else {
            self
        }
    }

    /// What follows when the request on the wire comes back with `outcome`.
    pub open spec fn completion(self, outcome: Outcome) -> CompletionView {
        let after = self.complete(outcome);
        if self.pending.len() == 0 {
            CompletionView {
                finished: None,
                forward: None,
                dropped: Seq::empty(),
                stopped: false,
            }
        } else {
            CompletionView {
                finished: Some(self.pending[0]),
                forward: after.on_wire(),
                dropped: if outcome == Outcome::Closed {
                    self.pending.drop_first()
                } else {
                    Seq::empty()
                },
                stopped: after.phase == Phase::Stopped,
            }
        }
    }

    /// The state after the request on the wire came back with `outcome`. The
    /// next request in line takes the wire, unless the tunnel is closed: then
    /// all that waited are dropped. A draining listener stops when nothing is
    /// left.
    pub open spec fn complete(self, outcome: Outcome) -> ContextView {
        if self.pending.len() == 0 {
            self
        } else {
            let pending = if outcome == Outcome::Closed {
                Seq::empty()
            } else {
                self.pending.drop_first()
            };
            ContextView {
                phase: if self.phase == Phase::Draining && pending.len() == 0 {
                    Phase::Stopped
                } else {
                    self.phase
                },
                pending,
                closed: self.closed || outcome == Outcome::Closed,
                next_ticket: self.next_ticket,
            }
        }
    }

    /// Whether an interrupt now makes the listener stop taking requests in.
    pub open spec fn signals(self) -> bool {
        self.phase == Phase::Running
    }

    /// The state after the interrupt signal. Only the first one counts.
    pub open spec fn interrupt(self) -> ContextView {
        if self.phase == Phase::Running {
            ContextView {
                phase: if self.pending.len() == 0 {
                    Phase::Stopped
                } else {
                    Phase::Draining
                },
                ..self
            }
        } else {
            self
        }
    }

    /// The state after the listener has returned.
    pub open spec fn halt(self) -> ContextView {
        ContextView { phase: Phase::Stopped, pending: Seq::empty(), ..self }
    }
}

/// The local side of one tunnel.
pub struct Context {
    phase: Phase,
    pending: VecDeque<u64>,
    closed: bool,
    next_ticket: u64,
}

impl View for Context {
    type V = ContextView;

    closed spec fn view(&self) -> ContextView {
        ContextView {
            phase: self.phase,
            pending: self.pending@,
            closed: self.closed,
            next_ticket: self.next_ticket,
        }
    }
}

impl Context {
    /// A listener that runs and has taken no request in yet.
    pub fn new() -> (context: Context)
        ensures
            context@ == ContextView::initial(),
            context@.wf(),
    {
        Context { phase: Phase::Running, pending: VecDeque::new(), closed: false, next_ticket: 0 }
    }

    /// The life of the listener.
    pub fn phase(&self) -> (phase: Phase)
        ensures
            phase == self@.phase,
    {
        self.phase
    }

    /// Where the listener for `machine_port` listens: at that port of the
    /// loopback address.
    pub fn port_forward_local(&self, machine_port: u16) -> (endpoint: Endpoint)
        ensures
            endpoint.address@ == seq![127u8, 0u8, 0u8, 1u8],
            endpoint.port == machine_port,
    {
        Endpoint { address: LOCAL_ADDR, port: machine_port }
    }

    /// Takes the result of binding the local port. A port that cannot be bound
    /// is fatal: the listener stops before it has run.
    pub fn bound(&mut self, result: Result<(), hyper::Error>) -> (ready: Result<(), KubeErr>)
        ensures
            match (result, ready) {
                (Ok(_), Ok(_)) => final(self)@ == old(self)@,
                (Err(cause), Err(e)) => final(self)@ == old(self)@.halt() && (e matches KubeErr::Tunnel(
                    TunnelError::BindFailed(msg),
                ) && to_string_from_display_ensures(&cause, msg)),
                _ => false,
            },
    {
        match result {
            Ok(_) => Ok(()),
            Err(cause) => {
                self.phase = Phase::Stopped;
                self.pending.clear();
                Err(KubeErr::Tunnel(TunnelError::BindFailed(cause.to_string())))
            },
        }
    }

    /// A request has arrived at the local port. While the listener runs, the
    /// tunnel is open and a ticket is left, it is taken in: it goes on the
    /// wire if the wire is free and waits behind the others if not.
    pub fn accept(&mut self) -> (admission: Admission)
        ensures
            admission == old(self)@.admission(),
            final(self)@ == old(self)@.arrive(),
    {
        if self.phase != Phase::Running || self.closed || self.next_ticket == u64::MAX {
            return Admission::Refuse;
        }
        let ticket = self.next_ticket;
        let free = self.pending.len() == 0;
        self.pending.push_back(ticket);
        self.next_ticket = ticket + 1;
        if free {
            Admission::Forward(ticket)
        } else {
            Admission::Wait(ticket)
        }
    }

    /// The request on the wire has come back. Its failure concerns that
    /// request alone and the next in line takes the wire, unless the tunnel
    /// itself is closed: then all that waited fail with it.
    pub fn complete(&mut self, outcome: Outcome) -> (completion: Completion)
        ensures
            completion@ == old(self)@.completion(outcome),
            final(self)@ == old(self)@.complete(outcome),
    {
        let ghost before = self@;
        let finished = self.pending.pop_front();
        if finished.is_none() {
            return Completion { finished: None, forward: None, dropped: Vec::new(), stopped: false };
        }
        let mut dropped: Vec<u64> = Vec::new();
        if outcome == Outcome::Closed {
            self.closed = true;
            let ghost waited = self.pending@;
            while self.pending.len() > 0
                invariant
                    waited == dropped@ + self.pending@,
                    self.phase == before.phase,
                    self.closed,
                    self.next_ticket == before.next_ticket,
                decreases self.pending.len(),
            {
                if let Some(ticket) = self.pending.pop_front() {
                    dropped.push(ticket);
                }
            }
            assert(self.pending@ =~= Seq::<u64>::empty());
        }
        let forward = if self.pending.len() > 0 {
            Some(self.pending[0])
        } else {
            None
        };
        if self.phase == Phase::Draining && forward.is_none() {
            self.phase = Phase::Stopped;
        }
        Completion { finished, forward, dropped, stopped: self.phase == Phase::Stopped }
    }

    /// The interrupt signal has come. The first one makes the listener stop
    /// taking requests in, and the caller then sends the one cancellation
    /// signal; any later one changes nothing.
    pub fn interrupt(&mut self) -> (signal: bool)
        ensures
            signal == old(self)@.signals(),
            final(self)@ == old(self)@.interrupt(),
    {
        if self.phase == Phase::Running {
            self.phase = if self.pending.len() == 0 {
                Phase::Stopped
            } else {
                Phase::Draining
            };
            true
        } else {
            false
        }
    }

    /// The listener has returned: nothing is served any more. An error of the
    /// listener is reported with the listener's own text.
    pub fn served(&mut self, result: Result<(), hyper::Error>) -> (end: Result<(), KubeErr>)
        ensures
            final(self)@ == old(self)@.halt(),
            match (result, end) {
                (Ok(_), Ok(_)) => true,
                (Err(cause), Err(e)) => e matches KubeErr::Network(msg)
                    && to_string_from_display_ensures(&cause, msg),
                _ => false,
            },
    {
        self.phase = Phase::Stopped;
        self.pending.clear();
        match result {
            Ok(_) => Ok(()),
            Err(cause) => Err(KubeErr::from_network(&cause)),
        }
    }
}

/// What can happen at the local side while the listener is up.
#[derive(Debug, Clone, Copy, PartialEq, Eq, Structural)]
pub enum Event {
    /// A request arrived at the local port.
    Arrived,
    /// The request on the wire came back.
    Completed(Outcome),
    /// The interrupt signal came.
    Interrupt,
}

/// What the caller does after an event.
#[derive(Debug)]
pub enum Reaction {
    /// Treat the request that arrived as the admission says.
    Admitted(Admission),
    /// Answer the request that came back, and those that were dropped, and put
    /// the next one on the wire.
    Completed(Completion),
    /// Send the one cancellation signal to the listener, if `true`.
    Interrupted(bool),
}

impl ContextView {
    /// The state after `event`.
    pub open spec fn step(self, event: Event) -> ContextView {
        match event {
            Event::Arrived => self.arrive(),
            Event::Completed(outcome) => self.complete(outcome),
            Event::Interrupt => self.interrupt(),
        }
    }
}

/// Takes one event and says what the caller has to do.
pub fn handle(context: &mut Context, event: Event) -> (reaction: Reaction)
    ensures
        final(context)@ == old(context)@.step(event),
        match event {
            Event::Arrived => reaction == Reaction::Admitted(old(context)@.admission()),
            Event::Completed(outcome) => reaction matches Reaction::Completed(c) && c@ == old(
                context,
            )@.completion(outcome),
            Event::Interrupt => reaction == Reaction::Interrupted(old(context)@.signals()),
        },
{
    match event {
        Event::Arrived => Reaction::Admitted(context.accept()),
        Event::Completed(outcome) => Reaction::Completed(context.complete(outcome)),
        Event::Interrupt => Reaction::Interrupted(context.interrupt()),
    }
}

} // verus!
