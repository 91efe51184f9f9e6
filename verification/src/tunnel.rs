//! Setting up the tunnel to one port of the selected workload: the byte stream
//! is asked of the cluster, then the HTTP/1.1 handshake is made over it. The
//! caller does both and tells the session how each one went.

use crate::error::{KubeErr, TunnelError};
use vstd::prelude::*;
use vstd::string::*;

verus! {

/// How far the setting up has come.
#[derive(Debug, Clone, Copy, PartialEq, Eq, Structural)]
pub enum Stage {
    /// The byte stream to the port has been asked for.
    Opening,
    /// The stream is there and the handshake is being made over it.
    Handshaking,
    /// The tunnel is ready to carry requests.
    Ready,
    /// The setting up failed; nothing more happens.
    Failed,
}

/// What the cluster or the connection reported.
pub enum Event {
    /// The answer to the request for the stream: whether a stream for the
    /// port came with it, or why the request failed.
    Stream(Result<bool, kube::error::Error>),
    /// The end of the handshake.
    Handshake(Result<(), hyper::Error>),
}

/// The stage after `event` came in at `stage`. The answer about the stream
/// counts only while the stream is asked for, the end of the handshake only
/// while the handshake is made; a report out of its turn changes nothing.
pub open spec fn after(stage: Stage, event: Event) -> Stage {
    match (stage, event) {
        (Stage::Opening, Event::Stream(Ok(true))) => Stage::Handshaking,
        (Stage::Opening, Event::Stream(_)) => Stage::Failed,
        (Stage::Handshaking, Event::Handshake(Ok(_))) => Stage::Ready,
        (Stage::Handshaking, Event::Handshake(Err(_))) => Stage::Failed,
        _ => stage,
    }
}

/// The stage after a run of events.
pub open spec fn after_all(stage: Stage, events: Seq<Event>) -> Stage
    decreases events.len(),
{
    if events.len() == 0 {
        stage
    } else {
        after_all(after(stage, events[0]), events.drop_first())
    }
}

/// A tunnel that is ready stays ready and one that failed stays failed,
/// whatever is reported later.
pub proof fn law_settled_tunnel_stays(stage: Stage, events: Seq<Event>)
    requires
        stage == Stage::Ready || stage == Stage::Failed,
    ensures
        after_all(stage, events) == stage,
    decreases events.len(),
{
    if events.len() > 0 {
        law_settled_tunnel_stays(stage, events.drop_first());
    }
}

/// Two reports make a tunnel ready, and only these two in this order: a
/// stream that is there, and a handshake that was made.
pub proof fn law_ready_takes_stream_and_handshake(first: Event, second: Event)
    ensures
        after(after(Stage::Opening, first), second) == Stage::Ready <==> first == Event::Stream(
            Ok(true),
        ) && second matches Event::Handshake(Ok(_)),
        after(Stage::Opening, first) != Stage::Ready,
{
}

/// What the caller has to do next.
#[derive(Debug)]
pub enum Step {
    /// Ask the cluster for a stream to `port` of the workload `pod`.
    OpenStream { pod: String, namespace: String, port: u16 },
    /// Make the handshake over the stream.
    Handshake,
    /// Watch the two background tasks and serve the tunnel at `user_port`.
    Serve { user_port: u16 },
    /// Give up with this error.
    GiveUp(KubeErr),
}

/// The stage, with the reason of a failure.
enum Progress {
    Opening,
    Handshaking,
    Ready,
    Failed(TunnelError),
}

/// The setting up of one tunnel: where it leads, and how far it has come.
pub struct Tunnel {
    pod: String,
    namespace: String,
    selected_port: u16,
    user_port: u16,
    progress: Progress,
}

impl Tunnel {
    /// The name of the workload that the tunnel leads to.
    pub closed spec fn pod(self) -> Seq<char> {
        self.pod@
    }

    /// The namespace of that workload.
    pub closed spec fn namespace(self) -> Seq<char> {
        self.namespace@
    }

    /// The port of the workload that the tunnel leads to.
    pub closed spec fn selected_port(self) -> u16 {
        self.selected_port
    }

    /// The local port at which the tunnel is to be served.
    pub closed spec fn user_port(self) -> u16 {
        self.user_port
    }

    /// How far the setting up has come.
    pub closed spec fn stage(self) -> Stage {
        match self.progress {
            Progress::Opening => Stage::Opening,
            Progress::Handshaking => Stage::Handshaking,
            Progress::Ready => Stage::Ready,
            Progress::Failed(_) => Stage::Failed,
        }
    }

    /// Why the setting up failed; `None` unless it did.
    pub closed spec fn failure(self) -> Option<TunnelError> {
        match self.progress {
            Progress::Failed(failure) => Some(failure),
            _ => None,
        }
    }

    /// Whether `other` is a tunnel to the same port of the same workload, to be
    /// served at the same local port.
    pub open spec fn same_target(self, other: Tunnel) -> bool {
        &&& self.pod() == other.pod()
        &&& self.namespace() == other.namespace()
        &&& self.selected_port() == other.selected_port()
        &&& self.user_port() == other.user_port()
    }

    /// Whether `step` is what this session asks of the caller.
    pub open spec fn asks(self, step: Step) -> bool {
        match self.stage() {
            Stage::Opening => step matches Step::OpenStream { pod, namespace, port } && pod@
                == self.pod() && namespace@ == self.namespace() && port == self.selected_port(),
            Stage::Handshaking => step is Handshake,
            Stage::Ready => step matches Step::Serve { user_port } && user_port
                == self.user_port(),
            Stage::Failed => step matches Step::GiveUp(KubeErr::Tunnel(e)) && self.failure()
                matches Some(f) && e.same(f),
        }
    }

    /// A session that has just asked for the stream to `selected_port` of the
    /// workload `pod` in `namespace`.
    pub fn new(pod: String, namespace: String, selected_port: u16, user_port: u16) -> (t: Tunnel)
        ensures
            t.pod() == pod@,
            t.namespace() == namespace@,
            t.selected_port() == selected_port,
            t.user_port() == user_port,
            t.stage() == Stage::Opening,
            t.failure() is None,
    {
        Tunnel { pod, namespace, selected_port, user_port, progress: Progress::Opening }
    }

    /// How far the setting up has come.
    pub fn current_stage(&self) -> (stage: Stage)
        ensures
            stage == self.stage(),
            (stage == Stage::Failed) == (self.failure() is Some),
    {
        match self.progress {
            Progress::Opening => Stage::Opening,
            Progress::Handshaking => Stage::Handshaking,
            Progress::Ready => Stage::Ready,
            Progress::Failed(_) => Stage::Failed,
        }
    }

    /// What the caller has to do now.
    pub fn step(&self) -> (step: Step)
        ensures
            self.asks(step),
    {
        match &self.progress {
            Progress::Opening => Step::OpenStream {
                pod: self.pod.clone(),
                namespace: self.namespace.clone(),
                port: self.selected_port,
            },
            Progress::Handshaking => Step::Handshake,
            Progress::Ready => Step::Serve { user_port: self.user_port },
            Progress::Failed(failure) => Step::GiveUp(KubeErr::Tunnel(failure.clone())),
        }
    }

    /// Takes what the cluster or the connection reported and says what to do
    /// next. The answer about the stream counts only while the stream is asked
    /// for, the end of the handshake only while the handshake is made; a report
    /// out of its turn changes nothing.
    pub fn advance(&mut self, event: Event) -> (step: Step)
        ensures
            final(self).same_target(*old(self)),
            final(self).stage() == after(old(self).stage(), event),
            final(self).asks(step),
            match (old(self).stage(), event) {
                (Stage::Opening, Event::Stream(Ok(true))) => final(self).failure() is None,
                (Stage::Opening, Event::Stream(Ok(false))) => final(self).failure() == Some(
                    TunnelError::StreamUnavailable(None),
                ),
                (Stage::Opening, Event::Stream(Err(cause))) => final(self).failure() matches Some(
                    TunnelError::StreamUnavailable(Some(msg)),
                ) && to_string_from_display_ensures(&cause, msg),
                (Stage::Handshaking, Event::Handshake(Ok(_))) => final(self).failure() is None,
                (Stage::Handshaking, Event::Handshake(Err(cause))) => final(self).failure()
                    matches Some(TunnelError::HandshakeFailed(msg))
                    && to_string_from_display_ensures(&cause, msg),
                _ => final(self).failure() == old(self).failure(),
            },
    {
        match (self.current_stage(), event) {
            (Stage::Opening, Event::Stream(Ok(true))) => {
                self.progress = Progress::Handshaking;
            },
            (Stage::Opening, Event::Stream(Ok(false))) => {
                self.progress = Progress::Failed(TunnelError::StreamUnavailable(None));
            },
            (Stage::Opening, Event::Stream(Err(cause))) => {
                self.progress = Progress::Failed(
                    TunnelError::StreamUnavailable(Some(cause.to_string())),
                );
            },
            (Stage::Handshaking, Event::Handshake(Ok(_))) => {
                self.progress = Progress::Ready;
            },
            (Stage::Handshaking, Event::Handshake(Err(cause))) => {
                self.progress = Progress::Failed(TunnelError::HandshakeFailed(cause.to_string()));
            },
            _ => {},
        }
        self.step()
    }
}

} // verus!
