//! Watching the two background tasks of a tunnel: the one that drives the
//! HTTP connection and the one that drives the session with the cluster. The
//! end of each is recorded once and reported if it was a failure. Nothing is
//! restarted, and the listener is left alone.

use vstd::prelude::*;
use vstd::string::*;

verus! {

/// What is known of one background task.
#[derive(Debug)]
pub enum Health {
    /// It has not ended yet.
    Alive,
    /// It ended without an error.
    Ended,
    /// It ended with this error.
    Broken(String),
}

/// What is known of the two background tasks of one tunnel.
pub struct Monitor {
    connection: Health,
    session: Health,
}

impl Monitor {
    /// What is known of the task that drives the connection.
    pub closed spec fn connection(self) -> Health {
        self.connection
    }

    /// What is known of the task that drives the session.
    pub closed spec fn session(self) -> Health {
        self.session
    }

    /// A monitor of two tasks that have just been started.
    pub fn new() -> (monitor: Monitor)
        ensures
            monitor.connection() == Health::Alive,
            monitor.session() == Health::Alive,
    {
        Monitor { connection: Health::Alive, session: Health::Alive }
    }

    /// Whether both tasks are still running.
    pub fn healthy(&self) -> (ok: bool)
        ensures
            ok == (self.connection() == Health::Alive && self.session() == Health::Alive),
    {
        matches!(self.connection, Health::Alive) && matches!(self.session, Health::Alive)
    }
}

/// The line that reports a failure of the connection.
pub open spec fn connection_report(text: Seq<char>) -> Seq<char> {
    "error in connection: "@ + text
}

/// The line that reports a failure of the session.
pub open spec fn session_report(text: Seq<char>) -> Seq<char> {
    "forwarder error "@ + text
}

/// Takes the end of the task that drives the connection. The first end is
/// recorded, and reported with a line if it was a failure; a task whose end is
/// recorded already is not reported again.
pub fn listen_conn_error(monitor: &mut Monitor, end: Result<(), hyper::Error>) -> (report: Option<
    String,
>)
    ensures
        final(monitor).session() == old(monitor).session(),
        match (old(monitor).connection(), end) {
            (Health::Alive, Ok(_)) => final(monitor).connection() == Health::Ended
                && report is None,
            (Health::Alive, Err(cause)) => final(monitor).connection() matches Health::Broken(text)
                && to_string_from_display_ensures(&cause, text) && (report matches Some(line)
                && line@ == connection_report(text@)),
            _ => final(monitor).connection() == old(monitor).connection() && report is None,
        },
{
    if !matches!(monitor.connection, Health::Alive) {
        return None;
    }
    match end {
        Ok(_) => {
            monitor.connection = Health::Ended;
            None
        },
        Err(cause) => {
            let text = cause.to_string();
            let line = String::from_str("error in connection: ").concat(text.as_str());
            monitor.connection = Health::Broken(text);
            Some(line)
        },
    }
}

/// Takes the end of the task that drives the session, a failure as the text
/// that the session gives for it. The first end is recorded, and reported with
/// a line if it was a failure; a task whose end is recorded already is not
/// reported again.
pub fn listen_forwarder_error(monitor: &mut Monitor, end: Result<(), String>) -> (report: Option<
    String,
>)
    ensures
        final(monitor).connection() == old(monitor).connection(),
        match (old(monitor).session(), end) {
            (Health::Alive, Ok(_)) => final(monitor).session() == Health::Ended
                && report is None,
            (Health::Alive, Err(text)) => final(monitor).session() == Health::Broken(text)
                && (report matches Some(line) && line@ == session_report(text@)),
            _ => final(monitor).session() == old(monitor).session() && report is None,
        },
{
    if !matches!(monitor.session, Health::Alive) {
        return None;
    }
    match end {
        Ok(_) => {
            monitor.session = Health::Ended;
            None
        },
        Err(text) => {
            let line = String::from_str("forwarder error ").concat(text.as_str());
            monitor.session = Health::Broken(text);
            Some(line)
        },
    }
}

} // verus!
