use futures_util::FutureExt;
use hyper::body::HttpBody;
use kubeforward::error::{KubeErr, TunnelError};
use kubeforward::listener::{
    classify, handle, outcome_of, Admission, Context, Event, Outcome, Phase, Reaction,
    CTRL_C_MSG, FAILURE_STATUS, LOCAL_ADDR, STOP_SERVER_MSG,
};

fn hyper_error() -> hyper::Error {
    let (sender, mut body) = hyper::Body::channel();
    sender.abort();
    body.data().now_or_never().unwrap().unwrap().unwrap_err()
}

fn closed_error() -> hyper::Error {
    let (io, _peer) = tokio::io::duplex(64);
    let (mut sender, connection) =
        hyper::client::conn::handshake(io).now_or_never().unwrap().unwrap();
    drop(connection);
    std::future::poll_fn(|cx| sender.poll_ready(cx)).now_or_never().unwrap().unwrap_err()
}

#[test]
fn outcome_follows_failure_and_closure() {
    assert_eq!(classify(false, false), Outcome::Answered);
    assert_eq!(classify(false, true), Outcome::Answered);
    assert_eq!(classify(true, false), Outcome::Failed);
    assert_eq!(classify(true, true), Outcome::Closed);
}

#[test]
fn outcome_of_what_the_sender_reported() {
    assert_eq!(outcome_of(None), Outcome::Answered);
    let aborted = hyper_error();
    assert!(!aborted.is_closed());
    assert_eq!(outcome_of(Some(&aborted)), Outcome::Failed);
    let closed = closed_error();
    assert!(closed.is_closed());
    assert_eq!(outcome_of(Some(&closed)), Outcome::Closed);
}

#[test]
fn listener_constants() {
    assert_eq!(STOP_SERVER_MSG, "Stopping port forwarding");
    assert_eq!(CTRL_C_MSG, "Use Ctrl-C / Cmd-C to stop the server");
    assert_eq!(LOCAL_ADDR, [127, 0, 0, 1]);
    assert_eq!(FAILURE_STATUS, 502);
}

#[test]
fn listens_on_loopback_at_the_chosen_port() {
    let endpoint = Context::new().port_forward_local(8080);
    assert_eq!(endpoint.address, [127, 0, 0, 1]);
    assert_eq!(endpoint.port, 8080);
}

#[test]
fn first_request_goes_on_the_wire_and_the_next_waits() {
    let mut context = Context::new();
    assert_eq!(context.phase(), Phase::Running);
    assert_eq!(context.accept(), Admission::Forward(0));
    assert_eq!(context.accept(), Admission::Wait(1));
    assert_eq!(context.accept(), Admission::Wait(2));
}

#[test]
fn two_requests_do_not_mix_on_the_wire() {
    let mut context = Context::new();
    let mut wire: Vec<String> = Vec::new();
    if let Admission::Forward(t) = context.accept() {
        wire.push(format!("request {}", t));
    }
    if let Admission::Forward(t) = context.accept() {
        wire.push(format!("request {}", t));
    }
    let done = context.complete(Outcome::Answered);
    wire.push(format!("reply {}", done.finished.unwrap()));
    if let Some(t) = done.forward {
        wire.push(format!("request {}", t));
    }
    let done = context.complete(Outcome::Answered);
    wire.push(format!("reply {}", done.finished.unwrap()));
    assert_eq!(done.forward, None);
    assert_eq!(wire, vec!["request 0", "reply 0", "request 1", "reply 1"]);
}

#[test]
fn waiting_requests_are_served_in_arrival_order() {
    let mut context = Context::new();
    for _ in 0..4 {
        context.accept();
    }
    let mut served = Vec::new();
    for _ in 0..4 {
        let done = context.complete(Outcome::Answered);
        served.push(done.finished.unwrap());
        assert!(done.dropped.is_empty());
    }
    assert_eq!(served, vec![0, 1, 2, 3]);
    let idle = context.complete(Outcome::Answered);
    assert_eq!(idle.finished, None);
    assert_eq!(idle.forward, None);
    assert!(!idle.stopped);
}

#[test]
fn failure_stays_with_its_request() {
    let mut context = Context::new();
    context.accept();
    context.accept();
    let done = context.complete(Outcome::Failed);
    assert_eq!(done.finished, Some(0));
    assert_eq!(done.forward, Some(1));
    assert!(done.dropped.is_empty());
    let done = context.complete(Outcome::Failed);
    assert_eq!(done.finished, Some(1));
    assert_eq!(context.accept(), Admission::Forward(2));
    assert_eq!(context.complete(Outcome::Answered).finished, Some(2));
    assert_eq!(context.phase(), Phase::Running);
}

#[test]
fn closed_tunnel_fails_all_that_follow() {
    let mut context = Context::new();
    context.accept();
    context.accept();
    context.accept();
    let done = context.complete(Outcome::Closed);
    assert_eq!(done.finished, Some(0));
    assert_eq!(done.forward, None);
    assert_eq!(done.dropped, vec![1, 2]);
    assert!(!done.stopped);
    assert_eq!(context.accept(), Admission::Refuse);
    assert_eq!(context.accept(), Admission::Refuse);
    assert_eq!(context.phase(), Phase::Running);
}

#[test]
fn interrupt_drains_then_stops() {
    let mut context = Context::new();
    context.accept();
    context.accept();
    context.accept();
    assert!(context.interrupt());
    assert_eq!(context.phase(), Phase::Draining);
    assert_eq!(context.accept(), Admission::Refuse);
    let done = context.complete(Outcome::Answered);
    assert_eq!((done.finished, done.forward, done.stopped), (Some(0), Some(1), false));
    assert_eq!(context.accept(), Admission::Refuse);
    let done = context.complete(Outcome::Failed);
    assert_eq!((done.finished, done.forward, done.stopped), (Some(1), Some(2), false));
    let done = context.complete(Outcome::Answered);
    assert_eq!((done.finished, done.forward, done.stopped), (Some(2), None, true));
    assert_eq!(context.phase(), Phase::Stopped);
    assert_eq!(context.accept(), Admission::Refuse);
}

#[test]
fn interrupt_of_an_idle_listener_stops_it() {
    let mut context = Context::new();
    assert!(context.interrupt());
    assert_eq!(context.phase(), Phase::Stopped);
}

#[test]
fn second_interrupt_has_no_effect() {
    let mut context = Context::new();
    context.accept();
    assert!(context.interrupt());
    assert!(!context.interrupt());
    assert_eq!(context.phase(), Phase::Draining);
    context.complete(Outcome::Answered);
    assert!(!context.interrupt());
    assert_eq!(context.phase(), Phase::Stopped);
}

#[test]
fn closed_tunnel_while_draining_stops() {
    let mut context = Context::new();
    context.accept();
    context.accept();
    context.interrupt();
    let done = context.complete(Outcome::Closed);
    assert_eq!(done.dropped, vec![1]);
    assert!(done.stopped);
    assert_eq!(context.phase(), Phase::Stopped);
}

#[test]
fn handle_takes_each_event() {
    let mut context = Context::new();
    assert!(matches!(
        handle(&mut context, Event::Arrived),
        Reaction::Admitted(Admission::Forward(0))
    ));
    assert!(matches!(
        handle(&mut context, Event::Arrived),
        Reaction::Admitted(Admission::Wait(1))
    ));
    assert!(matches!(handle(&mut context, Event::Interrupt), Reaction::Interrupted(true)));
    assert!(matches!(handle(&mut context, Event::Interrupt), Reaction::Interrupted(false)));
    assert!(matches!(handle(&mut context, Event::Arrived), Reaction::Admitted(Admission::Refuse)));
    match handle(&mut context, Event::Completed(Outcome::Answered)) {
        Reaction::Completed(done) => {
            assert_eq!(done.finished, Some(0));
            assert_eq!(done.forward, Some(1));
        },
        other => panic!("unexpected reaction {:?}", other),
    }
    match handle(&mut context, Event::Completed(Outcome::Failed)) {
        Reaction::Completed(done) => assert!(done.stopped),
        other => panic!("unexpected reaction {:?}", other),
    }
}

#[test]
fn bind_failure_is_fatal() {
    let mut context = Context::new();
    assert!(context.bound(Ok(())).is_ok());
    assert_eq!(context.phase(), Phase::Running);
    let cause = hyper_error();
    let text = cause.to_string();
    match context.bound(Err(cause)) {
        Err(KubeErr::Tunnel(TunnelError::BindFailed(msg))) => assert_eq!(msg, text),
        _ => panic!("expected BindFailed"),
    }
    assert_eq!(context.phase(), Phase::Stopped);
    assert_eq!(context.accept(), Admission::Refuse);
}

#[test]
fn listener_that_returned_has_stopped() {
    let mut context = Context::new();
    context.accept();
    assert!(context.served(Ok(())).is_ok());
    assert_eq!(context.phase(), Phase::Stopped);
    assert_eq!(context.complete(Outcome::Answered).finished, None);

    let mut context = Context::new();
    let cause = hyper_error();
    let text = cause.to_string();
    match context.served(Err(cause)) {
        Err(KubeErr::Network(msg)) => assert_eq!(msg, text),
        _ => panic!("expected Network"),
    }
    assert_eq!(context.phase(), Phase::Stopped);
}
