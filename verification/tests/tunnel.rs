use futures_util::FutureExt;
use hyper::body::HttpBody;
use kubeforward::error::{KubeErr, TunnelError};
use kubeforward::tunnel::{Event, Stage, Step, Tunnel};

fn hyper_error() -> hyper::Error {
    let (sender, mut body) = hyper::Body::channel();
    sender.abort();
    body.data().now_or_never().unwrap().unwrap().unwrap_err()
}

fn tunnel() -> Tunnel {
    Tunnel::new("foo".to_owned(), "default".to_owned(), 3000, 8080)
}

#[test]
fn tunnel_opens_in_three_steps() {
    let mut t = tunnel();
    assert!(matches!(t.step(), Step::OpenStream { port: 3000, .. }));
    assert!(matches!(t.advance(Event::Stream(Ok(true))), Step::Handshake));
    assert_eq!(t.current_stage(), Stage::Handshaking);
    assert!(matches!(t.advance(Event::Handshake(Ok(()))), Step::Serve { user_port: 8080 }));
    assert_eq!(t.current_stage(), Stage::Ready);
}

#[test]
fn missing_stream_fails_the_tunnel() {
    let mut t = tunnel();
    let step = t.advance(Event::Stream(Ok(false)));
    assert!(matches!(
        step,
        Step::GiveUp(KubeErr::Tunnel(TunnelError::StreamUnavailable(None)))
    ));
    assert_eq!(t.current_stage(), Stage::Failed);
}

#[test]
fn refused_stream_fails_the_tunnel_with_the_cause() {
    let mut t = tunnel();
    let step = t.advance(Event::Stream(Err(kube::Error::LinesCodecMaxLineLengthExceeded)));
    match step {
        Step::GiveUp(KubeErr::Tunnel(TunnelError::StreamUnavailable(Some(msg)))) => {
            assert_eq!(msg, "Error finding newline character")
        },
        other => panic!("unexpected step {:?}", other),
    }
}

#[test]
fn failed_handshake_fails_the_tunnel_with_the_cause() {
    let mut t = tunnel();
    t.advance(Event::Stream(Ok(true)));
    let cause = hyper_error();
    let text = cause.to_string();
    match t.advance(Event::Handshake(Err(cause))) {
        Step::GiveUp(KubeErr::Tunnel(TunnelError::HandshakeFailed(msg))) => assert_eq!(msg, text),
        other => panic!("unexpected step {:?}", other),
    }
    assert_eq!(t.current_stage(), Stage::Failed);
}

#[test]
fn reports_out_of_turn_change_nothing() {
    let mut t = tunnel();
    assert!(matches!(t.advance(Event::Handshake(Ok(()))), Step::OpenStream { .. }));
    assert!(matches!(t.advance(Event::Handshake(Err(hyper_error()))), Step::OpenStream { .. }));
    t.advance(Event::Stream(Ok(true)));
    assert!(matches!(t.advance(Event::Stream(Ok(false))), Step::Handshake));
    t.advance(Event::Handshake(Ok(())));
    assert!(matches!(t.advance(Event::Stream(Ok(false))), Step::Serve { user_port: 8080 }));
    assert!(matches!(t.advance(Event::Handshake(Err(hyper_error()))), Step::Serve { .. }));
}

#[test]
fn failed_tunnel_stays_failed() {
    let mut t = tunnel();
    t.advance(Event::Stream(Ok(false)));
    assert!(matches!(t.advance(Event::Stream(Ok(true))), Step::GiveUp(_)));
    assert!(matches!(t.advance(Event::Handshake(Ok(()))), Step::GiveUp(_)));
    assert_eq!(t.current_stage(), Stage::Failed);
}

#[test]
fn copy_of_a_failure_keeps_kind_and_text() {
    assert!(matches!(TunnelError::NoSelection.clone(), TunnelError::NoSelection));
    match TunnelError::BindFailed("in use".to_owned()).clone() {
        TunnelError::BindFailed(msg) => assert_eq!(msg, "in use"),
        other => panic!("unexpected error {:?}", other),
    }
    match TunnelError::StreamUnavailable(Some("gone".to_owned())).clone() {
        TunnelError::StreamUnavailable(Some(msg)) => assert_eq!(msg, "gone"),
        other => panic!("unexpected error {:?}", other),
    }
}
