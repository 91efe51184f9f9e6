use futures_util::FutureExt;
use hyper::body::HttpBody;
use kubeforward::monitor::{listen_conn_error, listen_forwarder_error, Monitor};

fn hyper_error() -> hyper::Error {
    let (sender, mut body) = hyper::Body::channel();
    sender.abort();
    body.data().now_or_never().unwrap().unwrap().unwrap_err()
}

#[test]
fn new_monitor_is_healthy() {
    assert!(Monitor::new().healthy());
}

#[test]
fn connection_failure_is_reported_once() {
    let mut monitor = Monitor::new();
    let cause = hyper_error();
    let text = cause.to_string();
    let report = listen_conn_error(&mut monitor, Err(cause));
    assert_eq!(report, Some(format!("error in connection: {}", text)));
    assert!(!monitor.healthy());
    assert_eq!(listen_conn_error(&mut monitor, Err(hyper_error())), None);
    assert_eq!(listen_conn_error(&mut monitor, Ok(())), None);
}

#[test]
fn connection_end_without_error_is_silent() {
    let mut monitor = Monitor::new();
    assert_eq!(listen_conn_error(&mut monitor, Ok(())), None);
    assert!(!monitor.healthy());
    assert_eq!(listen_conn_error(&mut monitor, Err(hyper_error())), None);
}

#[test]
fn session_failure_is_reported_once() {
    let mut monitor = Monitor::new();
    let report = listen_forwarder_error(&mut monitor, Err("websocket closed".to_owned()));
    assert_eq!(report, Some("forwarder error websocket closed".to_owned()));
    assert_eq!(listen_forwarder_error(&mut monitor, Err("again".to_owned())), None);
    assert!(!monitor.healthy());
}

#[test]
fn the_two_tasks_are_watched_apart() {
    let mut monitor = Monitor::new();
    assert_eq!(listen_forwarder_error(&mut monitor, Ok(())), None);
    let report = listen_conn_error(&mut monitor, Err(hyper_error()));
    assert!(report.unwrap().starts_with("error in connection: "));
    assert_eq!(listen_forwarder_error(&mut monitor, Err("late".to_owned())), None);
}
