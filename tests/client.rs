use clientconn_bridge::client::{hyper_clientconn_free, hyper_clientconn_handshake, hyper_clientconn_send};
use clientconn_bridge::exec::Executors;
use clientconn_bridge::options::{
    hyper_clientconn_options_exec, hyper_clientconn_options_http2, hyper_clientconn_options_new,
    hyper_clientconn_options_set_preserve_header_case,
    hyper_clientconn_options_set_preserve_header_order,
};
use clientconn_bridge::task::hyper_task_free;
use clientconn_bridge::{
    hyper_clientconn, hyper_clientconn_options, hyper_code, hyper_io, hyper_request, hyper_response,
    hyper_task, hyper_task_return_type, Dispatch, HandshakeEvent, Http1Sender, Protocol, SendEvent,
    TaskState, TaskValue, TaskWork, Tx,
};

fn options_on(execs: &mut Executors, id: usize) -> Option<hyper_clientconn_options> {
    let mut o = Some(hyper_clientconn_options_new());
    hyper_clientconn_options_exec(&mut o, execs, Some(id));
    o
}

fn connect(execs: &mut Executors, o: Option<hyper_clientconn_options>, agreed: Protocol) -> hyper_clientconn {
    let mut task = hyper_clientconn_handshake(Some(hyper_io { id: 3 }), o, execs).unwrap();
    assert!(task.poll_handshake(HandshakeEvent::Established(agreed), execs));
    match task.hyper_task_value() {
        Some(TaskValue::ClientConn(c)) => c,
        _ => panic!("the handshake did not yield a connection"),
    }
}

fn request(uri: &str) -> hyper_request {
    hyper_request::new("GET".to_string(), uri.to_string())
}

#[test]
fn handshake_yields_a_protocol1_connection_and_spawns_its_driver() {
    let mut execs = Executors::new();
    let id = execs.hyper_executor_new();
    let o = options_on(&mut execs, id);
    let mut task = hyper_clientconn_handshake(Some(hyper_io { id: 1 }), o, &mut execs).unwrap();
    assert_eq!(task.hyper_task_type(), hyper_task_return_type::HYPER_TASK_CLIENTCONN);
    assert_eq!(task.handshake_protocol(), Some(Protocol::Http1));
    assert!(!task.poll_handshake(HandshakeEvent::Pending, &mut execs));
    assert!(!task.is_ready());
    assert_eq!(execs.slot(id).drivers, 0);
    assert!(task.poll_handshake(HandshakeEvent::Established(Protocol::Http1), &mut execs));
    assert!(task.is_ready());
    assert_eq!(task.hyper_task_type(), hyper_task_return_type::HYPER_TASK_CLIENTCONN);
    let s = execs.slot(id);
    assert_eq!((s.strong, s.weak, s.drivers), (1, 0, 1));
    match task.hyper_task_value() {
        Some(TaskValue::ClientConn(c)) => {
            assert_eq!(c.protocol(), Protocol::Http1);
            assert_eq!(c.driver, Some(id));
            assert_eq!(c.as_task_type(), hyper_task_return_type::HYPER_TASK_CLIENTCONN);
        }
        _ => panic!("expected a connection"),
    }
    assert_eq!(task.hyper_task_type(), hyper_task_return_type::HYPER_TASK_EMPTY);
    assert!(task.hyper_task_value().is_none());
}

#[test]
fn handshake_yields_a_protocol2_connection_when_asked() {
    let mut execs = Executors::new();
    let id = execs.hyper_executor_new();
    let mut o = options_on(&mut execs, id);
    assert_eq!(hyper_clientconn_options_http2(&mut o, 1), hyper_code::HYPERE_OK);
    let c = connect(&mut execs, o, Protocol::Http2);
    assert_eq!(c.protocol(), Protocol::Http2);
    assert_eq!(c.tx, Tx::Http2);
}

#[test]
fn protocol2_against_a_protocol1_peer_fails_the_handshake() {
    let mut execs = Executors::new();
    let id = execs.hyper_executor_new();
    let mut o = options_on(&mut execs, id);
    hyper_clientconn_options_http2(&mut o, 1);
    let mut task = hyper_clientconn_handshake(Some(hyper_io { id: 1 }), o, &mut execs).unwrap();
    assert_eq!(task.handshake_protocol(), Some(Protocol::Http2));
    assert!(task.poll_handshake(HandshakeEvent::Established(Protocol::Http1), &mut execs));
    assert_eq!(task.hyper_task_type(), hyper_task_return_type::HYPER_TASK_ERROR);
    assert!(matches!(task.hyper_task_value(), Some(TaskValue::Error(hyper_code::HYPERE_HANDSHAKE_FAILED))));
    let s = execs.slot(id);
    assert_eq!((s.strong, s.weak, s.drivers), (1, 0, 0));
}

#[test]
fn a_failed_transport_fails_the_handshake() {
    let mut execs = Executors::new();
    let o = Some(hyper_clientconn_options_new());
    let mut task = hyper_clientconn_handshake(Some(hyper_io { id: 1 }), o, &mut execs).unwrap();
    assert!(task.poll_handshake(HandshakeEvent::Failed, &mut execs));
    assert!(matches!(task.hyper_task_value(), Some(TaskValue::Error(hyper_code::HYPERE_HANDSHAKE_FAILED))));
}

#[test]
fn handshake_with_an_absent_input_gives_no_task() {
    let mut execs = Executors::new();
    let id = execs.hyper_executor_new();
    let o = options_on(&mut execs, id);
    assert_eq!(execs.slot(id).weak, 1);
    assert!(hyper_clientconn_handshake(None, o, &mut execs).is_none());
    assert_eq!(execs.slot(id).weak, 0);
    assert!(hyper_clientconn_handshake(Some(hyper_io { id: 1 }), None, &mut execs).is_none());
    assert_eq!(execs.slot(id).strong, 1);
}

#[test]
fn dropping_a_pending_handshake_leaves_no_driver() {
    let mut execs = Executors::new();
    let id = execs.hyper_executor_new();
    let before = execs.slot(id);
    let o = options_on(&mut execs, id);
    let mut task = hyper_clientconn_handshake(Some(hyper_io { id: 1 }), o, &mut execs).unwrap();
    assert!(!task.poll_handshake(HandshakeEvent::Pending, &mut execs));
    hyper_task_free(task, &mut execs);
    assert_eq!(execs.slot(id), before);
    assert_eq!(execs.slot(id).drivers, 0);
}

#[test]
fn two_sends_on_one_connection_both_resolve() {
    let mut execs = Executors::new();
    let id = execs.hyper_executor_new();
    let o = options_on(&mut execs, id);
    let c = connect(&mut execs, o, Protocol::Http1);
    let mut first = hyper_clientconn_send(Some(&c), Some(request("/a")), &execs).unwrap();
    let mut second = hyper_clientconn_send(Some(&c), Some(request("/b")), &execs).unwrap();
    assert_eq!(first.hyper_task_type(), hyper_task_return_type::HYPER_TASK_RESPONSE);
    assert!(!first.poll_send(SendEvent::Pending));
    assert!(first.poll_send(SendEvent::Responded(hyper_response::wrap(200, Vec::new()))));
    assert!(second.poll_send(SendEvent::Responded(hyper_response::wrap(204, Vec::new()))));
    match (first.hyper_task_value(), second.hyper_task_value()) {
        (Some(TaskValue::Response(a)), Some(TaskValue::Response(b))) => {
            assert_eq!(a.status(), 200);
            assert_eq!(b.status(), 204);
        }
        _ => panic!("expected two responses"),
    }
}

#[test]
fn a_failed_send_resolves_with_the_send_failure() {
    let mut execs = Executors::new();
    let id = execs.hyper_executor_new();
    let o = options_on(&mut execs, id);
    let c = connect(&mut execs, o, Protocol::Http1);
    let mut t = hyper_clientconn_send(Some(&c), Some(request("/")), &execs).unwrap();
    assert!(t.poll_send(SendEvent::Failed));
    assert_eq!(t.hyper_task_type(), hyper_task_return_type::HYPER_TASK_ERROR);
    assert!(matches!(t.hyper_task_value(), Some(TaskValue::Error(hyper_code::HYPERE_SEND_FAILED))));
}

#[test]
fn send_with_an_absent_input_gives_no_task() {
    let mut execs = Executors::new();
    let id = execs.hyper_executor_new();
    let o = options_on(&mut execs, id);
    let c = connect(&mut execs, o, Protocol::Http1);
    assert!(hyper_clientconn_send(None, Some(request("/")), &execs).is_none());
    assert!(hyper_clientconn_send(Some(&c), None, &execs).is_none());
    hyper_clientconn_free(Some(c));
}

#[test]
fn header_case_and_order_reach_the_protocol1_sender() {
    let mut execs = Executors::new();
    let id = execs.hyper_executor_new();
    let mut o = options_on(&mut execs, id);
    hyper_clientconn_options_set_preserve_header_case(&mut o, 1);
    hyper_clientconn_options_set_preserve_header_order(&mut o, 1);
    let c = connect(&mut execs, o, Protocol::Http1);
    let mut r = request("/");
    r.add_header("X-Custom-Header".to_string(), "1".to_string());
    r.add_header("host".to_string(), "example.com".to_string());
    r.add_header("Accept".to_string(), "*/*".to_string());
    assert_eq!(r.header_count(), 3);
    assert!(!r.finalized);
    let t = hyper_clientconn_send(Some(&c), Some(r), &execs).unwrap();
    match t.state {
        TaskState::Pending(TaskWork::Send { dispatch: Dispatch::Http1(s, fr) }) => {
            assert_eq!(
                s,
                Http1Sender {
                    allow_obsolete_multiline_headers: false,
                    preserve_header_case: true,
                    preserve_header_order: true
                }
            );
            assert!(fr.finalized);
            let names: Vec<&str> = fr.headers.iter().map(|h| h.0.as_str()).collect();
            assert_eq!(names, vec!["X-Custom-Header", "host", "Accept"]);
            assert_eq!(fr.headers[1].1, "example.com");
            assert_eq!(fr.uri, "/");
        }
        _ => panic!("expected a protocol-1 dispatch"),
    }
}

#[test]
fn a_protocol2_connection_dispatches_to_its_sender() {
    let mut execs = Executors::new();
    let id = execs.hyper_executor_new();
    let mut o = options_on(&mut execs, id);
    hyper_clientconn_options_http2(&mut o, 1);
    let c = connect(&mut execs, o, Protocol::Http2);
    let t = hyper_clientconn_send(Some(&c), Some(request("/x")), &execs).unwrap();
    assert!(matches!(t.state, TaskState::Pending(TaskWork::Send { dispatch: Dispatch::Http2(_) })));
}

#[test]
fn send_fails_fast_once_the_executor_is_gone() {
    let mut execs = Executors::new();
    let id = execs.hyper_executor_new();
    let o = options_on(&mut execs, id);
    let c = connect(&mut execs, o, Protocol::Http1);
    execs.hyper_executor_free(id);
    assert_eq!(execs.slot(id).drivers, 0);
    let mut t = hyper_clientconn_send(Some(&c), Some(request("/")), &execs).unwrap();
    assert!(t.is_ready());
    assert!(t.poll_send(SendEvent::Responded(hyper_response::wrap(200, Vec::new()))));
    assert!(matches!(t.hyper_task_value(), Some(TaskValue::Error(hyper_code::HYPERE_SEND_FAILED))));
}

#[test]
fn a_handshake_without_a_live_executor_spawns_no_driver() {
    let mut execs = Executors::new();
    let id = execs.hyper_executor_new();
    let o = options_on(&mut execs, id);
    execs.hyper_executor_free(id);
    let c = connect(&mut execs, o, Protocol::Http1);
    assert_eq!(c.driver, None);
    assert_eq!(execs.slot(id).drivers, 0);
    assert_eq!(execs.slot(id).weak, 0);
    let t: hyper_task = hyper_clientconn_send(Some(&c), Some(request("/")), &execs).unwrap();
    assert_eq!(t.hyper_task_type(), hyper_task_return_type::HYPER_TASK_ERROR);
}

#[test]
fn polling_with_the_other_kind_of_event_changes_nothing() {
    let mut execs = Executors::new();
    let id = execs.hyper_executor_new();
    let o = options_on(&mut execs, id);
    let mut hs = hyper_clientconn_handshake(Some(hyper_io { id: 1 }), o, &mut execs).unwrap();
    assert!(!hs.poll_send(SendEvent::Failed));
    assert_eq!(hs.hyper_task_type(), hyper_task_return_type::HYPER_TASK_CLIENTCONN);
    assert!(hs.hyper_task_value().is_none());
    let o2 = options_on(&mut execs, id);
    let c = connect(&mut execs, o2, Protocol::Http1);
    let mut st = hyper_clientconn_send(Some(&c), Some(request("/")), &execs).unwrap();
    assert!(!st.poll_handshake(HandshakeEvent::Failed, &mut execs));
    assert_eq!(st.hyper_task_type(), hyper_task_return_type::HYPER_TASK_RESPONSE);
}
