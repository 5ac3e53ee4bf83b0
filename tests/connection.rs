use tinker::connection::{
    step, CloseReason, DecodePolicy, Received, ShutdownCoordinator, TaskAction, TaskEvent, TaskState,
};
use tinker::message::Message;
use tinker::queries::AccountKey;
use tinker::state::ConnectionState;

#[test]
fn handshake_outcomes() {
    let (s, a) = step(TaskState::Handshaking, TaskEvent::Connected, DecodePolicy::Strict);
    assert_eq!(s, TaskState::Receiving);
    assert!(matches!(a, TaskAction::MarkRunning));
    let (s, a) = step(TaskState::Handshaking, TaskEvent::ConnectFailed, DecodePolicy::Strict);
    assert_eq!(s, TaskState::Closed(CloseReason::ConnectFailed));
    assert!(matches!(a, TaskAction::Stop));
}

#[test]
fn a_full_cycle() {
    let p = DecodePolicy::Strict;
    let (s, a) = step(TaskState::Receiving, TaskEvent::Received(Received::Message(Message::movement(3, 2, 1, 1))), p);
    assert_eq!(s, TaskState::Sending);
    match a {
        TaskAction::Deliver(m) => assert_eq!(m.header.account_id, 3),
        _ => panic!("expected delivery"),
    }
    let (s, _) = step(s, TaskEvent::Sent, p);
    assert_eq!(s, TaskState::Checking);
    let (s, a) = step(s, TaskEvent::Checked { shutdown_requested: false }, p);
    assert_eq!(s, TaskState::Receiving);
    assert!(matches!(a, TaskAction::Proceed));
}

#[test]
fn timeout_still_sends() {
    let (s, a) = step(TaskState::Receiving, TaskEvent::Received(Received::Nothing), DecodePolicy::Strict);
    assert_eq!(s, TaskState::Sending);
    assert!(matches!(a, TaskAction::Proceed));
    let (s, _) = step(TaskState::Receiving, TaskEvent::Received(Received::OtherFrame), DecodePolicy::Strict);
    assert_eq!(s, TaskState::Sending);
}

#[test]
fn malformed_frame_by_policy() {
    let (s, _) = step(TaskState::Receiving, TaskEvent::Received(Received::Malformed), DecodePolicy::Strict);
    assert_eq!(s, TaskState::Closed(CloseReason::DecodeFailed));
    let (s, a) = step(TaskState::Receiving, TaskEvent::Received(Received::Malformed), DecodePolicy::Tolerant);
    assert_eq!(s, TaskState::Sending);
    assert!(matches!(a, TaskAction::Proceed));
}

#[test]
fn transport_failures_close() {
    let (s, _) = step(TaskState::Receiving, TaskEvent::Received(Received::Failed), DecodePolicy::Tolerant);
    assert_eq!(s, TaskState::Closed(CloseReason::TransportFailed));
    let (s, _) = step(TaskState::Receiving, TaskEvent::Received(Received::Ended), DecodePolicy::Tolerant);
    assert_eq!(s, TaskState::Closed(CloseReason::PeerClosed));
    let (s, a) = step(TaskState::Sending, TaskEvent::SendFailed, DecodePolicy::Tolerant);
    assert_eq!(s, TaskState::Closed(CloseReason::TransportFailed));
    assert!(matches!(a, TaskAction::Stop));
}

#[test]
fn closed_stays_closed() {
    let closed = TaskState::Closed(CloseReason::Shutdown);
    let (s, a) = step(closed, TaskEvent::Connected, DecodePolicy::Strict);
    assert_eq!(s, closed);
    assert!(matches!(a, TaskAction::Stop));
}

#[test]
fn out_of_phase_event_changes_nothing() {
    let (s, a) = step(TaskState::Sending, TaskEvent::Connected, DecodePolicy::Strict);
    assert_eq!(s, TaskState::Sending);
    assert!(matches!(a, TaskAction::Proceed));
}

#[test]
fn shutdown_while_running_waits_for_ack() {
    let mut c = ShutdownCoordinator::new();
    c.mark_running();
    assert!(c.request_shutdown());
    assert!(c.shutdown_requested());
    assert!(!c.may_exit());
    let (s, a) = step(TaskState::Checking, TaskEvent::Checked { shutdown_requested: c.shutdown_requested() }, DecodePolicy::Strict);
    assert_eq!(s, TaskState::Closed(CloseReason::Shutdown));
    assert!(matches!(a, TaskAction::CloseAndAcknowledge));
    c.acknowledge();
    assert!(c.may_exit());
}

#[test]
fn shutdown_before_running_returns_at_once() {
    let mut c = ShutdownCoordinator::new();
    assert!(!c.request_shutdown());
    assert!(!c.shutdown_requested());
    assert!(!c.is_running());
    assert!(c.may_exit());
}

#[test]
fn login_opens_session() {
    let st = ConnectionState::from_key(AccountKey { id: 4, name: "Ann".to_string(), token: "abc".to_string() });
    assert_eq!(st.id, 4);
    assert_eq!(st.username, "Ann");
    assert_eq!(st.token.as_deref(), Some("abc"));
    assert!(st.should_connect());
    assert!(!ConnectionState::default().should_connect());
}
