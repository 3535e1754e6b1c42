use fly::ids::runtime_id_text;
use fly::messaging::{CallError, CallStatus, MessagingProtocol, ServiceResponse};
use fly::registry::{CorrelationFailure, StandardRuntimeManager};
use fly::responses::EventKind;
use fly::runtime::RuntimeConfig;

const R1: u128 = 0x11;
const R2: u128 = 0x22;

fn running(ids: &[u128]) -> StandardRuntimeManager {
    let mut reg = StandardRuntimeManager::new();
    for id in ids {
        let config = RuntimeConfig { name: None, version: None, settings: None };
        reg.new_runtime_with_id(*id, config).unwrap();
        reg.mark_running(*id).unwrap();
    }
    reg
}

#[test]
fn call_to_unbound_service_dispatches_nothing() {
    let mut reg = running(&[R1, R2]);
    let mut proto = MessagingProtocol::new(100);
    let r = proto.call_service(&mut reg, R1, "billing", "P".to_string(), 0);
    assert_eq!(r.err(), Some(CallError::UnknownDestination));
    assert_eq!(proto.ids.next, 0);
    assert!(reg.pending(R1, 0).is_none());
    assert!(reg.pending(R2, 0).is_none());
}

#[test]
fn call_to_self_is_rejected_before_dispatch() {
    let mut reg = running(&[R1]);
    reg.bind_servicename_to(R1, "billing").unwrap();
    let mut proto = MessagingProtocol::new(100);
    let r = proto.call_service(&mut reg, R1, "billing", "P".to_string(), 0);
    assert_eq!(r.err(), Some(CallError::SelfCallRejected));
    assert_eq!(proto.ids.next, 0);
    assert!(reg.pending(R1, 0).is_none());
}

#[test]
fn call_to_a_runtime_not_taking_events_fails() {
    let mut reg = running(&[R1]);
    let config = RuntimeConfig { name: None, version: None, settings: None };
    reg.new_runtime_with_id(R2, config).unwrap();
    reg.bind_servicename_to(R2, "billing").unwrap();
    let mut proto = MessagingProtocol::new(100);
    let r = proto.call_service(&mut reg, R1, "billing", "P".to_string(), 0);
    assert_eq!(r.err(), Some(CallError::NotAccepting(R2)));
    assert_eq!(proto.ids.next, 0);
}

#[test]
fn service_request_carries_id_caller_and_payload() {
    let mut reg = running(&[R1, R2]);
    reg.bind_servicename_to(R2, "billing").unwrap();
    let mut proto = MessagingProtocol::new(100);
    let req = proto.call_service(&mut reg, R1, "billing", "payload".to_string(), 40).unwrap();
    assert_eq!(req.id, 0);
    assert_eq!(req.destination, R2);
    assert_eq!(req.sender, runtime_id_text(R1));
    assert_eq!(req.sender, "00000000000000000000000000000011");
    assert_eq!(req.data, "payload");
    let owed = reg.pending(R2, 0).unwrap();
    assert_eq!((owed.kind, owed.caller, owed.deadline), (EventKind::Service, Some(R1), 140));
    assert_eq!(proto.ids.next, 1);
}

#[test]
fn payload_survives_the_round_trip() {
    let mut reg = running(&[R1, R2]);
    reg.bind_servicename_to(R2, "echo").unwrap();
    let mut proto = MessagingProtocol::new(100);
    let payload = "{\"bytes\":\"\\u0000\\u00ff é\"}".to_string();
    let req = proto.call_service(&mut reg, R1, "echo", payload.clone(), 0).unwrap();
    let answer = ServiceResponse { success: true, data: Some(req.data.clone()) };
    let d = MessagingProtocol::deliver_service_response(&mut reg, req.destination, req.id, answer).unwrap();
    assert_eq!(d.id, req.id);
    assert_eq!(d.caller, Some(R1));
    assert!(d.response.success);
    assert_eq!(d.response.data, Some(payload));
}

#[test]
fn second_response_for_an_id_is_refused() {
    let mut reg = running(&[R1, R2]);
    reg.bind_servicename_to(R2, "billing").unwrap();
    let mut proto = MessagingProtocol::new(100);
    let req = proto.call_service(&mut reg, R1, "billing", "q".to_string(), 0).unwrap();
    let first = ServiceResponse { success: true, data: Some("first".to_string()) };
    let second = ServiceResponse { success: false, data: Some("second".to_string()) };
    let d = MessagingProtocol::deliver_service_response(&mut reg, R2, req.id, first).unwrap();
    assert_eq!(d.response.data.as_deref(), Some("first"));
    assert!(d.response.success);
    let again = MessagingProtocol::deliver_service_response(&mut reg, R2, req.id, second);
    assert_eq!(again.err(), Some(CorrelationFailure::NoReceiver(req.id)));
    assert_eq!(d.response.data.as_deref(), Some("first"));
}

#[test]
fn response_for_a_listener_event_is_not_a_service_response() {
    let mut reg = running(&[R1]);
    let mut proto = MessagingProtocol::new(100);
    assert_eq!(proto.dispatch_event(&mut reg, R1, EventKind::Dns, 0), Some(Ok(0)));
    let answer = ServiceResponse { success: true, data: None };
    let r = MessagingProtocol::deliver_service_response(&mut reg, R1, 0, answer);
    assert_eq!(r.err(), Some(CorrelationFailure::WrongKind(0)));
    assert_eq!(reg.pending(R1, 0).map(|e| (e.caller, e.deadline)), Some((None, 100)));
}

#[test]
fn hung_destination_times_out() {
    let mut reg = running(&[R1, R2]);
    reg.bind_servicename_to(R2, "billing").unwrap();
    let mut proto = MessagingProtocol::new(500);
    let req = proto.call_service(&mut reg, R1, "billing", "q".to_string(), 1000).unwrap();
    assert_eq!(MessagingProtocol::poll_call(&mut reg, R2, req.id, 1000), Ok(CallStatus::Waiting));
    assert_eq!(MessagingProtocol::poll_call(&mut reg, R2, req.id, 1499), Ok(CallStatus::Waiting));
    assert_eq!(MessagingProtocol::poll_call(&mut reg, R2, req.id, 1500), Err(CallError::Timeout(req.id)));
    let late = ServiceResponse { success: true, data: None };
    let r = MessagingProtocol::deliver_service_response(&mut reg, R2, req.id, late);
    assert_eq!(r.err(), Some(CorrelationFailure::NoReceiver(req.id)));
    assert_eq!(MessagingProtocol::poll_call(&mut reg, R2, req.id, 2000), Ok(CallStatus::Settled));
}

#[test]
fn answered_call_is_settled() {
    let mut reg = running(&[R1, R2]);
    reg.bind_servicename_to(R2, "billing").unwrap();
    let mut proto = MessagingProtocol::new(500);
    let req = proto.call_service(&mut reg, R1, "billing", "q".to_string(), 0).unwrap();
    let answer = ServiceResponse { success: true, data: None };
    MessagingProtocol::deliver_service_response(&mut reg, R2, req.id, answer).unwrap();
    assert_eq!(MessagingProtocol::poll_call(&mut reg, R2, req.id, 10_000), Ok(CallStatus::Settled));
}

#[test]
fn deadline_is_held_at_the_largest_instant() {
    let proto = MessagingProtocol::new(500);
    assert_eq!(proto.deadline(10), 510);
    assert_eq!(proto.deadline(u64::MAX - 1), u64::MAX);
}

#[test]
fn delivery_to_an_unknown_runtime_is_refused() {
    let mut reg = running(&[R1]);
    let answer = ServiceResponse { success: true, data: None };
    let r = MessagingProtocol::deliver_service_response(&mut reg, R2, 0, answer);
    assert_eq!(r.err(), Some(CorrelationFailure::UnknownRuntime(R2)));
}
