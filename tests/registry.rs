use fly::ids::{StreamIdCounter, runtime_id_text};
use fly::registry::{CorrelationFailure, DispatchError, InfoError, RuntimeManagerError, StandardRuntimeManager};
use fly::responses::EventKind;
use fly::runtime::{RuntimeConfig, RuntimeState};

fn config(name: &str) -> RuntimeConfig {
    RuntimeConfig { name: Some(name.to_string()), version: Some("1".to_string()), settings: None }
}

fn registry_with(ids: &[u128]) -> StandardRuntimeManager {
    let mut reg = StandardRuntimeManager::new();
    for id in ids {
        assert_eq!(reg.new_runtime_with_id(*id, config(&format!("rt{}", id))), Ok(*id));
    }
    reg
}

#[test]
fn last_hostname_bind_wins() {
    let mut reg = registry_with(&[1, 2]);
    assert_eq!(reg.bind_hostname_to(1, "a.example.com"), Ok(()));
    assert_eq!(reg.get_by_hostname("a.example.com").map(|r| r.id), Some(1));
    assert_eq!(reg.bind_hostname_to(2, "a.example.com"), Ok(()));
    assert_eq!(reg.get_by_hostname("a.example.com").map(|r| r.id), Some(2));
    assert!(reg.get_by_hostname("b.example.com").is_none());
}

#[test]
fn last_servicename_bind_wins() {
    let mut reg = registry_with(&[1, 2]);
    assert_eq!(reg.bind_servicename_to(2, "billing"), Ok(()));
    assert_eq!(reg.bind_servicename_to(1, "billing"), Ok(()));
    assert_eq!(reg.get_by_servicename("billing").map(|r| r.id), Some(1));
    assert_eq!(reg.uuid_by_servicename("billing"), Some(1));
    assert_eq!(reg.uuid_by_servicename("auth"), None);
}

#[test]
fn binding_an_unknown_runtime_is_refused() {
    let mut reg = registry_with(&[1]);
    assert_eq!(reg.bind_hostname_to(9, "a.example.com"), Err(RuntimeManagerError::UnknownRuntime(9)));
    assert_eq!(reg.bind_servicename_to(9, "billing"), Err(RuntimeManagerError::UnknownRuntime(9)));
    assert!(reg.get_by_hostname("a.example.com").is_none());
    assert!(reg.get_by_servicename("billing").is_none());
}

#[test]
fn names_never_outlive_their_runtime() {
    let mut reg = registry_with(&[1, 2]);
    reg.bind_hostname_to(1, "a.example.com").unwrap();
    reg.bind_hostname_to(2, "b.example.com").unwrap();
    reg.bind_servicename_to(1, "billing").unwrap();
    assert!(reg.remove_runtime(1).is_ok());
    assert!(reg.get_by_uuid(1).is_none());
    assert!(reg.get_by_hostname("a.example.com").is_none());
    assert!(reg.get_by_servicename("billing").is_none());
    assert_eq!(reg.get_by_hostname("b.example.com").map(|r| r.id), Some(2));
}

#[test]
fn duplicate_runtime_id_is_refused() {
    let mut reg = registry_with(&[7]);
    assert_eq!(reg.new_runtime_with_id(7, config("other")), Err(RuntimeManagerError::DuplicateId(7)));
    assert_eq!(reg.get_by_uuid(7).and_then(|r| r.name.clone()), Some("rt7".to_string()));
}

#[test]
fn new_runtime_draws_a_fresh_id() {
    let mut reg = StandardRuntimeManager::new();
    let a = reg.new_runtime(config("a")).unwrap();
    let b = reg.new_runtime(config("b")).unwrap();
    assert_ne!(a, b);
    let rt = reg.get_by_uuid(a).unwrap();
    assert_eq!(rt.id, a);
    assert_eq!(rt.name.as_deref(), Some("a"));
    assert_eq!(rt.state, RuntimeState::Created);
}

#[test]
fn removing_a_runtime_hands_back_what_it_owed() {
    let mut reg = registry_with(&[1]);
    let mut ids = StreamIdCounter::new();
    reg.mark_running(1).unwrap();
    assert_eq!(reg.dispatch(&mut ids, 1, EventKind::Dns, None, 10), Some(Ok(0)));
    assert_eq!(reg.dispatch(&mut ids, 1, EventKind::Http, Some(5), 20), Some(Ok(1)));
    let mut owed = reg.remove_runtime(1).unwrap();
    owed.sort_by_key(|e| e.id);
    assert_eq!(owed.len(), 2);
    assert_eq!((owed[0].id, owed[0].kind, owed[0].caller, owed[0].deadline), (0, EventKind::Dns, None, 10));
    assert_eq!((owed[1].id, owed[1].kind, owed[1].caller, owed[1].deadline), (1, EventKind::Http, Some(5), 20));
}

#[test]
fn removing_an_unknown_runtime_is_refused() {
    let mut reg = registry_with(&[1]);
    assert_eq!(reg.remove_runtime(2).err(), Some(RuntimeManagerError::UnknownRuntime(2)));
    assert!(reg.get_by_uuid(1).is_some());
}

#[test]
fn lifecycle_changes_need_a_registered_runtime() {
    let mut reg = registry_with(&[1]);
    assert_eq!(reg.mark_running(3), Err(RuntimeManagerError::UnknownRuntime(3)));
    assert_eq!(reg.mark_stopping(3), Err(RuntimeManagerError::UnknownRuntime(3)));
    assert_eq!(reg.mark_running(1), Ok(()));
    assert_eq!(reg.get_by_uuid(1).unwrap().state, RuntimeState::Running);
    assert_eq!(reg.mark_stopping(1), Ok(()));
    assert_eq!(reg.get_by_uuid(1).unwrap().state, RuntimeState::Stopping);
}

#[test]
fn dispatch_needs_a_running_runtime() {
    let mut reg = registry_with(&[1]);
    let mut ids = StreamIdCounter::new();
    assert_eq!(reg.dispatch(&mut ids, 1, EventKind::Dns, None, 0), None);
    assert_eq!(reg.dispatch(&mut ids, 2, EventKind::Dns, None, 0), None);
    assert_eq!(ids.next, 0);
    reg.mark_running(1).unwrap();
    assert_eq!(reg.dispatch(&mut ids, 1, EventKind::Dns, None, 0), Some(Ok(0)));
    reg.mark_stopping(1).unwrap();
    assert_eq!(reg.dispatch(&mut ids, 1, EventKind::Dns, None, 0), None);
    assert_eq!(ids.next, 1);
    assert!(reg.pending(1, 0).is_some());
}

#[test]
fn dispatch_refuses_an_id_still_owed() {
    let mut reg = registry_with(&[1]);
    reg.mark_running(1).unwrap();
    let mut ids = StreamIdCounter::starting_at(5);
    assert_eq!(reg.dispatch(&mut ids, 1, EventKind::Service, Some(2), 0), Some(Ok(5)));
    let mut wrapped = StreamIdCounter::starting_at(5);
    assert_eq!(reg.dispatch(&mut wrapped, 1, EventKind::Dns, None, 0), Some(Err(DispatchError::IdInUse(5))));
    assert_eq!(wrapped.next, 6);
    assert_eq!(reg.pending(1, 5).map(|e| e.kind), Some(EventKind::Service));
}

#[test]
fn take_response_matches_id_and_kind() {
    let mut reg = registry_with(&[1]);
    reg.mark_running(1).unwrap();
    let mut ids = StreamIdCounter::new();
    assert_eq!(reg.dispatch(&mut ids, 1, EventKind::Dns, None, 0), Some(Ok(0)));
    assert_eq!(reg.take_response(4, 0, EventKind::Dns).err(), Some(CorrelationFailure::UnknownRuntime(4)));
    assert_eq!(reg.take_response(1, 3, EventKind::Dns).err(), Some(CorrelationFailure::NoReceiver(3)));
    assert_eq!(reg.take_response(1, 0, EventKind::Http).err(), Some(CorrelationFailure::WrongKind(0)));
    let e = reg.take_response(1, 0, EventKind::Dns).unwrap();
    assert_eq!((e.id, e.kind), (0, EventKind::Dns));
    assert_eq!(reg.take_response(1, 0, EventKind::Dns).err(), Some(CorrelationFailure::NoReceiver(0)));
}

#[test]
fn runtime_info_by_id_text() {
    let id: u128 = 0x936DA01F9ABD4D9D80C702AF85C822A8;
    let reg = registry_with(&[id]);
    let info = reg.read_runtime_info(&runtime_id_text(id)).unwrap();
    assert_eq!(info.name.as_deref(), Some(format!("rt{}", id).as_str()));
    assert_eq!(info.version.as_deref(), Some("1"));
    let info = reg.read_runtime_info("936DA01F-9ABD-4D9D-80C7-02AF85C822A8").unwrap();
    assert_eq!(info.version.as_deref(), Some("1"));
    assert_eq!(reg.read_runtime_info("nope").err(), Some(InfoError::InvalidId));
    assert_eq!(reg.read_runtime_info(&runtime_id_text(3)).err(), Some(InfoError::NotFound(3)));
}
