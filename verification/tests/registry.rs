use rpc::envelope::ReplyBody;
use rpc::registry::{CallOutcome, RegistryError};
use rpc::CorrelationRegistry;

fn replied(call: &rpc::registry::PendingCall<u32>) -> Vec<u8> {
    match &call.result_slot {
        Some(CallOutcome::Replied(ReplyBody::Payload(p))) => p.clone(),
        _ => panic!("no reply in the slot"),
    }
}

#[test]
fn registry_starts_empty() {
    let r: CorrelationRegistry<u32> = CorrelationRegistry::new();
    assert_eq!(r.len(), 0);
    assert!(!r.contains("a"));
}

#[test]
fn registry_register_then_resolve() {
    let mut r: CorrelationRegistry<u32> = CorrelationRegistry::new();
    assert!(r.register("a".to_string(), 1).is_ok());
    assert_eq!(r.len(), 1);
    assert!(r.contains("a"));
    let call = r.resolve("a", ReplyBody::Payload(b"55".to_vec())).unwrap();
    assert_eq!(call.correlation_id, "a");
    assert_eq!(call.done_signal, 1);
    assert_eq!(replied(&call), b"55".to_vec());
    assert_eq!(r.len(), 0);
    assert!(!r.contains("a"));
}

#[test]
fn registry_duplicate_is_refused() {
    let mut r: CorrelationRegistry<u32> = CorrelationRegistry::new();
    assert!(r.register("a".to_string(), 1).is_ok());
    match r.register("a".to_string(), 2) {
        Err((RegistryError::DuplicateCorrelationId, signal)) => assert_eq!(signal, 2),
        Ok(_) => panic!("a second call under the same identifier"),
    }
    assert_eq!(r.len(), 1);
    let call = r.cancel("a").unwrap();
    assert_eq!(call.done_signal, 1);
}

#[test]
fn registry_unknown_reply_is_dropped() {
    let mut r: CorrelationRegistry<u32> = CorrelationRegistry::new();
    assert!(r.register("a".to_string(), 1).is_ok());
    assert!(r.resolve("b", ReplyBody::Payload(b"1".to_vec())).is_none());
    assert!(r.resolve("", ReplyBody::Payload(b"1".to_vec())).is_none());
    assert_eq!(r.len(), 1);
    assert!(r.contains("a"));
}

#[test]
fn registry_cancel_signals_cancellation() {
    let mut r: CorrelationRegistry<u32> = CorrelationRegistry::new();
    assert!(r.register("a".to_string(), 1).is_ok());
    assert!(r.register("b".to_string(), 2).is_ok());
    let call = r.cancel("a").unwrap();
    assert_eq!(call.correlation_id, "a");
    assert!(matches!(call.result_slot, Some(CallOutcome::Cancelled)));
    assert!(r.cancel("a").is_none());
    assert_eq!(r.len(), 1);
    assert!(r.contains("b"));
}

#[test]
fn registry_resolves_out_of_order() {
    let mut r: CorrelationRegistry<u32> = CorrelationRegistry::new();
    for (i, id) in ["a", "b", "c", "d"].iter().enumerate() {
        assert!(r.register(id.to_string(), i as u32).is_ok());
    }
    for (id, signal) in [("c", 2u32), ("a", 0), ("d", 3), ("b", 1)] {
        let call = r.resolve(id, ReplyBody::Payload(id.as_bytes().to_vec())).unwrap();
        assert_eq!(call.done_signal, signal);
        assert_eq!(replied(&call), id.as_bytes().to_vec());
    }
    assert_eq!(r.len(), 0);
}

#[test]
fn registry_identifier_is_free_again_after_the_call() {
    let mut r: CorrelationRegistry<u32> = CorrelationRegistry::new();
    assert!(r.register("a".to_string(), 1).is_ok());
    assert!(r.cancel("a").is_some());
    assert!(r.register("a".to_string(), 2).is_ok());
    assert_eq!(r.resolve("a", ReplyBody::Error(b"x".to_vec())).unwrap().done_signal, 2);
}

#[test]
fn registry_cancel_all_empties() {
    let mut r: CorrelationRegistry<u32> = CorrelationRegistry::new();
    assert!(r.cancel_all().is_empty());
    for (i, id) in ["a", "b", "c"].iter().enumerate() {
        assert!(r.register(id.to_string(), i as u32).is_ok());
    }
    let mut gone = r.cancel_all();
    assert_eq!(r.len(), 0);
    assert_eq!(gone.len(), 3);
    gone.sort_by(|x, y| x.correlation_id.cmp(&y.correlation_id));
    for (i, id) in ["a", "b", "c"].iter().enumerate() {
        assert_eq!(gone[i].correlation_id, *id);
        assert_eq!(gone[i].done_signal, i as u32);
        assert_eq!(gone[i].result_slot, Some(CallOutcome::Cancelled));
    }
    assert!(r.resolve("a", ReplyBody::Payload(Vec::new())).is_none());
    assert!(r.register("a".to_string(), 9).is_ok());
}
