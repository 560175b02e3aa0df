use rpc::envelope::{ReplyBody, ReplyEnvelope};
use rpc::gateway::{call_result, CallError};
use rpc::registry::CallOutcome;
use rpc::wire::{Delivery, Properties};
use rpc::CallGateway;

fn gateway() -> CallGateway<u32> {
    CallGateway::new("rpc_queue".to_string(), "amq.gen-me".to_string())
}

fn reply(id: &str, body: &[u8]) -> Delivery {
    let envelope = ReplyEnvelope { correlation_id: id.to_string(), body: ReplyBody::Payload(body.to_vec()) };
    Delivery::of_publication(&envelope.into_publication("amq.gen-me"), 1)
}

fn is_shaped_like_a_uuid(id: &str) -> bool {
    let bytes = id.as_bytes();
    bytes.len() == 36
        && bytes.iter().enumerate().all(|(i, b)| match i {
            8 | 13 | 18 | 23 => *b == b'-',
            _ => b.is_ascii_digit() || (b'a'..=b'f').contains(b),
        })
        && bytes[14] == b'4'
        && matches!(bytes[19], b'8' | b'9' | b'a' | b'b')
}

#[test]
fn gateway_new_is_idle() {
    let g = gateway();
    assert_eq!(g.work_queue(), "rpc_queue");
    assert_eq!(g.reply_to(), "amq.gen-me");
    assert_eq!(g.pending_len(), 0);
    assert!(!g.is_pending("a"));
}

#[test]
fn gateway_begin_call_registers_and_addresses() {
    let mut g = gateway();
    let p = g.begin_call("a".to_string(), b"10".to_vec(), 1).unwrap();
    assert!(g.is_pending("a"));
    assert_eq!(g.pending_len(), 1);
    assert_eq!(p.exchange, "");
    assert_eq!(p.routing_key, "rpc_queue");
    assert_eq!(p.payload, b"10".to_vec());
    assert_eq!(p.properties.correlation_id.as_deref(), Some("a"));
    assert_eq!(p.properties.reply_to.as_deref(), Some("amq.gen-me"));
    assert_eq!(p.properties.content_type.as_deref(), Some("text/plain"));
}

#[test]
fn gateway_duplicate_identifier_is_refused() {
    let mut g = gateway();
    assert!(g.begin_call("a".to_string(), b"10".to_vec(), 1).is_ok());
    match g.begin_call("a".to_string(), b"11".to_vec(), 2) {
        Err((CallError::DuplicateCorrelationId, signal)) => assert_eq!(signal, 2),
        other => panic!("not refused: {:?}", other),
    }
    assert_eq!(g.pending_len(), 1);
}

#[test]
fn gateway_invoke_draws_an_identifier() {
    let mut g = gateway();
    let (id, p) = g.begin_invoke(b"10".to_vec(), 1).unwrap();
    assert!(is_shaped_like_a_uuid(&id), "{}", id);
    assert!(g.is_pending(&id));
    assert_eq!(p.properties.correlation_id.as_deref(), Some(id.as_str()));
    assert_eq!(p.payload, b"10".to_vec());
    let (other, _) = g.begin_invoke(b"11".to_vec(), 2).unwrap();
    assert!(is_shaped_like_a_uuid(&other), "{}", other);
    assert_ne!(id, other);
    assert_eq!(g.pending_len(), 2);
}

#[test]
fn gateway_reply_ends_the_call() {
    let mut g = gateway();
    assert!(g.begin_call("a".to_string(), b"10".to_vec(), 1).is_ok());
    let call = g.on_delivery(reply("a", b"55")).unwrap();
    assert_eq!(call.correlation_id, "a");
    assert_eq!(call.done_signal, 1);
    assert_eq!(call_result(call.result_slot.unwrap()), Ok(b"55".to_vec()));
    assert_eq!(g.pending_len(), 0);
}

#[test]
fn gateway_unknown_and_anonymous_replies_are_dropped() {
    let mut g = gateway();
    assert!(g.begin_call("a".to_string(), b"10".to_vec(), 1).is_ok());
    assert!(g.on_delivery(reply("b", b"55")).is_none());
    let anonymous = Delivery { delivery_tag: 2, properties: Properties::new(), data: b"55".to_vec() };
    assert!(g.on_delivery(anonymous).is_none());
    assert_eq!(g.pending_len(), 1);
    assert!(g.is_pending("a"));
}

#[test]
fn gateway_duplicate_reply_is_dropped() {
    let mut g = gateway();
    assert!(g.begin_call("a".to_string(), b"10".to_vec(), 1).is_ok());
    assert!(g.on_delivery(reply("a", b"55")).is_some());
    assert!(g.on_delivery(reply("a", b"55")).is_none());
    assert_eq!(g.pending_len(), 0);
}

#[test]
fn gateway_timeout_then_late_reply() {
    let mut g = gateway();
    assert!(g.begin_call("slow".to_string(), b"40".to_vec(), 1).is_ok());
    assert!(g.begin_call("other".to_string(), b"8".to_vec(), 2).is_ok());
    let (error, gone) = g.on_timeout("slow");
    assert_eq!(error, CallError::CallTimedOut);
    let gone = gone.unwrap();
    assert_eq!(gone.done_signal, 1);
    assert_eq!(gone.result_slot, Some(CallOutcome::Cancelled));
    assert_eq!(g.pending_len(), 1);
    assert!(g.on_delivery(reply("slow", b"102334155")).is_none());
    assert_eq!(g.pending_len(), 1);
    assert!(g.is_pending("other"));
    let call = g.on_delivery(reply("other", b"21")).unwrap();
    assert_eq!(call.done_signal, 2);
    assert_eq!(call_result(call.result_slot.unwrap()), Ok(b"21".to_vec()));
}

#[test]
fn gateway_timeout_of_a_call_that_ended() {
    let mut g = gateway();
    assert!(g.begin_call("a".to_string(), b"10".to_vec(), 1).is_ok());
    assert!(g.on_delivery(reply("a", b"55")).is_some());
    let (error, gone) = g.on_timeout("a");
    assert_eq!(error, CallError::CallTimedOut);
    assert!(gone.is_none());
}

#[test]
fn gateway_publish_failure_rolls_back() {
    let mut g = gateway();
    assert!(g.begin_call("keep".to_string(), b"1".to_vec(), 1).is_ok());
    assert!(g.begin_call("lost".to_string(), b"2".to_vec(), 2).is_ok());
    let (error, gone) = g.on_publish_failed("lost");
    assert_eq!(error, CallError::TransportError);
    assert_eq!(gone.unwrap().done_signal, 2);
    assert!(!g.is_pending("lost"));
    assert!(g.is_pending("keep"));
    assert_eq!(g.pending_len(), 1);
    assert!(g.begin_call("lost".to_string(), b"2".to_vec(), 3).is_ok());
}

#[test]
fn call_result_of_each_outcome() {
    assert_eq!(call_result(CallOutcome::Replied(ReplyBody::Payload(b"55".to_vec()))), Ok(b"55".to_vec()));
    assert_eq!(
        call_result(CallOutcome::Replied(ReplyBody::Error(b"boom".to_vec()))),
        Err(CallError::HandlerFailure("boom".to_string()))
    );
    assert_eq!(
        call_result(CallOutcome::Replied(ReplyBody::Error("caf\u{e9}".as_bytes().to_vec()))),
        Err(CallError::HandlerFailure("caf\u{e9}".to_string()))
    );
    assert_eq!(
        call_result(CallOutcome::Replied(ReplyBody::Error(vec![0x63, 0xff]))),
        Err(CallError::MalformedReply)
    );
    assert_eq!(call_result(CallOutcome::Cancelled), Err(CallError::CallTimedOut));
}

#[test]
fn gateway_replies_in_reversed_order_are_matched() {
    let mut g = gateway();
    let ids = ["a", "b", "c", "d", "e"];
    for (i, id) in ids.iter().enumerate() {
        assert!(g.begin_call(id.to_string(), vec![i as u8], i as u32).is_ok());
    }
    for (i, id) in ids.iter().enumerate().rev() {
        let call = g.on_delivery(reply(id, &[100 + i as u8])).unwrap();
        assert_eq!(call.correlation_id, *id);
        assert_eq!(call.done_signal, i as u32);
        assert_eq!(call_result(call.result_slot.unwrap()), Ok(vec![100 + i as u8]));
    }
    assert_eq!(g.pending_len(), 0);
}

#[test]
fn gateway_shutdown_gives_up_every_call() {
    let mut g = gateway();
    assert!(g.begin_call("a".to_string(), b"1".to_vec(), 1).is_ok());
    assert!(g.begin_call("b".to_string(), b"2".to_vec(), 2).is_ok());
    let gone = g.shutdown();
    assert_eq!(gone.len(), 2);
    assert_eq!(g.pending_len(), 0);
    for call in gone {
        let signal = if call.correlation_id == "a" { 1 } else { 2 };
        assert_eq!(call.done_signal, signal);
        assert_eq!(call_result(call.result_slot.unwrap()), Err(CallError::CallTimedOut));
    }
    assert!(g.on_delivery(reply("a", b"1")).is_none());
    assert!(g.shutdown().is_empty());
    assert_eq!(g.reply_to(), "amq.gen-me");
}
