use rpc::envelope::{CallEnvelope, ReplyBody, ReplyEnvelope};
use rpc::wire::{Delivery, Properties};

fn call(id: &str, reply_to: &str, payload: &[u8]) -> CallEnvelope {
    CallEnvelope {
        correlation_id: id.to_string(),
        reply_to: reply_to.to_string(),
        payload: payload.to_vec(),
    }
}

#[test]
fn envelope_call_publication_fields() {
    let p = call("id-1", "amq.gen-1", b"10").into_publication("rpc_queue");
    assert_eq!(p.exchange, "");
    assert_eq!(p.routing_key, "rpc_queue");
    assert_eq!(p.payload, b"10".to_vec());
    assert_eq!(p.properties.content_type.as_deref(), Some("text/plain"));
    assert_eq!(p.properties.correlation_id.as_deref(), Some("id-1"));
    assert_eq!(p.properties.reply_to.as_deref(), Some("amq.gen-1"));
    assert_eq!(p.properties.kind, None);
}

#[test]
fn envelope_call_round_trip() {
    let sent = call("id-1", "amq.gen-1", &[0, 1, 2, 255]);
    let p = sent.clone().into_publication("rpc_queue");
    let d = Delivery::of_publication(&p, 7);
    assert_eq!(d.delivery_tag, 7);
    assert_eq!(CallEnvelope::parse(&d), Some(sent));
}

#[test]
fn envelope_call_needs_both_properties() {
    let mut d = Delivery { delivery_tag: 1, properties: Properties::new(), data: b"1".to_vec() };
    assert_eq!(CallEnvelope::parse(&d), None);
    d.properties.correlation_id = Some("a".to_string());
    assert_eq!(CallEnvelope::parse(&d), None);
    d.properties.correlation_id = None;
    d.properties.reply_to = Some("q".to_string());
    assert_eq!(CallEnvelope::parse(&d), None);
    d.properties.correlation_id = Some("a".to_string());
    assert_eq!(CallEnvelope::parse(&d), Some(call("a", "q", b"1")));
}

#[test]
fn envelope_reply_publication_fields() {
    let ok = ReplyEnvelope { correlation_id: "a".to_string(), body: ReplyBody::Payload(b"55".to_vec()) };
    let p = ok.into_publication("amq.gen-1");
    assert_eq!(p.exchange, "");
    assert_eq!(p.routing_key, "amq.gen-1");
    assert_eq!(p.payload, b"55".to_vec());
    assert_eq!(p.properties.correlation_id.as_deref(), Some("a"));
    assert_eq!(p.properties.kind, None);
    assert_eq!(p.properties.reply_to, None);
    assert_eq!(p.properties.content_type, None);
    let failed = ReplyEnvelope { correlation_id: "a".to_string(), body: ReplyBody::Error(b"boom".to_vec()) };
    let p = failed.into_publication("amq.gen-1");
    assert_eq!(p.payload, b"boom".to_vec());
    assert_eq!(p.properties.kind.as_deref(), Some("error"));
}

#[test]
fn envelope_reply_round_trip() {
    for body in [
        ReplyBody::Payload(b"55".to_vec()),
        ReplyBody::Payload(Vec::new()),
        ReplyBody::Error(b"boom".to_vec()),
        ReplyBody::Error(vec![0xff]),
    ] {
        let sent = ReplyEnvelope { correlation_id: "a".to_string(), body };
        let p = sent.clone().into_publication("amq.gen-1");
        assert_eq!(ReplyEnvelope::parse(Delivery::of_publication(&p, 3)), Some(sent));
    }
}

#[test]
fn envelope_reply_needs_an_identifier() {
    let d = Delivery { delivery_tag: 1, properties: Properties::new(), data: b"1".to_vec() };
    assert_eq!(ReplyEnvelope::parse(d), None);
}

#[test]
fn envelope_reply_of_another_kind_is_a_result() {
    let mut properties = Properties::new();
    properties.correlation_id = Some("a".to_string());
    properties.kind = Some("Error".to_string());
    let d = Delivery { delivery_tag: 1, properties, data: b"1".to_vec() };
    let reply = ReplyEnvelope::parse(d).unwrap();
    assert_eq!(reply.body, ReplyBody::Payload(b"1".to_vec()));
}

#[test]
fn properties_duplicate_is_equal() {
    let mut properties = Properties::new();
    properties.correlation_id = Some("a".to_string());
    properties.content_type = Some("text/plain".to_string());
    assert_eq!(properties.duplicate(), properties);
    assert_eq!(Properties::new().duplicate(), Properties::new());
}
