use rpc::envelope::ReplyBody;
use rpc::gateway::CallError;
use rpc::options::{BasicConsumeOptions, BasicQosOptions, QueueDeclareOptions};
use rpc::registry::CallOutcome;
use rpc::rpc_client::{reply_consume_options, reply_queue_options};
use rpc::rpc_server::fib_handler;
use rpc::wire::{Action, Delivery, Properties, Publication};
use rpc::{FibClient, FibRpcServer, QUEUE};

fn publication(actions: &[Action]) -> Publication {
    match &actions[0] {
        Action::Publish(p) => p.clone(),
        Action::Ack(_) => panic!("nothing was published"),
    }
}

fn serve(server: &FibRpcServer, call: &Publication, tag: u64) -> Publication {
    assert_eq!(call.routing_key, server.queue_name());
    let actions = server.serve_delivery(Delivery::of_publication(call, tag));
    assert_eq!(actions.len(), 2);
    assert_eq!(actions[1], Action::Ack(tag));
    publication(&actions)
}

#[test]
fn scenario_fib_of_ten_is_fifty_five() {
    let server = FibRpcServer::with_defaults(QUEUE);
    let mut client: FibClient<u32> = FibClient::new(QUEUE, "amq.gen-client");
    let (id, call) = client.begin(10, 0).unwrap();
    assert_eq!(call.payload, b"10".to_vec());
    let reply = serve(&server, &call, 1);
    assert_eq!(reply.routing_key, "amq.gen-client");
    assert_eq!(reply.payload, b"55".to_vec());
    let done = client.on_delivery(Delivery::of_publication(&reply, 1)).unwrap();
    assert_eq!(done.correlation_id, id);
    assert_eq!(FibClient::<u32>::answer(done.result_slot.unwrap()), Ok(55));
    assert_eq!(client.pending_len(), 0);
}

#[test]
fn scenario_two_gateways_one_sequential_server() {
    let mut server = FibRpcServer::with_defaults(QUEUE);
    server.set_message_count(Some(1));
    let mut first: FibClient<u32> = FibClient::new(QUEUE, "amq.gen-first");
    let mut second: FibClient<u32> = FibClient::new(QUEUE, "amq.gen-second");
    let (_, call_seven) = first.begin(7, 0).unwrap();
    let (_, call_eight) = second.begin(8, 0).unwrap();
    let reply_eight = serve(&server, &call_eight, 1);
    let reply_seven = serve(&server, &call_seven, 2);
    assert_eq!(reply_seven.routing_key, "amq.gen-first");
    assert_eq!(reply_eight.routing_key, "amq.gen-second");
    assert!(first.on_delivery(Delivery::of_publication(&reply_eight, 1)).is_none());
    assert!(second.on_delivery(Delivery::of_publication(&reply_seven, 1)).is_none());
    let seven = first.on_delivery(Delivery::of_publication(&reply_seven, 2)).unwrap();
    let eight = second.on_delivery(Delivery::of_publication(&reply_eight, 2)).unwrap();
    assert_eq!(FibClient::<u32>::answer(seven.result_slot.unwrap()), Ok(13));
    assert_eq!(FibClient::<u32>::answer(eight.result_slot.unwrap()), Ok(21));
}

#[test]
fn scenario_many_calls_on_one_gateway_in_reversed_order() {
    let server = FibRpcServer::with_defaults(QUEUE);
    let mut client: FibClient<u32> = FibClient::new(QUEUE, "amq.gen-client");
    let inputs = [0u32, 1, 2, 7, 8, 10, 20, 30];
    let expected = [0usize, 1, 1, 13, 21, 55, 6765, 832040];
    let mut replies = Vec::new();
    for (i, n) in inputs.iter().enumerate() {
        let (id, call) = client.begin(*n, i as u32).unwrap();
        replies.push((id, serve(&server, &call, i as u64)));
    }
    assert_eq!(client.pending_len(), inputs.len());
    for (i, (id, reply)) in replies.iter().enumerate().rev() {
        let done = client.on_delivery(Delivery::of_publication(reply, 0)).unwrap();
        assert_eq!(&done.correlation_id, id);
        assert_eq!(done.done_signal, i as u32);
        assert_eq!(FibClient::<u32>::answer(done.result_slot.unwrap()), Ok(expected[i]));
    }
    assert_eq!(client.pending_len(), 0);
}

#[test]
fn scenario_timeout_and_late_reply() {
    let server = FibRpcServer::with_defaults(QUEUE);
    let mut client: FibClient<u32> = FibClient::new(QUEUE, "amq.gen-client");
    let (slow, slow_call) = client.begin(40, 1).unwrap();
    let (fast, fast_call) = client.begin(8, 2).unwrap();
    let (error, gone) = client.on_timeout(&slow);
    assert_eq!(error, CallError::CallTimedOut);
    assert_eq!(gone.unwrap().result_slot, Some(CallOutcome::Cancelled));
    assert_eq!(client.pending_len(), 1);
    let late = serve(&server, &slow_call, 1);
    assert_eq!(late.payload, b"102334155".to_vec());
    assert!(client.on_delivery(Delivery::of_publication(&late, 1)).is_none());
    assert_eq!(client.pending_len(), 1);
    let reply = serve(&server, &fast_call, 2);
    let done = client.on_delivery(Delivery::of_publication(&reply, 2)).unwrap();
    assert_eq!(done.correlation_id, fast);
    assert_eq!(FibClient::<u32>::answer(done.result_slot.unwrap()), Ok(21));
}

#[test]
fn scenario_publish_failure_leaves_nothing() {
    let mut client: FibClient<u32> = FibClient::new(QUEUE, "amq.gen-client");
    let (id, _) = client.begin(10, 1).unwrap();
    let (error, gone) = client.on_publish_failed(&id);
    assert_eq!(error, CallError::TransportError);
    assert_eq!(gone.unwrap().done_signal, 1);
    assert_eq!(client.pending_len(), 0);
}

#[test]
fn server_answers_out_of_range_with_an_error() {
    let server = FibRpcServer::with_defaults(QUEUE);
    let mut client: FibClient<u32> = FibClient::new(QUEUE, "amq.gen-client");
    let (_, call) = client.begin(4000, 0).unwrap();
    let reply = serve(&server, &call, 1);
    assert_eq!(reply.properties.kind.as_deref(), Some("error"));
    assert_eq!(reply.payload, b"result out of range".to_vec());
    let done = client.on_delivery(Delivery::of_publication(&reply, 1)).unwrap();
    assert_eq!(
        FibClient::<u32>::answer(done.result_slot.unwrap()),
        Err(CallError::HandlerFailure("result out of range".to_string()))
    );
}

#[test]
fn server_rejects_a_malformed_call() {
    let server = FibRpcServer::with_defaults(QUEUE);
    let mut properties = Properties::new();
    properties.correlation_id = Some("a".to_string());
    properties.reply_to = Some("amq.gen-client".to_string());
    let d = Delivery { delivery_tag: 5, properties, data: b"ten".to_vec() };
    let actions = server.serve_delivery(d);
    assert_eq!(actions.len(), 2);
    let p = publication(&actions);
    assert_eq!(p.routing_key, "amq.gen-client");
    assert_eq!(p.properties.correlation_id.as_deref(), Some("a"));
    assert_eq!(p.properties.kind.as_deref(), Some("error"));
    assert_eq!(p.payload, b"malformed call".to_vec());
    assert_eq!(actions[1], Action::Ack(5));
    let bare = Delivery { delivery_tag: 6, properties: Properties::new(), data: b"10".to_vec() };
    assert_eq!(server.serve_delivery(bare), vec![Action::Ack(6)]);
}

#[test]
fn server_echoes_the_identifier_verbatim() {
    let server = FibRpcServer::with_defaults(QUEUE);
    let mut properties = Properties::new();
    properties.correlation_id = Some(" Odd, id \u{e9}\u{1f600} ".to_string());
    properties.reply_to = Some("r".to_string());
    let d = Delivery { delivery_tag: 5, properties, data: b"+12".to_vec() };
    let p = publication(&server.serve_delivery(d));
    assert_eq!(p.properties.correlation_id.as_deref(), Some(" Odd, id \u{e9}\u{1f600} "));
    assert_eq!(p.payload, b"144".to_vec());
}

#[test]
fn fib_handler_values() {
    assert_eq!(fib_handler(0), Ok(0));
    assert_eq!(fib_handler(10), Ok(55));
    assert_eq!(fib_handler(47), Ok(2971215073));
    assert_eq!(fib_handler(100), Err("result out of range".to_string()));
    assert_eq!(fib_handler(u32::MAX), Err("result out of range".to_string()));
}

#[test]
fn client_answer_of_each_outcome() {
    fn answer(outcome: CallOutcome) -> Result<usize, CallError> {
        FibClient::<u32>::answer(outcome)
    }
    assert_eq!(answer(CallOutcome::Replied(ReplyBody::Payload(b"55".to_vec()))), Ok(55));
    assert_eq!(answer(CallOutcome::Replied(ReplyBody::Payload(b"+055".to_vec()))), Ok(55));
    assert_eq!(answer(CallOutcome::Replied(ReplyBody::Payload(b"".to_vec()))), Err(CallError::MalformedReply));
    assert_eq!(answer(CallOutcome::Replied(ReplyBody::Payload(b"5 5".to_vec()))), Err(CallError::MalformedReply));
    assert_eq!(
        answer(CallOutcome::Replied(ReplyBody::Payload(b"99999999999999999999999".to_vec()))),
        Err(CallError::MalformedReply)
    );
    assert_eq!(
        answer(CallOutcome::Replied(ReplyBody::Error(b"boom".to_vec()))),
        Err(CallError::HandlerFailure("boom".to_string()))
    );
    assert_eq!(answer(CallOutcome::Replied(ReplyBody::Error(vec![0x80]))), Err(CallError::MalformedReply));
    assert_eq!(answer(CallOutcome::Cancelled), Err(CallError::CallTimedOut));
}

#[test]
fn client_request_is_decimal() {
    assert_eq!(FibClient::<u32>::request(0), b"0".to_vec());
    assert_eq!(FibClient::<u32>::request(10), b"10".to_vec());
    assert_eq!(FibClient::<u32>::request(u32::MAX), b"4294967295".to_vec());
}

#[test]
fn client_reply_queue_is_its_own() {
    let queue = reply_queue_options();
    assert!(queue.exclusive);
    assert!(!queue.durable && !queue.passive && !queue.auto_delete && !queue.nowait);
    let consume = reply_consume_options();
    assert!(consume.no_ack);
    assert!(!consume.no_local && !consume.exclusive && !consume.nowait);
}

#[test]
fn server_configuration() {
    let mut server = FibRpcServer::with_defaults("rpc_queue");
    assert_eq!(server.queue_name(), "rpc_queue");
    assert_eq!(server.message_count(), None);
    assert_eq!(*server.queue_declare_opts(), QueueDeclareOptions::default());
    assert_eq!(*server.qos_options(), BasicQosOptions::default());
    assert_eq!(*server.consume_opts(), BasicConsumeOptions::default());
    assert_eq!(server.prefetch_count(), 1);
    server.set_message_count(Some(0));
    assert_eq!(server.message_count(), Some(0));
    assert_eq!(server.prefetch_count(), 1);
    assert_eq!(server.dispatcher().limit(), 1);
    server.set_message_count(Some(8));
    assert_eq!(server.prefetch_count(), 8);
    assert_eq!(server.dispatcher().limit(), 8);
    server.set_queue_name("other");
    assert_eq!(server.queue_name(), "other");
    let declare = QueueDeclareOptions { passive: false, durable: true, exclusive: false, auto_delete: true, nowait: false };
    server.set_queue_declare_opts(declare);
    assert_eq!(*server.queue_declare_opts(), declare);
    server.set_qos_options(BasicQosOptions { global: true });
    assert_eq!(*server.qos_options(), BasicQosOptions { global: true });
    let consume = BasicConsumeOptions { no_local: true, no_ack: false, exclusive: true, nowait: false };
    server.set_consume_opts(consume);
    assert_eq!(*server.consume_opts(), consume);
    assert_eq!(server.message_count(), Some(8));
    assert_eq!(server.queue_name(), "other");
    let made = FibRpcServer::new("q", Some(3), declare, BasicQosOptions { global: true }, consume);
    assert_eq!(made.queue_name(), "q");
    assert_eq!(made.message_count(), Some(3));
    assert_eq!(*made.queue_declare_opts(), declare);
    assert_eq!(*made.consume_opts(), consume);
}
