use std::collections::HashMap;
use rustengan::node::{correlate, init_failure, Input, Node, Reply, Step};
use rustengan::payload::{InitRequest, Message, Payload, PayloadError, HANDLER_FAILURE, PARSE_FAILURE};
use rustengan::services::{
    broadcast_kind, Broadcast, BroadcastKind, BroadcastRequest, Echo, EchoPayload, GenerateRequest, GenerateResponse,
    ReadRequest, ReadResponse, TopologyRequest, TopologyResponse, UidState,
};

fn init_message() -> Message<Payload<InitRequest>> {
    let mut body = Payload::new(
        "init".to_string(),
        InitRequest { node_id: "n1".to_string(), node_ids: vec!["n1".to_string(), "n2".to_string()] },
    );
    body.msg_id = Some(1);
    Message { src: "c1".to_string(), dest: "n1".to_string(), body }
}

fn request<T>(type_payload: &str, msg_id: usize, info: T) -> Message<Payload<T>> {
    let mut body = Payload::new(type_payload.to_string(), info);
    body.msg_id = Some(msg_id);
    Message { src: "c1".to_string(), dest: "n1".to_string(), body }
}

#[test]
fn handshake_acknowledges_init() {
    let (node, ack) = Node::<Echo>::new(init_message());
    assert_eq!(ack.src, "n1");
    assert_eq!(ack.dest, "c1");
    assert_eq!(ack.body.type_payload, "init_ok");
    assert_eq!(ack.body.in_reply_to, Some(1));
    assert_eq!(ack.body.msg_id, None);
    assert_eq!(node.id, "n1");
    assert_eq!(node.node_ids, vec!["n1".to_string(), "n2".to_string()]);
}

#[test]
fn init_failure_carries_parse_code() {
    let e = init_failure("expected value".to_string());
    assert_eq!(e.type_payload, "error");
    assert_eq!(e.info.code, PARSE_FAILURE);
    assert_eq!(e.info.text, "error parsing init message: expected value");
    assert_eq!(e.in_reply_to, None);
}

#[test]
fn echo_round_trip_after_handshake() {
    let (mut node, _) = Node::<Echo>::new(init_message());
    let reply = node.dispatch::<EchoPayload, EchoPayload>(request(
        "echo",
        2,
        EchoPayload { echo: "hello".to_string() },
    ));
    assert_eq!(reply.src, "n1");
    assert_eq!(reply.dest, "c1");
    match reply.body {
        Reply::Success(p) => {
            assert_eq!(p.type_payload, "echo_ok");
            assert_eq!(p.in_reply_to, Some(2));
            assert_eq!(p.info.echo, "hello");
        }
        Reply::Failure(_) => panic!("echo failed"),
    }
}

#[test]
fn malformed_line_is_skipped_and_next_request_answered() {
    let (mut node, _) = Node::<Echo>::new(init_message());
    let skipped: Step<EchoPayload> = node.step::<EchoPayload, EchoPayload>(Input::Malformed);
    assert!(matches!(skipped, Step::Skip));
    let next = node.step::<EchoPayload, EchoPayload>(Input::Request(request(
        "echo",
        3,
        EchoPayload { echo: "again".to_string() },
    )));
    match next {
        Step::Send(reply) => {
            assert_eq!(reply.dest, "c1");
            match reply.body {
                Reply::Success(p) => {
                    assert_eq!(p.in_reply_to, Some(3));
                    assert_eq!(p.info.echo, "again");
                }
                Reply::Failure(_) => panic!("echo failed"),
            }
        }
        _ => panic!("request was not answered"),
    }
}

#[test]
fn end_of_input_stops() {
    let (mut node, _) = Node::<Echo>::new(init_message());
    let step: Step<EchoPayload> = node.step::<EchoPayload, EchoPayload>(Input::Closed);
    assert!(matches!(step, Step::Stop));
}

#[test]
fn broadcasts_are_read_in_store_order() {
    let (mut node, _) = Node::<Broadcast>::new(init_message());
    for (i, value) in [7usize, 3].iter().enumerate() {
        let reply = node.dispatch::<BroadcastRequest, _>(request(
            "broadcast",
            10 + i,
            BroadcastRequest { message: *value },
        ));
        match reply.body {
            Reply::Success(p) => {
                assert_eq!(p.type_payload, "broadcast_ok");
                assert_eq!(p.in_reply_to, Some(10 + i));
            }
            Reply::Failure(_) => panic!("broadcast failed"),
        }
    }
    let reply = node.dispatch::<ReadRequest, ReadResponse>(request("read", 12, ReadRequest {}));
    match reply.body {
        Reply::Success(p) => {
            assert_eq!(p.type_payload, "read_ok");
            assert_eq!(p.in_reply_to, Some(12));
            assert_eq!(p.info.messages, vec![7, 3]);
        }
        Reply::Failure(_) => panic!("read failed"),
    }
}

#[test]
fn correlate_copies_absent_id() {
    let ok = Payload::new("echo_ok".to_string(), EchoPayload { echo: "x".to_string() });
    let reply = correlate("n1".to_string(), "c2".to_string(), None, Ok(ok));
    assert_eq!(reply.src, "n1");
    assert_eq!(reply.dest, "c2");
    match reply.body {
        Reply::Success(p) => assert_eq!(p.in_reply_to, None),
        Reply::Failure(_) => panic!("unexpected failure"),
    }
}

#[test]
fn handler_failure_becomes_error_reply() {
    let reply = correlate::<EchoPayload>("n1".to_string(), "c1".to_string(), Some(5), Err("boom".to_string()));
    assert_eq!(reply.src, "n1");
    assert_eq!(reply.dest, "c1");
    match reply.body {
        Reply::Failure(p) => {
            assert_eq!(p.type_payload, "error");
            assert_eq!(p.in_reply_to, Some(5));
            assert_eq!(p.msg_id, None);
            assert_eq!(p.info.code, HANDLER_FAILURE);
            assert_eq!(p.info.text, "error processing message: boom");
        }
        Reply::Success(_) => panic!("expected an error reply"),
    }
}

#[test]
fn error_payload_has_code_and_text() {
    let e = PayloadError::error(1, "bad".to_string());
    assert_eq!(e.type_payload, "error");
    assert_eq!(e.info.code, 1);
    assert_eq!(e.info.text, "bad");
}

#[test]
fn uid_issue_formula_and_count() {
    let mut state = UidState { message_count: 2 };
    let r = state.issue(5, 7).unwrap();
    assert_eq!(r.type_payload, "generate_ok");
    assert_eq!(r.info.id, 961 * 2 + 31 * 5 + 7);
    assert_eq!(r.msg_id, Some(2));
    assert_eq!(state.message_count, 3);
}

#[test]
fn uid_issue_wraps() {
    let mut state = UidState { message_count: 0 };
    let r = state.issue(u128::MAX, 0).unwrap();
    assert_eq!(r.info.id, u128::MAX.wrapping_mul(31));
}

#[test]
fn uid_issue_refuses_count_beyond_message_ids() {
    let mut state = UidState { message_count: usize::MAX as u128 + 1 };
    assert!(state.issue(0, 0).is_err());
    assert_eq!(state.message_count, usize::MAX as u128 + 1);
}

#[test]
fn broadcast_kind_by_tag() {
    assert_eq!(broadcast_kind(&"broadcast".to_string()), Some(BroadcastKind::Broadcast));
    assert_eq!(broadcast_kind(&"read".to_string()), Some(BroadcastKind::Read));
    assert_eq!(broadcast_kind(&"topology".to_string()), Some(BroadcastKind::Topology));
    assert_eq!(broadcast_kind(&"echo".to_string()), None);
}

#[test]
fn generate_through_dispatch_counts_and_correlates() {
    let (mut node, _) = Node::<UidState>::new(init_message());
    let first = node.dispatch::<GenerateRequest, GenerateResponse>(request("generate", 7, GenerateRequest {}));
    let second = node.dispatch::<GenerateRequest, GenerateResponse>(request("generate", 8, GenerateRequest {}));
    assert_eq!(node.state.message_count, 2);
    assert_eq!(node.id, "n1");
    let (a, b) = match (first.body, second.body) {
        (Reply::Success(a), Reply::Success(b)) => (a, b),
        _ => panic!("generate failed"),
    };
    assert_eq!(a.type_payload, "generate_ok");
    assert_eq!(a.msg_id, Some(0));
    assert_eq!(a.in_reply_to, Some(7));
    assert_eq!(b.msg_id, Some(1));
    assert_eq!(b.in_reply_to, Some(8));
    assert_ne!(a.info.id, b.info.id);
}

#[test]
fn topology_is_acknowledged_and_not_kept() {
    let (mut node, _) = Node::<Broadcast>::new(init_message());
    let mut map = HashMap::new();
    map.insert("n1".to_string(), vec!["n2".to_string()]);
    let reply = node.dispatch::<TopologyRequest, TopologyResponse>(request("topology", 5, TopologyRequest { map }));
    match reply.body {
        Reply::Success(p) => {
            assert_eq!(p.type_payload, "topology_ok");
            assert_eq!(p.in_reply_to, Some(5));
        }
        Reply::Failure(_) => panic!("topology failed"),
    }
    assert!(node.state.messages.is_empty());
}
