use maelstrom_node::{i32_to_decimal, Body, Message, Node, NodeError, Payload};

fn request(src: &str, dest: &str, msg_id: Option<i32>, payload: Payload) -> Message {
    Message {
        src: src.to_string(),
        dest: dest.to_string(),
        body: Body { msg_id, in_reply_to: None, payload },
    }
}

fn init_payload(node_id: &str, node_ids: &[&str]) -> Payload {
    Payload::Init {
        node_id: node_id.to_string(),
        node_ids: node_ids.iter().map(|s| s.to_string()).collect(),
    }
}

fn reply_of(node: &mut Node, msg: Message) -> Message {
    node.handle(msg).unwrap().expect("a reply is owed")
}

#[test]
fn init_then_echo_scenario() {
    let mut node = Node::new();
    let r = reply_of(&mut node, request("c1", "n1", Some(1), init_payload("n1", &["n1"])));
    assert_eq!(r.src, "n1");
    assert_eq!(r.dest, "c1");
    assert!(matches!(r.body.payload, Payload::InitOk));
    assert_eq!(r.body.in_reply_to, Some(1));
    assert_eq!(r.body.msg_id, Some(0));

    let r = reply_of(
        &mut node,
        request("c1", "n1", Some(2), Payload::Echo { echo: "hi".to_string() }),
    );
    assert_eq!(r.src, "n1");
    assert_eq!(r.dest, "c1");
    match r.body.payload {
        Payload::EchoOk { echo } => assert_eq!(echo, "hi"),
        other => panic!("unexpected payload {:?}", other),
    }
    assert_eq!(r.body.in_reply_to, Some(2));
    assert_eq!(r.body.msg_id, Some(1));
}

#[test]
fn generate_after_init_counts_prior_replies() {
    let mut node = Node::new();
    reply_of(&mut node, request("c1", "n3", Some(7), Payload::Echo { echo: "x".to_string() }));
    reply_of(&mut node, request("c1", "n3", Some(8), init_payload("n3", &["n1", "n2", "n3"])));
    let r = reply_of(&mut node, request("c1", "n3", Some(9), Payload::Generate));
    match r.body.payload {
        Payload::GenerateOk { id } => assert_eq!(id, "n3-2"),
        other => panic!("unexpected payload {:?}", other),
    }
    assert_eq!(r.body.msg_id, Some(2));
}

#[test]
fn generate_id_reads_without_advancing() {
    let mut node = Node::new();
    node.init("n1".to_string(), vec!["n1".to_string()]).unwrap();
    assert_eq!(node.generate_id(), "n1-0");
    assert_eq!(node.generate_id(), "n1-0");
}

#[test]
fn second_init_overwrites_identity() {
    let mut node = Node::new();
    node.init("a".to_string(), vec![]).unwrap();
    node.init("b".to_string(), vec!["b".to_string()]).unwrap();
    assert_eq!(node.generate_id(), "b-0");
}

#[test]
fn generate_before_init_fails() {
    let mut node = Node::new();
    let r = node.handle(request("c1", "n1", Some(1), Payload::Generate));
    assert_eq!(r.unwrap_err(), NodeError::NotInitialized);
    // The failed request used no reply id.
    let r = reply_of(&mut node, request("c1", "n1", Some(2), Payload::Read));
    assert_eq!(r.body.msg_id, Some(0));
}

#[test]
fn read_returns_every_broadcast_with_duplicates() {
    let mut node = Node::new();
    for v in [5, -3, 5, 0] {
        let r = reply_of(&mut node, request("c2", "n1", None, Payload::Broadcast { message: v }));
        assert!(matches!(r.body.payload, Payload::BroadcastOk));
        assert_eq!(r.body.in_reply_to, None);
    }
    let r = reply_of(&mut node, request("c2", "n1", Some(10), Payload::Read));
    match r.body.payload {
        Payload::ReadOk { messages } => assert_eq!(messages, vec![5, -3, 5, 0]),
        other => panic!("unexpected payload {:?}", other),
    }
    assert_eq!(r.body.msg_id, Some(4));
}

#[test]
fn read_on_empty_log() {
    let mut node = Node::new();
    let r = reply_of(&mut node, request("c2", "n1", Some(1), Payload::Read));
    match r.body.payload {
        Payload::ReadOk { messages } => assert!(messages.is_empty()),
        other => panic!("unexpected payload {:?}", other),
    }
}

#[test]
fn topology_is_answered_with_an_empty_topology() {
    let mut node = Node::new();
    let roster = vec!["n2".to_string(), "n3".to_string()];
    let r = reply_of(&mut node, request("c1", "n1", Some(4), Payload::Topology { node_ids: roster }));
    match r.body.payload {
        Payload::Topology { node_ids } => assert!(node_ids.is_empty()),
        other => panic!("unexpected payload {:?}", other),
    }
    assert_eq!(r.body.in_reply_to, Some(4));
}

#[test]
fn acknowledgements_get_no_reply() {
    let mut node = Node::new();
    let acks = vec![
        Payload::InitOk,
        Payload::EchoOk { echo: "e".to_string() },
        Payload::GenerateOk { id: "n2-0".to_string() },
        Payload::TopologyOk,
        Payload::BroadcastOk,
        Payload::ReadOk { messages: vec![1, 2] },
    ];
    for p in acks {
        assert!(node.handle(request("n2", "n1", Some(3), p)).unwrap().is_none());
    }
    let r = reply_of(&mut node, request("c1", "n1", Some(1), Payload::Read));
    assert_eq!(r.body.msg_id, Some(0));
    match r.body.payload {
        Payload::ReadOk { messages } => assert!(messages.is_empty()),
        other => panic!("unexpected payload {:?}", other),
    }
}

#[test]
fn replies_swap_src_and_dest_and_echo_msg_id() {
    let mut node = Node::new();
    let r = reply_of(&mut node, request("client", "server", None, Payload::Echo { echo: "".to_string() }));
    assert_eq!(r.src, "server");
    assert_eq!(r.dest, "client");
    assert_eq!(r.body.in_reply_to, None);
    let r = reply_of(&mut node, request("client", "server", Some(-4), Payload::Read));
    assert_eq!(r.body.in_reply_to, Some(-4));
}

#[test]
fn reply_ids_count_up_from_zero() {
    let mut node = Node::new();
    for k in 0..20 {
        let r = reply_of(&mut node, request("c", "n", Some(100), Payload::Echo { echo: "a".to_string() }));
        assert_eq!(r.body.msg_id, Some(k));
    }
}

#[test]
fn decimal_text_of_integers() {
    assert_eq!(i32_to_decimal(0), "0");
    assert_eq!(i32_to_decimal(7), "7");
    assert_eq!(i32_to_decimal(10), "10");
    assert_eq!(i32_to_decimal(1234509), "1234509");
    assert_eq!(i32_to_decimal(-45), "-45");
    assert_eq!(i32_to_decimal(i32::MAX), "2147483647");
    assert_eq!(i32_to_decimal(i32::MIN), "-2147483648");
}
