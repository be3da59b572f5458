use vstd::prelude::*;

use crate::decimal::{decimal, i32_to_decimal};
use crate::message::{Body, BodyModel, Message, MessageModel, Payload, PayloadModel, strings_view};

verus! {

/// Why a node refuses to handle a message. Each is fatal to the node's run.
#[derive(Clone, Copy, Debug, PartialEq, Eq, Structural)]
pub enum NodeError {
    /// An identifier was asked for before `init` gave the node its identity.
    NotInitialized,
    /// A reply is owed but every `i32` message id has been used.
    MsgIdsExhausted,
}

/// The state of one node: the values broadcast to it, the id of its next
/// reply, and the identity and roster that `init` gave it.
pub struct Node {
    messages: Vec<i32>,
    next_msg_id: i32,
    node_id: Option<String>,
    node_ids: Option<Vec<String>>,
}

/// What a `Node` holds.
pub ghost struct NodeModel {
    pub messages: Seq<i32>,
    pub next_msg_id: i32,
    pub node_id: Option<Seq<char>>,
    pub node_ids: Option<Seq<Seq<char>>>,
}

impl View for Node {
    type V = NodeModel;

    closed spec fn view(&self) -> NodeModel {
        NodeModel {
            messages: self.messages@,
            next_msg_id: self.next_msg_id,
            node_id: match self.node_id {
                Some(s) => Some(s@),
                None => None,
            },
            node_ids: match self.node_ids {
                Some(v) => Some(strings_view(v)),
                None => None,
            },
        }
    }
}

impl NodeModel {
    /// A node that has handled nothing yet.
    pub open spec fn fresh() -> NodeModel {
        NodeModel { messages: seq![], next_msg_id: 0, node_id: None, node_ids: None }
    }
}

/// The identifier generated by the node `node_id` while its next reply id is `k`.
pub open spec fn generated_id(node_id: Seq<char>, k: i32) -> Seq<char> {
    node_id + seq!['-'] + decimal(k as int)
}

/// The state change that a payload asks for, before any reply is counted.
pub open spec fn apply(n: NodeModel, p: PayloadModel) -> NodeModel {
    match p {
        PayloadModel::Init { node_id, node_ids } => NodeModel {
            node_id: Some(node_id),
            node_ids: Some(node_ids),
            ..n
        },
        PayloadModel::Broadcast { message } => NodeModel { messages: n.messages.push(message), ..n },
        _ => n,
    }
}

/// The payload answered to `p` by a node in state `n` (after `apply`), or
/// `None` where `p` gets no reply.
pub open spec fn answer(n: NodeModel, p: PayloadModel) -> Option<PayloadModel> {
    match p {
        PayloadModel::Echo { echo } => Some(PayloadModel::EchoOk { echo }),
        PayloadModel::Init { .. } => Some(PayloadModel::InitOk),
        PayloadModel::Generate => Some(
            PayloadModel::GenerateOk { id: generated_id(n.node_id.unwrap(), n.next_msg_id) },
        ),
        PayloadModel::Topology { .. } => Some(PayloadModel::Topology { node_ids: seq![] }),
        PayloadModel::Broadcast { .. } => Some(PayloadModel::BroadcastOk),
        PayloadModel::Read => Some(PayloadModel::ReadOk { messages: n.messages }),
        _ => None,
    }
}

/// The error that a node in state `n` meets on payload `p`, if any.
pub open spec fn refusal(n: NodeModel, p: PayloadModel) -> Option<NodeError> {
    if p is Generate && n.node_id is None {
        Some(NodeError::NotInitialized)
    } else if !p.is_ack() && n.next_msg_id == i32::MAX {
        Some(NodeError::MsgIdsExhausted)
    } else {
        None
    }
}

/// The reply to `m` that carries message id `id` and payload `p`.
pub open spec fn reply_to(m: MessageModel, id: i32, p: PayloadModel) -> MessageModel {
    MessageModel {
        src: m.dest,
        dest: m.src,
        body: BodyModel { msg_id: Some(id), in_reply_to: m.body.msg_id, payload: p },
    }
}

/// One message handled by a node in state `n`: the next state and the reply,
/// or the error that stops the node.
pub open spec fn step(n: NodeModel, m: MessageModel) -> Result<
    (NodeModel, Option<MessageModel>),
    NodeError,
> {
    let p = m.body.payload;
    match refusal(n, p) {
        Some(e) => Err(e),
        None => {
            let n1 = apply(n, p);
            match answer(n1, p) {
                None => Ok((n1, None)),
                Some(q) => Ok(
                    (
                        NodeModel { next_msg_id: (n1.next_msg_id + 1) as i32, ..n1 },
                        Some(reply_to(m, n1.next_msg_id, q)),
                    ),
                ),
            }
        },
    }
}

/// The view of a possible reply.
pub open spec fn reply_view(o: Option<Message>) -> Option<MessageModel> {
    match o {
        Some(m) => Some(m@),
        None => None,
    }
}

impl Node {
    /// A node with no identity, no roster, an empty log and its reply ids
    /// starting at 0.
    pub fn new() -> (r: Node)
        ensures
            r@ == NodeModel::fresh(),
    {
        let r = Node { messages: Vec::new(), next_msg_id: 0, node_id: None, node_ids: None };
        proof {
            assert(r@.messages =~= seq![]);
        }
        r
    }

    /// Handles one inbound message: updates the state and returns the reply
    /// that is owed, if any.
    pub fn handle(&mut self, msg: Message) -> (r: Result<Option<Message>, NodeError>)
        ensures
            match step(old(self)@, msg@) {
                Ok((n, rep)) => final(self)@ == n && r is Ok && reply_view(r->Ok_0) == rep,
                Err(e) => r == Err::<Option<Message>, NodeError>(e) && final(self)@ == old(self)@,
            },
            r matches Ok(Some(rep)) ==> {
                &&& rep.src@ == msg.dest@
                &&& rep.dest@ == msg.src@
                &&& rep.body.in_reply_to == msg.body.msg_id
                &&& rep.body.msg_id == Some(old(self)@.next_msg_id)
                &&& final(self)@.next_msg_id == old(self)@.next_msg_id + 1
            },
            r matches Ok(None) ==> final(self)@.next_msg_id == old(self)@.next_msg_id,
            msg@.body.payload.is_ack() ==> r is Ok && r->Ok_0 is None && final(self)@ == old(self)@,
            msg@.body.payload is Generate && old(self)@.node_id is None ==> r == Err::<
                Option<Message>,
                NodeError,
            >(NodeError::NotInitialized) && final(self)@ == old(self)@,
    {
        let Message { src, dest, body } = msg;
        let Body { msg_id, in_reply_to: _, payload } = body;
        if payload.is_ack() {
            return Ok(None);
        }
        if matches!(payload, Payload::Generate) && self.node_id.is_none() {
            return Err(NodeError::NotInitialized);
        }
        if self.next_msg_id == i32::MAX {
            return Err(NodeError::MsgIdsExhausted);
        }
        let answer = match payload {
            Payload::Echo { echo } => Payload::EchoOk { echo },
            Payload::Init { node_id, node_ids } => {
                // `init` always succeeds: its contract says so.
                let _ = self.init(node_id, node_ids);
                Payload::InitOk
            },
            Payload::Generate => Payload::GenerateOk { id: self.generate_id() },
            Payload::Topology { .. } => {
                let node_ids: Vec<String> = Vec::new();
                proof {
                    assert(strings_view(node_ids) =~= seq![]);
                }
                Payload::Topology { node_ids }
            },
            Payload::Broadcast { message } => {
                self.messages.push(message);
                Payload::BroadcastOk
            },
            Payload::Read => Payload::ReadOk { messages: self.messages.clone() },
            _ => {
                return Ok(None);
            },
        };
        Ok(Some(self.reply(src, dest, msg_id, answer)))
    }

    /// Gives the node its identity and peer roster; a second call overwrites
    /// the first.
    pub fn init(&mut self, node_id: String, node_ids: Vec<String>) -> (r: Result<(), NodeError>)
        ensures
            r is Ok,
            final(self)@ == apply(
                old(self)@,
                PayloadModel::Init { node_id: node_id@, node_ids: strings_view(node_ids) },
            ),
    {
        self.node_id = Some(node_id);
        self.node_ids = Some(node_ids);
        Ok(())
    }

    /// The identifier `"{node_id}-{next_msg_id}"`. It does not advance the
    /// reply id: only the reply that carries it does.
    pub fn generate_id(&self) -> (r: String)
        requires
            self@.node_id is Some,
        ensures
            r@ == generated_id(self@.node_id.unwrap(), self@.next_msg_id),
    {
        let n = self.node_id.as_ref().unwrap();
        let mut id = n.clone();
        proof {
            reveal_strlit("-");
        }
        id.append("-");
        let k = i32_to_decimal(self.next_msg_id);
        id.append(k.as_str());
        id
    }

    /// The reply from `dest` back to `src`, answering `in_reply_to`: it
    /// carries the next reply id, which then advances.
    fn reply(&mut self, src: String, dest: String, in_reply_to: Option<i32>, payload: Payload) -> (r:
        Message)
        requires
            old(self).next_msg_id < i32::MAX,
        ensures
            r@ == (MessageModel {
                src: dest@,
                dest: src@,
                body: BodyModel {
                    msg_id: Some(old(self)@.next_msg_id),
                    in_reply_to,
                    payload: payload@,
                },
            }),
            final(self)@ == (NodeModel {
                next_msg_id: (old(self)@.next_msg_id + 1) as i32,
                ..old(self)@
            }),
    {
        let r = Message {
            src: dest,
            dest: src,
            body: Body { msg_id: Some(self.next_msg_id), in_reply_to, payload },
        };
        self.next_msg_id = self.next_msg_id + 1;
        r
    }
}

} // verus!
