use vstd::prelude::*;

verus! {

/// The content of a message body, discriminated on the wire by its `type`.
#[derive(Debug)]
pub enum Payload {
    Init { node_id: String, node_ids: Vec<String> },
    InitOk,
    Echo { echo: String },
    EchoOk { echo: String },
    Generate,
    GenerateOk { id: String },
    Topology { node_ids: Vec<String> },
    TopologyOk,
    Broadcast { message: i32 },
    BroadcastOk,
    Read,
    ReadOk { messages: Vec<i32> },
}

/// A message body: the correlation fields beside the payload.
#[derive(Debug)]
pub struct Body {
    pub msg_id: Option<i32>,
    pub in_reply_to: Option<i32>,
    pub payload: Payload,
}

/// A message envelope: sender, intended recipient and body.
#[derive(Debug)]
pub struct Message {
    pub src: String,
    pub dest: String,
    pub body: Body,
}

/// What a `Payload` means, over sequences of characters.
pub ghost enum PayloadModel {
    Init { node_id: Seq<char>, node_ids: Seq<Seq<char>> },
    InitOk,
    Echo { echo: Seq<char> },
    EchoOk { echo: Seq<char> },
    Generate,
    GenerateOk { id: Seq<char> },
    Topology { node_ids: Seq<Seq<char>> },
    TopologyOk,
    Broadcast { message: i32 },
    BroadcastOk,
    Read,
    ReadOk { messages: Seq<i32> },
}

/// What a `Body` means.
pub ghost struct BodyModel {
    pub msg_id: Option<i32>,
    pub in_reply_to: Option<i32>,
    pub payload: PayloadModel,
}

/// What a `Message` means.
pub ghost struct MessageModel {
    pub src: Seq<char>,
    pub dest: Seq<char>,
    pub body: BodyModel,
}

/// The views of a list of strings.
pub open spec fn strings_view(v: Vec<String>) -> Seq<Seq<char>> {
    v@.map_values(|s: String| s@)
}

impl View for Payload {
    type V = PayloadModel;

    open spec fn view(&self) -> PayloadModel {
        match self {
            Payload::Init { node_id, node_ids } => PayloadModel::Init {
                node_id: node_id@,
                node_ids: strings_view(*node_ids),
            },
            Payload::InitOk => PayloadModel::InitOk,
            Payload::Echo { echo } => PayloadModel::Echo { echo: echo@ },
            Payload::EchoOk { echo } => PayloadModel::EchoOk { echo: echo@ },
            Payload::Generate => PayloadModel::Generate,
            Payload::GenerateOk { id } => PayloadModel::GenerateOk { id: id@ },
            Payload::Topology { node_ids } => PayloadModel::Topology {
                node_ids: strings_view(*node_ids),
            },
            Payload::TopologyOk => PayloadModel::TopologyOk,
            Payload::Broadcast { message } => PayloadModel::Broadcast { message: *message },
            Payload::BroadcastOk => PayloadModel::BroadcastOk,
            Payload::Read => PayloadModel::Read,
            Payload::ReadOk { messages } => PayloadModel::ReadOk { messages: messages@ },
        }
    }
}

impl View for Body {
    type V = BodyModel;

    open spec fn view(&self) -> BodyModel {
        BodyModel { msg_id: self.msg_id, in_reply_to: self.in_reply_to, payload: self.payload@ }
    }
}

impl View for Message {
    type V = MessageModel;

    open spec fn view(&self) -> MessageModel {
        MessageModel { src: self.src@, dest: self.dest@, body: self.body@ }
    }
}

impl PayloadModel {
    /// An acknowledgement: a payload that answers a request and is itself
    /// never answered.
    pub open spec fn is_ack(self) -> bool {
        match self {
            PayloadModel::InitOk | PayloadModel::EchoOk { .. } | PayloadModel::GenerateOk { .. }
            | PayloadModel::TopologyOk | PayloadModel::BroadcastOk | PayloadModel::ReadOk {
                ..
            } => true,
            _ => false,
        }
    }
}

impl Payload {
    /// Whether the payload is an acknowledgement (`*_ok`).
    pub fn is_ack(&self) -> (r: bool)
        ensures
            r == self@.is_ack(),
    {
        match self {
            Payload::InitOk | Payload::EchoOk { .. } | Payload::GenerateOk { .. }
            | Payload::TopologyOk | Payload::BroadcastOk | Payload::ReadOk { .. } => true,
            _ => false,
        }
    }
}

} // verus!
