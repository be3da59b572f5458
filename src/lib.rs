//! One participant of a line-delimited JSON message protocol: the message
//! model, the node's state machine and its dispatcher.

mod decimal;
mod laws;
mod message;
mod node;

pub use decimal::{decimal, digit_char, digits, i32_to_decimal};
pub use laws::{
    broadcast_values, lemma_generate_after_init, lemma_read_after_broadcasts,
    lemma_reply_ids_count_up, run,
};
pub use message::{strings_view, Body, BodyModel, Message, MessageModel, Payload, PayloadModel};
pub use node::{
    answer, apply, generated_id, refusal, reply_to, reply_view, step, Node, NodeError, NodeModel,
};
