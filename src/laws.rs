use vstd::prelude::*;

use crate::message::{MessageModel, PayloadModel};
use crate::node::{generated_id, step, NodeError, NodeModel};

verus! {

/// A node in state `n` handling `msgs` in order: its final state and the
/// replies it sent, or the first error, which ends the run.
pub open spec fn run(n: NodeModel, msgs: Seq<MessageModel>) -> Result<
    (NodeModel, Seq<MessageModel>),
    NodeError,
>
    decreases msgs.len(),
{
    if msgs.len() == 0 {
        Ok((n, seq![]))
    } else {
        match run(n, msgs.drop_last()) {
            Err(e) => Err(e),
            Ok((n1, outs)) => match step(n1, msgs.last()) {
                Err(e) => Err(e),
                Ok((n2, None)) => Ok((n2, outs)),
                Ok((n2, Some(rep))) => Ok((n2, outs.push(rep))),
            },
        }
    }
}

/// The values carried by a sequence of broadcast messages.
pub open spec fn broadcast_values(msgs: Seq<MessageModel>) -> Seq<i32> {
    msgs.map_values(|m: MessageModel| m.body.payload->Broadcast_message)
}

proof fn lemma_run_ids_from(n: NodeModel, msgs: Seq<MessageModel>)
    requires
        run(n, msgs) is Ok,
    ensures
        ({
            let (n2, outs) = run(n, msgs)->Ok_0;
            &&& n2.next_msg_id == n.next_msg_id + outs.len()
            &&& n2.node_id is Some || n2.node_id == n.node_id
            &&& forall|i: int|
                0 <= i < outs.len() ==> #[trigger] outs[i].body.msg_id == Some(
                    (n.next_msg_id + i) as i32,
                )
        }),
    decreases msgs.len(),
{
    if msgs.len() > 0 {
        lemma_run_ids_from(n, msgs.drop_last());
    }
}

/// Reply ids count up from 0 by one per reply, with no gap and no repeat:
/// the i-th reply a fresh node sends carries id i, and the next id is the
/// number of replies sent.
pub proof fn lemma_reply_ids_count_up(msgs: Seq<MessageModel>)
    requires
        run(NodeModel::fresh(), msgs) is Ok,
    ensures
        ({
            let (n, outs) = run(NodeModel::fresh(), msgs)->Ok_0;
            &&& n.next_msg_id == outs.len()
            &&& forall|i: int| 0 <= i < outs.len() ==> #[trigger] outs[i].body.msg_id == Some(i as i32)
        }),
{
    lemma_run_ids_from(NodeModel::fresh(), msgs);
}

/// After any history, `init` followed by `generate` yields the id
/// `"{node_id}-{k}"`, where k counts the replies sent before that one.
pub proof fn lemma_generate_after_init(
    history: Seq<MessageModel>,
    init: MessageModel,
    generate: MessageModel,
)
    requires
        run(NodeModel::fresh(), history) is Ok,
        run(NodeModel::fresh(), history)->Ok_0.1.len() + 2 < i32::MAX,
        init.body.payload is Init,
        generate.body.payload is Generate,
    ensures
        ({
            let r = run(NodeModel::fresh(), history.push(init).push(generate));
            &&& r is Ok
            &&& r->Ok_0.1.last().body.payload == PayloadModel::GenerateOk {
                id: generated_id(
                    init.body.payload->Init_node_id,
                    (r->Ok_0.1.len() - 1) as i32,
                ),
            }
        }),
{
    let msgs = history.push(init).push(generate);
    lemma_reply_ids_count_up(history);
    assert(msgs.drop_last() == history.push(init));
    assert(history.push(init).drop_last() == history);
    let (n0, outs0) = run(NodeModel::fresh(), history)->Ok_0;
    let (n1, r1) = step(n0, init)->Ok_0;
    assert(n1.next_msg_id == outs0.len() + 1);
    assert(run(NodeModel::fresh(), history.push(init)) == Ok::<
        (NodeModel, Seq<MessageModel>),
        NodeError,
    >((n1, outs0.push(r1.unwrap()))));
    assert(n1.node_id == Some(init.body.payload->Init_node_id));
}

proof fn lemma_broadcasts_from(n: NodeModel, msgs: Seq<MessageModel>)
    requires
        n.next_msg_id >= 0,
        n.next_msg_id + msgs.len() < i32::MAX,
        forall|i: int| 0 <= i < msgs.len() ==> (#[trigger] msgs[i]).body.payload is Broadcast,
    ensures
        run(n, msgs) is Ok,
        run(n, msgs)->Ok_0.0.messages == n.messages + broadcast_values(msgs),
        run(n, msgs)->Ok_0.0.next_msg_id == n.next_msg_id + msgs.len(),
    decreases msgs.len(),
{
    if msgs.len() > 0 {
        let pre = msgs.drop_last();
        assert(forall|i: int| 0 <= i < pre.len() ==> #[trigger] pre[i] == msgs[i]);
        lemma_broadcasts_from(n, pre);
        assert(broadcast_values(msgs) == broadcast_values(pre).push(
            msgs.last().body.payload->Broadcast_message,
        ));
    } else {
        assert(broadcast_values(msgs) =~= seq![]);
    }
}

/// A fresh node sent broadcasts of v1, ..., vn and then a read answers the
/// read with exactly v1, ..., vn, in the order received, duplicates kept.
pub proof fn lemma_read_after_broadcasts(broadcasts: Seq<MessageModel>, read: MessageModel)
    requires
        broadcasts.len() + 1 < i32::MAX,
        forall|i: int| 0 <= i < broadcasts.len() ==> (#[trigger] broadcasts[i]).body.payload is Broadcast,
        read.body.payload is Read,
    ensures
        ({
            let r = run(NodeModel::fresh(), broadcasts.push(read));
            &&& r is Ok
            &&& r->Ok_0.1.last().body.payload == PayloadModel::ReadOk {
                messages: broadcast_values(broadcasts),
            }
        }),
{
    lemma_broadcasts_from(NodeModel::fresh(), broadcasts);
    lemma_run_ids_from(NodeModel::fresh(), broadcasts);
    assert(broadcasts.push(read).drop_last() == broadcasts);
    assert(seq![] + broadcast_values(broadcasts) == broadcast_values(broadcasts));
}

} // verus!
