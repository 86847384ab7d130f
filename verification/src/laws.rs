//! Laws of the aggregator, stated over the transition function [`step`]
//! that every accepted message is proved to follow.

use vstd::prelude::*;
use crate::execution::{
    accepted, execute_result_block, join_lines, step, ExecutionModel, ExecutionState,
    ExecutionStatus, MessageModel,
};
use crate::mime::{spec_richest, text_or_empty, BundleModel, MimeTypeModel};
use crate::outputs::OutputModel;

verus! {

/// The state after accepting each of `msgs` in order, starting from `s`.
pub open spec fn run(s: ExecutionModel, msgs: Seq<MessageModel>) -> ExecutionModel
    decreases msgs.len(),
{
    if msgs.len() == 0 {
        s
    } else {
        step(run(s, msgs.drop_last()), msgs.last())
    }
}

/// Whether `m` produces an output block whenever it is accepted: result and
/// display messages with a representable mapping, stream chunks and errors
/// do; status messages and unknown kinds never do.
pub open spec fn yields_block(m: MessageModel) -> bool {
    match m {
        MessageModel::ExecuteResult { data } => spec_richest(data) is Some,
        MessageModel::DisplayData { data } => spec_richest(data) is Some,
        MessageModel::StreamContent { .. } => true,
        MessageModel::ErrorOutput { .. } => true,
        MessageModel::Status { .. } => false,
        MessageModel::Other => false,
    }
}

/// Whether accepting `m` in state `s` merges into the last block instead of
/// appending: only a stream chunk arriving right behind a stream block does.
pub open spec fn merges(s: ExecutionModel, m: MessageModel) -> bool {
    &&& m is StreamContent
    &&& s.outputs.len() > 0
    &&& s.outputs.last() is Stream
}

/// The fresh block `m` appends when it yields a block and does not merge.
pub open spec fn produced_block(m: MessageModel) -> OutputModel {
    match m {
        MessageModel::ExecuteResult { data } => match spec_richest(data) {
            Some(entry) => execute_result_block(entry),
            None => arbitrary(),
        },
        MessageModel::DisplayData { data } => match spec_richest(data) {
            Some(entry) => OutputModel::Media { mime: entry.0, text: entry.1 },
            None => arbitrary(),
        },
        MessageModel::StreamContent { text } => OutputModel::Stream { text },
        MessageModel::ErrorOutput { ename, evalue, traceback } => OutputModel::ErrorOutput {
            ename,
            evalue,
            traceback: join_lines(traceback),
        },
        _ => arbitrary(),
    }
}

/// A message that yields a block and does not merge appends exactly its
/// fresh block, and leaves the status alone.
pub proof fn lemma_step_appends(s: ExecutionModel, m: MessageModel)
    requires
        yields_block(m),
        !merges(s, m),
    ensures
        step(s, m).outputs == s.outputs.push(produced_block(m)),
        step(s, m).status == s.status,
{
}

/// Order preservation. For any sequence of messages that each produce a
/// fresh block — none is skipped, none merges into a stream block — the
/// blocks land in the output sequence in exactly the messages' order.
#[verifier::rlimit(50)]
pub proof fn lemma_order_preservation(s0: ExecutionModel, msgs: Seq<MessageModel>)
    requires
        forall|i: int| 0 <= i < msgs.len() ==> yields_block(#[trigger] msgs[i]),
        forall|i: int| 0 <= i < msgs.len() ==> !merges(run(s0, msgs.take(i)), #[trigger] msgs[i]),
    ensures
        run(s0, msgs).outputs == s0.outputs + msgs.map_values(|m: MessageModel| produced_block(m)),
        run(s0, msgs).status == s0.status,
    decreases msgs.len(),
{
    let blocks_of = |m: MessageModel| produced_block(m);
    if msgs.len() == 0 {
        assert(run(s0, msgs) == s0);
        assert(s0.outputs + msgs.map_values(blocks_of) =~= s0.outputs);
    } else {
        let prefix = msgs.drop_last();
        assert forall|i: int| 0 <= i < prefix.len() implies yields_block(#[trigger] prefix[i])
            && !merges(run(s0, prefix.take(i)), prefix[i]) by {
            assert(prefix[i] == msgs[i]);
            assert(prefix.take(i) =~= msgs.take(i));
        }
        lemma_order_preservation(s0, prefix);
        assert(msgs.take(msgs.len() - 1) =~= prefix);
        lemma_step_appends(run(s0, prefix), msgs.last());
        assert(s0.outputs + prefix.map_values(blocks_of) + seq![produced_block(msgs.last())]
            =~= s0.outputs + msgs.map_values(blocks_of));
    }
}

/// Every unaccepted message — a result or display message whose mapping is
/// unrepresentable, or an unknown kind — is a silent no-op: no block, no
/// status change, no error.
pub proof fn lemma_ignored_is_noop(s: ExecutionModel, m: MessageModel)
    requires
        !accepted(m),
    ensures
        step(s, m) == s,
{
}

/// The block sequence is append-only: accepting a message never removes or
/// reorders blocks and never touches any block but the last; the last one is
/// left alone too unless a stream chunk merges into it, and a merge keeps it
/// a stream block.
pub proof fn lemma_append_only(s: ExecutionModel, m: MessageModel)
    ensures
        s.outputs.len() <= step(s, m).outputs.len(),
        forall|i: int| 0 <= i < s.outputs.len() - 1 ==> step(s, m).outputs[i] == s.outputs[i],
        s.outputs.len() > 0 && !merges(s, m) ==> step(s, m).outputs[s.outputs.len() - 1]
            == s.outputs.last(),
        merges(s, m) ==> step(s, m).outputs[s.outputs.len() - 1] is Stream,
{
}

/// Stream merge under adjacency. A stream chunk arriving while the last
/// block is a stream block grows that block in place — the texts are
/// concatenated in arrival order, and no new block appears.
pub proof fn lemma_stream_merge(s: ExecutionModel, prior: Seq<char>, text: Seq<char>)
    requires
        s.outputs.len() > 0,
        s.outputs.last() == (OutputModel::Stream { text: prior }),
    ensures
        step(s, MessageModel::StreamContent { text }).outputs == s.outputs.update(
            s.outputs.len() - 1,
            OutputModel::Stream { text: prior + text },
        ),
        step(s, MessageModel::StreamContent { text }).outputs.len() == s.outputs.len(),
{
}

/// Merge break on interruption. A stream chunk arriving while the last
/// block is anything but a stream block — or while there is no block at
/// all — starts a fresh stream block, even if an older stream block stands
/// further back.
pub proof fn lemma_stream_break(s: ExecutionModel, text: Seq<char>)
    requires
        s.outputs.len() == 0 || !(s.outputs.last() is Stream),
    ensures
        step(s, MessageModel::StreamContent { text }).outputs == s.outputs.push(
            OutputModel::Stream { text },
        ),
{
}

/// ExecuteResult vs DisplayData asymmetry. With the same mapping, selected
/// as plain text, a result message appends a plain-text block seeded with
/// the value's text, while a display message appends a media block.
pub proof fn lemma_result_display_asymmetry(
    s: ExecutionModel,
    data: BundleModel,
    text: Option<Seq<char>>,
)
    requires
        spec_richest(data) == Some((MimeTypeModel::Plain, text)),
    ensures
        step(s, MessageModel::ExecuteResult { data }).outputs == s.outputs.push(
            OutputModel::Plain { text: text_or_empty(text) },
        ),
        step(s, MessageModel::DisplayData { data }).outputs == s.outputs.push(
            OutputModel::Media { mime: MimeTypeModel::Plain, text },
        ),
{
}

/// Status monotonic update. A busy status message followed by an idle one
/// leaves the status finished, and neither appends any block.
pub proof fn lemma_status_monotonic_update(s: ExecutionModel)
    ensures
        ({
            let busy = MessageModel::Status { execution_state: ExecutionState::Busy };
            let idle = MessageModel::Status { execution_state: ExecutionState::Idle };
            let after = step(step(s, busy), idle);
            after.status == ExecutionStatus::Finished && after.outputs == s.outputs
                && step(s, busy).status == ExecutionStatus::Executing
        }),
{
}

} // verus!
