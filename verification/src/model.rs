//! Mathematical model of the pipeline.
//!
//! Every executable type has a view into the ghost structures below, and every
//! public operation of the orchestrator is specified as one of the transition
//! functions here. The laws of the library are stated and proved over these
//! transitions alone.

use vstd::prelude::*;

verus! {

/// Image of a raw batch: the transaction payloads observed in one
/// source-chain block, tagged with that block's number.
#[verifier::ext_equal]
pub struct BatchModel {
    /// The payloads, in the order they appeared in the block.
    pub txs: Seq<Seq<u8>>,
    /// The source-chain block number the payloads were observed in.
    pub origin: u64,
}

/// Image of one item travelling between decoding stages: a single payload
/// together with the source-chain block it came from.
#[verifier::ext_equal]
pub struct ItemModel {
    /// The payload.
    pub data: Seq<u8>,
    /// The source-chain block number the payload was observed in.
    pub origin: u64,
}

/// Image of one block-construction instruction set produced by the final
/// stage.
#[verifier::ext_equal]
pub struct AttributesModel {
    /// The transaction payloads to include in the block.
    pub transactions: Seq<Seq<u8>>,
    /// The source-chain block the payloads were derived from.
    pub origin: u64,
    /// Position of the block in the derived sequence.
    pub sequence_number: int,
}

/// Contents of the stage chain up to (and owned below) a given stage: the
/// queued raw batches not yet drawn by the intake stage, and the items drawn
/// from a batch but not yet handed downstream.
#[verifier::ext_equal]
pub struct StageModel {
    /// Raw batches submitted to the ingestion queue, oldest first.
    pub queue: Seq<BatchModel>,
    /// Items of the batch currently being drained, oldest first.
    pub inflight: Seq<ItemModel>,
}

/// Complete state of the orchestrator.
#[verifier::ext_equal]
pub struct PipelineModel {
    /// Raw batches submitted but not yet drawn by the intake stage.
    pub queue: Seq<BatchModel>,
    /// Items drawn from a batch but not yet emitted as attributes.
    pub inflight: Seq<ItemModel>,
    /// The one-slot look-ahead buffer backing `peek`.
    pub pending: Option<AttributesModel>,
    /// Sequence number the next produced attributes will carry.
    pub next_seq: int,
    /// Sequence number the pipeline started from; restored by `purge`.
    pub start_seq: int,
}

/// The items a raw batch contributes to the stage chain: one per payload, each
/// tagged with the batch's origin, in batch order.
pub open spec fn items_of(b: BatchModel) -> Seq<ItemModel> {
    b.txs.map_values(|d: Seq<u8>| ItemModel { data: d, origin: b.origin })
}

/// The queue with its leading payload-less batches removed: what a pull that
/// reaches the queue actually draws from. A batch with no payloads can never
/// yield an item, so one pull consumes any run of them on its way to the
/// first payload.
pub open spec fn skip_empty(bs: Seq<BatchModel>) -> Seq<BatchModel>
    decreases bs.len(),
{
    if bs.len() > 0 && bs[0].txs.len() == 0 {
        skip_empty(bs.drop_first())
    } else {
        bs
    }
}

/// What one pull at the head of the stage chain returns: the oldest in-flight
/// item if one exists, else the first payload anywhere in the queue, else
/// nothing. "Not ready" therefore means no payload is queued anywhere
/// upstream, never that one merely sits behind a payload-less batch.
pub open spec fn stage_pull_out(s: StageModel) -> Option<ItemModel> {
    if s.inflight.len() > 0 {
        Some(s.inflight[0])
    } else {
        let q = skip_empty(s.queue);
        if q.len() > 0 {
            Some(items_of(q[0])[0])
        } else {
            None
        }
    }
}

/// Stage-chain contents after one pull: payload-less batches at the head of
/// the queue are consumed within the same pull that reaches past them.
pub open spec fn stage_pull_step(s: StageModel) -> StageModel {
    if s.inflight.len() > 0 {
        StageModel { queue: s.queue, inflight: s.inflight.drop_first() }
    } else {
        let q = skip_empty(s.queue);
        if q.len() > 0 {
            StageModel { queue: q.drop_first(), inflight: items_of(q[0]).drop_first() }
        } else {
            StageModel { queue: q, inflight: Seq::empty() }
        }
    }
}

/// Stage-chain contents after a purge cascade: in-flight items are discarded,
/// already-submitted batches stay queued.
pub open spec fn stage_purge(s: StageModel) -> StageModel {
    StageModel { queue: s.queue, inflight: Seq::empty() }
}

/// Stage-chain contents after a batch is handed to the ingestion queue.
pub open spec fn stage_push(s: StageModel, b: BatchModel) -> StageModel {
    StageModel { queue: s.queue.push(b), inflight: s.inflight }
}

/// The attributes the final stage builds from one item: a block carrying that
/// payload alone, tagged with the item's origin and the given position.
pub open spec fn attributes_of(item: ItemModel, sequence_number: int) -> AttributesModel {
    AttributesModel { transactions: seq![item.data], origin: item.origin, sequence_number }
}

/// State of the attribute-construction stage: the stage-chain contents it
/// draws from, plus the sequence counter it stamps results with.
#[verifier::ext_equal]
pub struct AttributesStageModel {
    /// Contents of the upstream chain.
    pub source: StageModel,
    /// Sequence number the next produced attributes will carry.
    pub next_seq: int,
    /// Sequence number the stage started from; restored by `purge`.
    pub start_seq: int,
}

/// What one pull from the attribute-construction stage returns: the attributes
/// built from the next upstream item, stamped with the current sequence
/// number, or nothing when the upstream is not ready.
pub open spec fn attr_pull_out(m: AttributesStageModel) -> Option<AttributesModel> {
    match stage_pull_out(m.source) {
        Some(item) => Some(attributes_of(item, m.next_seq)),
        None => None,
    }
}

/// Attribute-stage state after one pull: the upstream moves one step, and the
/// sequence counter advances exactly when a result was produced.
pub open spec fn attr_pull_step(m: AttributesStageModel) -> AttributesStageModel {
    AttributesStageModel {
        source: stage_pull_step(m.source),
        next_seq: if stage_pull_out(m.source) is Some {
            m.next_seq + 1
        } else {
            m.next_seq
        },
        start_seq: m.start_seq,
    }
}

/// Attribute-stage state after a purge cascade: upstream in-flight state is
/// discarded and the sequence counter returns to its starting value.
pub open spec fn attr_purge(m: AttributesStageModel) -> AttributesStageModel {
    AttributesStageModel {
        source: stage_purge(m.source),
        next_seq: m.start_seq,
        start_seq: m.start_seq,
    }
}

/// The stage-chain contents embedded in an orchestrator state.
pub open spec fn stage_of(v: PipelineModel) -> StageModel {
    StageModel { queue: v.queue, inflight: v.inflight }
}

/// What one pull from the final stage returns, before the pending slot is
/// consulted.
pub open spec fn pull_out(v: PipelineModel) -> Option<AttributesModel> {
    match stage_pull_out(stage_of(v)) {
        Some(item) => Some(attributes_of(item, v.next_seq)),
        None => None,
    }
}

/// Orchestrator state after one pull from the final stage.
pub open spec fn pull_step(v: PipelineModel) -> PipelineModel {
    let s = stage_pull_step(stage_of(v));
    PipelineModel {
        queue: s.queue,
        inflight: s.inflight,
        pending: v.pending,
        next_seq: if stage_pull_out(stage_of(v)) is Some { v.next_seq + 1 } else { v.next_seq },
        start_seq: v.start_seq,
    }
}

/// What `advance` returns: the buffered result if one is pending, otherwise
/// the outcome of a single pull.
pub open spec fn advance_out(v: PipelineModel) -> Option<AttributesModel> {
    if v.pending is Some {
        v.pending
    } else {
        pull_out(v)
    }
}

/// Orchestrator state after `advance`: Buffered goes back to Empty, Empty
/// pulls once and hands the outcome straight to the caller.
pub open spec fn advance_step(v: PipelineModel) -> PipelineModel {
    if v.pending is Some {
        PipelineModel { pending: None, ..v }
    } else {
        pull_step(v)
    }
}

/// Orchestrator state after `peek`: a pending result is left in place;
/// otherwise one pull runs and its outcome is stored in the slot, which may
/// leave the slot empty ("not ready").
pub open spec fn peek_step(v: PipelineModel) -> PipelineModel {
    if v.pending is Some {
        v
    } else {
        PipelineModel { pending: pull_out(v), ..pull_step(v) }
    }
}

/// Orchestrator state after `submit`: the batch joins the back of the
/// ingestion queue and nothing else moves.
pub open spec fn submit_step(v: PipelineModel, b: BatchModel) -> PipelineModel {
    PipelineModel { queue: v.queue.push(b), ..v }
}

/// Orchestrator state after `purge`: the pending slot and all in-flight items
/// are discarded, the sequence counter returns to its starting value, and
/// already-submitted batches stay queued.
pub open spec fn purge_step(v: PipelineModel) -> PipelineModel {
    PipelineModel {
        queue: v.queue,
        inflight: Seq::empty(),
        pending: None,
        next_seq: v.start_seq,
        start_seq: v.start_seq,
    }
}

/// State of a freshly constructed orchestrator: everything empty, counting
/// from the given sequence number.
pub open spec fn init_model(start_seq: int) -> PipelineModel {
    PipelineModel {
        queue: Seq::empty(),
        inflight: Seq::empty(),
        pending: None,
        next_seq: start_seq,
        start_seq,
    }
}

} // verus!
