//! The decoding stages, chained so each one lazily pulls from the one before
//! it: transaction intake, channel reassembly, batch validation, attribute
//! construction.
//!
//! The byte-level decoding each stage performs belongs to external
//! collaborators; what is fixed here is the composition: how items move
//! through the chain, in what order they come out, and how a purge cascades
//! from the last stage to the first.

use vstd::prelude::*;

use crate::model::{
    attr_pull_out, attr_pull_step, attr_purge, attributes_of, items_of, skip_empty,
    stage_pull_out, stage_pull_step, stage_purge, stage_push, AttributesStageModel, ItemModel,
    StageModel,
};
use crate::purgeable::PurgeableIterator;
use crate::types::{Batch, BatcherTransaction, BlockAttributes, ChannelData, Config, RawBatch, State};

verus! {

/// The transaction-intake stage. It owns the consumer end of the ingestion
/// queue: raw batches submitted by the watcher wait here, strictly in
/// submission order, until they are drained one payload at a time.
pub struct BatcherTransactions {
    /// Raw batches submitted but not yet drawn, oldest first.
    queue: Vec<RawBatch>,
    /// Remaining payloads of the batch currently being drained, oldest first.
    current_txs: Vec<Vec<u8>>,
    /// Origin of the batch currently being drained.
    current_origin: u64,
}

impl View for BatcherTransactions {
    type V = StageModel;

    closed spec fn view(&self) -> StageModel {
        StageModel {
            queue: self.queue.deep_view(),
            inflight: self.current_txs.deep_view().map_values(
                |d: Seq<u8>| ItemModel { data: d, origin: self.current_origin },
            ),
        }
    }
}

impl BatcherTransactions {
    /// Creates an intake stage wired to an empty ingestion queue.
    pub fn new() -> (r: Self)
        ensures
            r@ == (StageModel { queue: Seq::empty(), inflight: Seq::empty() }),
    {
        let r = BatcherTransactions {
            queue: Vec::new(),
            current_txs: Vec::new(),
            current_origin: 0,
        };
        proof {
            assert(r@ =~= StageModel { queue: Seq::empty(), inflight: Seq::empty() });
        }
        r
    }

    /// Hands a raw batch to the back of the ingestion queue. The queue is
    /// unbounded and strictly FIFO: nothing is dropped, reordered, or
    /// duplicated.
    pub fn push_batch(&mut self, batch: RawBatch)
        ensures
            final(self)@ == stage_push(old(self)@, batch@),
    {
        let ghost pre = self@;
        let ghost b = batch@;
        self.queue.push(batch);
        proof {
            assert forall|i: int| 0 <= i < self.queue@.len() implies self@.queue[i]
                == pre.queue.push(b)[i] by {
            }
            assert(self@ =~= stage_push(pre, b));
        }
    }
}

impl PurgeableIterator for BatcherTransactions {
    type Item = BatcherTransaction;

    open spec fn next_req(pre: Self) -> bool {
        true
    }

    open spec fn next_ens(pre: Self, post: Self, r: Option<BatcherTransaction>) -> bool {
        &&& post@ == stage_pull_step(pre@)
        &&& r.deep_view() == stage_pull_out(pre@)
    }

    open spec fn purge_ens(pre: Self, post: Self) -> bool {
        post@ == stage_purge(pre@)
    }

    /// Produces the next raw payload: the oldest not-yet-produced payload of
    /// the oldest payload-bearing batch. Batches that carried no payloads are
    /// skipped within the same pull, so "not ready" is reported only when no
    /// payload waits anywhere in the queue.
    fn next(&mut self) -> (r: Option<BatcherTransaction>) {
        let ghost pre = self@;
        if self.current_txs.len() > 0 {
            let data = self.current_txs.remove(0);
            let r = Some(BatcherTransaction { data, origin: self.current_origin });
            proof {
                assert(self@.inflight =~= pre.inflight.drop_first());
                assert(self@ =~= stage_pull_step(pre));
                assert(r.deep_view() == stage_pull_out(pre));
            }
            r
        } else {
            while self.queue.len() > 0 && self.queue[0].txs.len() == 0
                invariant
                    self.current_txs@.len() == 0,
                    self@.inflight == pre.inflight,
                    skip_empty(self@.queue) == skip_empty(pre.queue),
                decreases self.queue.len(),
            {
                let ghost qpre = self@.queue;
                let _dropped = self.queue.remove(0);
                proof {
                    assert(self@.queue =~= qpre.drop_first());
                    assert(skip_empty(qpre) == skip_empty(qpre.drop_first()));
                }
            }
            proof {
                assert(skip_empty(self@.queue) == self@.queue);
            }
            if self.queue.len() > 0 {
                let ghost q = skip_empty(pre.queue);
                let batch = self.queue.remove(0);
                proof {
                    assert(self@.queue =~= q.drop_first());
                    assert(batch@ == q[0]);
                }
                self.current_origin = batch.origin;
                self.current_txs = batch.txs;
                let data = self.current_txs.remove(0);
                let r = Some(BatcherTransaction { data, origin: self.current_origin });
                proof {
                    assert(self@.inflight =~= items_of(q[0]).drop_first());
                    assert(self@ =~= stage_pull_step(pre));
                    assert(r.deep_view() == stage_pull_out(pre));
                }
                r
            } else {
                proof {
                    assert(self@.inflight =~= Seq::<ItemModel>::empty());
                    assert(self@.queue =~= skip_empty(pre.queue));
                    assert(self@ =~= stage_pull_step(pre));
                }
                None
            }
        }
    }

    /// Discards the partially drained batch. Already-submitted batches stay
    /// queued: the purge cascade resets stage state, never the ingestion
    /// queue.
    fn purge(&mut self) {
        let ghost pre = self@;
        self.current_txs.clear();
        proof {
            assert(self@ =~= stage_purge(pre));
        }
    }
}

/// The channel-reassembly stage. The byte-level framing it would undo belongs
/// to an external collaborator; here each intake payload stands for one
/// reassembled channel, so the stage forwards items unchanged and its only
/// cross-cutting duty is cascading the purge into its upstream.
pub struct Channels {
    /// The intake stage this stage pulls from.
    upstream: BatcherTransactions,
    /// Network parameters for the reassembly rules.
    config: Config,
}

impl View for Channels {
    type V = StageModel;

    closed spec fn view(&self) -> StageModel {
        self.upstream@
    }
}

impl Channels {
    /// Creates a channel stage pulling from the given intake stage.
    pub fn new(upstream: BatcherTransactions, config: Config) -> (r: Self)
        ensures
            r@ == upstream@,
    {
        Channels { upstream, config }
    }

    /// Hands a raw batch to the ingestion queue this stage's upstream draws
    /// from.
    pub fn push_batch(&mut self, batch: RawBatch)
        ensures
            final(self)@ == stage_push(old(self)@, batch@),
    {
        self.upstream.push_batch(batch);
    }
}

impl PurgeableIterator for Channels {
    type Item = ChannelData;

    open spec fn next_req(pre: Self) -> bool {
        true
    }

    open spec fn next_ens(pre: Self, post: Self, r: Option<ChannelData>) -> bool {
        &&& post@ == stage_pull_step(pre@)
        &&& r.deep_view() == stage_pull_out(pre@)
    }

    open spec fn purge_ens(pre: Self, post: Self) -> bool {
        post@ == stage_purge(pre@)
    }

    /// Produces the next reassembled channel, or "not ready" when the
    /// upstream has nothing for it yet.
    fn next(&mut self) -> (r: Option<ChannelData>) {
        match self.upstream.next() {
            Some(tx) => Some(ChannelData { data: tx.data, origin: tx.origin }),
            None => None,
        }
    }

    /// Drops any half-reassembled channel and cascades the purge upstream.
    fn purge(&mut self) {
        self.upstream.purge();
    }
}

/// The batch-validation stage. Validation and ordering rules belong to an
/// external collaborator; here every reassembled channel stands for one valid
/// batch, so the stage forwards items unchanged and cascades the purge.
pub struct Batches {
    /// The channel stage this stage pulls from.
    upstream: Channels,
    /// Chain-sync position the validation rules would be checked against.
    state: State,
    /// Network parameters for the validation rules.
    config: Config,
}

impl View for Batches {
    type V = StageModel;

    closed spec fn view(&self) -> StageModel {
        self.upstream@
    }
}

impl Batches {
    /// Creates a validation stage pulling from the given channel stage.
    pub fn new(upstream: Channels, state: State, config: Config) -> (r: Self)
        ensures
            r@ == upstream@,
    {
        Batches { upstream, state, config }
    }

    /// Hands a raw batch to the ingestion queue this stage's upstream draws
    /// from.
    pub fn push_batch(&mut self, batch: RawBatch)
        ensures
            final(self)@ == stage_push(old(self)@, batch@),
    {
        self.upstream.push_batch(batch);
    }
}

impl PurgeableIterator for Batches {
    type Item = Batch;

    open spec fn next_req(pre: Self) -> bool {
        true
    }

    open spec fn next_ens(pre: Self, post: Self, r: Option<Batch>) -> bool {
        &&& post@ == stage_pull_step(pre@)
        &&& r.deep_view() == stage_pull_out(pre@)
    }

    open spec fn purge_ens(pre: Self, post: Self) -> bool {
        post@ == stage_purge(pre@)
    }

    /// Produces the next validated batch, or "not ready" when the upstream has
    /// nothing for it yet.
    fn next(&mut self) -> (r: Option<Batch>) {
        match self.upstream.next() {
            Some(channel) => Some(Batch { data: channel.data, origin: channel.origin }),
            None => None,
        }
    }

    /// Drops any half-validated batch and cascades the purge upstream.
    fn purge(&mut self) {
        self.upstream.purge();
    }
}

/// The attribute-construction stage: the head of the chain. It turns each
/// validated batch into the instruction set for one execution-layer block and
/// stamps it with a strictly increasing sequence number.
pub struct Attributes {
    /// The validation stage this stage pulls from.
    upstream: Batches,
    /// Chain-sync position attribute construction would consult.
    state: State,
    /// Network parameters for attribute construction.
    config: Config,
    /// Sequence number the next produced attributes will carry.
    sequence_number: u64,
    /// Sequence number the stage started from; restored by `purge`.
    start_sequence_number: u64,
}

impl View for Attributes {
    type V = AttributesStageModel;

    closed spec fn view(&self) -> AttributesStageModel {
        AttributesStageModel {
            source: self.upstream@,
            next_seq: self.sequence_number as int,
            start_seq: self.start_sequence_number as int,
        }
    }
}

impl Attributes {
    /// Creates an attribute stage pulling from the given validation stage and
    /// counting from the given sequence number.
    pub fn new(upstream: Batches, state: State, config: Config, seq: u64) -> (r: Self)
        ensures
            r@ == (AttributesStageModel {
                source: upstream@,
                next_seq: seq as int,
                start_seq: seq as int,
            }),
    {
        Attributes {
            upstream,
            state,
            config,
            sequence_number: seq,
            start_sequence_number: seq,
        }
    }

    /// Hands a raw batch to the ingestion queue this stage's upstream draws
    /// from.
    pub fn push_batch(&mut self, batch: RawBatch)
        ensures
            final(self)@ == (AttributesStageModel {
                source: stage_push(old(self)@.source, batch@),
                ..old(self)@
            }),
    {
        self.upstream.push_batch(batch);
    }
}

impl PurgeableIterator for Attributes {
    type Item = BlockAttributes;

    open spec fn next_req(pre: Self) -> bool {
        pre@.next_seq < u64::MAX
    }

    open spec fn next_ens(pre: Self, post: Self, r: Option<BlockAttributes>) -> bool {
        &&& post@ == attr_pull_step(pre@)
        &&& r.deep_view() == attr_pull_out(pre@)
    }

    open spec fn purge_ens(pre: Self, post: Self) -> bool {
        post@ == attr_purge(pre@)
    }

    /// Produces the attributes for the next block, or "not ready" when the
    /// upstream has nothing for it yet. Each produced set carries the current
    /// sequence number, which then advances.
    fn next(&mut self) -> (r: Option<BlockAttributes>) {
        let ghost pre = self@;
        match self.upstream.next() {
            Some(batch) => {
                let ghost item = batch@;
                let mut transactions: Vec<Vec<u8>> = Vec::new();
                transactions.push(batch.data);
                let attributes = BlockAttributes {
                    transactions,
                    origin: batch.origin,
                    sequence_number: self.sequence_number,
                };
                self.sequence_number = self.sequence_number + 1;
                proof {
                    assert(attributes@.transactions =~= seq![item.data]);
                    assert(attributes@ =~= attributes_of(item, pre.next_seq));
                    assert(self@ =~= attr_pull_step(pre));
                }
                Some(attributes)
            },
            None => {
                proof {
                    assert(self@ =~= attr_pull_step(pre));
                }
                None
            },
        }
    }

    /// Resets the sequence counter to its starting value and cascades the
    /// purge through every upstream stage, reaching the whole chain from this
    /// single call.
    fn purge(&mut self) {
        self.upstream.purge();
        self.sequence_number = self.start_sequence_number;
    }
}

} // verus!
