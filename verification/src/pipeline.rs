//! The pipeline orchestrator: peek/advance/submit/purge glue around the stage
//! chain.

use vstd::prelude::*;

use crate::model::{
    advance_out, advance_step, init_model, peek_step, purge_step, stage_of, submit_step,
    BatchModel, PipelineModel,
};
use crate::purgeable::PurgeableIterator;
use crate::stages::{Attributes, Batches, BatcherTransactions, Channels};
use crate::types::{BlockAttributes, Config, PipelineError, RawBatch, State};

verus! {

/// The derivation pipeline. It owns the producer end of the ingestion queue,
/// the head of the stage chain (earlier stages are reachable transitively),
/// and a one-slot buffer holding at most one produced result for peeking.
///
/// At this level the state machine has two states: **Empty** (the slot is
/// unset) and **Buffered** (it holds one result). `advance` moves Buffered to
/// Empty, `peek` moves Empty to Buffered, `purge` forces any state to Empty.
pub struct Pipeline {
    /// The final, attribute-construction stage; the whole chain hangs off it.
    attributes: Attributes,
    /// Pending block attributes, buffered for `peek`.
    pending_attributes: Option<BlockAttributes>,
}

impl View for Pipeline {
    type V = PipelineModel;

    closed spec fn view(&self) -> PipelineModel {
        PipelineModel {
            queue: self.attributes@.source.queue,
            inflight: self.attributes@.source.inflight,
            pending: self.pending_attributes.deep_view(),
            next_seq: self.attributes@.next_seq,
            start_seq: self.attributes@.start_seq,
        }
    }
}

impl Pipeline {
    /// Builds the ingestion queue and the four decoding stages in dependency
    /// order, wiring each stage's input to the previous stage's output, and
    /// returns the orchestrator with an empty pending slot, counting from the
    /// given sequence number. Construction fails only if a stage fails to
    /// initialize; none of these stages can.
    pub fn new(state: State, config: Config, seq: u64) -> (r: Result<Pipeline, PipelineError>)
        ensures
            r is Ok,
            r->Ok_0@ == init_model(seq as int),
    {
        let batcher_transactions = BatcherTransactions::new();
        let channels = Channels::new(batcher_transactions, config);
        let batches = Batches::new(channels, state, config);
        let attributes = Attributes::new(batches, state, config, seq);
        let pipeline = Pipeline { attributes, pending_attributes: None };
        proof {
            assert(pipeline@ =~= init_model(seq as int));
        }
        Ok(pipeline)
    }

    /// Constructs a raw batch from the payloads observed in source-chain block
    /// `l1_origin` and hands it to the ingestion queue. Fails only if the
    /// queue's consumer end is gone, which the owned stage chain rules out, so
    /// every submission is accepted — in particular one whose origin is lower
    /// than an earlier batch's: ordering is not this layer's concern.
    pub fn push_batcher_transactions(
        &mut self,
        txs: Vec<Vec<u8>>,
        l1_origin: u64,
    ) -> (r: Result<(), PipelineError>)
        ensures
            r is Ok,
            final(self)@ == submit_step(
                old(self)@,
                BatchModel { txs: txs.deep_view(), origin: l1_origin },
            ),
    {
        let ghost pre = self@;
        let ghost b = BatchModel { txs: txs.deep_view(), origin: l1_origin };
        let batch = RawBatch { txs, origin: l1_origin };
        self.attributes.push_batch(batch);
        proof {
            assert(self@ =~= submit_step(pre, b));
        }
        Ok(())
    }

    /// Returns the buffered result if one is pending; otherwise pulls once
    /// from the final stage and returns whatever it produced. An empty result
    /// means nothing derivable is buffered or queued anywhere upstream —
    /// never exhaustion, and never a payload merely sitting behind a
    /// payload-less batch: the caller polls again after supplying more input.
    /// The method never pulls more than once per call.
    pub fn advance(&mut self) -> (r: Option<BlockAttributes>)
        requires
            old(self)@.next_seq < u64::MAX,
        ensures
            final(self)@ == advance_step(old(self)@),
            r.deep_view() == advance_out(old(self)@),
    {
        let ghost pre = self@;
        if self.pending_attributes.is_some() {
            let r = self.pending_attributes.take();
            proof {
                assert(self@ =~= advance_step(pre));
            }
            r
        } else {
            let ghost pre_attr = self.attributes@;
            let r = self.attributes.next();
            proof {
                assert(stage_of(pre) =~= pre_attr.source);
                assert(self@ =~= advance_step(pre));
            }
            r
        }
    }

    /// Returns a reference to the next result without consuming it. If the
    /// slot is empty, one `advance` runs and its outcome — possibly "not
    /// ready", left as an empty slot — is stored first. Repeated peeks with no
    /// intervening `advance` return the identical result every time, a value
    /// or "not ready" alike, and move the pipeline nowhere after the first.
    pub fn peek(&mut self) -> (r: Option<&BlockAttributes>)
        requires
            old(self)@.next_seq < u64::MAX,
        ensures
            final(self)@ == peek_step(old(self)@),
            r is Some <==> peek_step(old(self)@).pending is Some,
            r is Some ==> (r->0)@ == peek_step(old(self)@).pending->0,
    {
        let ghost pre = self@;
        if self.pending_attributes.is_none() {
            let next_attributes = self.advance();
            self.pending_attributes = next_attributes;
        }
        proof {
            assert(self@ =~= peek_step(pre));
        }
        self.pending_attributes.as_ref()
    }

    /// Cascades a purge through the stage chain starting at the final stage —
    /// each stage purges its own upstream, so this single call reaches every
    /// stage — and then clears the pending slot: a result buffered before a
    /// source-chain reorganization must never reach the caller afterwards.
    /// Already-submitted batches stay queued; the ingestion queue is neither
    /// closed nor recreated.
    pub fn purge(&mut self) -> (r: Result<(), PipelineError>)
        ensures
            r is Ok,
            final(self)@ == purge_step(old(self)@),
    {
        let ghost pre = self@;
        self.attributes.purge();
        self.pending_attributes = None;
        proof {
            assert(self@ =~= purge_step(pre));
        }
        Ok(())
    }
}

} // verus!
