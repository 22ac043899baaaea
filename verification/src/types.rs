//! The plain data types that flow through the pipeline, with their views into
//! the model.

use vstd::prelude::*;

use crate::model::{AttributesModel, BatchModel, ItemModel};

verus! {

/// Network parameters handed to each stage at construction. The orchestrator
/// treats the contents as opaque pass-through values for the decoding stages.
#[derive(Clone, Copy)]
pub struct Config {
    /// Identifier of the chain being derived.
    pub chain_id: u64,
}

/// Snapshot of the chain-sync position, as maintained by the external watcher
/// and consulted by the attribute-construction stage. The orchestrator only
/// carries it to the stages; it never reads or arbitrates it.
#[derive(Clone, Copy)]
pub struct State {
    /// Number of the latest source-chain block the watcher has processed.
    pub current_source_block: u64,
    /// Number of the latest derived execution-layer block.
    pub safe_head: u64,
}

/// The raw transaction payloads observed in one source-chain block, in block
/// order, tagged with that block's number. Immutable once constructed.
pub struct RawBatch {
    /// Opaque transaction payloads, in the order they appeared in the block.
    pub txs: Vec<Vec<u8>>,
    /// Source-chain block number the payloads were observed in.
    pub origin: u64,
}

impl View for RawBatch {
    type V = BatchModel;

    open spec fn view(&self) -> BatchModel {
        BatchModel { txs: self.txs.deep_view(), origin: self.origin }
    }
}

impl DeepView for RawBatch {
    type V = BatchModel;

    open spec fn deep_view(&self) -> BatchModel {
        self.view()
    }
}

/// One raw transaction payload extracted by the intake stage.
pub struct BatcherTransaction {
    /// The payload.
    pub data: Vec<u8>,
    /// Source-chain block number the payload was observed in.
    pub origin: u64,
}

impl View for BatcherTransaction {
    type V = ItemModel;

    open spec fn view(&self) -> ItemModel {
        ItemModel { data: self.data.deep_view(), origin: self.origin }
    }
}

impl DeepView for BatcherTransaction {
    type V = ItemModel;

    open spec fn deep_view(&self) -> ItemModel {
        self.view()
    }
}

/// The contents of one reassembled channel, as produced by the channel stage.
pub struct ChannelData {
    /// The channel's payload.
    pub data: Vec<u8>,
    /// Source-chain block number the payload was observed in.
    pub origin: u64,
}

impl View for ChannelData {
    type V = ItemModel;

    open spec fn view(&self) -> ItemModel {
        ItemModel { data: self.data.deep_view(), origin: self.origin }
    }
}

impl DeepView for ChannelData {
    type V = ItemModel;

    open spec fn deep_view(&self) -> ItemModel {
        self.view()
    }
}

/// One validated batch, ready for attribute construction.
pub struct Batch {
    /// The batch's payload.
    pub data: Vec<u8>,
    /// Source-chain block number the payload was observed in.
    pub origin: u64,
}

impl View for Batch {
    type V = ItemModel;

    open spec fn view(&self) -> ItemModel {
        ItemModel { data: self.data.deep_view(), origin: self.origin }
    }
}

impl DeepView for Batch {
    type V = ItemModel;

    open spec fn deep_view(&self) -> ItemModel {
        self.view()
    }
}

/// The per-block instruction set handed to the execution engine. The
/// orchestrator never inspects it beyond moving it between the pending slot
/// and the caller.
pub struct BlockAttributes {
    /// The transaction payloads to include in the block.
    pub transactions: Vec<Vec<u8>>,
    /// The source-chain block the payloads were derived from.
    pub origin: u64,
    /// Position of the block in the derived sequence.
    pub sequence_number: u64,
}

impl View for BlockAttributes {
    type V = AttributesModel;

    open spec fn view(&self) -> AttributesModel {
        AttributesModel {
            transactions: self.transactions.deep_view(),
            origin: self.origin,
            sequence_number: self.sequence_number as int,
        }
    }
}

impl DeepView for BlockAttributes {
    type V = AttributesModel;

    open spec fn deep_view(&self) -> AttributesModel {
        self.view()
    }
}

/// Failures that halt the orchestrator. Transient incompleteness ("not ready")
/// is not among them: it is an expected outcome of polling, modeled as an
/// empty result.
#[derive(Clone, Copy, PartialEq, Eq, Structural, Debug)]
pub enum PipelineError {
    /// The ingestion queue's consumer end has been torn down, so submitted
    /// batches can no longer reach the stage chain. With the queue owned by
    /// the intake stage the consumer lives as long as the pipeline, so the
    /// orchestrator's own operations never produce this; it is the delivery
    /// failure surfaced by `submit` should the wiring ever allow it.
    ChannelClosed,
}

} // verus!
