use derivation_pipeline::pipeline::Pipeline;
use derivation_pipeline::types::{Config, State};

fn fresh_pipeline(seq: u64) -> Pipeline {
    let config = Config { chain_id: 10 };
    let state = State { current_source_block: 0, safe_head: 0 };
    Pipeline::new(state, config, seq).unwrap()
}

#[test]
fn new_always_constructs() {
    let config = Config { chain_id: 10 };
    let state = State { current_source_block: 7, safe_head: 3 };
    let pipeline = Pipeline::new(state, config, 42);
    assert!(pipeline.is_ok());
}

#[test]
fn no_input_never_ready() {
    let mut pipeline = fresh_pipeline(0);
    for _ in 0..5 {
        assert!(pipeline.advance().is_none());
    }
    assert!(pipeline.push_batcher_transactions(Vec::new(), 1).is_ok());
}

#[test]
fn submit_then_advance_yields_origin() {
    let mut pipeline = fresh_pipeline(0);
    assert!(pipeline
        .push_batcher_transactions(vec![vec![0xAA]], 100)
        .is_ok());

    let mut produced = None;
    for _ in 0..3 {
        if let Some(attributes) = pipeline.advance() {
            produced = Some(attributes);
            break;
        }
    }
    let attributes = produced.expect("a submitted batch must emerge");
    assert_eq!(attributes.origin, 100);
    assert_eq!(attributes.transactions, vec![vec![0xAA]]);

    assert!(pipeline.purge().is_ok());
    assert!(pipeline.peek().is_none());
}

#[test]
fn peek_is_idempotent_and_advance_consumes_it() {
    let mut pipeline = fresh_pipeline(0);
    pipeline
        .push_batcher_transactions(vec![vec![1, 2, 3]], 55)
        .unwrap();

    let first = {
        let a = pipeline.peek().expect("value must be ready");
        (a.origin, a.sequence_number, a.transactions.clone())
    };
    let second = {
        let a = pipeline.peek().expect("peek must not consume");
        (a.origin, a.sequence_number, a.transactions.clone())
    };
    assert_eq!(first, second);

    let consumed = pipeline.advance().expect("advance must return peeked value");
    assert_eq!(consumed.origin, first.0);
    assert_eq!(consumed.sequence_number, first.1);
    assert_eq!(consumed.transactions, first.2);

    assert!(pipeline.advance().is_none());
}

#[test]
fn emission_order_is_kept() {
    let mut pipeline = fresh_pipeline(0);
    pipeline
        .push_batcher_transactions(vec![vec![0x0A], vec![0x0B]], 1)
        .unwrap();
    pipeline.push_batcher_transactions(vec![vec![0x0C]], 2).unwrap();

    let mut origins = Vec::new();
    let mut seqs = Vec::new();
    let mut payloads = Vec::new();
    let mut misses = 0;
    while misses < 2 {
        match pipeline.advance() {
            Some(attributes) => {
                misses = 0;
                origins.push(attributes.origin);
                seqs.push(attributes.sequence_number);
                payloads.push(attributes.transactions);
            }
            None => misses += 1,
        }
    }
    assert_eq!(origins, vec![1, 1, 2]);
    assert_eq!(seqs, vec![0, 1, 2]);
    assert_eq!(
        payloads,
        vec![vec![vec![0x0A]], vec![vec![0x0B]], vec![vec![0x0C]]]
    );
}

#[test]
fn round_trip_then_reorg_accepts_lower_origin() {
    let mut pipeline = fresh_pipeline(0);
    for origin in [10u64, 20, 30] {
        pipeline
            .push_batcher_transactions(vec![vec![origin as u8]], origin)
            .unwrap();
    }

    let mut drained = Vec::new();
    let mut misses = 0;
    while misses < 2 {
        match pipeline.advance() {
            Some(attributes) => {
                misses = 0;
                drained.push((attributes.origin, attributes.sequence_number));
            }
            None => misses += 1,
        }
    }
    assert_eq!(drained, vec![(10, 0), (20, 1), (30, 2)]);

    assert!(pipeline.purge().is_ok());
    // After a reorg a batch older than anything drained must still be accepted.
    assert!(pipeline.push_batcher_transactions(vec![vec![9]], 5).is_ok());
    let attributes = pipeline.advance().expect("post-reorg batch must drain");
    assert_eq!(attributes.origin, 5);
    assert_eq!(attributes.sequence_number, 0);
    assert!(pipeline.advance().is_none());
}

#[test]
fn purge_discards_buffered_and_inflight_results() {
    let mut pipeline = fresh_pipeline(0);
    pipeline
        .push_batcher_transactions(vec![vec![1], vec![2]], 100)
        .unwrap();
    pipeline.push_batcher_transactions(vec![vec![3]], 200).unwrap();

    // Consume the first result and buffer the second in the pending slot.
    let first = pipeline.advance().unwrap();
    assert_eq!(first.origin, 100);
    let buffered_origin = pipeline.peek().unwrap().origin;
    assert_eq!(buffered_origin, 100);

    assert!(pipeline.purge().is_ok());

    // The buffered result and the batch's remaining payload are gone; the
    // still-queued batch survives and the sequence count starts over.
    let next = pipeline.advance().expect("queued batch survives the purge");
    assert_eq!(next.origin, 200);
    assert_eq!(next.transactions, vec![vec![3]]);
    assert_eq!(next.sequence_number, 0);
    assert!(pipeline.advance().is_none());
}

#[test]
fn empty_batch_reports_not_ready() {
    let mut pipeline = fresh_pipeline(0);
    pipeline.push_batcher_transactions(Vec::new(), 77).unwrap();
    assert!(pipeline.advance().is_none());
    assert!(pipeline.advance().is_none());

    pipeline.push_batcher_transactions(vec![vec![4]], 78).unwrap();
    let attributes = pipeline.advance().unwrap();
    assert_eq!(attributes.origin, 78);
    assert_eq!(attributes.sequence_number, 0);
}

#[test]
fn pull_skips_leading_empty_batches() {
    let mut pipeline = fresh_pipeline(0);
    pipeline.push_batcher_transactions(Vec::new(), 77).unwrap();
    pipeline.push_batcher_transactions(Vec::new(), 78).unwrap();
    pipeline.push_batcher_transactions(vec![vec![4]], 79).unwrap();

    // The payload sits behind two payload-less batches and still comes out of
    // the very first poll.
    let attributes = pipeline.advance().expect("first poll must reach the payload");
    assert_eq!(attributes.origin, 79);
    assert_eq!(attributes.sequence_number, 0);
    assert!(pipeline.advance().is_none());
}

#[test]
fn peek_is_idempotent_across_empty_batches() {
    let mut pipeline = fresh_pipeline(0);
    pipeline.push_batcher_transactions(Vec::new(), 4).unwrap();
    pipeline.push_batcher_transactions(vec![vec![0xBB]], 5).unwrap();

    // Every consecutive peek shows the same value, payload-less batch or not.
    let first = {
        let a = pipeline.peek().expect("peek must see past the empty batch");
        (a.origin, a.sequence_number, a.transactions.clone())
    };
    let second = {
        let a = pipeline.peek().expect("a repeated peek must agree");
        (a.origin, a.sequence_number, a.transactions.clone())
    };
    assert_eq!(first, (5, 0, vec![vec![0xBB]]));
    assert_eq!(second, first);

    let consumed = pipeline.advance().unwrap();
    assert_eq!(consumed.origin, 5);
    assert!(pipeline.advance().is_none());
}

#[test]
fn sequence_numbers_start_at_seed() {
    let mut pipeline = fresh_pipeline(5);
    pipeline.push_batcher_transactions(vec![vec![1]], 9).unwrap();
    let attributes = pipeline.advance().unwrap();
    assert_eq!(attributes.sequence_number, 5);

    pipeline.push_batcher_transactions(vec![vec![2]], 10).unwrap();
    let attributes = pipeline.advance().unwrap();
    assert_eq!(attributes.sequence_number, 6);

    // A purge resets the counter to the seed.
    pipeline.purge().unwrap();
    pipeline.push_batcher_transactions(vec![vec![3]], 11).unwrap();
    let attributes = pipeline.advance().unwrap();
    assert_eq!(attributes.sequence_number, 5);
}

#[test]
fn peek_buffers_not_ready_as_empty() {
    let mut pipeline = fresh_pipeline(0);
    assert!(pipeline.peek().is_none());
    // A later submission is still picked up after an empty peek.
    pipeline.push_batcher_transactions(vec![vec![8]], 12).unwrap();
    assert_eq!(pipeline.peek().unwrap().origin, 12);
}
