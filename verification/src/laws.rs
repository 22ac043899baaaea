//! The laws of the orchestrator, stated and proved over the model's
//! transition functions. Every executable operation is pinned to one of those
//! transitions by its contract, so each law carries over to any sequence of
//! calls on a live pipeline.

use vstd::prelude::*;

use crate::model::{
    advance_out, advance_step, attributes_of, init_model, items_of, peek_step, pull_out,
    purge_step, skip_empty, submit_step, AttributesModel, BatchModel, ItemModel, PipelineModel,
};

verus! {

/// The items a sequence of raw batches contributes to the stage chain, in
/// submission order.
pub open spec fn items_of_batches(bs: Seq<BatchModel>) -> Seq<ItemModel>
    decreases bs.len(),
{
    if bs.len() == 0 {
        Seq::empty()
    } else {
        items_of(bs[0]) + items_of_batches(bs.drop_first())
    }
}

/// The attributes built from consecutive items, numbered from `start`.
pub open spec fn attrs_of_items(items: Seq<ItemModel>, start: int) -> Seq<AttributesModel> {
    Seq::new(items.len(), |i: int| attributes_of(items[i], start + i))
}

/// Everything the pipeline will emit from state `v` if polled forever with no
/// further input, in emission order.
pub open spec fn emits(v: PipelineModel) -> Seq<AttributesModel> {
    let rest = attrs_of_items(v.inflight + items_of_batches(v.queue), v.next_seq);
    match v.pending {
        Some(a) => seq![a] + rest,
        None => rest,
    }
}

/// How many items stand between the pending slot and the end of the queue.
pub open spec fn stream_len(v: PipelineModel) -> nat {
    v.inflight.len() + items_of_batches(v.queue).len()
}

/// State after `n` consecutive `advance` calls.
pub open spec fn drain_state(v: PipelineModel, n: nat) -> PipelineModel
    decreases n,
{
    if n == 0 {
        v
    } else {
        drain_state(advance_step(v), (n - 1) as nat)
    }
}

/// The results `n` consecutive `advance` calls return, "not ready" outcomes
/// skipped.
pub open spec fn drain_out(v: PipelineModel, n: nat) -> Seq<AttributesModel>
    decreases n,
{
    if n == 0 {
        Seq::empty()
    } else {
        let head = match advance_out(v) {
            Some(a) => seq![a],
            None => Seq::<AttributesModel>::empty(),
        };
        head + drain_out(advance_step(v), (n - 1) as nat)
    }
}

/// State after submitting the given batches in order.
pub open spec fn load(v: PipelineModel, bs: Seq<BatchModel>) -> PipelineModel
    decreases bs.len(),
{
    if bs.len() == 0 {
        v
    } else {
        load(submit_step(v, bs[0]), bs.drop_first())
    }
}

/// State after `n` consecutive `peek` calls.
pub open spec fn peeks(v: PipelineModel, n: nat) -> PipelineModel
    decreases n,
{
    if n == 0 {
        v
    } else {
        peek_step(peeks(v, (n - 1) as nat))
    }
}

/// How much work is left before the pipeline can only answer "not ready":
/// one unit for the pending slot, one per in-flight item, and one per queued
/// batch plus one per payload it holds.
pub open spec fn batch_weight(bs: Seq<BatchModel>) -> nat
    decreases bs.len(),
{
    if bs.len() == 0 {
        0
    } else {
        1 + bs[0].txs.len() + batch_weight(bs.drop_first())
    }
}

/// See [`batch_weight`]: an upper bound on the `advance` calls needed to
/// drain state `v` completely.
pub open spec fn drain_bound(v: PipelineModel) -> nat {
    (if v.pending is Some {
        1nat
    } else {
        0nat
    }) + v.inflight.len() + batch_weight(v.queue)
}

/// Numbering shifts commute with dropping the first item.
proof fn lemma_attrs_drop(items: Seq<ItemModel>, start: int)
    requires
        items.len() > 0,
    ensures
        attrs_of_items(items, start).drop_first() == attrs_of_items(items.drop_first(), start + 1),
{
    assert(attrs_of_items(items, start).drop_first() =~= attrs_of_items(
        items.drop_first(),
        start + 1,
    ));
}

/// Numbering distributes over concatenation.
proof fn lemma_attrs_concat(xs: Seq<ItemModel>, ys: Seq<ItemModel>, start: int)
    ensures
        attrs_of_items(xs + ys, start) == attrs_of_items(xs, start) + attrs_of_items(
            ys,
            start + xs.len(),
        ),
{
    assert(attrs_of_items(xs + ys, start) =~= attrs_of_items(xs, start) + attrs_of_items(
        ys,
        start + xs.len(),
    ));
}

/// Skipping payload-less batches loses no items, and what it leaves either is
/// empty or starts with a payload-bearing batch.
proof fn lemma_items_skip(bs: Seq<BatchModel>)
    ensures
        items_of_batches(skip_empty(bs)) == items_of_batches(bs),
        skip_empty(bs).len() > 0 ==> skip_empty(bs)[0].txs.len() > 0,
        skip_empty(bs).len() <= bs.len(),
    decreases bs.len(),
{
    if bs.len() > 0 && bs[0].txs.len() == 0 {
        lemma_items_skip(bs.drop_first());
        assert(items_of(bs[0]) =~= Seq::<ItemModel>::empty());
        assert(items_of_batches(bs) == items_of(bs[0]) + items_of_batches(bs.drop_first()));
        assert(items_of_batches(bs) =~= items_of_batches(bs.drop_first()));
    }
}

/// One `advance` consumes exactly the head of the emission stream, and
/// reports "not ready" exactly when the stream is empty — when nothing
/// derivable is buffered or queued anywhere — leaving the stream unchanged.
pub proof fn lemma_advance_emits(v: PipelineModel)
    ensures
        advance_out(v) is Some <==> emits(v).len() > 0,
        advance_out(v) is Some ==> advance_out(v) == Some(emits(v)[0]) && emits(advance_step(v))
            == emits(v).drop_first(),
        advance_out(v) is None ==> emits(advance_step(v)) == emits(v),
{
    if v.pending is Some {
        assert(emits(advance_step(v)) =~= emits(v).drop_first());
    } else if v.inflight.len() > 0 {
        let items = v.inflight + items_of_batches(v.queue);
        lemma_attrs_drop(items, v.next_seq);
        assert(items.drop_first() =~= v.inflight.drop_first() + items_of_batches(v.queue));
        assert(emits(advance_step(v)) =~= emits(v).drop_first());
    } else {
        let q = skip_empty(v.queue);
        lemma_items_skip(v.queue);
        if q.len() > 0 {
            let b = q[0];
            let rest = items_of_batches(q.drop_first());
            assert(items_of_batches(q) == items_of(b) + rest);
            assert(items_of(b).len() == b.txs.len());
            let items = v.inflight + items_of_batches(v.queue);
            assert(items =~= items_of(b) + rest);
            lemma_attrs_drop(items, v.next_seq);
            assert(items.drop_first() =~= items_of(b).drop_first() + rest);
            assert(advance_step(v).inflight + items_of_batches(advance_step(v).queue)
                == items_of(b).drop_first() + rest);
            assert(emits(advance_step(v)) =~= emits(v).drop_first());
            assert(items[0] == items_of(b)[0]);
        } else {
            assert(items_of_batches(q) == Seq::<ItemModel>::empty());
            assert(v.inflight + items_of_batches(v.queue) =~= Seq::<ItemModel>::empty());
            assert(advance_step(v).inflight + items_of_batches(advance_step(v).queue)
                =~= Seq::<ItemModel>::empty());
            assert(emits(advance_step(v)) =~= emits(v));
        }
    }
}

/// `advance` keeps the starting sequence number.
proof fn lemma_advance_start_seq(v: PipelineModel)
    ensures
        advance_step(v).start_seq == v.start_seq,
{
}

/// Skipped payload-less batches weigh one unit each.
proof fn lemma_weight_skip(bs: Seq<BatchModel>)
    ensures
        skip_empty(bs).len() <= bs.len(),
        batch_weight(bs) == (bs.len() - skip_empty(bs).len()) + batch_weight(skip_empty(bs)),
    decreases bs.len(),
{
    if bs.len() > 0 && bs[0].txs.len() == 0 {
        lemma_weight_skip(bs.drop_first());
    }
}

/// Every `advance` with work left strictly reduces the drain bound; with none
/// left it changes nothing and reports "not ready".
pub proof fn lemma_advance_bound(v: PipelineModel)
    ensures
        drain_bound(v) > 0 ==> drain_bound(advance_step(v)) < drain_bound(v),
        drain_bound(v) == 0 ==> advance_step(v) == v && advance_out(v) is None,
{
    if drain_bound(v) == 0 {
        assert(advance_step(v) =~= v);
    } else if v.pending is Some {
    } else if v.inflight.len() > 0 {
    } else {
        let q = skip_empty(v.queue);
        lemma_weight_skip(v.queue);
        lemma_items_skip(v.queue);
        if q.len() > 0 {
            let b = q[0];
            assert(batch_weight(q) == 1 + b.txs.len() + batch_weight(q.drop_first()));
            assert(items_of(b).drop_first().len() == b.txs.len() - 1);
        } else {
            assert(batch_weight(q) == 0);
        }
    }
}

/// A batch weighs at least one unit, so an empty drain bound means an empty
/// queue.
proof fn lemma_weight_ge_len(bs: Seq<BatchModel>)
    ensures
        batch_weight(bs) >= bs.len(),
    decreases bs.len(),
{
    if bs.len() > 0 {
        lemma_weight_ge_len(bs.drop_first());
    }
}

/// A state with drain bound zero holds nothing at all.
pub proof fn lemma_bound_zero(v: PipelineModel)
    requires
        drain_bound(v) == 0,
    ensures
        v.pending is None,
        v.inflight.len() == 0,
        v.queue.len() == 0,
        emits(v).len() == 0,
{
    lemma_weight_ge_len(v.queue);
    assert(items_of_batches(v.queue).len() == 0);
    assert((v.inflight + items_of_batches(v.queue)).len() == 0);
}

/// Whatever a run of `advance` calls returns is a prefix of the emission
/// stream: results are never reordered, skipped, or invented.
pub proof fn lemma_drain_prefix(v: PipelineModel, n: nat)
    ensures
        drain_out(v, n).len() <= emits(v).len(),
        drain_out(v, n) == emits(v).take(drain_out(v, n).len() as int),
    decreases n,
{
    if n == 0 {
        assert(drain_out(v, 0) =~= emits(v).take(0));
    } else {
        lemma_advance_emits(v);
        lemma_drain_prefix(advance_step(v), (n - 1) as nat);
        let out = drain_out(v, n);
        let rest = drain_out(advance_step(v), (n - 1) as nat);
        match advance_out(v) {
            Some(a) => {
                assert(out =~= seq![a] + rest);
                assert forall|i: int| 0 <= i < out.len() implies out[i] == emits(v)[i] by {
                    if i > 0 {
                        assert(rest[i - 1] == emits(advance_step(v)).take(rest.len() as int)[i
                            - 1]);
                        assert(emits(advance_step(v))[i - 1] == emits(v).drop_first()[i - 1]);
                    }
                }
                assert(out =~= emits(v).take(out.len() as int));
            },
            None => {
                assert(out =~= rest);
            },
        }
    }
}

/// Enough `advance` calls return the whole emission stream, and leave the
/// pipeline holding nothing: draining is complete and loses nothing.
pub proof fn lemma_drain_complete(v: PipelineModel, n: nat)
    requires
        n >= drain_bound(v),
    ensures
        drain_out(v, n) == emits(v),
        drain_bound(drain_state(v, n)) == 0,
        drain_state(v, n).start_seq == v.start_seq,
    decreases n,
{
    if n == 0 {
        lemma_bound_zero(v);
        assert(drain_out(v, 0) =~= emits(v));
    } else {
        lemma_advance_emits(v);
        lemma_advance_bound(v);
        lemma_advance_start_seq(v);
        if drain_bound(v) == 0 {
            lemma_drain_complete(v, (n - 1) as nat);
            lemma_bound_zero(v);
            assert(drain_out(v, n) =~= emits(v));
            assert(drain_state(v, n) == drain_state(v, (n - 1) as nat));
        } else {
            lemma_drain_complete(advance_step(v), (n - 1) as nat);
            let rest = drain_out(advance_step(v), (n - 1) as nat);
            match advance_out(v) {
                Some(a) => {
                    assert(drain_out(v, n) =~= seq![a] + emits(v).drop_first());
                    assert(drain_out(v, n) =~= emits(v));
                },
                None => {
                    assert(drain_out(v, n) =~= rest);
                },
            }
        }
    }
}

/// Appending a batch to the queue appends its items to the item stream.
proof fn lemma_items_push(bs: Seq<BatchModel>, b: BatchModel)
    ensures
        items_of_batches(bs.push(b)) == items_of_batches(bs) + items_of(b),
    decreases bs.len(),
{
    if bs.len() == 0 {
        assert(bs.push(b)[0] == b);
        assert(bs.push(b).drop_first() =~= Seq::<BatchModel>::empty());
        assert(items_of_batches(Seq::<BatchModel>::empty()) == Seq::<ItemModel>::empty());
        assert(items_of_batches(bs.push(b)) == items_of(b) + items_of_batches(
            bs.push(b).drop_first(),
        ));
        assert(items_of_batches(bs.push(b)) =~= items_of_batches(bs) + items_of(b));
    } else {
        assert(bs.push(b)[0] == bs[0]);
        assert(bs.push(b).drop_first() =~= bs.drop_first().push(b));
        lemma_items_push(bs.drop_first(), b);
        assert(items_of_batches(bs.push(b)) == items_of(bs[0]) + items_of_batches(
            bs.drop_first().push(b),
        ));
        assert(items_of_batches(bs.push(b)) =~= items_of_batches(bs) + items_of(b));
    }
}

/// Submitting a batch appends exactly its derived attributes to the emission
/// stream, numbered right after everything already due.
pub proof fn lemma_submit_emits(v: PipelineModel, b: BatchModel)
    ensures
        emits(submit_step(v, b)) == emits(v) + attrs_of_items(
            items_of(b),
            v.next_seq + stream_len(v),
        ),
{
    let items = v.inflight + items_of_batches(v.queue);
    lemma_items_push(v.queue, b);
    assert(v.inflight + items_of_batches(v.queue.push(b)) =~= items + items_of(b));
    lemma_attrs_concat(items, items_of(b), v.next_seq);
    assert(items.len() == stream_len(v));
    assert(emits(submit_step(v, b)) =~= emits(v) + attrs_of_items(
        items_of(b),
        v.next_seq + stream_len(v),
    ));
}

/// Submitting a run of batches appends their derived attributes, in
/// submission order, to the emission stream.
pub proof fn lemma_load_emits(v: PipelineModel, bs: Seq<BatchModel>)
    ensures
        emits(load(v, bs)) == emits(v) + attrs_of_items(
            items_of_batches(bs),
            v.next_seq + stream_len(v),
        ),
        load(v, bs).next_seq == v.next_seq,
        load(v, bs).start_seq == v.start_seq,
        stream_len(load(v, bs)) == stream_len(v) + items_of_batches(bs).len(),
        drain_bound(load(v, bs)) == drain_bound(v) + batch_weight(bs),
    decreases bs.len(),
{
    if bs.len() == 0 {
        assert(emits(load(v, bs)) =~= emits(v) + attrs_of_items(
            items_of_batches(bs),
            v.next_seq + stream_len(v),
        ));
    } else {
        let b = bs[0];
        let v1 = submit_step(v, b);
        lemma_submit_emits(v, b);
        lemma_items_push(v.queue, b);
        lemma_load_emits(v1, bs.drop_first());
        lemma_attrs_concat(
            items_of(b),
            items_of_batches(bs.drop_first()),
            v.next_seq + stream_len(v),
        );
        assert(items_of_batches(bs) == items_of(b) + items_of_batches(bs.drop_first()));
        assert(emits(load(v, bs)) =~= emits(v) + attrs_of_items(
            items_of_batches(bs),
            v.next_seq + stream_len(v),
        ));
        lemma_weight_push(v.queue, b);
    }
}

/// Every item inherits an origin bound from its batches.
proof fn lemma_items_origin(bs: Seq<BatchModel>, lo: u64)
    requires
        forall|k: int| 0 <= k < bs.len() ==> lo <= bs[k].origin,
    ensures
        forall|i: int|
            0 <= i < items_of_batches(bs).len() ==> lo <= items_of_batches(bs)[i].origin,
    decreases bs.len(),
{
    if bs.len() > 0 {
        assert(forall|k: int|
            0 <= k < bs.drop_first().len() ==> lo <= bs.drop_first()[k].origin);
        lemma_items_origin(bs.drop_first(), lo);
        let hd = items_of(bs[0]);
        let tl = items_of_batches(bs.drop_first());
        assert(items_of_batches(bs) == hd + tl);
        assert forall|i: int| 0 <= i < items_of_batches(bs).len() implies lo <= items_of_batches(
            bs,
        )[i].origin by {
            if i < hd.len() {
                assert(items_of_batches(bs)[i] == hd[i]);
                assert(hd[i].origin == bs[0].origin);
            } else {
                assert(items_of_batches(bs)[i] == tl[i - hd.len()]);
            }
        }
    }
}

/// Items come out in the origin order their batches were submitted in.
proof fn lemma_items_sorted(bs: Seq<BatchModel>)
    requires
        forall|i: int, j: int| 0 <= i <= j < bs.len() ==> bs[i].origin <= bs[j].origin,
    ensures
        forall|i: int, j: int|
            0 <= i <= j < items_of_batches(bs).len() ==> items_of_batches(bs)[i].origin
                <= items_of_batches(bs)[j].origin,
    decreases bs.len(),
{
    if bs.len() > 0 {
        let hd = items_of(bs[0]);
        let tl = items_of_batches(bs.drop_first());
        assert(items_of_batches(bs) == hd + tl);
        assert(forall|i: int, j: int|
            0 <= i <= j < bs.drop_first().len() ==> bs.drop_first()[i].origin
                <= bs.drop_first()[j].origin);
        lemma_items_sorted(bs.drop_first());
        assert(forall|k: int| 0 <= k < bs.drop_first().len() ==> bs[0].origin
            <= bs.drop_first()[k].origin);
        lemma_items_origin(bs.drop_first(), bs[0].origin);
        assert forall|i: int, j: int|
            0 <= i <= j < items_of_batches(bs).len() implies items_of_batches(bs)[i].origin
            <= items_of_batches(bs)[j].origin by {
            if i < hd.len() {
                assert(items_of_batches(bs)[i] == hd[i]);
                assert(hd[i].origin == bs[0].origin);
                if j < hd.len() {
                    assert(items_of_batches(bs)[j] == hd[j]);
                    assert(hd[j].origin == bs[0].origin);
                } else {
                    assert(items_of_batches(bs)[j] == tl[j - hd.len()]);
                }
            } else {
                assert(items_of_batches(bs)[i] == tl[i - hd.len()]);
                assert(items_of_batches(bs)[j] == tl[j - hd.len()]);
            }
        }
    }
}

/// Emission order law: submit batches with non-decreasing origins to a fresh
/// pipeline, then poll `advance` any number of times; the results come out
/// with non-decreasing origins and strictly increasing sequence numbers, so no
/// position is ever returned twice.
pub proof fn lemma_emission_order(start: int, bs: Seq<BatchModel>, n: nat)
    requires
        forall|i: int, j: int| 0 <= i <= j < bs.len() ==> bs[i].origin <= bs[j].origin,
    ensures
        ({
            let out = drain_out(load(init_model(start), bs), n);
            forall|i: int, j: int|
                0 <= i < j < out.len() ==> out[i].origin <= out[j].origin
                    && out[i].sequence_number < out[j].sequence_number
        }),
{
    let v0 = init_model(start);
    lemma_load_emits(v0, bs);
    assert(items_of_batches(Seq::<BatchModel>::empty()) == Seq::<ItemModel>::empty());
    assert(emits(v0) =~= Seq::<AttributesModel>::empty());
    let v = load(v0, bs);
    let all = attrs_of_items(items_of_batches(bs), start);
    assert(emits(v) =~= all);
    lemma_items_sorted(bs);
    lemma_drain_prefix(v, n);
    let out = drain_out(v, n);
    assert forall|i: int, j: int|
        0 <= i < j < out.len() implies out[i].origin <= out[j].origin && out[i].sequence_number
        < out[j].sequence_number by {
        assert(out[i] == emits(v)[i]);
        assert(out[j] == emits(v)[j]);
        assert(all[i] == attributes_of(items_of_batches(bs)[i], start + i));
        assert(all[j] == attributes_of(items_of_batches(bs)[j], start + j));
    }
}

/// Peek idempotence: one peek settles the state — whether it buffered a value
/// or found nothing to buffer, a further peek changes nothing. In particular
/// a "not ready" peek cannot turn into a value without new input, because a
/// pull reports "not ready" only when nothing derivable is queued at all.
pub proof fn lemma_peek_idempotent(v: PipelineModel)
    ensures
        peek_step(peek_step(v)) == peek_step(v),
{
    if v.pending is None {
        let w = peek_step(v);
        if pull_out(v) is None {
            assert(w.queue.len() == 0);
            assert(skip_empty(w.queue) == w.queue);
            assert(peek_step(w) =~= w);
        }
    }
}

/// Any number of consecutive peeks return the identical result — all the same
/// value, or all "not ready" — and leave the pipeline exactly where the first
/// peek left it.
pub proof fn lemma_peek_repeated(v: PipelineModel, n: nat)
    requires
        n >= 1,
    ensures
        peeks(v, n) == peek_step(v),
    decreases n,
{
    if n == 1 {
        assert(peeks(v, 0) == v);
        assert(peeks(v, 1) == peek_step(v));
    } else {
        lemma_peek_repeated(v, (n - 1) as nat);
        lemma_peek_idempotent(v);
    }
}

/// A fully drained pipeline answers every peek with "not ready" and stays
/// put.
pub proof fn lemma_peek_not_ready(v: PipelineModel)
    requires
        v.pending is None,
        v.inflight.len() == 0,
        v.queue.len() == 0,
    ensures
        peek_step(v) == v,
{
    assert(skip_empty(v.queue) == v.queue);
    assert(peek_step(v) =~= v);
}

/// The `advance` that follows a peek returns exactly what the peek showed —
/// the buffered value, or "not ready" — and moves the slot back to Empty,
/// touching nothing else.
pub proof fn lemma_peek_then_advance(v: PipelineModel)
    ensures
        advance_out(peek_step(v)) == peek_step(v).pending,
        advance_step(peek_step(v)) == (PipelineModel { pending: None, ..peek_step(v) }),
{
    let w = peek_step(v);
    if w.pending is None {
        assert(w.queue.len() == 0);
        assert(skip_empty(w.queue) == w.queue);
        assert(advance_step(w) =~= (PipelineModel { pending: None, ..w }));
    }
}

/// The slot discipline: `advance` always leaves the pending slot Empty — it
/// hands a pulled value straight to the caller and never parks one — so only
/// `peek` ever fills the slot, and only when it was Empty.
pub proof fn lemma_advance_leaves_slot_empty(v: PipelineModel)
    ensures
        advance_step(v).pending is None,
{
}

/// A purge always leaves the pending slot Empty and the in-flight items
/// discarded, while the queued batches and the starting sequence number
/// survive.
pub proof fn lemma_purge_empties(v: PipelineModel)
    ensures
        purge_step(v).pending is None,
        purge_step(v).inflight.len() == 0,
        purge_step(v).queue == v.queue,
        purge_step(v).next_seq == v.start_seq,
{
}

/// Nothing buffered before a purge can reach a caller after it: two states
/// that agree on their queues and starting sequence numbers purge to the same
/// state, whatever results or partial work they had buffered, so everything
/// returned after the purge is derived from the queue alone.
pub proof fn lemma_purge_forgets(v1: PipelineModel, v2: PipelineModel)
    requires
        v1.queue == v2.queue,
        v1.start_seq == v2.start_seq,
    ensures
        purge_step(v1) == purge_step(v2),
{
}

/// Polling a pipeline that was never fed is harmless: every `advance` reports
/// "not ready", never a failure, and the state never moves.
pub proof fn lemma_no_input_no_output(start: int, n: nat)
    ensures
        drain_state(init_model(start), n) == init_model(start),
        drain_out(init_model(start), n) == Seq::<AttributesModel>::empty(),
    decreases n,
{
    if n > 0 {
        assert(batch_weight(Seq::<BatchModel>::empty()) == 0);
        lemma_advance_bound(init_model(start));
        lemma_no_input_no_output(start, (n - 1) as nat);
        assert(drain_out(init_model(start), n) =~= Seq::<AttributesModel>::empty());
    }
}

/// A submitted batch's results always emerge: enough polls return everything
/// already due, followed by exactly one attribute set per payload of the new
/// batch, each derived from that batch's origin and data.
pub proof fn lemma_submit_yields(v: PipelineModel, b: BatchModel, n: nat)
    requires
        n >= drain_bound(submit_step(v, b)),
    ensures
        drain_out(submit_step(v, b), n) == emits(v) + attrs_of_items(
            items_of(b),
            v.next_seq + stream_len(v),
        ),
        drain_out(submit_step(v, b), n).len() == emits(v).len() + b.txs.len(),
        forall|k: int|
            0 <= k < b.txs.len() ==> #[trigger] drain_out(submit_step(v, b), n)[emits(v).len()
                + k].origin == b.origin && drain_out(submit_step(v, b), n)[emits(v).len()
                + k].transactions == seq![b.txs[k]],
{
    lemma_submit_emits(v, b);
    lemma_drain_complete(submit_step(v, b), n);
    let out = drain_out(submit_step(v, b), n);
    let tail = attrs_of_items(items_of(b), v.next_seq + stream_len(v));
    assert forall|k: int|
        0 <= k < b.txs.len() implies #[trigger] out[emits(v).len() + k].origin == b.origin
        && out[emits(v).len() + k].transactions == seq![b.txs[k]] by {
        assert(out[emits(v).len() + k] == tail[k]);
        assert(tail[k] == attributes_of(items_of(b)[k], v.next_seq + stream_len(v) + k));
        assert(items_of(b)[k] == (ItemModel { data: b.txs[k], origin: b.origin }));
        assert(tail[k].transactions =~= seq![b.txs[k]]);
    }
}

/// Round trip: loading batches into a fresh pipeline and draining long enough
/// returns exactly the attributes derived from those batches, in order; a
/// purge of the drained pipeline restores the freshly constructed state, so
/// batches with any origins — lower ones included — are accepted and drained
/// cleanly afterwards.
pub proof fn lemma_round_trip(start: int, bs: Seq<BatchModel>, n: nat)
    requires
        n >= batch_weight(bs),
    ensures
        drain_out(load(init_model(start), bs), n) == attrs_of_items(items_of_batches(bs), start),
        purge_step(drain_state(load(init_model(start), bs), n)) == init_model(start),
{
    let v0 = init_model(start);
    lemma_load_emits(v0, bs);
    assert(batch_weight(Seq::<BatchModel>::empty()) == 0);
    assert(items_of_batches(Seq::<BatchModel>::empty()) == Seq::<ItemModel>::empty());
    assert(emits(v0) =~= Seq::<AttributesModel>::empty());
    let v = load(v0, bs);
    lemma_drain_complete(v, n);
    assert(drain_out(v, n) =~= attrs_of_items(items_of_batches(bs), start));
    let d = drain_state(v, n);
    lemma_bound_zero(d);
    assert(purge_step(d) =~= init_model(start));
}

/// Pushing a batch adds its weight to the queue's.
proof fn lemma_weight_push(bs: Seq<BatchModel>, b: BatchModel)
    ensures
        batch_weight(bs.push(b)) == batch_weight(bs) + 1 + b.txs.len(),
    decreases bs.len(),
{
    if bs.len() == 0 {
        assert(bs.push(b)[0] == b);
        assert(bs.push(b).drop_first() =~= Seq::<BatchModel>::empty());
        assert(batch_weight(Seq::<BatchModel>::empty()) == 0);
    } else {
        assert(bs.push(b)[0] == bs[0]);
        assert(bs.push(b).drop_first() =~= bs.drop_first().push(b));
        lemma_weight_push(bs.drop_first(), b);
        assert(batch_weight(bs.push(b)) == 1 + bs[0].txs.len() + batch_weight(
            bs.drop_first().push(b),
        ));
    }
}

} // verus!
