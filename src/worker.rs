use vstd::prelude::*;
use crate::accumulator::{
    accepted, ended, flatten, lemma_items_conserved, model_wf, run, AccumulatorModel, BatchModel,
    Event,
};

verus! {

/// The answer for one inbound item: its identifier, its vector when the
/// batch succeeded, and whether it did.
#[derive(Debug)]
pub struct BatchResult<V> {
    pub document_id: String,
    pub embedding: Option<V>,
    pub success: bool,
}

/// Whether the model answered a batch of `n` items: it returned a vector
/// for each, no more and no fewer.
pub open spec fn batch_succeeded<V, E>(n: nat, outcome: Result<Vec<V>, E>) -> bool {
    match outcome {
        Ok(vs) => vs@.len() == n,
        Err(_) => false,
    }
}

/// Whether `results` answer `document_ids` one for one and in order, given
/// what the model returned for the batch: the item's own vector on success,
/// a failure without a vector for every item otherwise.
pub open spec fn answers<V, E>(
    document_ids: Seq<String>,
    outcome: Result<Vec<V>, E>,
    results: Seq<BatchResult<V>>,
) -> bool {
    &&& results.len() == document_ids.len()
    &&& forall|i: int|
        0 <= i < results.len() ==> {
            &&& (#[trigger] results[i]).document_id == document_ids[i]
            &&& results[i].success == batch_succeeded(document_ids.len(), outcome)
            &&& match outcome {
                Ok(vs) => if vs@.len() == document_ids.len() {
                    results[i].embedding == Some(vs@[i])
                } else {
                    results[i].embedding is None
                },
                Err(_) => results[i].embedding is None,
            }
        }
}

/// Turns the model's answer for one batch into one result per item, in the
/// order of `document_ids`. A failed call, or one that returned a different
/// number of vectors than there were items, fails every item of the batch.
pub fn batch_results<V, E>(document_ids: Vec<String>, outcome: Result<Vec<V>, E>) -> (r: Vec<
    BatchResult<V>,
>)
    ensures
        answers(document_ids@, outcome, r@),
{
    let n = document_ids.len();
    let mut ids = document_ids;
    let mut results: Vec<BatchResult<V>> = Vec::new();
    match outcome {
        Ok(vectors) => {
            if vectors.len() == n {
                let mut vs = vectors;
                let ghost all_vs = vs@;
                let mut i: usize = 0;
                while i < n
                    invariant
                        i <= n,
                        n == document_ids@.len(),
                        all_vs.len() == n,
                        outcome == Ok::<Vec<V>, E>(vectors),
                        all_vs == vectors@,
                        ids@ == document_ids@.subrange(i as int, n as int),
                        vs@ == all_vs.subrange(i as int, n as int),
                        results@.len() == i,
                        forall|j: int|
                            0 <= j < i ==> {
                                &&& (#[trigger] results@[j]).document_id == document_ids@[j]
                                &&& results@[j].success
                                &&& results@[j].embedding == Some(all_vs[j])
                            },
                    decreases n - i,
                {
                    let id = ids.remove(0);
                    let v = vs.remove(0);
                    results.push(BatchResult { document_id: id, embedding: Some(v), success: true });
                    i = i + 1;
                    assert(ids@ =~= document_ids@.subrange(i as int, n as int));
                    assert(vs@ =~= all_vs.subrange(i as int, n as int));
                }
                return results;
            }
        },
        Err(_) => {},
    }
    let mut i: usize = 0;
    while i < n
        invariant
            i <= n,
            n == document_ids@.len(),
            !batch_succeeded(n as nat, outcome),
            ids@ == document_ids@.subrange(i as int, n as int),
            results@.len() == i,
            forall|j: int|
                0 <= j < i ==> {
                    &&& (#[trigger] results@[j]).document_id == document_ids@[j]
                    &&& !results@[j].success
                    &&& results@[j].embedding is None
                },
        decreases n - i,
    {
        let id = ids.remove(0);
        results.push(BatchResult { document_id: id, embedding: None, success: false });
        i = i + 1;
        assert(ids@ =~= document_ids@.subrange(i as int, n as int));
    }
    results
}

/// A batch of `k` items that the model failed yields exactly `k` results,
/// each marked failed and without a vector.
pub proof fn lemma_failed_batch_fails_every_item<V, E>(
    document_ids: Seq<String>,
    outcome: Result<Vec<V>, E>,
    results: Seq<BatchResult<V>>,
)
    requires
        answers(document_ids, outcome, results),
        !batch_succeeded(document_ids.len(), outcome),
    ensures
        results.len() == document_ids.len(),
        forall|i: int|
            0 <= i < results.len() ==> !(#[trigger] results[i]).success
                && results[i].embedding is None,
{
}


/// The identifiers carried by a sequence of result lists, one list after
/// the other.
pub open spec fn result_ids<V>(rs: Seq<Seq<BatchResult<V>>>) -> Seq<String>
    decreases rs.len(),
{
    if rs.len() == 0 {
        Seq::empty()
    } else {
        result_ids(rs.drop_last()) + rs.last().map_values(|r: BatchResult<V>| r.document_id)
    }
}

proof fn lemma_results_follow_batches<P, V, E>(
    bs: Seq<BatchModel<P>>,
    outcomes: Seq<Result<Vec<V>, E>>,
    results: Seq<Seq<BatchResult<V>>>,
)
    requires
        outcomes.len() == bs.len(),
        results.len() == bs.len(),
        forall|j: int| 0 <= j < bs.len() ==> answers(bs[j].0, outcomes[j], #[trigger] results[j]),
    ensures
        result_ids(results) == flatten(bs).0,
    decreases bs.len(),
{
    if bs.len() == 0 {
        assert(result_ids(results) =~= flatten(bs).0);
    } else {
        let k = bs.len() - 1;
        assert forall|j: int| 0 <= j < k implies answers(
            bs.drop_last()[j].0,
            outcomes.drop_last()[j],
            #[trigger] results.drop_last()[j],
        ) by {
            assert(results.drop_last()[j] == results[j]);
        }
        lemma_results_follow_batches(bs.drop_last(), outcomes.drop_last(), results.drop_last());
        assert(answers(bs[k].0, outcomes[k], results[k]));
        assert(results.last().map_values(|r: BatchResult<V>| r.document_id) =~= bs.last().0);
    }
}

/// Every item that arrives before the stream ends gets exactly one result,
/// and the results come out in arrival order: whatever the model returns for
/// each batch that the accumulator emits, the identifiers of the results,
/// batch after batch, are the identifiers of the items taken in.
pub proof fn lemma_every_item_answered<P, V, E>(
    m: AccumulatorModel<P>,
    events: Seq<Event<P>>,
    outcomes: Seq<Result<Vec<V>, E>>,
    results: Seq<Seq<BatchResult<V>>>,
)
    requires
        model_wf(m),
        !m.closed,
        m.ids.len() == 0,
        ended(events),
        outcomes.len() == run(m, events).1.len(),
        results.len() == run(m, events).1.len(),
        forall|j: int|
            0 <= j < results.len() ==> answers(
                run(m, events).1[j].0,
                outcomes[j],
                #[trigger] results[j],
            ),
    ensures
        result_ids(results) == accepted(events).0,
{
    lemma_items_conserved(m, events);
    let (m2, bs) = run(m, events);
    lemma_results_follow_batches(bs, outcomes, results);
    assert(flatten(bs).0 + m2.ids =~= flatten(bs).0);
    assert(m.ids + accepted(events).0 =~= accepted(events).0);
}

} // verus!
