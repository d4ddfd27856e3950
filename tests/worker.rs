use embed_gateway::{batch_results, Accumulator, Event, GatewayConfig};

fn ids(v: &[&str]) -> Vec<String> {
    v.iter().map(|s| s.to_string()).collect()
}

#[test]
fn successful_batch_pairs_each_item_with_its_vector() {
    let vectors: Vec<Vec<f32>> = vec![vec![1.0, 0.0], vec![0.0, 1.0], vec![0.6, 0.8]];
    let out = batch_results::<Vec<f32>, String>(ids(&["a", "b", "c"]), Ok(vectors.clone()));
    assert_eq!(out.len(), 3);
    for (i, r) in out.iter().enumerate() {
        assert!(r.success);
        assert_eq!(r.embedding.as_ref(), Some(&vectors[i]));
    }
    let got: Vec<String> = out.iter().map(|r| r.document_id.clone()).collect();
    assert_eq!(got, ids(&["a", "b", "c"]));
}

#[test]
fn failed_batch_fails_every_item() {
    let out = batch_results::<Vec<f32>, String>(ids(&["a", "b", "c"]), Err("model down".to_string()));
    assert_eq!(out.len(), 3);
    let got: Vec<String> = out.iter().map(|r| r.document_id.clone()).collect();
    assert_eq!(got, ids(&["a", "b", "c"]));
    assert!(out.iter().all(|r| !r.success && r.embedding.is_none()));
}

#[test]
fn mismatched_count_fails_every_item() {
    let out = batch_results::<Vec<f32>, String>(ids(&["a", "b"]), Ok(vec![vec![1.0]]));
    assert_eq!(out.len(), 2);
    assert!(out.iter().all(|r| !r.success && r.embedding.is_none()));
    let too_many = batch_results::<Vec<f32>, String>(ids(&["a"]), Ok(vec![vec![1.0], vec![0.0]]));
    assert_eq!(too_many.len(), 1);
    assert!(!too_many[0].success && too_many[0].embedding.is_none());
}

#[test]
fn empty_batch_gives_no_results() {
    let out = batch_results::<Vec<f32>, String>(Vec::new(), Ok(Vec::new()));
    assert!(out.is_empty());
}

#[test]
fn results_follow_arrival_order_across_batches() {
    let config = GatewayConfig::new(2, 500, 4, 32).unwrap();
    let mut acc: Accumulator<String> = Accumulator::new(&config);
    let mut batches = Vec::new();
    for (id, now) in [("A", 0u64), ("B", 0), ("C", 0)] {
        let e = Event::Item { document_id: id.to_string(), payload: id.to_lowercase(), now_ms: now };
        if let Some(b) = acc.step(e) {
            batches.push(b);
        }
    }
    if let Some(b) = acc.step(Event::Tick { now_ms: 500 }) {
        batches.push(b);
    }
    assert_eq!(batches.len(), 2);
    let mut answered: Vec<String> = Vec::new();
    for (k, b) in batches.into_iter().enumerate() {
        let (doc_ids, payloads) = b.into_parts();
        let outcome: Result<Vec<Vec<f32>>, String> = if k == 0 {
            Ok(payloads.iter().map(|_| vec![1.0f32]).collect())
        } else {
            Err("failed".to_string())
        };
        for r in batch_results(doc_ids, outcome) {
            assert_eq!(r.success, k == 0);
            answered.push(r.document_id);
        }
    }
    assert_eq!(answered, ids(&["A", "B", "C"]));
}
