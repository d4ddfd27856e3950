use embed_gateway::{event_from, Accumulator, Batch, Event, GatewayConfig, Phase};

fn accumulator(max_batch_size: usize, timeout_ms: u64) -> Accumulator<String> {
    let config = GatewayConfig::new(max_batch_size, timeout_ms, 4, 32).unwrap();
    Accumulator::new(&config)
}

fn item(id: &str, now_ms: u64) -> Event<String> {
    Event::Item { document_id: id.to_string(), payload: format!("text of {}", id), now_ms }
}

fn ids(batch: &Batch<String>) -> Vec<String> {
    batch.document_ids().clone()
}

#[test]
fn batches_by_size_then_timeout_in_order() {
    let mut acc = accumulator(2, 500);
    assert!(acc.step(item("A", 0)).is_none());
    let first = acc.step(item("B", 0)).expect("full batch");
    assert_eq!(ids(&first), vec!["A", "B"]);
    assert!(acc.step(item("C", 0)).is_none());
    assert!(acc.step(Event::Tick { now_ms: 499 }).is_none());
    let second = acc.step(Event::Tick { now_ms: 500 }).expect("idle flush");
    assert_eq!(ids(&second), vec!["C"]);
    let (_, payloads) = second.into_parts();
    assert_eq!(payloads, vec!["text of C".to_string()]);
    assert!(acc.step(Event::End).is_none());
    assert_eq!(acc.phase(), Phase::Closed);
}

#[test]
fn full_batch_flushes_without_waiting() {
    let mut acc = accumulator(3, 10_000);
    assert!(acc.step(item("a", 5)).is_none());
    assert!(acc.step(item("b", 5)).is_none());
    let batch = acc.step(item("c", 5)).expect("full batch");
    assert_eq!(batch.len(), 3);
    assert_eq!(acc.pending_len(), 0);
    assert_eq!(acc.phase(), Phase::Idle);
}

#[test]
fn partial_batch_waits_for_idle_timeout_from_last_arrival() {
    let mut acc = accumulator(8, 500);
    assert!(acc.step(item("a", 100)).is_none());
    assert!(acc.step(item("b", 400)).is_none());
    // 500 ms after the first item, but only 200 after the last one.
    assert!(acc.step(Event::Tick { now_ms: 600 }).is_none());
    assert!(acc.step(Event::Tick { now_ms: 899 }).is_none());
    assert_eq!(acc.phase(), Phase::Collecting);
    let batch = acc.step(Event::Tick { now_ms: 900 }).expect("idle flush");
    assert_eq!(ids(&batch), vec!["a", "b"]);
    assert_eq!(acc.phase(), Phase::Idle);
}

#[test]
fn tick_while_idle_emits_nothing() {
    let mut acc = accumulator(4, 0);
    assert!(acc.step(Event::Tick { now_ms: 1_000_000 }).is_none());
    assert_eq!(acc.phase(), Phase::Idle);
}

#[test]
fn end_of_stream_flushes_one_undersized_batch() {
    let mut acc = accumulator(4, 500);
    assert!(acc.step(item("x", 1)).is_none());
    assert!(acc.step(item("y", 2)).is_none());
    let last = acc.step(Event::End).expect("final batch");
    assert_eq!(ids(&last), vec!["x", "y"]);
    assert_eq!(acc.phase(), Phase::Closed);
    assert!(acc.step(Event::End).is_none());
}

#[test]
fn end_of_stream_with_empty_buffer_emits_nothing() {
    let mut acc = accumulator(4, 500);
    assert!(acc.step(Event::End).is_none());
    assert_eq!(acc.phase(), Phase::Closed);
}

#[test]
fn closed_accumulator_ignores_everything() {
    let mut acc = accumulator(1, 500);
    assert!(acc.step(Event::End).is_none());
    assert!(acc.step(item("late", 3)).is_none());
    assert!(acc.step(Event::Tick { now_ms: 10_000 }).is_none());
    assert_eq!(acc.pending_len(), 0);
}

#[test]
fn batch_of_one_when_max_size_is_one() {
    let mut acc = accumulator(1, 500);
    let batch = acc.step(item("solo", 0)).expect("immediate batch");
    assert_eq!(ids(&batch), vec!["solo"]);
}

#[test]
fn duplicate_document_ids_are_kept() {
    let mut acc = accumulator(2, 500);
    assert!(acc.step(item("same", 0)).is_none());
    let batch = acc.step(item("same", 0)).expect("full batch");
    assert_eq!(ids(&batch), vec!["same", "same"]);
}

#[test]
fn every_item_lands_in_exactly_one_batch() {
    let mut acc = accumulator(3, 50);
    let mut seen: Vec<String> = Vec::new();
    let mut expected: Vec<String> = Vec::new();
    let mut now: u64 = 0;
    for i in 0..10u64 {
        let id = format!("doc{}", i);
        expected.push(id.clone());
        now += if i % 4 == 0 { 60 } else { 1 };
        if let Some(b) = acc.step(Event::Tick { now_ms: now }) {
            assert!(b.len() >= 1 && b.len() <= 3);
            seen.extend(ids(&b));
        }
        if let Some(b) = acc.step(item(&id, now)) {
            assert!(b.len() >= 1 && b.len() <= 3);
            seen.extend(ids(&b));
        }
    }
    if let Some(b) = acc.step(Event::End) {
        seen.extend(ids(&b));
    }
    assert_eq!(seen, expected);
}

#[test]
fn idle_remaining_counts_down_from_last_arrival() {
    let mut acc = accumulator(4, 500);
    assert_eq!(acc.idle_remaining_ms(0), None);
    assert!(acc.step(item("a", 1_000)).is_none());
    assert_eq!(acc.idle_remaining_ms(1_000), Some(500));
    assert_eq!(acc.idle_remaining_ms(1_200), Some(300));
    assert_eq!(acc.idle_remaining_ms(1_500), Some(0));
    assert_eq!(acc.idle_remaining_ms(9_000), Some(0));
    assert_eq!(acc.idle_remaining_ms(900), Some(600));
    assert!(acc.step(Event::End).is_some());
    assert_eq!(acc.idle_remaining_ms(1_000), None);
}

#[test]
fn idle_remaining_saturates() {
    let config = GatewayConfig::new(4, u64::MAX, 1, 1).unwrap();
    let mut acc: Accumulator<Vec<u8>> = Accumulator::new(&config);
    let e = Event::Item { document_id: "img".to_string(), payload: vec![1u8, 2, 3], now_ms: 10 };
    assert!(acc.step(e).is_none());
    assert_eq!(acc.idle_remaining_ms(0), Some(u64::MAX));
    assert_eq!(acc.idle_remaining_ms(10), Some(u64::MAX));
    assert_eq!(acc.idle_remaining_ms(11), Some(u64::MAX - 1));
}

#[test]
fn inbound_outcomes_become_events() {
    let timed_out: Option<Option<Result<(String, u8), String>>> = None;
    assert!(matches!(event_from(timed_out, 7), Event::Tick { now_ms: 7 }));
    let ended: Option<Option<Result<(String, u8), String>>> = Some(None);
    assert!(matches!(event_from(ended, 7), Event::End));
    let failed: Option<Option<Result<(String, u8), String>>> = Some(Some(Err("bad".to_string())));
    assert!(matches!(event_from(failed, 7), Event::End));
    let arrived: Option<Option<Result<(String, u8), String>>> = Some(Some(Ok(("d".to_string(), 9))));
    match event_from(arrived, 7) {
        Event::Item { document_id, payload, now_ms } => {
            assert_eq!(document_id, "d");
            assert_eq!(payload, 9);
            assert_eq!(now_ms, 7);
        }
        _ => panic!("expected an item"),
    }
}
