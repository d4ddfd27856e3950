use vstd::prelude::*;
use crate::config::GatewayConfig;

verus! {

/// A completed group of items, in arrival order: `document_ids[i]` belongs
/// with `payloads[i]`. A batch holds at least one item.
pub struct Batch<P> {
    document_ids: Vec<String>,
    payloads: Vec<P>,
}

/// A batch as the contracts see it: the identifiers and the payloads, in order.
pub type BatchModel<P> = (Seq<String>, Seq<P>);

impl<P> View for Batch<P> {
    type V = BatchModel<P>;

    closed spec fn view(&self) -> BatchModel<P> {
        (self.document_ids@, self.payloads@)
    }
}

impl<P> Batch<P> {
    #[verifier::type_invariant]
    spec fn well_formed(self) -> bool {
        &&& self.document_ids@.len() == self.payloads@.len()
        &&& self.document_ids@.len() >= 1
    }

    /// Number of items in the batch.
    pub fn len(&self) -> (r: usize)
        ensures
            r == self@.0.len(),
            r == self@.1.len(),
            r >= 1,
    {
        proof {
            use_type_invariant(self);
        }
        self.document_ids.len()
    }

    /// The identifiers of the items, in order.
    pub fn document_ids(&self) -> (r: &Vec<String>)
        ensures
            r@ == self@.0,
    {
        &self.document_ids
    }

    /// Splits the batch into its identifiers and its payloads.
    pub fn into_parts(self) -> (r: (Vec<String>, Vec<P>))
        ensures
            r.0@ == self@.0,
            r.1@ == self@.1,
            r.0@.len() == r.1@.len(),
            r.0@.len() >= 1,
    {
        proof {
            use_type_invariant(&self);
        }
        (self.document_ids, self.payloads)
    }
}

/// What the accumulator is told: an item arrived, time passed, or the
/// inbound stream ended (normally or with an error).
pub enum Event<P> {
    Item { document_id: String, payload: P, now_ms: u64 },
    Tick { now_ms: u64 },
    End,
}

/// The event for one wait on the inbound stream: `None` when the idle wait
/// ran out, `Some(None)` when the stream ended, `Some(Some(Err(_)))` when the
/// transport failed, which also ends the stream, and otherwise the item that
/// arrived.
pub fn event_from<P, E>(waited: Option<Option<Result<(String, P), E>>>, now_ms: u64) -> (r: Event<P>)
    ensures
        r == match waited {
            None => Event::Tick { now_ms },
            Some(None) => Event::End,
            Some(Some(Err(_))) => Event::End,
            Some(Some(Ok((document_id, payload)))) => Event::Item { document_id, payload, now_ms },
        },
{
    match waited {
        None => Event::Tick { now_ms },
        Some(None) => Event::End,
        Some(Some(Err(_))) => Event::End,
        Some(Some(Ok((document_id, payload)))) => Event::Item { document_id, payload, now_ms },
    }
}

/// The three states of the accumulator.
#[derive(Debug, Clone, Copy, PartialEq, Eq, Structural)]
pub enum Phase {
    Idle,
    Collecting,
    Closed,
}

/// The abstract state of an accumulator.
#[verifier::ext_equal]
pub struct AccumulatorModel<P> {
    pub max_batch_size: nat,
    pub idle_timeout_ms: nat,
    pub ids: Seq<String>,
    pub payloads: Seq<P>,
    pub last_arrival_ms: nat,
    pub closed: bool,
}

/// The state with nothing buffered, keeping limits, clock and closure.
pub open spec fn emptied<P>(m: AccumulatorModel<P>) -> AccumulatorModel<P> {
    AccumulatorModel { ids: Seq::empty(), payloads: Seq::empty(), ..m }
}

/// Whether the idle timeout has elapsed at `now_ms` since the last arrival.
pub open spec fn idle_elapsed<P>(m: AccumulatorModel<P>, now_ms: nat) -> bool {
    now_ms >= m.last_arrival_ms + m.idle_timeout_ms
}

/// One transition: the next state, and the batch emitted on the way, if any.
pub open spec fn step_spec<P>(m: AccumulatorModel<P>, e: Event<P>) -> (
    AccumulatorModel<P>,
    Option<BatchModel<P>>,
) {
    if m.closed {
        (m, None)
    } else {
        match e {
            Event::Item { document_id, payload, now_ms } => {
                let ids = m.ids.push(document_id);
                let payloads = m.payloads.push(payload);
                let m2 = AccumulatorModel { ids, payloads, last_arrival_ms: now_ms as nat, ..m };
                if ids.len() >= m.max_batch_size {
                    (emptied(m2), Some((ids, payloads)))
                } else {
                    (m2, None)
                }
            },
            Event::Tick { now_ms } => {
                if m.ids.len() > 0 && idle_elapsed(m, now_ms as nat) {
                    (emptied(m), Some((m.ids, m.payloads)))
                } else {
                    (m, None)
                }
            },
            Event::End => {
                let m2 = AccumulatorModel { closed: true, ..emptied(m) };
                if m.ids.len() > 0 {
                    (m2, Some((m.ids, m.payloads)))
                } else {
                    (m2, None)
                }
            },
        }
    }
}

/// The view of an optional batch.
pub open spec fn out_view<P>(out: Option<Batch<P>>) -> Option<BatchModel<P>> {
    match out {
        Some(b) => Some(b@),
        None => None,
    }
}

/// Groups inbound items into batches, by count or after an idle timeout.
pub struct Accumulator<P> {
    max_batch_size: usize,
    idle_timeout_ms: u64,
    document_ids: Vec<String>,
    payloads: Vec<P>,
    last_arrival_ms: u64,
    closed: bool,
}

impl<P> View for Accumulator<P> {
    type V = AccumulatorModel<P>;

    closed spec fn view(&self) -> AccumulatorModel<P> {
        AccumulatorModel {
            max_batch_size: self.max_batch_size as nat,
            idle_timeout_ms: self.idle_timeout_ms as nat,
            ids: self.document_ids@,
            payloads: self.payloads@,
            last_arrival_ms: self.last_arrival_ms as nat,
            closed: self.closed,
        }
    }
}

/// The invariant of the abstract state: parallel sequences, a buffer
/// always short of a full batch, and nothing buffered once closed.
pub open spec fn model_wf<P>(m: AccumulatorModel<P>) -> bool {
    &&& m.max_batch_size >= 1
    &&& m.ids.len() == m.payloads.len()
    &&& m.ids.len() < m.max_batch_size
    &&& m.closed ==> m.ids.len() == 0
}

impl<P> Accumulator<P> {
    pub open spec fn wf(&self) -> bool {
        &&& model_wf(self@)
        &&& self@.max_batch_size <= usize::MAX
        &&& self@.idle_timeout_ms <= u64::MAX
        &&& self@.last_arrival_ms <= u64::MAX
    }

    /// An empty, open accumulator with the limits of `config`.
    pub fn new(config: &GatewayConfig) -> (r: Accumulator<P>)
        ensures
            r.wf(),
            r@.max_batch_size == config.spec_max_batch_size(),
            r@.idle_timeout_ms == config.spec_batch_idle_timeout_ms(),
            r@.ids.len() == 0,
            r@.last_arrival_ms == 0,
            !r@.closed,
    {
        Accumulator {
            max_batch_size: config.max_batch_size(),
            idle_timeout_ms: config.batch_idle_timeout_ms(),
            document_ids: Vec::new(),
            payloads: Vec::new(),
            last_arrival_ms: 0,
            closed: false,
        }
    }

    fn take_batch(&mut self) -> (b: Batch<P>)
        requires
            old(self)@.ids.len() == old(self)@.payloads.len(),
            old(self)@.ids.len() >= 1,
        ensures
            b@ == (old(self)@.ids, old(self)@.payloads),
            final(self)@ == emptied(old(self)@),
    {
        let mut ids: Vec<String> = Vec::new();
        let mut payloads: Vec<P> = Vec::new();
        std::mem::swap(&mut ids, &mut self.document_ids);
        std::mem::swap(&mut payloads, &mut self.payloads);
        Batch { document_ids: ids, payloads }
    }

    /// Applies one event. A batch comes out when an item fills the buffer,
    /// when a tick finds the idle timeout elapsed with items buffered, or
    /// when the stream ends with items buffered.
    pub fn step(&mut self, event: Event<P>) -> (out: Option<Batch<P>>)
        requires
            old(self).wf(),
        ensures
            final(self).wf(),
            (final(self)@, out_view(out)) == step_spec(old(self)@, event),
            out matches Some(b) ==> 1 <= b@.0.len() <= old(self)@.max_batch_size && b@.0.len()
                == b@.1.len(),
    {
        if self.closed {
            return None;
        }
        let ghost m = self@;
        let ghost e = event;
        let out = match event {
            Event::Item { document_id, payload, now_ms } => {
                self.document_ids.push(document_id);
                self.payloads.push(payload);
                self.last_arrival_ms = now_ms;
                if self.document_ids.len() >= self.max_batch_size {
                    Some(self.take_batch())
                } else {
                    None
                }
            },
            Event::Tick { now_ms } => {
                if self.document_ids.len() > 0 && now_ms >= self.last_arrival_ms && now_ms
                    - self.last_arrival_ms >= self.idle_timeout_ms {
                    Some(self.take_batch())
                } else {
                    None
                }
            },
            Event::End => {
                let out = if self.document_ids.len() > 0 {
                    Some(self.take_batch())
                } else {
                    None
                };
                self.closed = true;
                out
            },
        };
        assert(self@ =~= step_spec(m, e).0);
        out
    }
}

/// The phase that a state is in.
pub open spec fn phase_of<P>(m: AccumulatorModel<P>) -> Phase {
    if m.closed {
        Phase::Closed
    } else if m.ids.len() == 0 {
        Phase::Idle
    } else {
        Phase::Collecting
    }
}

/// Milliseconds from `now_ms` until the idle timeout elapses, zero when it
/// already has, capped at the largest `u64`.
pub open spec fn remaining_wait<P>(m: AccumulatorModel<P>, now_ms: nat) -> nat {
    let left = m.last_arrival_ms + m.idle_timeout_ms - now_ms;
    if left <= 0 {
        0
    } else if left > u64::MAX {
        u64::MAX as nat
    } else {
        left as nat
    }
}

impl<P> Accumulator<P> {
    /// The current phase.
    pub fn phase(&self) -> (r: Phase)
        ensures
            r == phase_of(self@),
    {
        if self.closed {
            Phase::Closed
        } else if self.document_ids.len() == 0 {
            Phase::Idle
        } else {
            Phase::Collecting
        }
    }

    /// Number of buffered items.
    pub fn pending_len(&self) -> (r: usize)
        ensures
            r == self@.ids.len(),
    {
        self.document_ids.len()
    }

    /// How long to wait for the next item before a tick flushes the buffer.
    /// `None` when nothing is buffered or the stream has ended: then no
    /// timeout is running.
    pub fn idle_remaining_ms(&self, now_ms: u64) -> (r: Option<u64>)
        ensures
            phase_of(self@) != Phase::Collecting ==> r is None,
            phase_of(self@) == Phase::Collecting ==> r == Some(
                remaining_wait(self@, now_ms as nat) as u64,
            ),
    {
        if self.closed || self.document_ids.len() == 0 {
            return None;
        }
        let last = self.last_arrival_ms;
        let timeout = self.idle_timeout_ms;
        if now_ms >= last {
            let waited = now_ms - last;
            if waited >= timeout {
                Some(0)
            } else {
                Some(timeout - waited)
            }
        } else {
            let ahead = last - now_ms;
            if ahead > u64::MAX - timeout {
                Some(u64::MAX)
            } else {
                Some(ahead + timeout)
            }
        }
    }
}

/// Whether the stream has ended somewhere in `events`.
pub open spec fn ended<P>(events: Seq<Event<P>>) -> bool {
    exists|i: int| 0 <= i < events.len() && events[i] is End
}

/// The state after `events`, and the batches emitted on the way, in order.
pub open spec fn run<P>(m: AccumulatorModel<P>, events: Seq<Event<P>>) -> (
    AccumulatorModel<P>,
    Seq<BatchModel<P>>,
)
    decreases events.len(),
{
    if events.len() == 0 {
        (m, Seq::empty())
    } else {
        let (m1, bs) = run(m, events.drop_last());
        let (m2, out) = step_spec(m1, events.last());
        match out {
            Some(b) => (m2, bs.push(b)),
            None => (m2, bs),
        }
    }
}

/// The items taken in from `events`: every arrival before the stream ended,
/// as identifiers and payloads.
pub open spec fn accepted<P>(events: Seq<Event<P>>) -> BatchModel<P>
    decreases events.len(),
{
    if events.len() == 0 {
        (Seq::empty(), Seq::empty())
    } else {
        let prev = accepted(events.drop_last());
        if ended(events.drop_last()) {
            prev
        } else {
            match events.last() {
                Event::Item { document_id, payload, .. } => (
                    prev.0.push(document_id),
                    prev.1.push(payload),
                ),
                _ => prev,
            }
        }
    }
}

/// The items of a sequence of batches, one batch after the other.
pub open spec fn flatten<P>(bs: Seq<BatchModel<P>>) -> BatchModel<P>
    decreases bs.len(),
{
    if bs.len() == 0 {
        (Seq::empty(), Seq::empty())
    } else {
        let prev = flatten(bs.drop_last());
        (prev.0 + bs.last().0, prev.1 + bs.last().1)
    }
}

/// No item is lost or repeated: over any sequence of events, the batches
/// emitted followed by what is still buffered are exactly what was buffered
/// before followed by every item that arrived before the stream ended, in
/// order. Every batch holds between one and `max_batch_size` items, and once
/// the stream has ended nothing is left behind.
pub proof fn lemma_items_conserved<P>(m: AccumulatorModel<P>, events: Seq<Event<P>>)
    requires
        model_wf(m),
        !m.closed,
    ensures
        ({
            let (m2, bs) = run(m, events);
            &&& model_wf(m2)
            &&& m2.max_batch_size == m.max_batch_size
            &&& m2.closed == ended(events)
            &&& flatten(bs).0 + m2.ids == m.ids + accepted(events).0
            &&& flatten(bs).1 + m2.payloads == m.payloads + accepted(events).1
            &&& ended(events) ==> m2.ids.len() == 0
            &&& forall|i: int|
                0 <= i < bs.len() ==> 1 <= #[trigger] bs[i].0.len() <= m.max_batch_size
                    && bs[i].0.len() == bs[i].1.len()
        }),
    decreases events.len(),
{
    if events.len() == 0 {
        assert(!ended(events));
        assert(m.ids + Seq::<String>::empty() =~= m.ids);
        assert(m.payloads + Seq::<P>::empty() =~= m.payloads);
        assert(Seq::<String>::empty() + m.ids =~= m.ids);
        assert(Seq::<P>::empty() + m.payloads =~= m.payloads);
    } else {
        let dl = events.drop_last();
        let e = events.last();
        lemma_items_conserved(m, dl);
        let (m1, bs1) = run(m, dl);
        let (m2, out) = step_spec(m1, e);
        let acc1 = accepted(dl);
        let f1 = flatten(bs1);
        assert(ended(events) == (ended(dl) || e is End)) by {
            if ended(dl) {
                let i = choose|i: int| 0 <= i < dl.len() && dl[i] is End;
                assert(events[i] == dl[i]);
            }
            if ended(events) && !ended(dl) {
                let i = choose|i: int| 0 <= i < events.len() && events[i] is End;
                if i < dl.len() {
                    assert(dl[i] == events[i]);
                }
            }
            if e is End {
                assert(events[events.len() - 1] == e);
            }
        }
        if ended(dl) {
            assert(m1.closed);
        } else {
            match e {
                Event::Item { document_id, payload, now_ms } => {
                    let ids = m1.ids.push(document_id);
                    let ps = m1.payloads.push(payload);
                    assert(accepted(events) == (acc1.0.push(document_id), acc1.1.push(payload)));
                    assert((f1.0 + m1.ids).push(document_id) =~= f1.0 + ids);
                    assert((f1.1 + m1.payloads).push(payload) =~= f1.1 + ps);
                    assert((m.ids + acc1.0).push(document_id) =~= m.ids + acc1.0.push(document_id));
                    assert((m.payloads + acc1.1).push(payload) =~= m.payloads + acc1.1.push(payload));
                    if ids.len() >= m1.max_batch_size {
                        let bs = bs1.push((ids, ps));
                        assert(bs.drop_last() =~= bs1);
                        assert(flatten(bs).0 + m2.ids =~= m.ids + accepted(events).0);
                        assert(flatten(bs).1 + m2.payloads =~= m.payloads + accepted(events).1);
                        assert forall|i: int| 0 <= i < bs.len() implies 1 <= #[trigger] bs[i].0.len()
                            <= m.max_batch_size && bs[i].0.len() == bs[i].1.len() by {
                            if i < bs1.len() {
                                assert(bs[i] == bs1[i]);
                            }
                        }
                    } else {
                        assert(f1.0 + m2.ids =~= m.ids + accepted(events).0);
                        assert(f1.1 + m2.payloads =~= m.payloads + accepted(events).1);
                    }
                },
                Event::Tick { now_ms } => {
                    if m1.ids.len() > 0 && idle_elapsed(m1, now_ms as nat) {
                        let bs = bs1.push((m1.ids, m1.payloads));
                        assert(bs.drop_last() =~= bs1);
                        assert(flatten(bs).0 + m2.ids =~= m.ids + accepted(events).0);
                        assert(flatten(bs).1 + m2.payloads =~= m.payloads + accepted(events).1);
                        assert forall|i: int| 0 <= i < bs.len() implies 1 <= #[trigger] bs[i].0.len()
                            <= m.max_batch_size && bs[i].0.len() == bs[i].1.len() by {
                            if i < bs1.len() {
                                assert(bs[i] == bs1[i]);
                            }
                        }
                    }
                },
                Event::End => {
                    if m1.ids.len() > 0 {
                        let bs = bs1.push((m1.ids, m1.payloads));
                        assert(bs.drop_last() =~= bs1);
                        assert(flatten(bs).0 + m2.ids =~= m.ids + accepted(events).0);
                        assert(flatten(bs).1 + m2.payloads =~= m.payloads + accepted(events).1);
                        assert forall|i: int| 0 <= i < bs.len() implies 1 <= #[trigger] bs[i].0.len()
                            <= m.max_batch_size && bs[i].0.len() == bs[i].1.len() by {
                            if i < bs1.len() {
                                assert(bs[i] == bs1[i]);
                            }
                        }
                    } else {
                        assert(f1.0 + m2.ids =~= m.ids + accepted(events).0);
                        assert(f1.1 + m2.payloads =~= m.payloads + accepted(events).1);
                    }
                },
            }
        }
    }
}

/// An item that fills the buffer leaves at once in a batch with everything
/// buffered before it, whatever the clock says.
pub proof fn lemma_full_batch_flushes_at_once<P>(
    m: AccumulatorModel<P>,
    document_id: String,
    payload: P,
    now_ms: u64,
)
    requires
        model_wf(m),
        !m.closed,
        m.ids.len() + 1 == m.max_batch_size,
    ensures
        ({
            let (m2, out) = step_spec(m, Event::Item { document_id, payload, now_ms });
            &&& out == Some((m.ids.push(document_id), m.payloads.push(payload)))
            &&& phase_of(m2) == Phase::Idle
        }),
{
}

/// A partial batch leaves on a tick exactly when the idle timeout has
/// elapsed since the last arrival, never sooner; before that the tick
/// changes nothing.
pub proof fn lemma_idle_flush_timing<P>(m: AccumulatorModel<P>, now_ms: u64)
    requires
        model_wf(m),
        phase_of(m) == Phase::Collecting,
    ensures
        ({
            let (m2, out) = step_spec(m, Event::Tick { now_ms });
            &&& now_ms >= m.last_arrival_ms + m.idle_timeout_ms ==> out == Some((m.ids, m.payloads))
                && phase_of(m2) == Phase::Idle
            &&& now_ms < m.last_arrival_ms + m.idle_timeout_ms ==> out is None && m2 == m
        }),
{
}

/// The end of the stream flushes exactly one final batch when items are
/// buffered, and nothing when none are; after it no event emits anything.
pub proof fn lemma_end_of_stream_flush<P>(m: AccumulatorModel<P>, later: Event<P>)
    requires
        model_wf(m),
        !m.closed,
    ensures
        ({
            let (m2, out) = step_spec(m, Event::End);
            &&& m.ids.len() > 0 ==> out == Some((m.ids, m.payloads))
            &&& m.ids.len() == 0 ==> out is None
            &&& phase_of(m2) == Phase::Closed
            &&& step_spec(m2, later) == (m2, None::<BatchModel<P>>)
        }),
{
}

} // verus!
