//! Coalescing of state publications: changes are gathered into one pending event that a regular
//! flush sends, unless a change repeats a pending topic after a quiet interval and so sends the
//! pending event early.

use vstd::prelude::*;

use crate::snapshot::PublicState;

verus! {

/// What a state change is about.
#[derive(Debug, Clone, Copy, PartialEq, Eq, Structural)]
pub enum StateTopic {
    Wifi,
    Wan,
    Operation,
    Reconciliation,
    Ddns,
    Traffic,
    SystemRuntime,
}

/// The least time between an event and one sent early, in milliseconds.
pub const EARLY_FLUSH_MIN_INTERVAL_MS: u64 = 500;

/// The event waiting to be sent: the latest state and the topics that changed.
#[derive(Debug)]
pub struct PendingUpdate<S> {
    pub state: S,
    pub topics: Vec<StateTopic>,
}

/// The pending event and when the last event was sent, in milliseconds of a monotonic clock.
#[derive(Debug)]
pub struct StateUpdateBuffer<S> {
    pub pending: Option<PendingUpdate<S>>,
    pub last_sent_ms: Option<u64>,
}

/// An event may go out early when none was sent yet or the last one is old enough.
pub open spec fn may_flush_early(last_sent_ms: Option<u64>, now_ms: u64) -> bool {
    match last_sent_ms {
        None => true,
        Some(at) => now_ms >= at && now_ms - at >= EARLY_FLUSH_MIN_INTERVAL_MS,
    }
}

/// The topics after adding `t`: each listed once.
pub open spec fn with_topic(ts: Seq<StateTopic>, t: StateTopic) -> Seq<StateTopic> {
    if ts.contains(t) {
        ts
    } else {
        ts.push(t)
    }
}

/// What a buffer holds: the pending state with its topics, and when the last event was sent.
pub struct BufferView<S> {
    pub pending: Option<(S, Seq<StateTopic>)>,
    pub last_sent_ms: Option<u64>,
}

impl<S> View for StateUpdateBuffer<S> {
    type V = BufferView<S>;

    open spec fn view(&self) -> BufferView<S> {
        BufferView {
            pending: match self.pending {
                Some(p) => Some((p.state, p.topics@)),
                None => None,
            },
            last_sent_ms: self.last_sent_ms,
        }
    }
}

/// A flush at `now_ms`: the pending state, if any, is sent and nothing stays pending.
pub open spec fn flush_spec<S>(b: BufferView<S>, now_ms: u64) -> (BufferView<S>, Option<S>) {
    match b.pending {
        Some(p) => (BufferView { pending: None, last_sent_ms: Some(now_ms) }, Some(p.0)),
        None => (b, None),
    }
}

/// A change of `topic` leading to `state` at `now_ms`: when it repeats a pending topic, early
/// sending is allowed and the last event is old enough, the pending state is sent first; the
/// change then becomes the pending state, its topic added to those pending.
pub open spec fn queue_spec<S>(
    b: BufferView<S>,
    topic: StateTopic,
    state: S,
    allow_early_flush: bool,
    now_ms: u64,
) -> (BufferView<S>, Option<S>) {
    let repeats = b.pending matches Some(p) && p.1.contains(topic);
    if allow_early_flush && repeats && may_flush_early(b.last_sent_ms, now_ms) {
        (BufferView { pending: Some((state, seq![topic])), last_sent_ms: Some(now_ms) }, Some((b.pending->0).0))
    } else {
        (
            BufferView {
                pending: Some(
                    (
                        state,
                        match b.pending {
                            Some(p) => with_topic(p.1, topic),
                            None => seq![topic],
                        },
                    ),
                ),
                last_sent_ms: b.last_sent_ms,
            },
            None,
        )
    }
}

impl<S> StateUpdateBuffer<S> {
    pub fn new() -> (r: StateUpdateBuffer<S>)
        ensures
            r@ == (BufferView::<S> { pending: None, last_sent_ms: None }),
    {
        StateUpdateBuffer { pending: None, last_sent_ms: None }
    }

    /// Takes the pending event to send it now.
    pub fn flush(&mut self, now_ms: u64) -> (sent: Option<S>)
        ensures
            (final(self)@, sent) == flush_spec(old(self)@, now_ms),
    {
        match self.pending.take() {
            Some(p) => {
                self.last_sent_ms = Some(now_ms);
                Some(p.state)
            },
            None => None,
        }
    }

    /// Records a change of `topic` leading to `state`. When the change repeats a pending topic,
    /// early flushing is allowed and the last event is old enough, the pending event is sent
    /// first and returned. The change then becomes (part of) the pending event.
    pub fn queue(&mut self, topic: StateTopic, state: S, allow_early_flush: bool, now_ms: u64) -> (sent: Option<S>)
        ensures
            (final(self)@, sent) == queue_spec(old(self)@, topic, state, allow_early_flush, now_ms),
    {
        let repeats = match &self.pending {
            Some(p) => contains_topic(&p.topics, topic),
            None => false,
        };
        let may_flush = match self.last_sent_ms {
            None => true,
            Some(at) => now_ms >= at && now_ms - at >= EARLY_FLUSH_MIN_INTERVAL_MS,
        };
        let sent = if allow_early_flush && repeats && may_flush {
            self.flush(now_ms)
        } else {
            None
        };
        match self.pending.take() {
            Some(p) => {
                let mut topics = p.topics;
                if !contains_topic(&topics, topic) {
                    topics.push(topic);
                }
                self.pending = Some(PendingUpdate { state, topics });
            },
            None => {
                let mut topics = Vec::new();
                topics.push(topic);
                proof {
                    assert(topics@ =~= seq![topic]);
                }
                self.pending = Some(PendingUpdate { state, topics });
            },
        }
        sent
    }
}

fn contains_topic(ts: &Vec<StateTopic>, t: StateTopic) -> (r: bool)
    ensures
        r == ts@.contains(t),
{
    let mut i: usize = 0;
    while i < ts.len()
        invariant
            i <= ts@.len(),
            forall|j: int| 0 <= j < i ==> ts@[j] != t,
        decreases ts@.len() - i,
    {
        if ts[i] == t {
            assert(ts@[i as int] == t);
            return true;
        }
        i += 1;
    }
    false
}

/// The interval between regular flushes of the state, in milliseconds.
pub const STATE_PUBLISH_INTERVAL_MS: u64 = 1000;

/// The `k`-th tick of a schedule that starts at `start_ms` and repeats every `interval_ms`.
pub open spec fn tick_at(start_ms: u64, k: nat, interval_ms: u64) -> int {
    start_ms + k * interval_ms
}

/// The next tick of a schedule that started at `next_ms` and repeats every `interval_ms`: the
/// first one after `now_ms`, skipping the ticks that were missed.
pub fn next_future_tick(next_ms: u64, now_ms: u64, interval_ms: u64) -> (r: u64)
    requires
        interval_ms > 0,
        now_ms + interval_ms <= u64::MAX,
    ensures
        r > now_ms,
        exists|k: nat| r == #[trigger] tick_at(next_ms, k, interval_ms),
        next_ms > now_ms ==> r == next_ms,
        next_ms <= now_ms ==> r - interval_ms <= now_ms,
{
    let mut n = next_ms;
    let ghost mut k: nat = 0;
    while n <= now_ms
        invariant
            interval_ms > 0,
            now_ms + interval_ms <= u64::MAX,
            n >= next_ms,
            n == tick_at(next_ms, k, interval_ms),
            n > next_ms ==> n - interval_ms <= now_ms,
            next_ms > now_ms ==> n == next_ms,
        decreases now_ms + interval_ms - n,
    {
        proof {
            assert((k + 1) * interval_ms == k * interval_ms + interval_ms) by (nonlinear_arith);
            k = k + 1;
        }
        n = n + interval_ms;
    }
    assert(n == tick_at(next_ms, k, interval_ms));
    n
}

/// The number after `seq`; it stays at the largest value once reached.
pub open spec fn next_seq_spec(seq: u64) -> u64 {
    if seq == u64::MAX {
        seq
    } else {
        (seq + 1) as u64
    }
}

/// The sequence number of the next event; it stays at the largest value once reached.
pub fn next_event_seq(seq: u64) -> (r: u64)
    ensures
        r == next_seq_spec(seq),
{
    seq.saturating_add(1)
}

/// Sends what is pending at `now_ms`, numbered with the next event number, which becomes the
/// last one used.
pub fn send_pending(updates: &mut StateUpdateBuffer<PublicState>, event_seq: &mut u64, now_ms: u64) -> (sent:
    Option<PublicState>)
    ensures
        final(updates)@ == flush_spec(old(updates)@, now_ms).0,
        match flush_spec(old(updates)@, now_ms).1 {
            Some(p) => *final(event_seq) == next_seq_spec(*old(event_seq)) && sent == Some(
                PublicState { event_seq: *final(event_seq), ..p },
            ),
            None => *final(event_seq) == *old(event_seq) && sent is None,
        },
{
    match updates.flush(now_ms) {
        Some(mut state) => {
            *event_seq = next_event_seq(*event_seq);
            state.event_seq = *event_seq;
            Some(state)
        },
        None => None,
    }
}

/// Whether a change of `topic` may send the pending event early: the periodic samples (system
/// runtime and traffic) wait for the regular flush.
pub open spec fn flushes_early_spec(topic: StateTopic) -> bool {
    topic != StateTopic::SystemRuntime && topic != StateTopic::Traffic
}

/// Whether a change of `topic` may send the pending event early.
pub fn flushes_early(topic: StateTopic) -> (r: bool)
    ensures
        r == flushes_early_spec(topic),
{
    match topic {
        StateTopic::SystemRuntime | StateTopic::Traffic => false,
        _ => true,
    }
}

/// Publishes a change of `topic` leading to `state` (see `queue_spec`), sending the pending
/// event early only where `flushes_early_spec` allows it; a pending update sent early is
/// numbered with the next event number, which becomes the last one used.
pub fn publish(
    updates: &mut StateUpdateBuffer<PublicState>,
    event_seq: &mut u64,
    topic: StateTopic,
    state: PublicState,
    now_ms: u64,
) -> (sent: Option<PublicState>)
    ensures
        final(updates)@ == queue_spec(old(updates)@, topic, state, flushes_early_spec(topic), now_ms).0,
        match queue_spec(old(updates)@, topic, state, flushes_early_spec(topic), now_ms).1 {
            Some(p) => *final(event_seq) == next_seq_spec(*old(event_seq)) && sent == Some(
                PublicState { event_seq: *final(event_seq), ..p },
            ),
            None => *final(event_seq) == *old(event_seq) && sent is None,
        },
{
    let allow_early_flush = flushes_early(topic);
    match updates.queue(topic, state, allow_early_flush, now_ms) {
        Some(mut early) => {
            *event_seq = next_event_seq(*event_seq);
            early.event_seq = *event_seq;
            Some(early)
        },
        None => None,
    }
}

/// Updates are numbered one after another: of two sent in turn, starting from the last number
/// used `seq`, the first carries `seq + 1` and the second `seq + 2`, as long as the numbers fit.
pub proof fn lemma_sent_updates_numbered_in_turn(seq: u64)
    requires
        seq + 2 <= u64::MAX,
    ensures
        next_seq_spec(seq) == seq + 1,
        next_seq_spec(next_seq_spec(seq)) == seq + 2,
{
}

/// Adding a topic to a pending event lists it once: the topic is then listed, a topic already
/// listed leaves the list as it was, and no listed topic is lost.
pub proof fn lemma_topics_merge<S>(ts: Seq<StateTopic>, t: StateTopic)
    ensures
        with_topic(ts, t).contains(t),
        ts.contains(t) ==> with_topic(ts, t) == ts,
        forall|u: StateTopic| ts.contains(u) ==> with_topic(ts, t).contains(u),
{
    if !ts.contains(t) {
        assert(ts.push(t)[ts.len() as int] == t);
        assert forall|u: StateTopic| ts.contains(u) implies with_topic(ts, t).contains(u) by {
            let j = choose|j: int| 0 <= j < ts.len() && ts[j] == u;
            assert(ts.push(t)[j] == u);
        }
    }
}

/// Changes coalesce into one event: a change queued without early sending sends nothing, the
/// next flush sends the state it led to, and a further flush sends nothing.
pub proof fn lemma_queue_then_flush<S>(
    b: BufferView<S>,
    topic: StateTopic,
    state: S,
    now_ms: u64,
    flush_ms: u64,
    again_ms: u64,
)
    ensures
        ({
            let (queued, sent) = queue_spec(b, topic, state, false, now_ms);
            let (flushed, flushed_sent) = flush_spec(queued, flush_ms);
            &&& sent is None
            &&& flushed_sent == Some(state)
            &&& flush_spec(flushed, again_ms).1 is None
        }),
{
}

/// A periodic sample never sends the pending event early: publishing a system-runtime or
/// traffic change sends nothing and leaves its state pending for the regular flush.
pub proof fn lemma_periodic_waits_for_flush<S>(b: BufferView<S>, topic: StateTopic, state: S, now_ms: u64)
    requires
        topic == StateTopic::SystemRuntime || topic == StateTopic::Traffic,
    ensures
        ({
            let (queued, sent) = queue_spec(b, topic, state, flushes_early_spec(topic), now_ms);
            &&& sent is None
            &&& queued.last_sent_ms == b.last_sent_ms
            &&& flush_spec(queued, now_ms).1 == Some(state)
        }),
{
}

/// A change that repeats a pending topic after a quiet interval sends the pending state at
/// once; the change itself waits for the next flush.
pub proof fn lemma_repeat_sends_early<S>(b: BufferView<S>, topic: StateTopic, state: S, now_ms: u64)
    requires
        b.pending matches Some(p) && p.1.contains(topic),
        may_flush_early(b.last_sent_ms, now_ms),
    ensures
        ({
            let (queued, sent) = queue_spec(b, topic, state, true, now_ms);
            &&& sent == Some((b.pending->0).0)
            &&& queued.pending == Some((state, seq![topic]))
            &&& queued.last_sent_ms == Some(now_ms)
        }),
{
}

} // verus!
