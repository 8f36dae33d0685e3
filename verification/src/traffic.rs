//! Traffic rates: byte counters sampled over time, turned into a realtime rate and into
//! chart points averaged over one-second to one-week buckets.

use vstd::prelude::*;

verus! {

/// Received and transmitted bytes.
#[derive(Debug, Clone, Copy, PartialEq, Eq, Structural)]
pub struct TrafficBytes {
    pub rx: u64,
    pub tx: u64,
}

/// The byte counters of the WAN and the LAN side.
#[derive(Debug, Clone, Copy, PartialEq, Eq, Structural)]
pub struct TrafficCounters {
    pub wan: TrafficBytes,
    pub lan: TrafficBytes,
}

/// A rate in KiB per second, each direction.
#[derive(Debug, Clone, Copy, PartialEq, Eq, Structural)]
pub struct TrafficRate {
    pub rx_kbps: u64,
    pub tx_kbps: u64,
}

/// One point of a chart.
#[derive(Debug, Clone, Copy, PartialEq, Eq, Structural)]
pub struct TrafficPoint {
    pub at_ms: u64,
    pub rx_kbps: u64,
    pub tx_kbps: u64,
}

/// The charts of one traffic source, one per time span.
#[derive(Debug, Clone)]
pub struct TrafficCharts {
    pub one_minute: Vec<TrafficPoint>,
    pub fifteen_minutes: Vec<TrafficPoint>,
    pub one_hour: Vec<TrafficPoint>,
    pub twenty_four_hours: Vec<TrafficPoint>,
    pub seven_days: Vec<TrafficPoint>,
}

/// The rates of one traffic source.
#[derive(Debug, Clone)]
pub struct TrafficSource {
    pub realtime: TrafficRate,
    pub charts: TrafficCharts,
}

/// The LAN side, with whether hardware flow offload hides traffic from the counters.
#[derive(Debug, Clone)]
pub struct LanTraffic {
    pub source: TrafficSource,
    pub hw_offload_enabled: bool,
}

/// The published traffic state.
#[derive(Debug, Clone)]
pub struct TrafficState {
    pub wan: TrafficSource,
    pub lan: LanTraffic,
    pub all: TrafficSource,
}

/// The number of points a chart keeps; older points are dropped.
pub const MAX_CHART_POINTS: usize = 60;

/// The bucket periods, in milliseconds: one point a second for the minute chart, every 15 s
/// for the quarter-hour chart, every minute for the hour chart, every 24 minutes for the day
/// chart and every 168 minutes for the week chart.
pub const MINUTE_BUCKET_MS: u64 = 1_000;
pub const QUARTER_HOUR_BUCKET_MS: u64 = 15_000;
pub const HOUR_BUCKET_MS: u64 = 60_000;
pub const DAY_BUCKET_MS: u64 = 1_440_000;
pub const WEEK_BUCKET_MS: u64 = 10_080_000;

/// Bytes over `ms` milliseconds in KiB per second, rounded to the nearest integer.
pub open spec fn rate_of(bytes: u64, ms: u64) -> int
    recommends
        ms > 0,
{
    (bytes * 1000 + ms * 512) / (ms * 1024)
}

/// The rate of a byte count over `ms` milliseconds.
pub open spec fn rate_spec(b: TrafficBytes, ms: u64) -> TrafficRate
    recommends
        ms > 0,
{
    TrafficRate { rx_kbps: rate_of(b.rx, ms) as u64, tx_kbps: rate_of(b.tx, ms) as u64 }
}

proof fn lemma_rate_bound(bytes: u64, ms: u64)
    requires
        ms > 0,
    ensures
        0 <= rate_of(bytes, ms) <= bytes,
{
    let num = bytes * 1000 + ms * 512;
    let den = ms * 1024;
    assert(num < (bytes + 1) * den) by (nonlinear_arith)
        requires
            ms >= 1,
            bytes >= 0,
            num == bytes * 1000 + ms * 512,
            den == ms * 1024,
    ;
    assert(num / den <= bytes && num / den >= 0) by (nonlinear_arith)
        requires
            num < (bytes + 1) * den,
            den >= 1024,
            num >= 0,
    ;
}

fn rate_one(bytes: u64, ms: u64) -> (r: u64)
    requires
        ms > 0,
    ensures
        r == rate_of(bytes, ms),
{
    proof {
        lemma_rate_bound(bytes, ms);
    }
    let num: u128 = (bytes as u128) * 1000 + (ms as u128) * 512;
    let den: u128 = (ms as u128) * 1024;
    let q = num / den;
    assert(q == rate_of(bytes, ms));
    q as u64
}

/// The rate of `bytes` transferred over `elapsed_ms` milliseconds.
pub fn rate(bytes: TrafficBytes, elapsed_ms: u64) -> (r: TrafficRate)
    requires
        elapsed_ms > 0,
    ensures
        r == rate_spec(bytes, elapsed_ms),
{
    TrafficRate { rx_kbps: rate_one(bytes.rx, elapsed_ms), tx_kbps: rate_one(bytes.tx, elapsed_ms) }
}

/// The bytes counted between two readings; a counter that went back (a reset) counts nothing.
pub open spec fn delta_spec(previous: TrafficBytes, current: TrafficBytes) -> TrafficBytes {
    TrafficBytes {
        rx: if current.rx >= previous.rx { (current.rx - previous.rx) as u64 } else { 0 },
        tx: if current.tx >= previous.tx { (current.tx - previous.tx) as u64 } else { 0 },
    }
}

pub fn delta(previous: TrafficBytes, current: TrafficBytes) -> (r: TrafficBytes)
    ensures
        r == delta_spec(previous, current),
{
    TrafficBytes { rx: current.rx.saturating_sub(previous.rx), tx: current.tx.saturating_sub(previous.tx) }
}

/// The sum of two byte counts, saturating at the largest count.
pub open spec fn sum_spec(a: TrafficBytes, b: TrafficBytes) -> TrafficBytes {
    TrafficBytes {
        rx: if a.rx + b.rx <= u64::MAX { (a.rx + b.rx) as u64 } else { u64::MAX },
        tx: if a.tx + b.tx <= u64::MAX { (a.tx + b.tx) as u64 } else { u64::MAX },
    }
}

pub fn sum(a: TrafficBytes, b: TrafficBytes) -> (r: TrafficBytes)
    ensures
        r == sum_spec(a, b),
{
    TrafficBytes { rx: a.rx.saturating_add(b.rx), tx: a.tx.saturating_add(b.tx) }
}

/// A chart after a point is added: the point goes last and the oldest point leaves once the
/// chart is full.
pub open spec fn pushed(points: Seq<TrafficPoint>, p: TrafficPoint) -> Seq<TrafficPoint> {
    if points.len() + 1 > MAX_CHART_POINTS {
        points.push(p).subrange(points.len() + 1 - MAX_CHART_POINTS, points.len() + 1 as int)
    } else {
        points.push(p)
    }
}

/// Adds a point to a chart.
pub fn push_point(points: &mut Vec<TrafficPoint>, p: TrafficPoint)
    ensures
        final(points)@ == pushed(old(points)@, p),
{
    let ghost whole = old(points)@.push(p);
    let ghost n = whole.len();
    points.push(p);
    proof {
        assert(points@ =~= whole.subrange(0, n as int));
    }
    while points.len() > MAX_CHART_POINTS
        invariant
            whole == old(points)@.push(p),
            n == whole.len(),
            1 <= points@.len() <= n,
            points@ == whole.subrange(n - points@.len(), n as int),
            n > MAX_CHART_POINTS ==> points@.len() >= MAX_CHART_POINTS,
            n <= MAX_CHART_POINTS ==> points@.len() == n,
        decreases points@.len(),
    {
        let ghost before = points@;
        points.remove(0);
        proof {
            assert(points@ =~= whole.subrange(n - points@.len(), n as int));
        }
    }
    proof {
        if n <= MAX_CHART_POINTS {
            assert(whole.subrange(0, n as int) =~= whole);
        }
    }
}

/// Bytes and time gathered towards the next point of one chart.
#[derive(Debug, Clone, Copy, PartialEq, Eq, Structural)]
pub struct BucketAccumulator {
    pub bytes: TrafficBytes,
    pub elapsed_ms: u64,
}

impl BucketAccumulator {
    pub fn empty() -> (r: BucketAccumulator)
        ensures
            r == (BucketAccumulator { bytes: TrafficBytes { rx: 0, tx: 0 }, elapsed_ms: 0 }),
    {
        BucketAccumulator { bytes: TrafficBytes { rx: 0, tx: 0 }, elapsed_ms: 0 }
    }
}

/// One bucket after a sample: it gathers the bytes and the time; once its period is full it
/// yields its average rate as a point and starts over.
pub open spec fn bucket_after(acc: BucketAccumulator, bytes: TrafficBytes, elapsed_ms: u64) -> BucketAccumulator {
    BucketAccumulator {
        bytes: sum_spec(acc.bytes, bytes),
        elapsed_ms: if acc.elapsed_ms + elapsed_ms <= u64::MAX {
            (acc.elapsed_ms + elapsed_ms) as u64
        } else {
            u64::MAX
        },
    }
}

/// A bucket and its chart after a sample: the bucket gathers the bytes and the time, and once
/// its period is full its average rate becomes a new point and it starts over.
pub open spec fn step_spec(
    acc: BucketAccumulator,
    bytes: TrafficBytes,
    elapsed_ms: u64,
    period_ms: u64,
    at_ms: u64,
    points: Seq<TrafficPoint>,
) -> (BucketAccumulator, Seq<TrafficPoint>) {
    let full = bucket_after(acc, bytes, elapsed_ms);
    if full.elapsed_ms >= period_ms {
        (
            BucketAccumulator { bytes: TrafficBytes { rx: 0, tx: 0 }, elapsed_ms: 0 },
            pushed(
                points,
                TrafficPoint {
                    at_ms,
                    rx_kbps: rate_spec(full.bytes, full.elapsed_ms).rx_kbps,
                    tx_kbps: rate_spec(full.bytes, full.elapsed_ms).tx_kbps,
                },
            ),
        )
    } else {
        (full, points)
    }
}

fn step_bucket(
    acc: &mut BucketAccumulator,
    bytes: TrafficBytes,
    elapsed_ms: u64,
    period_ms: u64,
    at_ms: u64,
    points: &mut Vec<TrafficPoint>,
)
    requires
        period_ms > 0,
    ensures
        (*final(acc), final(points)@) == step_spec(*old(acc), bytes, elapsed_ms, period_ms, at_ms, old(points)@),
{
    acc.bytes = sum(acc.bytes, bytes);
    acc.elapsed_ms = acc.elapsed_ms.saturating_add(elapsed_ms);
    if acc.elapsed_ms >= period_ms {
        let r = rate(acc.bytes, acc.elapsed_ms);
        push_point(points, TrafficPoint { at_ms, rx_kbps: r.rx_kbps, tx_kbps: r.tx_kbps });
        *acc = BucketAccumulator::empty();
    }
}

/// The five buckets of one source, one per chart.
#[derive(Debug, Clone, Copy, PartialEq, Eq, Structural)]
pub struct SourceBuckets {
    pub one_minute: BucketAccumulator,
    pub fifteen_minutes: BucketAccumulator,
    pub one_hour: BucketAccumulator,
    pub twenty_four_hours: BucketAccumulator,
    pub seven_days: BucketAccumulator,
}

impl SourceBuckets {
    pub fn empty() -> (r: SourceBuckets)
        ensures
            r.one_minute == (BucketAccumulator { bytes: TrafficBytes { rx: 0, tx: 0 }, elapsed_ms: 0 }),
            r.fifteen_minutes == r.one_minute,
            r.one_hour == r.one_minute,
            r.twenty_four_hours == r.one_minute,
            r.seven_days == r.one_minute,
    {
        SourceBuckets {
            one_minute: BucketAccumulator::empty(),
            fifteen_minutes: BucketAccumulator::empty(),
            one_hour: BucketAccumulator::empty(),
            twenty_four_hours: BucketAccumulator::empty(),
            seven_days: BucketAccumulator::empty(),
        }
    }
}

/// Feeds one sample into a source: its realtime rate, and each bucket with its chart.
pub fn update_source(
    source: &mut TrafficSource,
    bytes: TrafficBytes,
    elapsed_ms: u64,
    at_ms: u64,
    buckets: &mut SourceBuckets,
)
    requires
        elapsed_ms > 0,
    ensures
        final(source).realtime == rate_spec(bytes, elapsed_ms),
        (final(buckets).one_minute, final(source).charts.one_minute@) == step_spec(
            old(buckets).one_minute,
            bytes,
            elapsed_ms,
            MINUTE_BUCKET_MS,
            at_ms,
            old(source).charts.one_minute@,
        ),
        (final(buckets).fifteen_minutes, final(source).charts.fifteen_minutes@) == step_spec(
            old(buckets).fifteen_minutes,
            bytes,
            elapsed_ms,
            QUARTER_HOUR_BUCKET_MS,
            at_ms,
            old(source).charts.fifteen_minutes@,
        ),
        (final(buckets).one_hour, final(source).charts.one_hour@) == step_spec(
            old(buckets).one_hour,
            bytes,
            elapsed_ms,
            HOUR_BUCKET_MS,
            at_ms,
            old(source).charts.one_hour@,
        ),
        (final(buckets).twenty_four_hours, final(source).charts.twenty_four_hours@) == step_spec(
            old(buckets).twenty_four_hours,
            bytes,
            elapsed_ms,
            DAY_BUCKET_MS,
            at_ms,
            old(source).charts.twenty_four_hours@,
        ),
        (final(buckets).seven_days, final(source).charts.seven_days@) == step_spec(
            old(buckets).seven_days,
            bytes,
            elapsed_ms,
            WEEK_BUCKET_MS,
            at_ms,
            old(source).charts.seven_days@,
        ),
{
    source.realtime = rate(bytes, elapsed_ms);
    step_bucket(&mut buckets.one_minute, bytes, elapsed_ms, MINUTE_BUCKET_MS, at_ms, &mut source.charts.one_minute);
    step_bucket(
        &mut buckets.fifteen_minutes,
        bytes,
        elapsed_ms,
        QUARTER_HOUR_BUCKET_MS,
        at_ms,
        &mut source.charts.fifteen_minutes,
    );
    step_bucket(&mut buckets.one_hour, bytes, elapsed_ms, HOUR_BUCKET_MS, at_ms, &mut source.charts.one_hour);
    step_bucket(
        &mut buckets.twenty_four_hours,
        bytes,
        elapsed_ms,
        DAY_BUCKET_MS,
        at_ms,
        &mut source.charts.twenty_four_hours,
    );
    step_bucket(&mut buckets.seven_days, bytes, elapsed_ms, WEEK_BUCKET_MS, at_ms, &mut source.charts.seven_days);
}


/// A source with no traffic yet: zero rates and empty charts.
pub open spec fn is_fresh_source(s: TrafficSource) -> bool {
    &&& s.realtime == (TrafficRate { rx_kbps: 0, tx_kbps: 0 })
    &&& s.charts.one_minute@.len() == 0
    &&& s.charts.fifteen_minutes@.len() == 0
    &&& s.charts.one_hour@.len() == 0
    &&& s.charts.twenty_four_hours@.len() == 0
    &&& s.charts.seven_days@.len() == 0
}

/// Buckets that have gathered nothing yet.
pub open spec fn is_empty_buckets(b: SourceBuckets) -> bool {
    let e = BucketAccumulator { bytes: TrafficBytes { rx: 0, tx: 0 }, elapsed_ms: 0 };
    b == (SourceBuckets { one_minute: e, fifteen_minutes: e, one_hour: e, twenty_four_hours: e, seven_days: e })
}

impl TrafficSource {
    /// No traffic yet: zero rates and empty charts.
    pub fn new() -> (r: TrafficSource)
        ensures
            r.realtime == (TrafficRate { rx_kbps: 0, tx_kbps: 0 }),
            r.charts.one_minute@.len() == 0,
            r.charts.fifteen_minutes@.len() == 0,
            r.charts.one_hour@.len() == 0,
            r.charts.twenty_four_hours@.len() == 0,
            r.charts.seven_days@.len() == 0,
    {
        TrafficSource {
            realtime: TrafficRate { rx_kbps: 0, tx_kbps: 0 },
            charts: TrafficCharts {
                one_minute: Vec::new(),
                fifteen_minutes: Vec::new(),
                one_hour: Vec::new(),
                twenty_four_hours: Vec::new(),
                seven_days: Vec::new(),
            },
        }
    }
}

impl TrafficState {
    /// No traffic yet.
    pub fn new() -> (r: TrafficState)
        ensures
            is_fresh_source(r.wan),
            is_fresh_source(r.lan.source),
            is_fresh_source(r.all),
            !r.lan.hw_offload_enabled,
    {
        TrafficState {
            wan: TrafficSource::new(),
            lan: LanTraffic { source: TrafficSource::new(), hw_offload_enabled: false },
            all: TrafficSource::new(),
        }
    }
}

/// Turns successive readings of the byte counters into rates.
#[derive(Debug)]
pub struct TrafficSampler {
    /// The last reading.
    pub previous: Option<TrafficCounters>,
    /// When the last reading was taken, in milliseconds of a monotonic clock.
    pub sampled_at_ms: Option<u64>,
    pub wan_buckets: SourceBuckets,
    pub lan_buckets: SourceBuckets,
    pub all_buckets: SourceBuckets,
}

/// The time between two readings; none when the clock did not advance.
pub open spec fn elapsed_spec(previous_at: Option<u64>, now_ms: u64) -> u64 {
    match previous_at {
        Some(at) => if now_ms >= at {
            (now_ms - at) as u64
        } else {
            0
        },
        None => 0,
    }
}

impl TrafficSampler {
    pub fn new() -> (r: TrafficSampler)
        ensures
            r.previous is None,
            r.sampled_at_ms is None,
            is_empty_buckets(r.wan_buckets),
            is_empty_buckets(r.lan_buckets),
            is_empty_buckets(r.all_buckets),
    {
        TrafficSampler {
            previous: None,
            sampled_at_ms: None,
            wan_buckets: SourceBuckets::empty(),
            lan_buckets: SourceBuckets::empty(),
            all_buckets: SourceBuckets::empty(),
        }
    }

    /// Takes a reading of the counters at `now_ms` (monotonic) and `at_ms` (wall clock). The
    /// first reading only records the counters. Each later one, over a positive elapsed time,
    /// sets the realtime rate of the WAN, of the LAN and of both together from the bytes
    /// counted since the previous reading, and feeds the chart buckets. Tells whether the rates
    /// were updated.
    pub fn sample(
        &mut self,
        current: TrafficCounters,
        hw_offload_enabled: bool,
        state: &mut TrafficState,
        now_ms: u64,
        at_ms: u64,
    ) -> (updated: bool)
        ensures
            final(self).previous == Some(current),
            final(self).sampled_at_ms == Some(now_ms),
            updated == (old(self).previous is Some && elapsed_spec(old(self).sampled_at_ms, now_ms) > 0),
            old(self).previous is None ==> final(state).lan.hw_offload_enabled == hw_offload_enabled
                && final(state).wan.realtime == old(state).wan.realtime
                && final(state).all.realtime == old(state).all.realtime
                && final(state).lan.source.realtime == old(state).lan.source.realtime,
            old(self).previous is Some && !updated ==> final(state).wan.realtime == old(state).wan.realtime
                && final(state).all.realtime == old(state).all.realtime
                && final(state).lan.source.realtime == old(state).lan.source.realtime
                && final(state).lan.hw_offload_enabled == old(state).lan.hw_offload_enabled,
            updated ==> ({
                let previous = old(self).previous->0;
                let elapsed = elapsed_spec(old(self).sampled_at_ms, now_ms);
                let wan = delta_spec(previous.wan, current.wan);
                let lan = delta_spec(previous.lan, current.lan);
                &&& final(state).wan.realtime == rate_spec(wan, elapsed)
                &&& final(state).lan.source.realtime == rate_spec(lan, elapsed)
                &&& final(state).all.realtime == rate_spec(sum_spec(wan, lan), elapsed)
                &&& final(state).lan.hw_offload_enabled == hw_offload_enabled
            }),
    {
        let previous = self.previous;
        self.previous = Some(current);
        let previous = match previous {
            Some(p) => p,
            None => {
                self.sampled_at_ms = Some(now_ms);
                state.lan.hw_offload_enabled = hw_offload_enabled;
                return false;
            },
        };
        let elapsed_ms: u64 = match self.sampled_at_ms {
            Some(at) => now_ms.saturating_sub(at),
            None => 0,
        };
        self.sampled_at_ms = Some(now_ms);
        if elapsed_ms == 0 {
            return false;
        }
        let wan = delta(previous.wan, current.wan);
        let lan = delta(previous.lan, current.lan);
        let all = sum(wan, lan);
        update_source(&mut state.wan, wan, elapsed_ms, at_ms, &mut self.wan_buckets);
        update_source(&mut state.lan.source, lan, elapsed_ms, at_ms, &mut self.lan_buckets);
        update_source(&mut state.all, all, elapsed_ms, at_ms, &mut self.all_buckets);
        state.lan.hw_offload_enabled = hw_offload_enabled;
        true
    }
}

/// The combined traffic is the sum of the WAN and the LAN traffic: over one interval, the
/// combined rate is the rate of the summed bytes.
pub proof fn lemma_all_is_wan_plus_lan(wan: TrafficBytes, lan: TrafficBytes, elapsed_ms: u64)
    requires
        elapsed_ms > 0,
        wan.rx + lan.rx <= u64::MAX,
        wan.tx + lan.tx <= u64::MAX,
    ensures
        rate_spec(sum_spec(wan, lan), elapsed_ms).rx_kbps == rate_of((wan.rx + lan.rx) as u64, elapsed_ms),
        rate_spec(sum_spec(wan, lan), elapsed_ms).tx_kbps == rate_of((wan.tx + lan.tx) as u64, elapsed_ms),
{
    lemma_rate_bound((wan.rx + lan.rx) as u64, elapsed_ms);
    lemma_rate_bound((wan.tx + lan.tx) as u64, elapsed_ms);
}

/// A rate never exceeds the bytes counted, and a full second of `n * 1024` bytes is `n` KiB/s.
pub proof fn lemma_rate_exact(n: u64)
    requires
        n * 1024 <= u64::MAX,
    ensures
        rate_of((n * 1024) as u64, 1000) == n,
{
    assert(((n * 1024) * 1000 + 1000 * 512) / (1024000 as int) == n) by (nonlinear_arith)
        requires
            n >= 0,
    ;
}


/// Two sources hold the same rates and charts.
pub open spec fn same_source(a: TrafficSource, b: TrafficSource) -> bool {
    &&& a.realtime == b.realtime
    &&& a.charts.one_minute@ == b.charts.one_minute@
    &&& a.charts.fifteen_minutes@ == b.charts.fifteen_minutes@
    &&& a.charts.one_hour@ == b.charts.one_hour@
    &&& a.charts.twenty_four_hours@ == b.charts.twenty_four_hours@
    &&& a.charts.seven_days@ == b.charts.seven_days@
}

/// Two traffic states hold the same values.
pub open spec fn same_traffic(a: TrafficState, b: TrafficState) -> bool {
    &&& same_source(a.wan, b.wan)
    &&& same_source(a.lan.source, b.lan.source)
    &&& a.lan.hw_offload_enabled == b.lan.hw_offload_enabled
    &&& same_source(a.all, b.all)
}

fn copy_points(v: &Vec<TrafficPoint>) -> (r: Vec<TrafficPoint>)
    ensures
        r@ == v@,
{
    let mut out: Vec<TrafficPoint> = Vec::new();
    let mut i: usize = 0;
    while i < v.len()
        invariant
            i <= v@.len(),
            out@ == v@.take(i as int),
        decreases v@.len() - i,
    {
        out.push(v[i]);
        assert(out@ =~= v@.take(i + 1));
        i += 1;
    }
    assert(v@.take(v@.len() as int) =~= v@);
    out
}

fn copy_source(s: &TrafficSource) -> (r: TrafficSource)
    ensures
        same_source(r, *s),
{
    TrafficSource {
        realtime: s.realtime,
        charts: TrafficCharts {
            one_minute: copy_points(&s.charts.one_minute),
            fifteen_minutes: copy_points(&s.charts.fifteen_minutes),
            one_hour: copy_points(&s.charts.one_hour),
            twenty_four_hours: copy_points(&s.charts.twenty_four_hours),
            seven_days: copy_points(&s.charts.seven_days),
        },
    }
}

/// A copy of the traffic state.
pub fn copy_traffic(t: &TrafficState) -> (r: TrafficState)
    ensures
        same_traffic(r, *t),
{
    TrafficState {
        wan: copy_source(&t.wan),
        lan: LanTraffic { source: copy_source(&t.lan.source), hw_offload_enabled: t.lan.hw_offload_enabled },
        all: copy_source(&t.all),
    }
}


/// The realtime rates follow the counters they come from: over a positive interval, the
/// received rate of a source is the bytes received since the previous reading (nothing after a
/// counter reset) in KiB per second, rounded to the nearest integer, and the sent rate is the
/// same for the bytes sent; the received rate does not depend on the sent counter, nor the
/// sent rate on the received one.
pub proof fn lemma_realtime_follows_counters(previous: TrafficBytes, current: TrafficBytes, elapsed_ms: u64)
    requires
        elapsed_ms > 0,
    ensures
        rate_spec(delta_spec(previous, current), elapsed_ms).rx_kbps == if current.rx >= previous.rx {
            ((current.rx - previous.rx) * 1000 + elapsed_ms * 512) / (elapsed_ms * 1024)
        } else {
            0
        },
        rate_spec(delta_spec(previous, current), elapsed_ms).tx_kbps == if current.tx >= previous.tx {
            ((current.tx - previous.tx) * 1000 + elapsed_ms * 512) / (elapsed_ms * 1024)
        } else {
            0
        },
{
    let d = delta_spec(previous, current);
    lemma_rate_bound(d.rx, elapsed_ms);
    lemma_rate_bound(d.tx, elapsed_ms);
    assert((0 * 1000 + elapsed_ms * 512) / (elapsed_ms * 1024) == 0) by (nonlinear_arith)
        requires
            elapsed_ms > 0,
    ;
}

} // verus!
