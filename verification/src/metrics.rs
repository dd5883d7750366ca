//! Prometheus exposition (`GET /metrics`).
//!
//! Values are collected on demand at scrape time, without background aggregation.
//! The route is only mounted when a metrics token is configured; when absent,
//! callers fall through to the global 404 handler.

use crate::forge_hooks::webhook::ct_same;
use crate::text::{cat3, opt_clone, same, skip, strip_prefix};
use vstd::prelude::*;

verus! {

/// The media type of the answer.
pub const PROMETHEUS_CONTENT_TYPE: &'static str = "text/plain; version=0.0.4";

/// A count with its label.
#[derive(Debug, PartialEq, Eq)]
pub struct LabelledCount {
    pub label: String,
    pub value: i64,
}

/// Snapshot of values to render.
#[derive(Debug, PartialEq, Eq)]
pub struct Observations {
    pub version: String,
    /// Milliseconds since process start.
    pub uptime_ms: i64,
    pub builds_total: Vec<LabelledCount>,
    pub builds_in_state: Vec<LabelledCount>,
    pub evaluations_total: Vec<LabelledCount>,
    pub evaluations_in_state: Vec<LabelledCount>,
    pub workers_connected: i64,
    pub jobs_pending: i64,
    pub jobs_active: i64,
    pub cache_bytes: i64,
    pub cache_nar_bytes: i64,
    pub cache_packages: i64,
    pub cache_nar_bytes_sent_total: i64,
    pub cache_nar_requests_total: i64,
}

// ── Collecting ───────────────────────────────────────────────────────────────

/// A count, as the database gave it.
#[derive(Debug, PartialEq, Eq)]
pub struct CountRow {
    pub kind: String,
    pub label: Option<String>,
    pub value: i64,
}

/// What a row counts.
#[derive(Debug, Clone, Copy, PartialEq, Eq, Structural)]
pub enum CountKind {
    BuildTotal,
    BuildInState,
    EvaluationTotal,
    EvaluationInState,
    CacheBytes,
    CacheNarBytes,
    CachePackages,
    CacheNarBytesSentTotal,
    CacheNarRequestsTotal,
    Other,
}

/// What a row with this kind counts.
pub open spec fn kind_spec(kind: Seq<char>) -> CountKind {
    if kind == "build_total"@ {
        CountKind::BuildTotal
    } else if kind == "build_in_state"@ {
        CountKind::BuildInState
    } else if kind == "evaluation_total"@ {
        CountKind::EvaluationTotal
    } else if kind == "evaluation_in_state"@ {
        CountKind::EvaluationInState
    } else if kind == "cache_bytes"@ {
        CountKind::CacheBytes
    } else if kind == "cache_nar_bytes"@ {
        CountKind::CacheNarBytes
    } else if kind == "cache_packages"@ {
        CountKind::CachePackages
    } else if kind == "cache_nar_bytes_sent_total"@ {
        CountKind::CacheNarBytesSentTotal
    } else if kind == "cache_nar_requests_total"@ {
        CountKind::CacheNarRequestsTotal
    } else {
        CountKind::Other
    }
}

fn kind_of(kind: &str) -> (r: CountKind)
    ensures
        r == kind_spec(kind@),
{
    if same(kind, "build_total") {
        CountKind::BuildTotal
    } else if same(kind, "build_in_state") {
        CountKind::BuildInState
    } else if same(kind, "evaluation_total") {
        CountKind::EvaluationTotal
    } else if same(kind, "evaluation_in_state") {
        CountKind::EvaluationInState
    } else if same(kind, "cache_bytes") {
        CountKind::CacheBytes
    } else if same(kind, "cache_nar_bytes") {
        CountKind::CacheNarBytes
    } else if same(kind, "cache_packages") {
        CountKind::CachePackages
    } else if same(kind, "cache_nar_bytes_sent_total") {
        CountKind::CacheNarBytesSentTotal
    } else if same(kind, "cache_nar_requests_total") {
        CountKind::CacheNarRequestsTotal
    } else {
        CountKind::Other
    }
}

/// The labelled counts of one kind; a row without a label does not count.
pub open spec fn labelled(rows: Seq<CountRow>, kind: CountKind) -> Seq<LabelledCount>
    decreases rows.len(),
{
    if rows.len() == 0 {
        Seq::empty()
    } else {
        let before = labelled(rows.drop_last(), kind);
        let row = rows.last();
        if kind_spec(row.kind@) == kind && row.label is Some {
            before.push(LabelledCount { label: row.label->0, value: row.value })
        } else {
            before
        }
    }
}

/// The value of the last row of one kind, or zero.
pub open spec fn total(rows: Seq<CountRow>, kind: CountKind) -> i64
    decreases rows.len(),
{
    if rows.len() == 0 {
        0
    } else if kind_spec(rows.last().kind@) == kind {
        rows.last().value
    } else {
        total(rows.drop_last(), kind)
    }
}

/// What the scheduler counts.
#[derive(Debug, Clone, Copy, PartialEq, Eq, Structural)]
pub struct SchedulerSnapshot {
    pub workers: usize,
    pub pending: usize,
    pub active: usize,
}

/// The values to render, from the rows of the database and the scheduler.
pub fn collect(rows: &Vec<CountRow>, scheduler: SchedulerSnapshot, version: &str, uptime_ms: i64) -> (r:
    Observations)
    ensures
        r.version@ == version@,
        r.uptime_ms == uptime_ms,
        r.builds_total@ == labelled(rows@, CountKind::BuildTotal),
        r.builds_in_state@ == labelled(rows@, CountKind::BuildInState),
        r.evaluations_total@ == labelled(rows@, CountKind::EvaluationTotal),
        r.evaluations_in_state@ == labelled(rows@, CountKind::EvaluationInState),
        r.workers_connected == scheduler.workers as i64,
        r.jobs_pending == scheduler.pending as i64,
        r.jobs_active == scheduler.active as i64,
        r.cache_bytes == total(rows@, CountKind::CacheBytes),
        r.cache_nar_bytes == total(rows@, CountKind::CacheNarBytes),
        r.cache_packages == total(rows@, CountKind::CachePackages),
        r.cache_nar_bytes_sent_total == total(rows@, CountKind::CacheNarBytesSentTotal),
        r.cache_nar_requests_total == total(rows@, CountKind::CacheNarRequestsTotal),
{
    let mut builds_total: Vec<LabelledCount> = Vec::new();
    let mut builds_in_state: Vec<LabelledCount> = Vec::new();
    let mut evaluations_total: Vec<LabelledCount> = Vec::new();
    let mut evaluations_in_state: Vec<LabelledCount> = Vec::new();
    let mut cache_bytes: i64 = 0;
    let mut cache_nar_bytes: i64 = 0;
    let mut cache_packages: i64 = 0;
    let mut bytes_sent: i64 = 0;
    let mut requests: i64 = 0;
    let mut i: usize = 0;
    assert(rows@.take(0) =~= Seq::<CountRow>::empty());
    while i < rows.len()
        invariant
            i <= rows.len(),
            builds_total@ == labelled(rows@.take(i as int), CountKind::BuildTotal),
            builds_in_state@ == labelled(rows@.take(i as int), CountKind::BuildInState),
            evaluations_total@ == labelled(rows@.take(i as int), CountKind::EvaluationTotal),
            evaluations_in_state@ == labelled(rows@.take(i as int), CountKind::EvaluationInState),
            cache_bytes == total(rows@.take(i as int), CountKind::CacheBytes),
            cache_nar_bytes == total(rows@.take(i as int), CountKind::CacheNarBytes),
            cache_packages == total(rows@.take(i as int), CountKind::CachePackages),
            bytes_sent == total(rows@.take(i as int), CountKind::CacheNarBytesSentTotal),
            requests == total(rows@.take(i as int), CountKind::CacheNarRequestsTotal),
        decreases rows.len() - i,
    {
        let row = &rows[i];
        proof {
            assert(rows@.take(i as int + 1).drop_last() =~= rows@.take(i as int));
            assert(rows@.take(i as int + 1).last() == *row);
        }
        let label = opt_clone(&row.label);
        match kind_of(row.kind.as_str()) {
            CountKind::BuildTotal => if let Some(label) = label {
                builds_total.push(LabelledCount { label, value: row.value });
            },
            CountKind::BuildInState => if let Some(label) = label {
                builds_in_state.push(LabelledCount { label, value: row.value });
            },
            CountKind::EvaluationTotal => if let Some(label) = label {
                evaluations_total.push(LabelledCount { label, value: row.value });
            },
            CountKind::EvaluationInState => if let Some(label) = label {
                evaluations_in_state.push(LabelledCount { label, value: row.value });
            },
            CountKind::CacheBytes => {
                cache_bytes = row.value;
            },
            CountKind::CacheNarBytes => {
                cache_nar_bytes = row.value;
            },
            CountKind::CachePackages => {
                cache_packages = row.value;
            },
            CountKind::CacheNarBytesSentTotal => {
                bytes_sent = row.value;
            },
            CountKind::CacheNarRequestsTotal => {
                requests = row.value;
            },
            CountKind::Other => {},
        }
        i += 1;
    }
    assert(rows@.take(i as int) =~= rows@);
    Observations {
        version: version.to_owned(),
        uptime_ms,
        builds_total,
        builds_in_state,
        evaluations_total,
        evaluations_in_state,
        workers_connected: scheduler.workers as i64,
        jobs_pending: scheduler.pending as i64,
        jobs_active: scheduler.active as i64,
        cache_bytes,
        cache_nar_bytes,
        cache_packages,
        cache_nar_bytes_sent_total: bytes_sent,
        cache_nar_requests_total: requests,
    }
}

// ── Metrics ──────────────────────────────────────────────────────────────────

/// What a metric measures.
#[derive(Debug, Clone, Copy, PartialEq, Eq, Structural)]
pub enum FamilyKind {
    Gauge,
    Counter,
    /// A gauge of seconds, whose samples are counted in milliseconds.
    Seconds,
}

/// One value of a metric, with the value of its label.
pub ghost struct Sample {
    pub label: Seq<char>,
    pub value: int,
}

/// A metric and the values that were recorded for it, in order.
pub ghost struct Family {
    pub kind: FamilyKind,
    pub name: Seq<char>,
    pub help: Seq<char>,
    /// The name of the label; empty for a metric without labels.
    pub label: Seq<char>,
    pub samples: Seq<Sample>,
}

/// A letter of an identifier.
pub open spec fn ident_start(c: char) -> bool {
    'a' <= c <= 'z' || 'A' <= c <= 'Z' || c == '_'
}

/// An identifier: letters, digits and underscores, not starting with a digit.
pub open spec fn is_ident(s: Seq<char>) -> bool {
    &&& s.len() > 0
    &&& ident_start(s[0])
    &&& forall|i: int| 0 <= i < s.len() ==> ident_start(#[trigger] s[i]) || '0' <= s[i] <= '9'
}

/// The registry of the metrics library.
#[verifier::external_type_specification]
#[verifier::external_body]
pub struct ExRegistry(prometheus::Registry);

/// The metrics in a registry, in the order in which they were registered.
pub uninterp spec fn recorded(r: prometheus::Registry) -> Seq<Family>;

/// The identifier of the `prometheus::core::Desc` of a metric without constant
/// labels, which is a hash of its name.
pub uninterp spec fn descriptor_id(name: Seq<char>) -> u64;

/// No metric in `families` has the descriptor of `name`.
pub open spec fn is_new(families: Seq<Family>, name: Seq<char>) -> bool {
    forall|i: int|
        0 <= i < families.len() ==> descriptor_id((#[trigger] families[i]).name) != descriptor_id(
            name,
        )
}

/// The families after another was registered, if it could be.
pub open spec fn with_family(before: Seq<Family>, f: Family) -> Seq<Family> {
    if is_new(before, f.name) {
        before.push(f)
    } else {
        before
    }
}

/// A metric without labels.
pub open spec fn single(kind: FamilyKind, name: Seq<char>, help: Seq<char>, value: int) -> Family {
    Family {
        kind,
        name,
        help,
        label: Seq::empty(),
        samples: seq![Sample { label: Seq::empty(), value }],
    }
}

/// `prometheus::Registry::new`: the registry is empty.
#[verifier::external_body]
fn new_registry() -> (r: prometheus::Registry)
    ensures
        recorded(r) == Seq::<Family>::empty(),
{
    prometheus::Registry::new()
}

/// `prometheus::IntGauge::new`, `set` and `Registry::register`. A name and a help
/// text that are well-formed make a gauge, and registering it is refused exactly
/// when another metric has its descriptor.
#[verifier::external_body]
fn register_gauge(registry: &mut prometheus::Registry, name: &str, help: &str, value: i64) -> (r: bool)
    requires
        is_ident(name@),
        help@.len() > 0,
    ensures
        r == forall|i: int|
            0 <= i < recorded(*old(registry)).len() ==> descriptor_id(
                (#[trigger] recorded(*old(registry))[i]).name,
            ) != descriptor_id(name@),
        recorded(*final(registry)) == with_family(
            recorded(*old(registry)),
            single(FamilyKind::Gauge, name@, help@, value as int),
        ),
{
    let gauge = prometheus::IntGauge::new(name, help).expect("well-formed metric");
    gauge.set(value);
    registry.register(Box::new(gauge)).is_ok()
}

/// `prometheus::IntCounter::new`, `inc_by` and `Registry::register`, as for a gauge.
#[verifier::external_body]
fn register_counter(registry: &mut prometheus::Registry, name: &str, help: &str, value: u64) -> (r:
    bool)
    requires
        is_ident(name@),
        help@.len() > 0,
    ensures
        r == is_new(recorded(*old(registry)), name@),
        recorded(*final(registry)) == with_family(
            recorded(*old(registry)),
            single(FamilyKind::Counter, name@, help@, value as int),
        ),
{
    let counter = prometheus::IntCounter::new(name, help).expect("well-formed metric");
    counter.inc_by(value);
    registry.register(Box::new(counter)).is_ok()
}

/// `prometheus::Gauge::new`, `set` and `Registry::register`, as for a gauge of
/// integers. The value is set in seconds.
#[verifier::external_body]
fn register_seconds(registry: &mut prometheus::Registry, name: &str, help: &str, millis: i64) -> (r:
    bool)
    requires
        is_ident(name@),
        help@.len() > 0,
    ensures
        r == is_new(recorded(*old(registry)), name@),
        recorded(*final(registry)) == with_family(
            recorded(*old(registry)),
            single(FamilyKind::Seconds, name@, help@, millis as int),
        ),
{
    let gauge = prometheus::Gauge::new(name, help).expect("well-formed metric");
    gauge.set(format!("{millis}e-3").parse().expect("decimal number"));
    registry.register(Box::new(gauge)).is_ok()
}

/// A `prometheus::IntGaugeVec` with one label.
#[verifier::external_body]
pub struct GaugeVec {
    inner: prometheus::IntGaugeVec,
}

/// The name, the help text and the label name that a vector of gauges was made with.
pub uninterp spec fn gauge_title(v: GaugeVec) -> Seq<Seq<char>>;

/// The values that were set in a vector of gauges, in order.
pub uninterp spec fn gauge_samples(v: GaugeVec) -> Seq<Sample>;

/// `prometheus::IntGaugeVec::new` with one label name: names and a help text that
/// are well-formed make a vector without values.
#[verifier::external_body]
fn new_gauges(name: &str, help: &str, label: &str) -> (r: GaugeVec)
    requires
        is_ident(name@),
        help@.len() > 0,
        is_ident(label@),
    ensures
        gauge_title(r) == seq![name@, help@, label@],
        gauge_samples(r) == Seq::<Sample>::empty(),
{
    let opts = prometheus::Opts::new(name, help);
    GaugeVec { inner: prometheus::IntGaugeVec::new(opts, &[label]).expect("well-formed metric") }
}

/// `with_label_values` of a `prometheus::IntGaugeVec`, and `set` of the gauge.
#[verifier::external_body]
fn set_gauge(v: &mut GaugeVec, label: &str, value: i64)
    ensures
        gauge_title(*final(v)) == gauge_title(*old(v)),
        gauge_samples(*final(v)) == gauge_samples(*old(v)).push(
            Sample { label: label@, value: value as int },
        ),
{
    v.inner.with_label_values(&[label]).set(value);
}

/// `prometheus::Registry::register` of a vector of gauges, which is refused exactly
/// when another metric has its descriptor.
#[verifier::external_body]
fn register_gauges(registry: &mut prometheus::Registry, v: GaugeVec) -> (r: bool)
    ensures
        r == is_new(recorded(*old(registry)), gauge_title(v)[0]),
        recorded(*final(registry)) == with_family(
            recorded(*old(registry)),
            (Family {
                kind: FamilyKind::Gauge,
                name: gauge_title(v)[0],
                help: gauge_title(v)[1],
                label: gauge_title(v)[2],
                samples: gauge_samples(v),
            }),
        ),
{
    registry.register(Box::new(v.inner)).is_ok()
}

/// A `prometheus::IntCounterVec` with one label.
#[verifier::external_body]
pub struct CounterVec {
    inner: prometheus::IntCounterVec,
}

/// The name, the help text and the label name that a vector of counters was made
/// with.
pub uninterp spec fn counter_title(v: CounterVec) -> Seq<Seq<char>>;

/// The increments of a vector of counters, in order.
pub uninterp spec fn counter_samples(v: CounterVec) -> Seq<Sample>;

/// `prometheus::IntCounterVec::new` with one label name: names and a help text that
/// are well-formed make a vector without values.
#[verifier::external_body]
fn new_counters(name: &str, help: &str, label: &str) -> (r: CounterVec)
    requires
        is_ident(name@),
        help@.len() > 0,
        is_ident(label@),
    ensures
        counter_title(r) == seq![name@, help@, label@],
        counter_samples(r) == Seq::<Sample>::empty(),
{
    let opts = prometheus::Opts::new(name, help);
    CounterVec { inner: prometheus::IntCounterVec::new(opts, &[label]).expect("well-formed metric") }
}

/// `with_label_values` of a `prometheus::IntCounterVec`, and `inc_by` of the counter.
#[verifier::external_body]
fn add_count(v: &mut CounterVec, label: &str, value: u64)
    ensures
        counter_title(*final(v)) == counter_title(*old(v)),
        counter_samples(*final(v)) == counter_samples(*old(v)).push(
            Sample { label: label@, value: value as int },
        ),
{
    v.inner.with_label_values(&[label]).inc_by(value);
}

/// `prometheus::Registry::register` of a vector of counters, which is refused
/// exactly when another metric has its descriptor.
#[verifier::external_body]
fn register_counters(registry: &mut prometheus::Registry, v: CounterVec) -> (r: bool)
    ensures
        r == is_new(recorded(*old(registry)), counter_title(v)[0]),
        recorded(*final(registry)) == with_family(
            recorded(*old(registry)),
            (Family {
                kind: FamilyKind::Counter,
                name: counter_title(v)[0],
                help: counter_title(v)[1],
                label: counter_title(v)[2],
                samples: counter_samples(v),
            }),
        ),
{
    registry.register(Box::new(v.inner)).is_ok()
}

/// The text in which the metrics library exposes these families.
pub uninterp spec fn exposition(families: Seq<Family>) -> Seq<char>;

/// `prometheus::Registry::gather` and `TextEncoder::encode_to_string`. The families
/// are sorted by name and their values by label, so that the text follows from what
/// was recorded.
#[verifier::external_body]
fn encode(registry: &prometheus::Registry) -> (r: String)
    ensures
        r@ == exposition(recorded(*registry)),
{
    prometheus::TextEncoder::new().encode_to_string(&registry.gather()).expect("gathered metrics")
}

// ── Rendering ────────────────────────────────────────────────────────────────

/// A count that is never negative.
pub open spec fn clamped(n: i64) -> int {
    if n < 0 {
        0
    } else {
        n as int
    }
}

fn clamp(n: i64) -> (r: u64)
    ensures
        r == clamped(n),
{
    if n < 0 {
        0
    } else {
        n as u64
    }
}

/// The values of a labelled gauge.
pub open spec fn gauge_values(values: Seq<LabelledCount>) -> Seq<Sample> {
    values.map_values(|c: LabelledCount| Sample { label: c.label@, value: c.value as int })
}

/// The values of a labelled counter.
pub open spec fn counter_values(values: Seq<LabelledCount>) -> Seq<Sample> {
    values.map_values(|c: LabelledCount| Sample { label: c.label@, value: clamped(c.value) })
}

/// A metric by status.
pub open spec fn by_status(
    kind: FamilyKind,
    name: Seq<char>,
    help: Seq<char>,
    samples: Seq<Sample>,
) -> Family {
    Family { kind, name, help, label: "status"@, samples }
}

/// The metrics of a snapshot.
pub open spec fn families(obs: Observations) -> Seq<Family> {
    seq![
        Family {
            kind: FamilyKind::Gauge,
            name: "gradient_info"@,
            help: "Build/version metadata; value is always 1."@,
            label: "version"@,
            samples: seq![Sample { label: obs.version@, value: 1 }],
        },
        single(
            FamilyKind::Seconds,
            "gradient_uptime_seconds"@,
            "Seconds since process start."@,
            obs.uptime_ms as int,
        ),
        by_status(
            FamilyKind::Counter,
            "gradient_builds_total"@,
            "Total builds that have reached a terminal status, by status."@,
            counter_values(obs.builds_total@),
        ),
        by_status(
            FamilyKind::Gauge,
            "gradient_builds_in_state"@,
            "Current count of non-terminal builds, by status."@,
            gauge_values(obs.builds_in_state@),
        ),
        by_status(
            FamilyKind::Counter,
            "gradient_evaluations_total"@,
            "Total evaluations that have reached a terminal status, by status."@,
            counter_values(obs.evaluations_total@),
        ),
        by_status(
            FamilyKind::Gauge,
            "gradient_evaluations_in_state"@,
            "Current count of non-terminal evaluations, by status."@,
            gauge_values(obs.evaluations_in_state@),
        ),
        single(
            FamilyKind::Gauge,
            "gradient_workers_connected"@,
            "Connected workers."@,
            obs.workers_connected as int,
        ),
        single(
            FamilyKind::Gauge,
            "gradient_jobs_pending"@,
            "Pending jobs in scheduler."@,
            obs.jobs_pending as int,
        ),
        single(
            FamilyKind::Gauge,
            "gradient_jobs_active"@,
            "Active jobs in scheduler."@,
            obs.jobs_active as int,
        ),
        single(
            FamilyKind::Gauge,
            "gradient_cache_bytes"@,
            "Total compressed bytes of all cached NARs."@,
            obs.cache_bytes as int,
        ),
        single(
            FamilyKind::Gauge,
            "gradient_cache_nar_bytes"@,
            "Total uncompressed NAR bytes of all cached packages."@,
            obs.cache_nar_bytes as int,
        ),
        single(
            FamilyKind::Gauge,
            "gradient_cache_packages"@,
            "Total packages (signed build outputs) in caches."@,
            obs.cache_packages as int,
        ),
        single(
            FamilyKind::Counter,
            "gradient_cache_nar_bytes_sent_total"@,
            "Total compressed bytes served from the NAR cache since first traffic record."@,
            clamped(obs.cache_nar_bytes_sent_total),
        ),
        single(
            FamilyKind::Counter,
            "gradient_cache_nar_requests_total"@,
            "Total NAR requests served since first traffic record."@,
            clamped(obs.cache_nar_requests_total),
        ),
    ]
}

/// The metrics can be registered together: no two share a descriptor.
pub open spec fn registrable(f: Seq<Family>) -> bool {
    forall|k: int| 0 <= k < f.len() ==> is_new(f.take(k), (#[trigger] f[k]).name)
}

/// Registers a counter by status.
fn register_labelled_counter(
    registry: &mut prometheus::Registry,
    name: &str,
    help: &str,
    values: &Vec<LabelledCount>,
) -> (r: bool)
    requires
        is_ident(name@),
        help@.len() > 0,
    ensures
        r == is_new(recorded(*old(registry)), name@),
        recorded(*final(registry)) == with_family(
            recorded(*old(registry)),
            by_status(FamilyKind::Counter, name@, help@, counter_values(values@)),
        ),
{
    proof {
        lemma_status_is_ident();
    }
    let mut cv = new_counters(name, help, "status");
    let mut i: usize = 0;
    assert(counter_values(values@).take(0) =~= Seq::<Sample>::empty());
    while i < values.len()
        invariant
            i <= values.len(),
            counter_title(cv) == seq![name@, help@, "status"@],
            counter_samples(cv) == counter_values(values@).take(i as int),
        decreases values.len() - i,
    {
        add_count(&mut cv, values[i].label.as_str(), clamp(values[i].value));
        assert(counter_samples(cv) =~= counter_values(values@).take(i as int + 1));
        i += 1;
    }
    assert(counter_values(values@).take(i as int) =~= counter_values(values@));
    register_counters(registry, cv)
}

/// Registers a gauge with one label.
fn register_labelled_gauge(
    registry: &mut prometheus::Registry,
    name: &str,
    help: &str,
    label: &str,
    values: &Vec<LabelledCount>,
) -> (r: bool)
    requires
        is_ident(name@),
        help@.len() > 0,
        is_ident(label@),
    ensures
        r == is_new(recorded(*old(registry)), name@),
        recorded(*final(registry)) == with_family(
            recorded(*old(registry)),
            (Family {
                kind: FamilyKind::Gauge,
                name: name@,
                help: help@,
                label: label@,
                samples: gauge_values(values@),
            }),
        ),
{
    let mut gv = new_gauges(name, help, label);
    let mut i: usize = 0;
    assert(gauge_values(values@).take(0) =~= Seq::<Sample>::empty());
    while i < values.len()
        invariant
            i <= values.len(),
            gauge_title(gv) == seq![name@, help@, label@],
            gauge_samples(gv) == gauge_values(values@).take(i as int),
        decreases values.len() - i,
    {
        set_gauge(&mut gv, values[i].label.as_str(), values[i].value);
        assert(gauge_samples(gv) =~= gauge_values(values@).take(i as int + 1));
        i += 1;
    }
    assert(gauge_values(values@).take(i as int) =~= gauge_values(values@));
    register_gauges(registry, gv)
}

/// A number below 36 is one of these.
proof fn lemma_below_36(i: int)
    requires
        0 <= i < 36,
    ensures
        i == 0 || i == 1 || i == 2 || i == 3 || i == 4 || i == 5 || i == 6 || i == 7 || i == 8 || i
            == 9 || i == 10 || i == 11 || i == 12 || i == 13 || i == 14 || i == 15 || i == 16 || i
            == 17 || i == 18 || i == 19 || i == 20 || i == 21 || i == 22 || i == 23 || i == 24 || i
            == 25 || i == 26 || i == 27 || i == 28 || i == 29 || i == 30 || i == 31 || i == 32 || i
            == 33 || i == 34 || i == 35,
{
}

proof fn lemma_status_is_ident()
    ensures
        is_ident("status"@),
{
    reveal_strlit("status");
    let s = "status"@;
    assert forall|i: int| 0 <= i < s.len() implies ident_start(#[trigger] s[i]) by {
        lemma_below_36(i);
    }
}

/// The names of the metrics and of their labels are identifiers, and each metric has a
/// help text.
proof fn lemma_names()
    ensures
        is_ident("gradient_info"@),
        is_ident("gradient_uptime_seconds"@),
        is_ident("gradient_builds_total"@),
        is_ident("gradient_builds_in_state"@),
        is_ident("gradient_evaluations_total"@),
        is_ident("gradient_evaluations_in_state"@),
        is_ident("gradient_workers_connected"@),
        is_ident("gradient_jobs_pending"@),
        is_ident("gradient_jobs_active"@),
        is_ident("gradient_cache_bytes"@),
        is_ident("gradient_cache_nar_bytes"@),
        is_ident("gradient_cache_packages"@),
        is_ident("gradient_cache_nar_bytes_sent_total"@),
        is_ident("gradient_cache_nar_requests_total"@),
        is_ident("version"@),
        is_ident("status"@),
        "Build/version metadata; value is always 1."@.len() > 0,
        "Seconds since process start."@.len() > 0,
        "Total builds that have reached a terminal status, by status."@.len() > 0,
        "Current count of non-terminal builds, by status."@.len() > 0,
        "Total evaluations that have reached a terminal status, by status."@.len() > 0,
        "Current count of non-terminal evaluations, by status."@.len() > 0,
        "Connected workers."@.len() > 0,
        "Pending jobs in scheduler."@.len() > 0,
        "Active jobs in scheduler."@.len() > 0,
        "Total compressed bytes of all cached NARs."@.len() > 0,
        "Total uncompressed NAR bytes of all cached packages."@.len() > 0,
        "Total packages (signed build outputs) in caches."@.len() > 0,
        "Total compressed bytes served from the NAR cache since first traffic record."@.len() > 0,
        "Total NAR requests served since first traffic record."@.len() > 0,
{
    lemma_status_is_ident();
    reveal_strlit("gradient_info");
    assert forall|i: int| 0 <= i < "gradient_info"@.len() implies ident_start(
        #[trigger] "gradient_info"@[i],
    ) by {
        lemma_below_36(i);
    }
    reveal_strlit("gradient_uptime_seconds");
    assert forall|i: int| 0 <= i < "gradient_uptime_seconds"@.len() implies ident_start(
        #[trigger] "gradient_uptime_seconds"@[i],
    ) by {
        lemma_below_36(i);
    }
    reveal_strlit("gradient_builds_total");
    assert forall|i: int| 0 <= i < "gradient_builds_total"@.len() implies ident_start(
        #[trigger] "gradient_builds_total"@[i],
    ) by {
        lemma_below_36(i);
    }
    reveal_strlit("gradient_builds_in_state");
    assert forall|i: int| 0 <= i < "gradient_builds_in_state"@.len() implies ident_start(
        #[trigger] "gradient_builds_in_state"@[i],
    ) by {
        lemma_below_36(i);
    }
    reveal_strlit("gradient_evaluations_total");
    assert forall|i: int| 0 <= i < "gradient_evaluations_total"@.len() implies ident_start(
        #[trigger] "gradient_evaluations_total"@[i],
    ) by {
        lemma_below_36(i);
    }
    reveal_strlit("gradient_evaluations_in_state");
    assert forall|i: int| 0 <= i < "gradient_evaluations_in_state"@.len() implies ident_start(
        #[trigger] "gradient_evaluations_in_state"@[i],
    ) by {
        lemma_below_36(i);
    }
    reveal_strlit("gradient_workers_connected");
    assert forall|i: int| 0 <= i < "gradient_workers_connected"@.len() implies ident_start(
        #[trigger] "gradient_workers_connected"@[i],
    ) by {
        lemma_below_36(i);
    }
    reveal_strlit("gradient_jobs_pending");
    assert forall|i: int| 0 <= i < "gradient_jobs_pending"@.len() implies ident_start(
        #[trigger] "gradient_jobs_pending"@[i],
    ) by {
        lemma_below_36(i);
    }
    reveal_strlit("gradient_jobs_active");
    assert forall|i: int| 0 <= i < "gradient_jobs_active"@.len() implies ident_start(
        #[trigger] "gradient_jobs_active"@[i],
    ) by {
        lemma_below_36(i);
    }
    reveal_strlit("gradient_cache_bytes");
    assert forall|i: int| 0 <= i < "gradient_cache_bytes"@.len() implies ident_start(
        #[trigger] "gradient_cache_bytes"@[i],
    ) by {
        lemma_below_36(i);
    }
    reveal_strlit("gradient_cache_nar_bytes");
    assert forall|i: int| 0 <= i < "gradient_cache_nar_bytes"@.len() implies ident_start(
        #[trigger] "gradient_cache_nar_bytes"@[i],
    ) by {
        lemma_below_36(i);
    }
    reveal_strlit("gradient_cache_packages");
    assert forall|i: int| 0 <= i < "gradient_cache_packages"@.len() implies ident_start(
        #[trigger] "gradient_cache_packages"@[i],
    ) by {
        lemma_below_36(i);
    }
    reveal_strlit("gradient_cache_nar_bytes_sent_total");
    assert forall|i: int| 0 <= i < "gradient_cache_nar_bytes_sent_total"@.len() implies ident_start(
        #[trigger] "gradient_cache_nar_bytes_sent_total"@[i],
    ) by {
        lemma_below_36(i);
    }
    reveal_strlit("gradient_cache_nar_requests_total");
    assert forall|i: int| 0 <= i < "gradient_cache_nar_requests_total"@.len() implies ident_start(
        #[trigger] "gradient_cache_nar_requests_total"@[i],
    ) by {
        lemma_below_36(i);
    }
    reveal_strlit("version");
    assert forall|i: int| 0 <= i < "version"@.len() implies ident_start(
        #[trigger] "version"@[i],
    ) by {
        lemma_below_36(i);
    }
    reveal_strlit("Build/version metadata; value is always 1.");
    reveal_strlit("Seconds since process start.");
    reveal_strlit("Total builds that have reached a terminal status, by status.");
    reveal_strlit("Current count of non-terminal builds, by status.");
    reveal_strlit("Total evaluations that have reached a terminal status, by status.");
    reveal_strlit("Current count of non-terminal evaluations, by status.");
    reveal_strlit("Connected workers.");
    reveal_strlit("Pending jobs in scheduler.");
    reveal_strlit("Active jobs in scheduler.");
    reveal_strlit("Total compressed bytes of all cached NARs.");
    reveal_strlit("Total uncompressed NAR bytes of all cached packages.");
    reveal_strlit("Total packages (signed build outputs) in caches.");
    reveal_strlit("Total compressed bytes served from the NAR cache since first traffic record.");
    reveal_strlit("Total NAR requests served since first traffic record.");
}

/// Renders a snapshot in the text format of the metrics library, or `None` where the
/// registry refuses one of the metrics.
pub fn render(obs: &Observations) -> (r: Option<String>)
    ensures
        r is Some <==> registrable(families(*obs)),
        r matches Some(text) ==> text@ == exposition(families(*obs)),
{
    proof {
        lemma_names();
    }
    let ghost f = families(*obs);
    let mut registry = new_registry();
    assert(recorded(registry) =~= f.take(0));
    let info: Vec<LabelledCount> = vec![LabelledCount { label: obs.version.clone(), value: 1 }];
    proof {
        assert(gauge_values(info@) =~= seq![Sample { label: obs.version@, value: 1 }]);
        assert(f[0].name == "gradient_info"@);
    }
    if !register_labelled_gauge(
        &mut registry,
        "gradient_info",
        "Build/version metadata; value is always 1.",
        "version",
        &info,
    ) {
        return None;
    }
    assert(recorded(registry) =~= f.take(1));
    if !register_seconds(
        &mut registry,
        "gradient_uptime_seconds",
        "Seconds since process start.",
        obs.uptime_ms,
    ) {
        assert(!is_new(f.take(1), f[1].name));
        return None;
    }
    assert(recorded(registry) =~= f.take(2));
    if !register_labelled_counter(
        &mut registry,
        "gradient_builds_total",
        "Total builds that have reached a terminal status, by status.",
        &obs.builds_total,
    ) {
        assert(!is_new(f.take(2), f[2].name));
        return None;
    }
    assert(recorded(registry) =~= f.take(3));
    if !register_labelled_gauge(
        &mut registry,
        "gradient_builds_in_state",
        "Current count of non-terminal builds, by status.",
        "status",
        &obs.builds_in_state,
    ) {
        assert(!is_new(f.take(3), f[3].name));
        return None;
    }
    assert(recorded(registry) =~= f.take(4));
    if !register_labelled_counter(
        &mut registry,
        "gradient_evaluations_total",
        "Total evaluations that have reached a terminal status, by status.",
        &obs.evaluations_total,
    ) {
        assert(!is_new(f.take(4), f[4].name));
        return None;
    }
    assert(recorded(registry) =~= f.take(5));
    if !register_labelled_gauge(
        &mut registry,
        "gradient_evaluations_in_state",
        "Current count of non-terminal evaluations, by status.",
        "status",
        &obs.evaluations_in_state,
    ) {
        assert(!is_new(f.take(5), f[5].name));
        return None;
    }
    assert(recorded(registry) =~= f.take(6));
    if !register_gauge(
        &mut registry,
        "gradient_workers_connected",
        "Connected workers.",
        obs.workers_connected,
    ) {
        assert(!is_new(f.take(6), f[6].name));
        return None;
    }
    assert(recorded(registry) =~= f.take(7));
    if !register_gauge(
        &mut registry,
        "gradient_jobs_pending",
        "Pending jobs in scheduler.",
        obs.jobs_pending,
    ) {
        assert(!is_new(f.take(7), f[7].name));
        return None;
    }
    assert(recorded(registry) =~= f.take(8));
    if !register_gauge(
        &mut registry,
        "gradient_jobs_active",
        "Active jobs in scheduler.",
        obs.jobs_active,
    ) {
        assert(!is_new(f.take(8), f[8].name));
        return None;
    }
    assert(recorded(registry) =~= f.take(9));
    if !register_gauge(
        &mut registry,
        "gradient_cache_bytes",
        "Total compressed bytes of all cached NARs.",
        obs.cache_bytes,
    ) {
        assert(!is_new(f.take(9), f[9].name));
        return None;
    }
    assert(recorded(registry) =~= f.take(10));
    if !register_gauge(
        &mut registry,
        "gradient_cache_nar_bytes",
        "Total uncompressed NAR bytes of all cached packages.",
        obs.cache_nar_bytes,
    ) {
        assert(!is_new(f.take(10), f[10].name));
        return None;
    }
    assert(recorded(registry) =~= f.take(11));
    if !register_gauge(
        &mut registry,
        "gradient_cache_packages",
        "Total packages (signed build outputs) in caches.",
        obs.cache_packages,
    ) {
        assert(!is_new(f.take(11), f[11].name));
        return None;
    }
    assert(recorded(registry) =~= f.take(12));
    if !register_counter(
        &mut registry,
        "gradient_cache_nar_bytes_sent_total",
        "Total compressed bytes served from the NAR cache since first traffic record.",
        clamp(obs.cache_nar_bytes_sent_total),
    ) {
        assert(!is_new(f.take(12), f[12].name));
        return None;
    }
    assert(recorded(registry) =~= f.take(13));
    if !register_counter(
        &mut registry,
        "gradient_cache_nar_requests_total",
        "Total NAR requests served since first traffic record.",
        clamp(obs.cache_nar_requests_total),
    ) {
        assert(!is_new(f.take(13), f[13].name));
        return None;
    }
    assert(recorded(registry) =~= f.take(14));
    proof {
        assert(f.take(14) =~= f);
        assert forall|k: int| 0 <= k < f.len() implies is_new(f.take(k), (#[trigger] f[k]).name) by {
            lemma_below_36(k);
        }
    }
    Some(encode(&registry))
}

/// Counters never show a negative value, whatever was collected.
pub proof fn law_counters_are_not_negative(obs: Observations, k: int, j: int)
    requires
        0 <= k < families(obs).len(),
        families(obs)[k].kind == FamilyKind::Counter,
        0 <= j < families(obs)[k].samples.len(),
    ensures
        families(obs)[k].samples[j].value >= 0,
{
    lemma_below_36(k);
}

/// The answer to a scrape: the metrics of the server, of its process and of its HTTP
/// routes, or status 500 where they could not be rendered. A partial answer is never
/// given, since a scraper would take missing series as authoritative.
pub fn get_metrics(rendered: Option<String>, process: &str, http: &str) -> (r: Result<String, u16>)
    ensures
        match r {
            Ok(body) => rendered matches Some(own) && body@ == own@ + process@ + http@,
            Err(status) => rendered is None && status == 500,
        },
{
    match rendered {
        Some(own) => Ok(cat3(own.as_str(), process, http)),
        None => Err(500),
    }
}

/// The label for a route: its template, so that dynamic segments do not multiply the
/// series.
pub fn route_label(matched: Option<String>) -> (r: String)
    ensures
        r@ == (match matched {
            Some(m) => m@,
            None => "unmatched"@,
        }),
{
    match matched {
        Some(m) => m,
        None => "unmatched".to_owned(),
    }
}

// ── Access ───────────────────────────────────────────────────────────────────

/// Whether a scrape may go on.
#[derive(Debug, Clone, Copy, PartialEq, Eq, Structural)]
pub enum MetricsAccess {
    Granted,
    /// Status 401.
    Unauthorized,
    /// Status 404, as if the route was not there.
    NotFound,
}

/// Enforces the configured bearer token. `token` is `None` when no token is
/// configured, and `header` when there is no readable `Authorization` header.
pub fn metrics_auth(token: Option<&str>, header: Option<&str>) -> (r: MetricsAccess)
    ensures
        r == (match token {
            None => MetricsAccess::NotFound,
            Some(t) => if header is Some && header->0@ == "Bearer "@ + t@ {
                MetricsAccess::Granted
            } else {
                MetricsAccess::Unauthorized
            },
        }),
{
    let token = match token {
        Some(t) => t,
        None => {
            return MetricsAccess::NotFound;
        },
    };
    let value = match header {
        Some(v) => v,
        None => {
            return MetricsAccess::Unauthorized;
        },
    };
    match strip_prefix(value, "Bearer ") {
        Some(presented) => {
            let granted = ct_same(presented, token);
            proof {
                let p = "Bearer "@;
                assert(value@ =~= p + skip(value@, p.len() as int));
                assert(skip(p + token@, p.len() as int) =~= token@);
            }
            if granted {
                MetricsAccess::Granted
            } else {
                MetricsAccess::Unauthorized
            }
        },
        None => {
            proof {
                let p = "Bearer "@;
                assert((p + token@).take(p.len() as int) =~= p);
            }
            MetricsAccess::Unauthorized
        },
    }
}

/// One more row adds its labelled count to the list of its kind, or is the total of its kind;
/// it leaves every other number as it was, and so does a row of no known kind.
pub proof fn law_collected_counts(
    rows: Vec<CountRow>,
    more: Vec<CountRow>,
    x: CountRow,
    scheduler: SchedulerSnapshot,
    version: &str,
    uptime_ms: i64,
    r: Observations,
    s: Observations,
)
    requires
        more@ == rows@.push(x),
        call_ensures(collect, (&rows, scheduler, version, uptime_ms), r),
        call_ensures(collect, (&more, scheduler, version, uptime_ms), s),
    ensures
        rows@.len() == 0 ==> r.builds_total@.len() == 0 && r.builds_in_state@.len() == 0
            && r.evaluations_total@.len() == 0 && r.evaluations_in_state@.len() == 0
            && r.cache_bytes == 0 && r.cache_nar_bytes == 0 && r.cache_packages == 0
            && r.cache_nar_bytes_sent_total == 0 && r.cache_nar_requests_total == 0,
        x.kind@ == "build_total"@ && x.label is Some
            ==> s.builds_total@.len() == r.builds_total@.len() + 1
            && s.builds_total@.drop_last() == r.builds_total@ && s.builds_total@.last().label
            == x.label->0 && s.builds_total@.last().value == x.value,
        x.kind@ != "build_total"@ || x.label is None ==> s.builds_total@ == r.builds_total@,
        x.kind@ == "build_in_state"@ && x.label is Some
            ==> s.builds_in_state@.len() == r.builds_in_state@.len() + 1
            && s.builds_in_state@.drop_last() == r.builds_in_state@
                && s.builds_in_state@.last().label
            == x.label->0 && s.builds_in_state@.last().value == x.value,
        x.kind@ != "build_in_state"@ || x.label is None
            ==> s.builds_in_state@ == r.builds_in_state@,
        x.kind@ == "evaluation_total"@ && x.label is Some
            ==> s.evaluations_total@.len() == r.evaluations_total@.len() + 1
            && s.evaluations_total@.drop_last() == r.evaluations_total@
                && s.evaluations_total@.last().label
            == x.label->0 && s.evaluations_total@.last().value == x.value,
        x.kind@ != "evaluation_total"@ || x.label is None
            ==> s.evaluations_total@ == r.evaluations_total@,
        x.kind@ == "evaluation_in_state"@ && x.label is Some
            ==> s.evaluations_in_state@.len() == r.evaluations_in_state@.len() + 1
            && s.evaluations_in_state@.drop_last() == r.evaluations_in_state@
                && s.evaluations_in_state@.last().label
            == x.label->0 && s.evaluations_in_state@.last().value == x.value,
        x.kind@ != "evaluation_in_state"@ || x.label is None
            ==> s.evaluations_in_state@ == r.evaluations_in_state@,
        x.kind@ == "cache_bytes"@ ==> s.cache_bytes == x.value,
        x.kind@ != "cache_bytes"@ ==> s.cache_bytes == r.cache_bytes,
        x.kind@ == "cache_nar_bytes"@ ==> s.cache_nar_bytes == x.value,
        x.kind@ != "cache_nar_bytes"@ ==> s.cache_nar_bytes == r.cache_nar_bytes,
        x.kind@ == "cache_packages"@ ==> s.cache_packages == x.value,
        x.kind@ != "cache_packages"@ ==> s.cache_packages == r.cache_packages,
        x.kind@ == "cache_nar_bytes_sent_total"@ ==> s.cache_nar_bytes_sent_total == x.value,
        x.kind@ != "cache_nar_bytes_sent_total"@
            ==> s.cache_nar_bytes_sent_total == r.cache_nar_bytes_sent_total,
        x.kind@ == "cache_nar_requests_total"@ ==> s.cache_nar_requests_total == x.value,
        x.kind@ != "cache_nar_requests_total"@
            ==> s.cache_nar_requests_total == r.cache_nar_requests_total,
        s.version@ == version@ && s.uptime_ms == uptime_ms,
        scheduler.workers <= i64::MAX ==> s.workers_connected == scheduler.workers,
        scheduler.pending <= i64::MAX ==> s.jobs_pending == scheduler.pending,
        scheduler.active <= i64::MAX ==> s.jobs_active == scheduler.active,
{
    reveal_strlit("build_total");
    reveal_strlit("build_in_state");
    reveal_strlit("evaluation_total");
    reveal_strlit("evaluation_in_state");
    reveal_strlit("cache_bytes");
    reveal_strlit("cache_nar_bytes");
    reveal_strlit("cache_packages");
    reveal_strlit("cache_nar_bytes_sent_total");
    reveal_strlit("cache_nar_requests_total");
    assert("build_total"@.len() == 11 && "build_in_state"@.len() == 14 && "evaluation_total"@.len() == 16 && "evaluation_in_state"@.len() == 19 && "cache_bytes"@.len() == 11 && "cache_nar_bytes"@.len() == 15 && "cache_packages"@.len() == 14 && "cache_nar_bytes_sent_total"@.len() == 26 && "cache_nar_requests_total"@.len() == 24);
    assert("build_total"@[0] == 'b' && "cache_bytes"@[0] == 'c' && "build_in_state"@[0] == 'b' && "cache_packages"@[0] == 'c');
    assert(more@.drop_last() =~= rows@);
}

/// The metrics that are exposed: fourteen, each with its kind and its numbers, where no two of
/// their names collide. A counter is never below zero.
pub proof fn law_exposed_metrics(
    obs: Observations,
    r: Option<String>,
    f: Seq<Family>,
    i: int,
)
    requires
        call_ensures(render, (&obs,), r),
        f == families(obs),
    ensures
        r is Some ==> r->0@ == exposition(f),
        f.len() == 14,
        r is Some <==> (forall|a: int, b: int| 0 <= a < b < f.len()
            ==> descriptor_id((#[trigger] f[a]).name) != descriptor_id((#[trigger] f[b]).name)),
        f[0].kind is Gauge && f[0].name == "gradient_info"@,
        f[0].label == "version"@ && f[0].samples.len() == 1 && f[0].samples[0].label == obs.version@
            && f[0].samples[0].value == 1,
        f[1].kind is Seconds && f[1].name == "gradient_uptime_seconds"@,
        f[1].label.len() == 0 && f[1].samples.len() == 1 && f[1].samples[0].value == obs.uptime_ms,
        f[2].kind is Counter && f[2].name == "gradient_builds_total"@,
        f[2].label == "status"@ && f[2].samples.len() == obs.builds_total@.len(),
        0 <= i < obs.builds_total@.len() ==> f[2].samples[i].label == obs.builds_total@[i].label@
            && (obs.builds_total@[i].value >= 0 ==> f[2].samples[i].value
            == obs.builds_total@[i].value) && (obs.builds_total@[i].value < 0
            ==> f[2].samples[i].value == 0),
        f[3].kind is Gauge && f[3].name == "gradient_builds_in_state"@,
        f[3].label == "status"@ && f[3].samples.len() == obs.builds_in_state@.len(),
        0 <= i < obs.builds_in_state@.len() ==> f[3].samples[i].label
            == obs.builds_in_state@[i].label@ && f[3].samples[i].value
            == obs.builds_in_state@[i].value,
        f[4].kind is Counter && f[4].name == "gradient_evaluations_total"@,
        f[4].label == "status"@ && f[4].samples.len() == obs.evaluations_total@.len(),
        0 <= i < obs.evaluations_total@.len()
            ==> f[4].samples[i].label == obs.evaluations_total@[i].label@
            && (obs.evaluations_total@[i].value >= 0
            ==> f[4].samples[i].value == obs.evaluations_total@[i].value)
            && (obs.evaluations_total@[i].value < 0 ==> f[4].samples[i].value == 0),
        f[5].kind is Gauge && f[5].name == "gradient_evaluations_in_state"@,
        f[5].label == "status"@ && f[5].samples.len() == obs.evaluations_in_state@.len(),
        0 <= i < obs.evaluations_in_state@.len()
            ==> f[5].samples[i].label == obs.evaluations_in_state@[i].label@
            && f[5].samples[i].value == obs.evaluations_in_state@[i].value,
        f[6].kind is Gauge && f[6].name == "gradient_workers_connected"@,
        f[6].label.len() == 0 && f[6].samples.len() == 1
            && f[6].samples[0].value == obs.workers_connected,
        f[7].kind is Gauge && f[7].name == "gradient_jobs_pending"@,
        f[7].label.len() == 0 && f[7].samples.len() == 1
            && f[7].samples[0].value == obs.jobs_pending,
        f[8].kind is Gauge && f[8].name == "gradient_jobs_active"@,
        f[8].label.len() == 0 && f[8].samples.len() == 1
            && f[8].samples[0].value == obs.jobs_active,
        f[9].kind is Gauge && f[9].name == "gradient_cache_bytes"@,
        f[9].label.len() == 0 && f[9].samples.len() == 1
            && f[9].samples[0].value == obs.cache_bytes,
        f[10].kind is Gauge && f[10].name == "gradient_cache_nar_bytes"@,
        f[10].label.len() == 0 && f[10].samples.len() == 1
            && f[10].samples[0].value == obs.cache_nar_bytes,
        f[11].kind is Gauge && f[11].name == "gradient_cache_packages"@,
        f[11].label.len() == 0 && f[11].samples.len() == 1
            && f[11].samples[0].value == obs.cache_packages,
        f[12].kind is Counter && f[12].name == "gradient_cache_nar_bytes_sent_total"@,
        f[12].label.len() == 0 && f[12].samples.len() == 1
            && (obs.cache_nar_bytes_sent_total >= 0
            ==> f[12].samples[0].value == obs.cache_nar_bytes_sent_total)
            && (obs.cache_nar_bytes_sent_total < 0 ==> f[12].samples[0].value == 0),
        f[13].kind is Counter && f[13].name == "gradient_cache_nar_requests_total"@,
        f[13].label.len() == 0 && f[13].samples.len() == 1
            && (obs.cache_nar_requests_total >= 0
            ==> f[13].samples[0].value == obs.cache_nar_requests_total)
            && (obs.cache_nar_requests_total < 0 ==> f[13].samples[0].value == 0),
{
    if registrable(f) {
        assert forall|a: int, b: int| 0 <= a < b < f.len() implies descriptor_id((#[trigger] f[a]).name)
            != descriptor_id((#[trigger] f[b]).name) by {
            assert(is_new(f.take(b), f[b].name));
            assert(f.take(b)[a] == f[a]);
        }
    }
    if forall|a: int, b: int|
        0 <= a < b < f.len() ==> descriptor_id((#[trigger] f[a]).name) != descriptor_id(
            (#[trigger] f[b]).name,
        ) {
        assert forall|k: int| 0 <= k < f.len() implies is_new(f.take(k), (#[trigger] f[k]).name) by {
            assert forall|j: int| 0 <= j < f.take(k).len() implies descriptor_id(
                (#[trigger] f.take(k)[j]).name,
            ) != descriptor_id(f[k].name) by {
                assert(f.take(k)[j] == f[j]);
            }
        }
    }
}

/// The metrics are answered to whoever sends the token after `Bearer `; without a token there
/// is no such page. The answer has the three parts one after the other.
pub proof fn law_metrics_requests(
    token: Option<&str>,
    header: Option<&str>,
    a: MetricsAccess,
    rendered: Option<String>,
    process: &str,
    http: &str,
    r: Result<String, u16>,
    matched: Option<String>,
    l: String,
)
    requires
        call_ensures(metrics_auth, (token, header), a),
        call_ensures(get_metrics, (rendered, process, http), r),
        call_ensures(route_label, (matched,), l),
    ensures
        token is None <==> a is NotFound,
        a is Granted <==> token is Some && header is Some && header->0@ == "Bearer "@ + token->0@,
        rendered is Some ==> (r matches Ok(body) && body@ == rendered->0@ + process@ + http@),
        rendered is None ==> (r matches Err(status) && status == 500),
        matched is Some ==> l@ == matched->0@,
        matched is None ==> l@ == "unmatched"@,
{
}

} // verus!
