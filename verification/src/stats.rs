//! Traffic and storage statistics of a cache.

use crate::caches::access::{resolve_visible_cache, CacheView};
use crate::codec::{date_text, format_date, is_date, random_uuid, uuid_version};
use crate::error::{ErrorCode, ErrorModel, WebError, WebResult};
use crate::helpers::{Id, Timestamp};
use crate::sql::{postgres_statement, statement, SqlValue};
use crate::text::cat5;
use vstd::prelude::*;

verus! {

#[derive(Debug, PartialEq, Eq)]
pub struct CacheMetricPoint {
    pub time: String,
    pub bytes: i64,
    pub requests: i64,
}

#[derive(Debug, PartialEq, Eq)]
pub struct StorageMetricPoint {
    pub time: String,
    /// Packages added to the cache in this bucket.
    pub packages: i64,
    /// Compressed bytes added in this bucket.
    pub bytes: i64,
}

#[derive(Debug, PartialEq, Eq)]
pub struct CacheStatsResponse {
    /// Total compressed bytes of all NARs cached by this cache.
    pub total_bytes: i64,
    /// Total uncompressed NAR bytes of all packages cached by this cache.
    pub total_nar_bytes: i64,
    /// Total number of packages (signed build outputs) in this cache.
    pub total_packages: i64,
    /// Packages/bytes added per minute for the last 60 minutes.
    pub storage_minutes: Vec<StorageMetricPoint>,
    /// Packages/bytes added per hour for the last 24 hours.
    pub storage_hours: Vec<StorageMetricPoint>,
    /// Packages/bytes added per day for the last 30 days.
    pub storage_days: Vec<StorageMetricPoint>,
    /// Packages/bytes added per week for the last 12 weeks.
    pub storage_weeks: Vec<StorageMetricPoint>,
    /// Traffic bucketed by minute for the last 60 minutes.
    pub minutes: Vec<CacheMetricPoint>,
    /// Traffic bucketed by hour for the last 24 hours.
    pub hours: Vec<CacheMetricPoint>,
    /// Traffic bucketed by day for the last 30 days.
    pub days: Vec<CacheMetricPoint>,
    /// Traffic bucketed by week for the last 12 weeks.
    pub weeks: Vec<CacheMetricPoint>,
}

// ── Recording ────────────────────────────────────────────────────────────────

/// A minute, in microseconds.
pub const MINUTE: i64 = 60000000;

/// The bucket that a moment belongs to: the start of its minute.
pub fn minute_bucket(now: Timestamp) -> (r: Timestamp)
    requires
        is_date(now),
    ensures
        r == now - now as int % MINUTE as int,
        r <= now < r + MINUTE,
        is_date(r),
{
    let over: i64 = now % MINUTE;
    if over < 0 {
        now - over - MINUTE
    } else {
        now - over
    }
}

/// Two moments share a bucket exactly when they fall into the same minute.
pub proof fn law_buckets_are_minutes(a: Timestamp, b: Timestamp)
    ensures
        (a - a as int % MINUTE as int == b - b as int % MINUTE as int) <==> a as int / MINUTE as int
            == b as int / MINUTE as int,
{
    assert(a as int == MINUTE as int * (a as int / MINUTE as int) + a as int % MINUTE as int)
        by (nonlinear_arith);
    assert(b as int == MINUTE as int * (b as int / MINUTE as int) + b as int % MINUTE as int)
        by (nonlinear_arith);
}

/// The text of the statement that records one request.
pub const RECORD_SQL: &'static str = "INSERT INTO cache_metric (id, cache, bucket_time, bytes_sent, nar_count)
           VALUES ($1, $2, $3, $4, 1)
           ON CONFLICT (cache, bucket_time)
           DO UPDATE SET bytes_sent = cache_metric.bytes_sent + EXCLUDED.bytes_sent,
                         nar_count  = cache_metric.nar_count  + EXCLUDED.nar_count";

/// The statement that records one request under the row identifier `id`.
pub open spec fn record_statement(
    id: Id,
    cache_id: Id,
    bucket: Timestamp,
    bytes: i64,
) -> sea_orm::Statement {
    statement(
        RECORD_SQL@,
        seq![
            SqlValue::Uuid(id),
            SqlValue::Uuid(cache_id),
            SqlValue::DateTime(bucket),
            SqlValue::BigInt(bytes),
        ],
    )
}

/// The statement that records one request under the row identifier `id`.
pub fn record_stmt(id: Id, cache_id: Id, bucket: Timestamp, bytes: i64) -> (r: sea_orm::Statement)
    requires
        is_date(bucket),
    ensures
        r == record_statement(id, cache_id, bucket, bytes),
{
    let values: Vec<SqlValue> = vec![
        SqlValue::Uuid(id),
        SqlValue::Uuid(cache_id),
        SqlValue::DateTime(bucket),
        SqlValue::BigInt(bytes),
    ];
    assert(values@ =~= seq![
        SqlValue::Uuid(id),
        SqlValue::Uuid(cache_id),
        SqlValue::DateTime(bucket),
        SqlValue::BigInt(bytes),
    ]);
    postgres_statement(RECORD_SQL, values)
}

/// Build the atomic UPSERT statement that records one NAR request into the
/// `(cache, bucket_time)` row. Concurrent calls into the same bucket are
/// serialised by Postgres on the unique `(cache, bucket_time)` index, so each
/// caller's `bytes_sent`/`nar_count` increment is preserved (no lost updates).
/// A row that is new gets a random identifier.
pub fn build_record_nar_traffic_stmt(cache_id: Id, bucket: Timestamp, bytes: i64) -> (r:
    sea_orm::Statement)
    requires
        is_date(bucket),
    ensures
        exists|id: Id|
            uuid_version(id) == 4 && r == #[trigger] record_statement(id, cache_id, bucket, bytes),
{
    let id: Id = random_uuid();
    record_stmt(id, cache_id, bucket, bytes)
}

/// The statement that records bytes served for a NAR request into the current
/// minute bucket.
pub fn record_nar_traffic(id: Id, cache_id: Id, now: Timestamp, bytes: i64) -> (r:
    sea_orm::Statement)
    requires
        is_date(now),
    ensures
        r == record_statement(
            id,
            cache_id,
            (now - now as int % MINUTE as int) as i64,
            bytes,
        ),
{
    record_stmt(id, cache_id, minute_bucket(now), bytes)
}

// ── Aggregation ──────────────────────────────────────────────────────────────

/// A stretch of time that ends now, cut into buckets.
#[derive(Debug, Clone, Copy, PartialEq, Eq, Structural)]
pub enum Window {
    Minutes,
    Hours,
    Days,
    Weeks,
}

impl Window {
    /// The length of a bucket.
    pub open spec fn unit(self) -> Seq<char> {
        match self {
            Window::Minutes => "minute"@,
            Window::Hours => "hour"@,
            Window::Days => "day"@,
            Window::Weeks => "week"@,
        }
    }

    /// From the first bucket to the current one.
    pub open spec fn back(self) -> Seq<char> {
        match self {
            Window::Minutes => "59 minutes"@,
            Window::Hours => "23 hours"@,
            Window::Days => "29 days"@,
            Window::Weeks => "11 weeks"@,
        }
    }

    fn unit_name(self) -> (r: &'static str)
        ensures
            r@ == self.unit(),
    {
        match self {
            Window::Minutes => "minute",
            Window::Hours => "hour",
            Window::Days => "day",
            Window::Weeks => "week",
        }
    }

    fn back_interval(self) -> (r: &'static str)
        ensures
            r@ == self.back(),
    {
        match self {
            Window::Minutes => "59 minutes",
            Window::Hours => "23 hours",
            Window::Days => "29 days",
            Window::Weeks => "11 weeks",
        }
    }
}

/// The buckets of a window, as a table expression: every bucket is present,
/// including the current one, so that a graph always runs to "now" with zeros.
pub open spec fn series(w: Window) -> Seq<char> {
    "
           FROM generate_series(
               date_trunc('"@ + w.unit() + "', NOW() AT TIME ZONE 'UTC') - INTERVAL '"@ + w.back()
        + "',
               date_trunc('"@ + w.unit() + "', NOW() AT TIME ZONE 'UTC'),
               INTERVAL '1 "@ + w.unit() + "'
           ) AS gs(period)
           LEFT JOIN "@
}

fn series_text(w: Window) -> (r: String)
    ensures
        r@ == series(w),
{
    let a = cat5(
        "
           FROM generate_series(
               date_trunc('",
        w.unit_name(),
        "', NOW() AT TIME ZONE 'UTC') - INTERVAL '",
        w.back_interval(),
        "',
               date_trunc('",
    );
    let b = cat5(
        a.as_str(),
        w.unit_name(),
        "', NOW() AT TIME ZONE 'UTC'),
               INTERVAL '1 ",
        w.unit_name(),
        "'
           ) AS gs(period)
           LEFT JOIN ",
    );
    b
}

/// The text of the statement that sums up the traffic of a cache.
pub open spec fn traffic_sql(w: Window) -> Seq<char> {
    "SELECT gs.period,
                  COALESCE(SUM(cm.bytes_sent), 0)::bigint AS bytes,
                  COALESCE(SUM(cm.nar_count),  0)::bigint AS requests"@ + series(w)
        + "cache_metric cm
               ON date_trunc('"@ + w.unit() + "', cm.bucket_time) = gs.period
              AND cm.cache = $1
           GROUP BY gs.period
           ORDER BY gs.period"@
}

/// The text of the statement that sums up what was added to a cache.
pub open spec fn storage_sql(w: Window) -> Seq<char> {
    "SELECT gs.period,
                  COALESCE(COUNT(cps.id),      0)::bigint AS packages,
                  COALESCE(SUM(cp.file_size),  0)::bigint AS bytes"@ + series(w)
        + "cached_path_signature cps
               ON date_trunc('"@ + w.unit() + "', cps.created_at) = gs.period
              AND cps.cache = $1
           LEFT JOIN cached_path cp ON cp.id = cps.cached_path
           GROUP BY gs.period
           ORDER BY gs.period"@
}

/// A statement about one cache.
pub(crate) fn cache_statement(sql: &str, cache_id: Id) -> (r: sea_orm::Statement)
    ensures
        r == statement(sql@, seq![SqlValue::Uuid(cache_id)]),
{
    let values: Vec<SqlValue> = vec![SqlValue::Uuid(cache_id)];
    assert(values@ =~= seq![SqlValue::Uuid(cache_id)]);
    postgres_statement(sql, values)
}

/// The statement that sums up the traffic of a cache, by bucket.
pub fn traffic_stmt(cache_id: Id, w: Window) -> (r: sea_orm::Statement)
    ensures
        r == statement(traffic_sql(w), seq![SqlValue::Uuid(cache_id)]),
{
    let buckets = series_text(w);
    let sql = cat5(
        "SELECT gs.period,
                  COALESCE(SUM(cm.bytes_sent), 0)::bigint AS bytes,
                  COALESCE(SUM(cm.nar_count),  0)::bigint AS requests",
        buckets.as_str(),
        "cache_metric cm
               ON date_trunc('",
        w.unit_name(),
        "', cm.bucket_time) = gs.period
              AND cm.cache = $1
           GROUP BY gs.period
           ORDER BY gs.period",
    );
    cache_statement(sql.as_str(), cache_id)
}

/// The statement that sums up what was added to a cache, by bucket.
pub fn storage_stmt(cache_id: Id, w: Window) -> (r: sea_orm::Statement)
    ensures
        r == statement(storage_sql(w), seq![SqlValue::Uuid(cache_id)]),
{
    let buckets = series_text(w);
    let sql = cat5(
        "SELECT gs.period,
                  COALESCE(COUNT(cps.id),      0)::bigint AS packages,
                  COALESCE(SUM(cp.file_size),  0)::bigint AS bytes",
        buckets.as_str(),
        "cached_path_signature cps
               ON date_trunc('",
        w.unit_name(),
        "', cps.created_at) = gs.period
              AND cps.cache = $1
           LEFT JOIN cached_path cp ON cp.id = cps.cached_path
           GROUP BY gs.period
           ORDER BY gs.period",
    );
    cache_statement(sql.as_str(), cache_id)
}

/// The text of the statement that sums up all that a cache holds.
pub const TOTALS_SQL: &'static str = "SELECT COALESCE(SUM(cp.file_size), 0)::bigint AS total_bytes,
                      COALESCE(SUM(cp.nar_size),  0)::bigint AS total_nar_bytes,
                      COUNT(cps.id)::bigint                   AS total_packages
               FROM cached_path_signature cps
               JOIN cached_path cp ON cp.id = cps.cached_path
               WHERE cps.cache = $1";

/// The statement that sums up all that a cache holds.
pub fn totals_stmt(cache_id: Id) -> (r: sea_orm::Statement)
    ensures
        r == statement(TOTALS_SQL@, seq![SqlValue::Uuid(cache_id)]),
{
    cache_statement(TOTALS_SQL, cache_id)
}

/// A bucket as the database gave it: its start and two sums, as far as they could be
/// read.
#[derive(Debug, Clone, Copy, PartialEq, Eq, Structural)]
pub struct BucketRow {
    pub period: Option<Timestamp>,
    pub first: Option<i64>,
    pub second: Option<i64>,
}

/// The number, or zero where there is none.
pub open spec fn or_zero(n: Option<i64>) -> i64 {
    match n {
        Some(v) => v,
        None => 0,
    }
}

fn zero_or(n: Option<i64>) -> (r: i64)
    ensures
        r == or_zero(n),
{
    match n {
        Some(v) => v,
        None => 0,
    }
}

/// The buckets that have a start.
pub open spec fn dated(rows: Seq<BucketRow>) -> Seq<BucketRow> {
    rows.filter(|b: BucketRow| b.period is Some)
}

/// The starts are dates.
pub open spec fn all_dates(rows: Seq<BucketRow>) -> bool {
    forall|i: int| 0 <= i < rows.len() ==> ((#[trigger] rows[i]).period matches Some(t) ==> is_date(
        t,
    ))
}

/// A point of a traffic graph shows its bucket.
pub open spec fn shows_traffic(p: CacheMetricPoint, b: BucketRow) -> bool {
    p.time@ == date_text(b.period->0) && p.bytes == or_zero(b.first) && p.requests == or_zero(
        b.second,
    )
}

/// A point of a storage graph shows its bucket.
pub open spec fn shows_storage(p: StorageMetricPoint, b: BucketRow) -> bool {
    p.time@ == date_text(b.period->0) && p.packages == or_zero(b.first) && p.bytes == or_zero(
        b.second,
    )
}

proof fn lemma_dated_step(rows: Seq<BucketRow>, i: int)
    requires
        0 <= i < rows.len(),
    ensures
        dated(rows.take(i + 1)) == (if rows[i].period is Some {
            dated(rows.take(i)).push(rows[i])
        } else {
            dated(rows.take(i))
        }),
{
    reveal(Seq::filter);
    assert(rows.take(i + 1).drop_last() =~= rows.take(i));
    assert(rows.take(i + 1).last() == rows[i]);
}

/// The points of a traffic graph: buckets whose start cannot be read are left out,
/// and a sum that cannot be read counts as zero.
pub fn aggregate_traffic(rows: &Vec<BucketRow>) -> (r: Vec<CacheMetricPoint>)
    requires
        all_dates(rows@),
    ensures
        r@.len() == dated(rows@).len(),
        forall|i: int| 0 <= i < r@.len() ==> shows_traffic(#[trigger] r@[i], dated(rows@)[i]),
{
    let mut out: Vec<CacheMetricPoint> = Vec::new();
    let mut i: usize = 0;
    proof {
        reveal(Seq::filter);
        assert(rows@.take(0) =~= Seq::<BucketRow>::empty());
    }
    while i < rows.len()
        invariant
            i <= rows.len(),
            all_dates(rows@),
            out@.len() == dated(rows@.take(i as int)).len(),
            forall|j: int|
                0 <= j < out@.len() ==> shows_traffic(
                    #[trigger] out@[j],
                    dated(rows@.take(i as int))[j],
                ),
        decreases rows.len() - i,
    {
        let b = rows[i];
        proof {
            lemma_dated_step(rows@, i as int);
        }
        if let Some(t) = b.period {
            out.push(
                CacheMetricPoint {
                    time: format_date(t),
                    bytes: zero_or(b.first),
                    requests: zero_or(b.second),
                },
            );
        }
        i += 1;
    }
    assert(rows@.take(i as int) =~= rows@);
    out
}

/// The points of a storage graph: buckets whose start cannot be read are left out,
/// and a sum that cannot be read counts as zero.
pub fn aggregate_storage(rows: &Vec<BucketRow>) -> (r: Vec<StorageMetricPoint>)
    requires
        all_dates(rows@),
    ensures
        r@.len() == dated(rows@).len(),
        forall|i: int| 0 <= i < r@.len() ==> shows_storage(#[trigger] r@[i], dated(rows@)[i]),
{
    let mut out: Vec<StorageMetricPoint> = Vec::new();
    let mut i: usize = 0;
    proof {
        reveal(Seq::filter);
        assert(rows@.take(0) =~= Seq::<BucketRow>::empty());
    }
    while i < rows.len()
        invariant
            i <= rows.len(),
            all_dates(rows@),
            out@.len() == dated(rows@.take(i as int)).len(),
            forall|j: int|
                0 <= j < out@.len() ==> shows_storage(
                    #[trigger] out@[j],
                    dated(rows@.take(i as int))[j],
                ),
        decreases rows.len() - i,
    {
        let b = rows[i];
        proof {
            lemma_dated_step(rows@, i as int);
        }
        if let Some(t) = b.period {
            out.push(
                StorageMetricPoint {
                    time: format_date(t),
                    packages: zero_or(b.first),
                    bytes: zero_or(b.second),
                },
            );
        }
        i += 1;
    }
    assert(rows@.take(i as int) =~= rows@);
    out
}

// ── The answer ───────────────────────────────────────────────────────────────

/// The totals of a cache, as far as they could be read.
#[derive(Debug, Clone, Copy, PartialEq, Eq, Structural)]
pub struct TotalsRow {
    pub total_bytes: Option<i64>,
    pub total_nar_bytes: Option<i64>,
    pub total_packages: Option<i64>,
}

/// The points of one window.
pub struct WindowPoints {
    pub storage: Vec<StorageMetricPoint>,
    pub traffic: Vec<CacheMetricPoint>,
}

/// The statistics of a cache. A private cache shows them to its owner alone.
pub fn get_cache_stats(
    view: CacheView,
    totals: Option<TotalsRow>,
    minutes: WindowPoints,
    hours: WindowPoints,
    days: WindowPoints,
    weeks: WindowPoints,
) -> (r: WebResult<CacheStatsResponse>)
    ensures
        match r {
            Ok(s) => {
                &&& view.visible()
                &&& s.total_bytes == (match totals {
                    Some(t) => or_zero(t.total_bytes),
                    None => 0,
                })
                &&& s.total_nar_bytes == (match totals {
                    Some(t) => or_zero(t.total_nar_bytes),
                    None => 0,
                })
                &&& s.total_packages == (match totals {
                    Some(t) => or_zero(t.total_packages),
                    None => 0,
                })
                &&& s.storage_minutes == minutes.storage
                &&& s.storage_hours == hours.storage
                &&& s.storage_days == days.storage
                &&& s.storage_weeks == weeks.storage
                &&& s.minutes == minutes.traffic
                &&& s.hours == hours.traffic
                &&& s.days == days.traffic
                &&& s.weeks == weeks.traffic
            },
            Err(e) => !view.visible() && e@ == ErrorModel::not_found("Cache"@),
        },
{
    if let Err(e) = resolve_visible_cache(view) {
        return Err(e);
    }
    let (total_bytes, total_nar_bytes, total_packages) = match totals {
        Some(t) => (
            zero_or(t.total_bytes),
            zero_or(t.total_nar_bytes),
            zero_or(t.total_packages),
        ),
        None => (0, 0, 0),
    };
    Ok(
        CacheStatsResponse {
            total_bytes,
            total_nar_bytes,
            total_packages,
            storage_minutes: minutes.storage,
            storage_hours: hours.storage,
            storage_days: days.storage,
            storage_weeks: weeks.storage,
            minutes: minutes.traffic,
            hours: hours.traffic,
            days: days.traffic,
            weeks: weeks.traffic,
        },
    )
}

/// A moment belongs to the bucket that starts its minute: on a whole minute, and less than a
/// minute before it.
pub proof fn law_buckets_start_minutes(
    now: Timestamp,
    r: Timestamp,
)
    requires
        is_date(now),
        call_ensures(minute_bucket, (now,), r),
    ensures
        r <= now,
        now < r + 60000000,
        r as int % 60000000 == 0,
{
    assert((now as int - now as int % 60000000) % 60000000 == 0) by (nonlinear_arith);
}

/// A request is recorded by adding its bytes and one to the counts of its cache and minute.
pub proof fn law_recorded_requests(
    id: Id,
    cache_id: Id,
    now: Timestamp,
    bytes: i64,
    bucket: Timestamp,
    r: sea_orm::Statement,
    n: sea_orm::Statement,
)
    requires
        is_date(now),
        call_ensures(record_stmt, (id, cache_id, bucket, bytes), r),
        call_ensures(minute_bucket, (now,), bucket),
        call_ensures(record_nar_traffic, (id, cache_id, now, bytes), n),
    ensures
        r == statement(
            "INSERT INTO cache_metric (id, cache, bucket_time, bytes_sent, nar_count)
           VALUES ($1, $2, $3, $4, 1)
           ON CONFLICT (cache, bucket_time)
           DO UPDATE SET bytes_sent = cache_metric.bytes_sent + EXCLUDED.bytes_sent,
                         nar_count  = cache_metric.nar_count  + EXCLUDED.nar_count"@,
            seq![
                SqlValue::Uuid(id),
                SqlValue::Uuid(cache_id),
                SqlValue::DateTime(bucket),
                SqlValue::BigInt(bytes),
            ],
        ),
        n == r,
{
}

/// What is asked of the database for a graph: the sums per minute of an hour, per hour of a
/// day, per day of thirty days and per week of twelve weeks, up to the current bucket and for
/// one cache.
pub proof fn law_graphs_that_are_asked_for(
    cache_id: Id,
    w: Window,
    unit: Seq<char>,
    back: Seq<char>,
    t: sea_orm::Statement,
    s: sea_orm::Statement,
    all: sea_orm::Statement,
)
    requires
        match w {
            Window::Minutes => unit == "minute"@ && back == "59 minutes"@,
            Window::Hours => unit == "hour"@ && back == "23 hours"@,
            Window::Days => unit == "day"@ && back == "29 days"@,
            Window::Weeks => unit == "week"@ && back == "11 weeks"@,
        },
        call_ensures(traffic_stmt, (cache_id, w), t),
        call_ensures(storage_stmt, (cache_id, w), s),
        call_ensures(totals_stmt, (cache_id,), all),
    ensures
        t == statement(
            "SELECT gs.period,
                  COALESCE(SUM(cm.bytes_sent), 0)::bigint AS bytes,
                  COALESCE(SUM(cm.nar_count),  0)::bigint AS requests"@ + ("
           FROM generate_series(
               date_trunc('"@ + unit + "', NOW() AT TIME ZONE 'UTC') - INTERVAL '"@ + back
        + "',
               date_trunc('"@ + unit + "', NOW() AT TIME ZONE 'UTC'),
               INTERVAL '1 "@ + unit + "'
           ) AS gs(period)
           LEFT JOIN "@)
        + "cache_metric cm
               ON date_trunc('"@ + unit + "', cm.bucket_time) = gs.period
              AND cm.cache = $1
           GROUP BY gs.period
           ORDER BY gs.period"@,
            seq![SqlValue::Uuid(cache_id)],
        ),
        s == statement(
            "SELECT gs.period,
                  COALESCE(COUNT(cps.id),      0)::bigint AS packages,
                  COALESCE(SUM(cp.file_size),  0)::bigint AS bytes"@ + ("
           FROM generate_series(
               date_trunc('"@ + unit + "', NOW() AT TIME ZONE 'UTC') - INTERVAL '"@ + back
        + "',
               date_trunc('"@ + unit + "', NOW() AT TIME ZONE 'UTC'),
               INTERVAL '1 "@ + unit + "'
           ) AS gs(period)
           LEFT JOIN "@)
        + "cached_path_signature cps
               ON date_trunc('"@ + unit + "', cps.created_at) = gs.period
              AND cps.cache = $1
           LEFT JOIN cached_path cp ON cp.id = cps.cached_path
           GROUP BY gs.period
           ORDER BY gs.period"@,
            seq![SqlValue::Uuid(cache_id)],
        ),
        all == statement(
            "SELECT COALESCE(SUM(cp.file_size), 0)::bigint AS total_bytes,
                      COALESCE(SUM(cp.nar_size),  0)::bigint AS total_nar_bytes,
                      COUNT(cps.id)::bigint                   AS total_packages
               FROM cached_path_signature cps
               JOIN cached_path cp ON cp.id = cps.cached_path
               WHERE cps.cache = $1"@,
            seq![SqlValue::Uuid(cache_id)],
        ),
{
}

/// One more bucket adds a point to the graph of the traffic when its start is known, with its
/// bytes and requests, and zero for what is not known.
pub proof fn law_traffic_points(
    rows: Vec<BucketRow>,
    more: Vec<BucketRow>,
    b: BucketRow,
    r: Vec<CacheMetricPoint>,
    s: Vec<CacheMetricPoint>,
    i: int,
)
    requires
        more@ == rows@.push(b),
        all_dates(more@),
        call_ensures(aggregate_traffic, (&rows,), r),
        call_ensures(aggregate_traffic, (&more,), s),
    ensures
        rows@.len() == 0 ==> r@.len() == 0,
        b.period is None ==> s@.len() == r@.len(),
        b.period is Some ==> s@.len() == r@.len() + 1,
        0 <= i < r@.len() ==> i < s@.len() && s@[i].time@ == r@[i].time@
            && s@[i].bytes == r@[i].bytes && s@[i].requests == r@[i].requests,
        b.period is Some ==> {
            let p = s@.last();
            &&& p.time@ == date_text(b.period->0)
            &&& b.first is Some ==> p.bytes == b.first->0
            &&& b.first is None ==> p.bytes == 0
            &&& b.second is Some ==> p.requests == b.second->0
            &&& b.second is None ==> p.requests == 0
        },
{
    reveal(Seq::filter);
    assert(more@.drop_last() =~= rows@);
    let known = dated(rows@);
    assert(dated(more@) == (if b.period is Some {
        known.push(b)
    } else {
        known
    }));
    if 0 <= i < r@.len() {
        assert(dated(more@)[i] == known[i]);
    }
}

/// One more bucket adds a point to the graph of the storage when its start is known, with its
/// packages and bytes, and zero for what is not known.
pub proof fn law_storage_points(
    rows: Vec<BucketRow>,
    more: Vec<BucketRow>,
    b: BucketRow,
    r: Vec<StorageMetricPoint>,
    s: Vec<StorageMetricPoint>,
    i: int,
)
    requires
        more@ == rows@.push(b),
        all_dates(more@),
        call_ensures(aggregate_storage, (&rows,), r),
        call_ensures(aggregate_storage, (&more,), s),
    ensures
        rows@.len() == 0 ==> r@.len() == 0,
        b.period is None ==> s@.len() == r@.len(),
        b.period is Some ==> s@.len() == r@.len() + 1,
        0 <= i < r@.len() ==> i < s@.len() && s@[i].time@ == r@[i].time@
            && s@[i].packages == r@[i].packages && s@[i].bytes == r@[i].bytes,
        b.period is Some ==> {
            let p = s@.last();
            &&& p.time@ == date_text(b.period->0)
            &&& b.first is Some ==> p.packages == b.first->0
            &&& b.first is None ==> p.packages == 0
            &&& b.second is Some ==> p.bytes == b.second->0
            &&& b.second is None ==> p.bytes == 0
        },
{
    reveal(Seq::filter);
    assert(more@.drop_last() =~= rows@);
    let known = dated(rows@);
    assert(dated(more@) == (if b.period is Some {
        known.push(b)
    } else {
        known
    }));
    if 0 <= i < r@.len() {
        assert(dated(more@)[i] == known[i]);
    }
}

/// The statistics of a cache are shown to everybody where it is public, and else to its owner:
/// its totals, with zero for what is not known, and each window where it belongs.
pub proof fn law_shown_statistics(
    view: CacheView,
    totals: Option<TotalsRow>,
    minutes: WindowPoints,
    hours: WindowPoints,
    days: WindowPoints,
    weeks: WindowPoints,
    r: WebResult<CacheStatsResponse>,
)
    requires
        call_ensures(get_cache_stats, (view, totals, minutes, hours, days, weeks), r),
    ensures
        r is Ok <==> view.found && (view.public
            || (view.user is Some && view.user->0 == view.owner)),
        r is Err ==> (r matches Err(WebError::NotFound(c, m)) && c == ErrorCode::NOT_FOUND
            && m@ == "Cache"@ + " not found"@),
        r matches Ok(s) ==> {
            &&& s.storage_minutes == minutes.storage && s.minutes == minutes.traffic
            &&& s.storage_hours == hours.storage && s.hours == hours.traffic
            &&& s.storage_days == days.storage && s.days == days.traffic
            &&& s.storage_weeks == weeks.storage && s.weeks == weeks.traffic
            &&& totals is None ==> s.total_bytes == 0 && s.total_nar_bytes == 0 && s.total_packages
                == 0
            &&& totals is Some && totals->0.total_bytes is Some ==> s.total_bytes
                == totals->0.total_bytes->0
            &&& totals is Some && totals->0.total_bytes is None ==> s.total_bytes == 0
            &&& totals is Some && totals->0.total_nar_bytes is Some ==> s.total_nar_bytes
                == totals->0.total_nar_bytes->0
            &&& totals is Some && totals->0.total_nar_bytes is None ==> s.total_nar_bytes == 0
            &&& totals is Some && totals->0.total_packages is Some ==> s.total_packages
                == totals->0.total_packages->0
            &&& totals is Some && totals->0.total_packages is None ==> s.total_packages == 0
        },
{
}

} // verus!
