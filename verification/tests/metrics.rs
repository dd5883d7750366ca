use gradient_web::caches::access::CacheView;
use gradient_web::metrics::{
    collect, get_metrics, metrics_auth, render, route_label, CountRow, LabelledCount,
    MetricsAccess, Observations, SchedulerSnapshot, PROMETHEUS_CONTENT_TYPE,
};
use gradient_web::stats::{
    aggregate_storage, aggregate_traffic, build_record_nar_traffic_stmt, get_cache_stats,
    minute_bucket, record_nar_traffic, storage_stmt, totals_stmt, traffic_stmt, BucketRow,
    TotalsRow, Window, WindowPoints,
};

fn count(label: &str, value: i64) -> LabelledCount {
    LabelledCount { label: label.to_string(), value }
}

fn row(kind: &str, label: Option<&str>, value: i64) -> CountRow {
    CountRow { kind: kind.to_string(), label: label.map(str::to_string), value }
}

fn observations() -> Observations {
    Observations {
        version: "1.2.3".into(),
        uptime_ms: 42500,
        builds_total: vec![count("Completed", 7), count("Failed", 2)],
        builds_in_state: vec![count("Queued", 3)],
        evaluations_total: vec![count("Completed", 5)],
        evaluations_in_state: vec![count("Building", 1)],
        workers_connected: 4,
        jobs_pending: 6,
        jobs_active: 2,
        cache_bytes: 1024,
        cache_nar_bytes: 2048,
        cache_packages: 9,
        cache_nar_bytes_sent_total: 999,
        cache_nar_requests_total: 11,
    }
}

// ── Rendering ────────────────────────────────────────────────────────────────

#[test]
fn render_emits_expected_metric_names_and_help() {
    let body = render(&observations()).unwrap();

    for needle in [
        "# HELP gradient_info",
        "# TYPE gradient_info gauge",
        "gradient_info{version=\"1.2.3\"} 1",
        "# TYPE gradient_uptime_seconds gauge",
        "gradient_uptime_seconds 42.5",
        "# TYPE gradient_builds_total counter",
        "gradient_builds_total{status=\"Completed\"} 7",
        "gradient_builds_total{status=\"Failed\"} 2",
        "gradient_builds_in_state{status=\"Queued\"} 3",
        "gradient_evaluations_total{status=\"Completed\"} 5",
        "gradient_evaluations_in_state{status=\"Building\"} 1",
        "gradient_workers_connected 4",
        "gradient_jobs_pending 6",
        "gradient_jobs_active 2",
        "gradient_cache_bytes 1024",
        "gradient_cache_nar_bytes 2048",
        "gradient_cache_packages 9",
        "gradient_cache_nar_bytes_sent_total 999",
        "gradient_cache_nar_requests_total 11",
    ] {
        assert!(body.contains(needle), "missing {needle:?} in:\n{body}");
    }
}

#[test]
fn render_never_shows_negative_counters() {
    let mut obs = observations();
    obs.builds_total = vec![count("Failed", -3)];
    obs.cache_nar_bytes_sent_total = -1;
    obs.workers_connected = -4;
    obs.uptime_ms = -5;
    let body = render(&obs).unwrap();
    assert!(body.contains("gradient_builds_total{status=\"Failed\"} 0\n"));
    assert!(body.contains("gradient_cache_nar_bytes_sent_total 0\n"));
    assert!(body.contains("gradient_workers_connected -4\n"));
    assert!(body.contains("gradient_uptime_seconds -0.005\n"));
}

#[test]
fn render_adds_counters_and_keeps_the_last_gauge() {
    let mut obs = observations();
    obs.builds_total = vec![count("Failed", 2), count("Failed", 3)];
    obs.builds_in_state = vec![count("Queued", 2), count("Queued", 3)];
    obs.evaluations_total = Vec::new();
    let body = render(&obs).unwrap();
    assert!(body.contains("gradient_builds_total{status=\"Failed\"} 5\n"));
    assert!(body.contains("gradient_builds_in_state{status=\"Queued\"} 3\n"));
    assert!(!body.contains("gradient_evaluations_total"));
}

#[test]
fn scrape_is_whole_or_fails() {
    assert_eq!(get_metrics(Some("a".to_string()), "b", "c"), Ok("abc".to_string()));
    assert_eq!(get_metrics(None, "b", "c"), Err(500));
    assert_eq!(PROMETHEUS_CONTENT_TYPE, "text/plain; version=0.0.4");
    assert_eq!(route_label(None), "unmatched");
    assert_eq!(route_label(Some("/x/{y}".to_string())), "/x/{y}");
}

#[test]
fn collect_sorts_rows_by_kind() {
    let rows = vec![
        row("build_total", Some("Completed"), 7),
        row("build_total", None, 100),
        row("build_in_state", Some("Queued"), 1),
        row("evaluation_total", Some("Failed"), 2),
        row("evaluation_in_state", Some("Waiting"), 3),
        row("cache_bytes", None, 4),
        row("cache_nar_bytes", None, 5),
        row("cache_packages", None, 6),
        row("cache_nar_bytes_sent_total", None, 8),
        row("cache_nar_requests_total", None, 9),
        row("cache_bytes", None, 44),
        row("unheard_of", Some("x"), 10),
    ];
    let scheduler = SchedulerSnapshot { workers: 1, pending: 2, active: 3 };
    let obs = collect(&rows, scheduler, "1.0", 1500);
    assert_eq!(obs.builds_total, vec![count("Completed", 7)]);
    assert_eq!(obs.builds_in_state, vec![count("Queued", 1)]);
    assert_eq!(obs.evaluations_total, vec![count("Failed", 2)]);
    assert_eq!(obs.evaluations_in_state, vec![count("Waiting", 3)]);
    assert_eq!((obs.cache_bytes, obs.cache_nar_bytes, obs.cache_packages), (44, 5, 6));
    assert_eq!((obs.cache_nar_bytes_sent_total, obs.cache_nar_requests_total), (8, 9));
    assert_eq!((obs.workers_connected, obs.jobs_pending, obs.jobs_active), (1, 2, 3));
    assert_eq!((obs.version.as_str(), obs.uptime_ms), ("1.0", 1500));
}

#[test]
fn metrics_take_the_token() {
    assert_eq!(metrics_auth(None, Some("Bearer t")), MetricsAccess::NotFound);
    assert_eq!(metrics_auth(Some("t"), None), MetricsAccess::Unauthorized);
    assert_eq!(metrics_auth(Some("t"), Some("Basic t")), MetricsAccess::Unauthorized);
    assert_eq!(metrics_auth(Some("t"), Some("Bearer u")), MetricsAccess::Unauthorized);
    assert_eq!(metrics_auth(Some("t"), Some("Bearer tt")), MetricsAccess::Unauthorized);
    assert_eq!(metrics_auth(Some("t"), Some("Bearer t")), MetricsAccess::Granted);
}

// ── Cache statistics ─────────────────────────────────────────────────────────

/// 2026-05-02 12:34:00 UTC, in microseconds.
const BUCKET: i64 = 1777725240000000;

#[test]
fn record_nar_traffic_stmt_is_atomic_upsert() {
    let cache_id = 0;

    let stmt = build_record_nar_traffic_stmt(cache_id, BUCKET, 4096);
    let sql = stmt.to_string();

    assert!(sql.contains("INSERT INTO cache_metric"), "expected INSERT, got: {sql}");
    assert!(
        sql.contains("ON CONFLICT (cache, bucket_time)"),
        "expected ON CONFLICT clause inferring the unique index, got: {sql}"
    );
    assert!(
        sql.contains("bytes_sent = cache_metric.bytes_sent + EXCLUDED.bytes_sent"),
        "expected additive update on bytes_sent, got: {sql}"
    );
    assert!(
        sql.contains("nar_count  = cache_metric.nar_count  + EXCLUDED.nar_count"),
        "expected additive update on nar_count, got: {sql}"
    );
    assert!(
        !sql.to_uppercase().contains("SELECT"),
        "atomic upsert must not contain a SELECT (would reintroduce the race), got: {sql}"
    );
}

#[test]
fn recording_binds_bucket_and_bytes() {
    let sql = record_nar_traffic(1, 2, BUCKET + 59_999_999, 4096).to_string();
    assert!(sql.contains("'00000000-0000-0000-0000-000000000001'"), "{sql}");
    assert!(sql.contains("'00000000-0000-0000-0000-000000000002'"), "{sql}");
    assert!(sql.contains("'2026-05-02 12:34:00"), "{sql}");
    assert!(sql.contains("4096, 1)"), "{sql}");
}

#[test]
fn buckets_are_minutes() {
    assert_eq!(minute_bucket(BUCKET), BUCKET);
    assert_eq!(minute_bucket(BUCKET + 59_999_999), BUCKET);
    assert_eq!(minute_bucket(BUCKET + 60_000_000), BUCKET + 60_000_000);
    assert_eq!(minute_bucket(-1), -60_000_000);
}

#[test]
fn windows_end_now() {
    let traffic = traffic_stmt(0, Window::Minutes).to_string();
    assert!(traffic.contains("date_trunc('minute', NOW() AT TIME ZONE 'UTC') - INTERVAL '59 minutes'"));
    assert!(traffic.contains("INTERVAL '1 minute'"));
    assert!(traffic.contains("date_trunc('minute', cm.bucket_time) = gs.period"));
    let storage = storage_stmt(0, Window::Weeks).to_string();
    assert!(storage.contains("INTERVAL '11 weeks'"));
    assert!(storage.contains("date_trunc('week', cps.created_at) = gs.period"));
    assert!(totals_stmt(0).to_string().contains("total_packages"));
}

#[test]
fn unreadable_buckets_are_left_out() {
    let rows = vec![
        BucketRow { period: Some(BUCKET), first: Some(10), second: None },
        BucketRow { period: None, first: Some(1), second: Some(1) },
    ];
    let traffic = aggregate_traffic(&rows);
    assert_eq!(traffic.len(), 1);
    assert_eq!(traffic[0].time, "2026-05-02 12:34:00");
    assert_eq!((traffic[0].bytes, traffic[0].requests), (10, 0));
    let storage = aggregate_storage(&rows);
    assert_eq!((storage[0].packages, storage[0].bytes), (10, 0));
}

fn no_points() -> WindowPoints {
    WindowPoints { storage: Vec::new(), traffic: Vec::new() }
}

#[test]
fn private_statistics_are_for_the_owner() {
    let totals = TotalsRow {
        total_bytes: Some(1),
        total_nar_bytes: None,
        total_packages: Some(3),
    };
    let ask = |public, user| {
        get_cache_stats(
            CacheView { found: true, public, owner: 7, user },
            Some(totals),
            no_points(),
            no_points(),
            no_points(),
            no_points(),
        )
    };
    let shown = ask(false, Some(7)).unwrap();
    assert_eq!((shown.total_bytes, shown.total_nar_bytes, shown.total_packages), (1, 0, 3));
    assert_eq!(ask(false, Some(8)).unwrap_err().status(), 404);
    assert_eq!(ask(false, None).unwrap_err().status(), 404);
    assert!(ask(true, None).is_ok());
}
