use base64::Engine;
use gradient_web::caches::access::{
    admit_anonymous, cache_proto, password_of, require_cache_auth, resolve_visible_cache,
    try_authenticate_basic, user_can_access_cache, CacheContext, CacheState, CacheView,
};
use gradient_web::caches::management::{
    check_new_cache, default_upstream, get, get_cache, get_cache_key, get_cache_public_key,
    delete_cache_active, delete_cache_public, get_cache_name_available, patch_cache,
    post_cache_active, post_cache_public, put, CacheRow, MakeCacheRequest,
    PatchCacheRequest,
};
use gradient_web::caches::narinfo::{
    check_narinfo_path, fetch_from_upstream, gradient_cache_info, next_upstream, nix_cache_info,
    path, rewrite_narinfo, NarinfoReply, PathAnswer, SearchAction, Upstream,
};
use gradient_web::caches::nars::{
    available, available_hash, list, show, stats, stats_stmt, ListQuery, NarRow, NarSignature,
    NarStatsRow,
};
use gradient_web::caches::paths::{
    cache_derivation_fetch_update, check_nar_path, cleanup_nars_for_orgs, fetch_upstream_nar,
    file_hash_key, get_nar_by_hash, log, log_derivation, nar, resolve_effective_hash_db,
    upstream_nar, CachedPathRow, HashText, LogKeys, OrgCleanup, OutputLookup, SignatureRow,
    UpstreamReply,
};
use gradient_web::caches::upload::{NarinfoPart, Upload, UploadPart};
use gradient_web::caches::upstreams::{
    get_cache_upstreams, load_upstream, patch_cache_upstream, put_cache_upstream,
    AddUpstreamRequest, PatchUpstreamRequest, UpstreamCache,
};
use gradient_web::error::{WebError, WebResult};
use gradient_web::orgs::management::KeyPair;
use gradient_web::orgs::settings::CacheSubscriptionMode;

// A file hash (nix32, 52 characters) as it appears in a narinfo URL.
const FILE_HASH_NIX32: &str = "0mdqa9w1p6cmli6976v4wi0sw9r4p5prkj7lzfd1877wk11c9c73";
const STORE_HASH: &str = "aaaaaaaaaaaaaaaaaaaaaaaaaaaaaaaa";

fn text(s: &str) -> String {
    s.to_string()
}

fn some(s: &str) -> Option<String> {
    Some(s.to_string())
}

fn message(e: WebError) -> String {
    format!("{} {}", e.status(), e.public_message())
}

fn allowed() -> WebResult<CacheContext> {
    CacheContext::load(Some(CacheState { id: 4, active: true, public: true }), None)
}

fn disabled() -> WebResult<CacheContext> {
    CacheContext::load(Some(CacheState { id: 4, active: false, public: true }), None)
}

const OPEN: CacheView = CacheView { found: true, public: true, owner: 1, user: None };
const HIDDEN: CacheView = CacheView { found: true, public: false, owner: 1, user: Some(2) };

// ── Access ───────────────────────────────────────────────────────────────────

#[test]
fn basic_credentials_hold_a_password() {
    let encoded = base64::engine::general_purpose::STANDARD.encode("user:pa:ss");
    assert_eq!(try_authenticate_basic(&format!("Basic {encoded}")), some("pa:ss"));
    assert_eq!(try_authenticate_basic(&format!("Bearer {encoded}")), None);
    assert_eq!(try_authenticate_basic("Basic !!!"), None);
    let plain = base64::engine::general_purpose::STANDARD.encode("nobody");
    assert_eq!(try_authenticate_basic(&format!("Basic {plain}")), None);
    assert_eq!(password_of(Some(vec![0xff, b':', b'x'])), None);
    assert_eq!(password_of(Some(b":".to_vec())), some(""));
    assert_eq!(password_of(None), None);
}

#[test]
fn caches_are_for_owners_and_subscribers() {
    assert!(user_can_access_cache(1, 1, &vec![], &vec![]));
    assert!(user_can_access_cache(1, 2, &vec![5, 6], &vec![6]));
    assert!(!user_can_access_cache(1, 2, &vec![5], &vec![6]));
    assert!(require_cache_auth(true, None).is_ok());
    assert!(require_cache_auth(false, Some(true)).is_ok());
    assert_eq!(
        message(require_cache_auth(false, Some(false)).unwrap_err()),
        "401 Authentication required to access this cache"
    );
}

#[test]
fn disabled_caches_are_refused_first() {
    let mut cache = CacheState { id: 4, active: false, public: false };
    assert_eq!(message(CacheContext::load(None, None).unwrap_err()), "404 Cache not found");
    assert_eq!(
        message(CacheContext::load(Some(cache), None).unwrap_err()),
        "400 Cache is disabled"
    );
    cache.active = true;
    assert_eq!(CacheContext::load(Some(cache), None).unwrap_err().status(), 401);
    assert_eq!(CacheContext::load(Some(cache), Some(true)).unwrap().cache, 4);
    let view = |found, public, user| {
        resolve_visible_cache(CacheView { found, public, owner: 1, user })
    };
    assert!(view(true, false, Some(1)).is_ok());
    assert!(view(true, true, None).is_ok());
    assert!(view(true, false, None).is_err());
    assert!(view(true, false, Some(2)).is_err());
    assert!(view(false, true, Some(1)).is_err());
}

#[test]
fn anonymous_sockets_are_bounded() {
    assert_eq!(admit_anonymous(true, false, false).unwrap(), false);
    assert_eq!(admit_anonymous(false, false, true).unwrap(), true);
    assert_eq!(
        message(admit_anonymous(false, false, false).unwrap_err()),
        "403 Anonymous cache access is disabled."
    );
    assert_eq!(cache_proto(true, false, false, Ok(4), false).unwrap(), 4);
    assert_eq!(cache_proto(false, true, false, Ok(4), false).unwrap(), 4);
    assert_eq!(cache_proto(false, false, true, Ok(4), true).unwrap(), 4);
    assert_eq!(
        message(cache_proto(false, false, true, Ok(4), false).unwrap_err()),
        "503 Too many connections from your IP; retry later."
    );
    let missing = || Err(WebError::not_found("Cache"));
    assert_eq!(
        message(cache_proto(false, false, false, missing(), false).unwrap_err()),
        "403 Anonymous cache access is disabled."
    );
    assert_eq!(
        message(cache_proto(false, false, true, missing(), false).unwrap_err()),
        "404 Cache not found"
    );
}

// ── Store paths ──────────────────────────────────────────────────────────────

fn hash_text(raw: &str, normalized: &str) -> Option<HashText> {
    Some(HashText { raw: text(raw), normalized: text(normalized) })
}

fn cached_path() -> CachedPathRow {
    CachedPathRow {
        store_path: format!("/nix/store/{STORE_HASH}-hello"),
        fully_cached: true,
        file_hash: hash_text("sha256-raw", &format!("sha256:{FILE_HASH_NIX32}")),
        file_size: Some(1234),
        nar_hash: hash_text("sha256-nar", "sha256:nar"),
        nar_size: Some(2048),
        references: some(" a  b\n"),
        deriver: some("hello.drv"),
        ca: None,
    }
}

fn output() -> OutputLookup {
    OutputLookup { store_path: text("/nix/store/out"), derivation_found: true, subscribed: true }
}

fn signed() -> SignatureRow {
    SignatureRow::Signed(text("cache:sig"))
}

#[test]
fn build_outputs_are_told() {
    let info = get_nar_by_hash(&Some(output()), &Some(cached_path()), signed()).unwrap();
    assert_eq!(info.store_path, "/nix/store/out");
    assert_eq!(info.url, format!("nar/{FILE_HASH_NIX32}.nar.zst"));
    assert_eq!(info.compression, "zstd");
    assert_eq!(info.file_hash, format!("sha256:{FILE_HASH_NIX32}"));
    assert_eq!((info.file_size, info.nar_size), (1234, 2048));
    assert_eq!(info.nar_hash, "sha256:nar");
    assert_eq!(info.references, vec![text("a"), text("b")]);
    assert_eq!(info.sig, "cache:sig");
    assert_eq!((info.deriver, info.ca), (some("hello.drv"), None));
}

#[test]
fn standalone_paths_are_told() {
    let info = get_nar_by_hash(&None, &Some(cached_path()), signed()).unwrap();
    assert_eq!(info.store_path, format!("/nix/store/{STORE_HASH}-hello"));
    assert_eq!(info.file_hash, "sha256-raw");
    assert_eq!(info.url, format!("nar/{FILE_HASH_NIX32}.nar.zst"));
}

#[test]
fn paths_are_refused_in_order() {
    let refused = |o, r, s| match get_nar_by_hash(&o, &r, s) {
        Ok(_) => panic!("expected an error"),
        Err(e) => message(e),
    };
    let mut unsubscribed = output();
    unsubscribed.subscribed = false;
    assert_eq!(refused(Some(unsubscribed), None, SignatureRow::Missing), "404 Path not found");
    assert_eq!(refused(Some(output()), None, signed()), "404 CachedPath not found");
    assert_eq!(
        refused(Some(output()), Some(cached_path()), SignatureRow::Missing),
        "404 Signature not found"
    );
    assert_eq!(
        refused(Some(output()), Some(cached_path()), SignatureRow::Pending),
        "404 Signature not yet computed not found"
    );
    let mut row = cached_path();
    row.nar_hash = None;
    row.file_hash = None;
    assert_eq!(refused(Some(output()), Some(row), signed()), "404 NarHash not recorded not found");
    let mut row = cached_path();
    row.file_size = None;
    assert_eq!(refused(Some(output()), Some(row), signed()), "404 FileSize not recorded not found");
    let mut row = cached_path();
    row.file_size = None;
    assert_eq!(refused(None, Some(row), signed()), "400 Missing file size");
    let mut row = cached_path();
    row.fully_cached = false;
    assert_eq!(refused(None, Some(row), signed()), "404 Path not found");
}

#[test]
fn resolve_falls_back_to_cached_path_for_drv() {
    assert_eq!(file_hash_key(FILE_HASH_NIX32), format!("sha256:{FILE_HASH_NIX32}"));
    let effective = resolve_effective_hash_db(None, some(STORE_HASH), FILE_HASH_NIX32);
    assert_eq!(effective, STORE_HASH);
}

#[test]
fn resolve_falls_back_to_url_hash_when_no_match() {
    let effective = resolve_effective_hash_db(None, None, FILE_HASH_NIX32);
    assert_eq!(effective, FILE_HASH_NIX32);
}

#[test]
fn build_outputs_come_before_cached_paths() {
    assert_eq!(resolve_effective_hash_db(some("out"), some("path"), "url"), "out");
}

#[test]
fn archives_are_named() {
    assert!(check_nar_path("x.nar", None).is_ok());
    assert!(check_nar_path("x.nar.zst", None).is_ok());
    assert_eq!(message(check_nar_path("x.narinfo", None).unwrap_err()), "404 Path not found");
    assert_eq!(message(check_nar_path("x.nar", Some("bad hash")).unwrap_err()), "400 bad hash");
    assert!(check_narinfo_path("x.narinfo", None).is_ok());
    assert_eq!(message(check_narinfo_path("x.nar", None).unwrap_err()), "404 Path not found");
}

#[test]
fn archives_are_read() {
    let read = |ctx, bytes| nar("x.nar", None, ctx, bytes);
    assert_eq!(read(allowed(), Ok(Some(vec![1, 2]))).unwrap(), vec![1, 2]);
    assert_eq!(message(read(allowed(), Ok(None)).unwrap_err()), "404 Path not found");
    assert!(matches!(read(allowed(), Err(text("disk"))), Err(WebError::Internal(m)) if m == "Failed to read NAR: disk"));
    assert_eq!(message(read(disabled(), Ok(Some(vec![1]))).unwrap_err()), "400 Cache is disabled");
    let misnamed = nar("x.narinfo", None, disabled(), Ok(Some(vec![1])));
    assert_eq!(message(misnamed.unwrap_err()), "404 Path not found");
    let unhashed = nar("x.narinfo", Some("bad hash"), disabled(), Ok(None));
    assert_eq!(message(unhashed.unwrap_err()), "400 bad hash");
}

#[test]
fn fetches_are_noted() {
    let sql = cache_derivation_fetch_update(3, text("abc"), 1777725240000000).to_string();
    assert!(sql.contains("'2026-05-02 12:34:00"), "{sql}");
    assert!(sql.contains("'00000000-0000-0000-0000-000000000003'"), "{sql}");
    assert!(sql.contains("hash = 'abc'"), "{sql}");
}

#[test]
fn upstream_archives_are_fetched_from_external_upstreams() {
    let external = Upstream { id: 1, url: some("https://up//"), public_key: None };
    let at = |ctx, upstream: &Option<Upstream>, path| upstream_nar(ctx, upstream, path);
    let external = Some(external);
    assert_eq!(at(allowed(), &external, "nar/x.nar").unwrap(), "https://up/nar/x.nar");
    assert_eq!(message(at(disabled(), &external, "x").unwrap_err()), "400 Cache is disabled");
    let internal = Upstream { id: 1, url: None, public_key: None };
    assert_eq!(
        message(at(allowed(), &Some(internal), "x").unwrap_err()),
        "400 Not an external upstream"
    );
    assert_eq!(message(at(allowed(), &None, "x").unwrap_err()), "404 Upstream not found");
    assert_eq!(fetch_upstream_nar(UpstreamReply::Body(vec![7])).unwrap(), vec![7]);
    assert_eq!(
        message(fetch_upstream_nar(UpstreamReply::Refused).unwrap_err()),
        "404 NAR in upstream not found"
    );
    assert!(matches!(
        fetch_upstream_nar(UpstreamReply::Failed(text("timeout"))),
        Err(WebError::Internal(m)) if m == "Upstream request failed: timeout"
    ));
}

#[test]
fn logs_are_found() {
    assert_eq!(log_derivation("x.drv").unwrap(), "/nix/store/x.drv");
    assert_eq!(message(log_derivation("x").unwrap_err()), "404 Log not found");
    let keys = |log| Some(LogKeys { build: 1, log });
    let find = |drv, found, linked, build| log(allowed(), drv, found, linked, build);
    assert_eq!(find("x.drv", true, true, keys(Some(2))).unwrap(), 2);
    assert_eq!(find("x.drv", true, true, keys(None)).unwrap(), 1);
    for refused in [
        find("x", true, true, keys(None)),
        find("x.drv", false, true, keys(None)),
        find("x.drv", true, false, keys(None)),
        find("x.drv", true, true, None),
    ] {
        assert_eq!(message(refused.unwrap_err()), "404 Log not found");
    }
    let locked = log(disabled(), "x", true, true, keys(None));
    assert_eq!(message(locked.unwrap_err()), "400 Cache is disabled");
}

#[test]
fn orphans_are_cleaned_up() {
    let orgs = vec![
        OrgCleanup { subscribed: false, hashes: vec![text("a"), text("b")] },
        OrgCleanup { subscribed: true, hashes: vec![text("c")] },
        OrgCleanup { subscribed: false, hashes: vec![text("d")] },
    ];
    assert_eq!(cleanup_nars_for_orgs(&orgs), vec![text("a"), text("b"), text("d")]);
}

// ── Metadata ─────────────────────────────────────────────────────────────────

#[test]
fn local_clients_get_the_local_priority() {
    let info = nix_cache_info(30, Some(10), true);
    assert_eq!((info.priority, info.want_mass_query, info.store_dir.as_str()), (10, true, "/nix/store"));
    assert_eq!(nix_cache_info(30, Some(10), false).priority, 30);
    assert_eq!(nix_cache_info(30, Some(0), true).priority, 30);
    assert_eq!(nix_cache_info(30, None, true).priority, 30);
    let server = gradient_cache_info("1.0", "https://g");
    assert_eq!((server.gradient_version.as_str(), server.gradient_url.as_str()), ("1.0", "https://g"));
}

#[test]
fn narinfo_is_rewritten() {
    let body = "StorePath: /nix/store/x\r\nURL:  nar/x.nar.xz \nNarSize: 1";
    assert_eq!(
        rewrite_narinfo(body, 0xab),
        "StorePath: /nix/store/x\nURL: nar/upstream/00000000-0000-0000-0000-0000000000ab/nar/x.nar.xz\nNarSize: 1\n"
    );
}

#[test]
fn upstreams_are_asked_in_order() {
    let upstreams = vec![
        Upstream { id: 1, url: None, public_key: some("k") },
        Upstream { id: 2, url: some("https://a/"), public_key: some("k") },
        Upstream { id: 3, url: some("https://b"), public_key: None },
        Upstream { id: 4, url: some("https://c"), public_key: some("k") },
    ];
    assert_eq!(
        next_upstream(&upstreams, 0, "h"),
        SearchAction::Ask(1, text("https://a/h.narinfo"))
    );
    assert_eq!(
        fetch_from_upstream(&upstreams, 1, &NarinfoReply::Nothing, "h"),
        SearchAction::Ask(3, text("https://c/h.narinfo"))
    );
    let forged = NarinfoReply::Text { body: text("URL: x"), verified: false };
    assert_eq!(fetch_from_upstream(&upstreams, 3, &forged, "h"), SearchAction::Exhausted);
    let good = NarinfoReply::Text { body: text("A: b"), verified: true };
    assert_eq!(fetch_from_upstream(&upstreams, 1, &good, "h"), SearchAction::Found(text("A: b\n")));
}

#[test]
fn local_metadata_comes_first() {
    let ask = |ctx, local, upstream| path("x.narinfo", None, ctx, local, upstream);
    assert_eq!(ask(allowed(), true, some("x")).unwrap(), PathAnswer::Local);
    assert_eq!(ask(allowed(), false, some("x")).unwrap(), PathAnswer::Upstream(text("x")));
    assert_eq!(message(ask(allowed(), false, None).unwrap_err()), "404 Path not found");
    assert_eq!(message(ask(disabled(), true, None).unwrap_err()), "400 Cache is disabled");
    let misnamed = path("x.nar", None, disabled(), true, None);
    assert_eq!(message(misnamed.unwrap_err()), "404 Path not found");
    let unhashed = path("x.nar", Some("bad hash"), disabled(), true, None);
    assert_eq!(message(unhashed.unwrap_err()), "400 bad hash");
}

// ── Listing ──────────────────────────────────────────────────────────────────

fn nar_row(id: u128, hash: &str, nar_size: Option<i64>, created_at: i64) -> NarRow {
    NarRow {
        id,
        hash: text(hash),
        store_path: format!("/nix/store/{hash}"),
        package: text("p"),
        nar_size,
        file_size: None,
        file_hash: some("f"),
        nar_hash: None,
        references: some("r1 r2"),
        deriver: None,
        ca: None,
        created_at,
    }
}

fn signature(cached_path: u128) -> NarSignature {
    NarSignature { cached_path, signed: true, last_fetched_at: Some(5), fetch_count: 2 }
}

fn query() -> ListQuery {
    ListQuery { hash: None, package: None, sort: None, order: None, page: None, per_page: None }
}

fn hashes(q: &ListQuery) -> Vec<String> {
    let rows = vec![
        nar_row(1, "a", Some(5), 10),
        nar_row(2, "b", None, 30),
        nar_row(3, "c", Some(1), 20),
    ];
    let signatures = vec![signature(1), signature(9), signature(2), signature(3)];
    let page = list(OPEN, q, 0, 3, &signatures, &rows).ok().unwrap();
    page.items.into_iter().map(|i| i.hash).collect()
}

#[test]
fn archives_are_sorted() {
    let mut q = query();
    assert_eq!(hashes(&q), vec!["b", "c", "a"]);
    q.order = some("asc");
    assert_eq!(hashes(&q), vec!["a", "c", "b"]);
    q.sort = some("nar_size");
    assert_eq!(hashes(&q), vec!["b", "c", "a"]);
    q.order = some("desc");
    assert_eq!(hashes(&q), vec!["a", "c", "b"]);
    q.sort = some("last_fetched_at");
    assert_eq!(hashes(&q), vec!["a", "b", "c"]);
}

#[test]
fn pages_are_bounded() {
    let mut q = query();
    let page = |q: &ListQuery| {
        let r = list(OPEN, q, 1, 7, &vec![], &vec![]).ok().unwrap();
        (r.page, r.per_page, r.total)
    };
    assert_eq!(page(&q), (1, 50, 7));
    q.page = Some(0);
    q.per_page = Some(0);
    assert_eq!(page(&q), (1, 1, 7));
    q.page = Some(3);
    q.per_page = Some(1000);
    assert_eq!(page(&q), (3, 200, 7));
    q.hash = some("");
    let total = |q: &ListQuery| list(OPEN, q, 0, 7, &vec![], &vec![]).ok().unwrap().total;
    assert_eq!(total(&q), 7);
    q.hash = some("zz");
    assert_eq!(total(&q), 0);
    let hidden = list(HIDDEN, &q, 1, 7, &vec![], &vec![]).err().unwrap();
    assert_eq!(message(hidden), "404 Cache not found");
}

#[test]
fn archives_are_shown() {
    let row = || Some(nar_row(1, "a", Some(5), 10));
    let detail = show(OPEN, &row(), &Some(signature(1))).unwrap();
    assert_eq!(detail.references, vec![text("r1"), text("r2")]);
    assert_eq!((detail.fetch_count, detail.signed, detail.last_fetched_at), (2, true, Some(5)));
    assert_eq!(message(show(OPEN, &None, &None).unwrap_err()), "404 Path not found");
    assert_eq!(message(show(OPEN, &row(), &None).unwrap_err()), "404 Signature not found");
    assert_eq!(
        message(show(HIDDEN, &row(), &Some(signature(1))).unwrap_err()),
        "404 Cache not found"
    );
    assert_eq!(available_hash(some("h")).unwrap(), "h");
    assert_eq!(message(available_hash(some("")).unwrap_err()), "400 missing ?hash=");
    let has = |path, signature| available(OPEN, some("h"), path, signature).ok().unwrap().available;
    assert!(has(true, true) && !has(true, false) && !has(false, true));
    let nothing = available(OPEN, None, true, true).err().unwrap();
    assert_eq!(message(nothing), "400 missing ?hash=");
    let hidden = available(HIDDEN, None, true, true).err().unwrap();
    assert_eq!(message(hidden), "404 Cache not found");
}

#[test]
fn archives_are_counted() {
    let row = NarStatsRow {
        total_nars: 3,
        total_nar_size: None,
        total_file_size: Some(9),
        last_uploaded_at: None,
        oldest_fetched_at: Some(1),
    };
    assert_eq!(message(stats(HIDDEN, None).err().unwrap()), "404 Cache not found");
    let counted = stats(OPEN, Some(row)).unwrap();
    assert_eq!((counted.total_nars, counted.total_nar_size, counted.total_file_size), (3, 0, 9));
    assert!(matches!(stats(OPEN, None), Err(WebError::Internal(m)) if m == "stats query returned no row"));
    assert!(stats_stmt(0).to_string().contains("COUNT(*) AS total_nars"));
}

// ── Uploads ──────────────────────────────────────────────────────────────────

fn narinfo_part(file_size: i64) -> NarinfoPart {
    NarinfoPart {
        store_path: text("/nix/store/x"),
        file_hash: text("f"),
        file_size,
        nar_size: 9,
        nar_hash: text("n"),
        references: vec![],
        deriver: None,
    }
}

#[test]
fn uploads_need_both_parts() {
    let upload = Upload::new().receive(UploadPart::Other).unwrap();
    assert_eq!(message(upload.nars_upload().unwrap_err()), "400 missing narinfo part");
    let upload = Upload::new().receive(UploadPart::Narinfo(narinfo_part(2))).unwrap();
    assert_eq!(message(upload.nars_upload().unwrap_err()), "400 missing nar part");
    let upload = Upload::new()
        .receive(UploadPart::Nar(vec![1, 2, 3]))
        .unwrap()
        .receive(UploadPart::Narinfo(narinfo_part(2)))
        .unwrap();
    assert_eq!(
        message(upload.nars_upload().unwrap_err()),
        "400 nar size mismatch: declared 2 bytes, got 3"
    );
    let upload = Upload::new()
        .receive(UploadPart::Nar(vec![9]))
        .unwrap()
        .receive(UploadPart::Narinfo(narinfo_part(2)))
        .unwrap()
        .receive(UploadPart::Nar(vec![1, 2]))
        .unwrap();
    let (declared, bytes) = upload.nars_upload().unwrap();
    assert_eq!((declared.file_size, bytes), (2, vec![1, 2]));
}

#[test]
fn unreadable_parts_end_an_upload() {
    assert_eq!(
        message(Upload::new().receive(UploadPart::Unreadable(text("cut off"))).unwrap_err()),
        "400 cut off"
    );
    assert_eq!(
        message(Upload::new().receive(UploadPart::BadNarinfo(text("no brace"))).unwrap_err()),
        "400 invalid narinfo JSON: no brace"
    );
}

// ── Settings ─────────────────────────────────────────────────────────────────

fn cache_row(id: u128, created_by: u128) -> CacheRow {
    CacheRow {
        id,
        name: text("main"),
        active: true,
        display_name: text("Main"),
        description: text(""),
        priority: 10,
        public_key: text("pk"),
        private_key: text("sk"),
        public: false,
        created_by,
        created_at: 0,
        managed: false,
    }
}

#[test]
fn caches_are_created() {
    let body = MakeCacheRequest {
        name: text("main"),
        display_name: text(" Main "),
        description: text(" d "),
        priority: 4,
        public: None,
    };
    let keys = || Some(KeyPair { private_key: text("sk"), public_key: text("pk") });
    let make = |valid, error: Option<String>, taken, keys| {
        put(&body, valid, &error, taken, keys, 1, 5, 2, 3)
    };
    let (cache, started_with) = make(true, None, false, keys()).unwrap();
    assert_eq!((started_with.id, started_with.cache), (5, 1));
    assert_eq!(started_with, default_upstream(5, 1));
    assert_eq!((cache.display_name.as_str(), cache.description.as_str()), ("Main", "d"));
    assert_eq!((cache.active, cache.public, cache.managed, cache.priority), (true, false, false, 4));
    assert_eq!(
        message(make(true, None, true, keys()).unwrap_err()),
        "409 Cache Name already exists"
    );
    assert!(matches!(make(true, None, false, None), Err(WebError::Internal(_))));
    assert_eq!(
        message(make(false, None, true, keys()).unwrap_err()),
        "400 Invalid Cache Name"
    );
    assert_eq!(
        message(make(true, some("too long"), true, keys()).unwrap_err()),
        "400 Invalid display name: too long"
    );
    assert_eq!(message(check_new_cache(false, &None).unwrap_err()), "400 Invalid Cache Name");
    assert_eq!(
        message(check_new_cache(true, &some("too long")).unwrap_err()),
        "400 Invalid display name: too long"
    );
    let upstream = default_upstream(5, 1);
    assert_eq!(upstream.url, some("https://cache.nixos.org"));
    assert_eq!(upstream.mode, CacheSubscriptionMode::ReadOnly);
    assert_eq!((upstream.display_name.as_str(), upstream.upstream_cache), ("cache.nixos.org", None));
    assert_eq!(
        upstream.public_key,
        some("cache.nixos.org-1:6NCHdD59X431o0gWypbMrAURkbJ16ZPMQFGspcDShjY=")
    );
}

#[test]
fn caches_are_changed() {
    let body = |name: Option<&str>, display_name: Option<&str>| PatchCacheRequest {
        name: name.map(text),
        display_name: display_name.map(text),
        description: None,
        priority: Some(1),
    };
    let changed = patch_cache(cache_row(1, 2), body(Some("new"), Some(" N ")), true, false, &None).unwrap();
    assert_eq!((changed.name.as_str(), changed.display_name.as_str(), changed.priority), ("new", "N", 1));
    let refused = |b, valid, taken, e: &Option<String>| {
        message(patch_cache(cache_row(1, 2), b, valid, taken, e).unwrap_err())
    };
    assert_eq!(refused(body(Some("new"), None), false, true, &None), "400 Invalid Cache Name");
    assert_eq!(refused(body(Some("new"), None), true, true, &None), "409 Cache Name already exists");
    assert_eq!(
        refused(body(None, Some("x")), false, true, &some("bad")),
        "400 Invalid display name: bad"
    );
    let (off, m) = delete_cache_active(cache_row(1, 2));
    assert_eq!((off.active, m), (false, "Cache disabled"));
    assert_eq!(post_cache_active(off).1, "Cache enabled");
    let (shown, m) = post_cache_public(cache_row(1, 2));
    assert_eq!((shown.public, m), (true, "Cache is now public"));
    assert_eq!(delete_cache_public(shown).1, "Cache is now private");
    assert!(get_cache_name_available(true, false) && !get_cache_name_available(false, false));
}

#[test]
fn caches_are_listed_and_shown() {
    let rows = vec![cache_row(1, 7), cache_row(2, 8), cache_row(3, 8)];
    assert_eq!(get(&rows, 7, &vec![3]), vec![0, 2]);
    let own = get_cache(Some(cache_row(1, 7)), Some(7), some("key")).unwrap();
    assert!(own.can_edit);
    assert_eq!(own.public_key, "key");
    assert!(get_cache(Some(cache_row(1, 7)), Some(8), some("key")).is_err());
    assert!(matches!(get_cache(Some(cache_row(1, 7)), Some(7), None), Err(WebError::Internal(_))));
    assert_eq!(get_cache_key(some("k")).unwrap(), "k");
    assert!(matches!(get_cache_key(None), Err(WebError::Internal(m)) if m == "Failed to generate cache key"));
    assert!(matches!(get_cache_public_key(None), Err(WebError::Internal(m)) if m == "Failed to derive public key"));
}

#[test]
fn upstreams_are_added_and_changed() {
    let internal = || AddUpstreamRequest::Internal { cache_name: text("other"), shown_name: None, mode: None };
    let other = |id| Ok(UpstreamCache { id, display_name: text("Other") });
    assert_eq!(
        message(put_cache_upstream(internal(), 1, other(1), 9).unwrap_err()),
        "400 A cache cannot be its own upstream"
    );
    let added = put_cache_upstream(internal(), 1, other(2), 9).unwrap();
    assert_eq!((added.display_name.as_str(), added.mode), ("Other", CacheSubscriptionMode::ReadWrite));
    let external = AddUpstreamRequest::External {
        display_name: text("E"),
        url: text("https://e"),
        public_key: text("k"),
    };
    let added_external = put_cache_upstream(external, 1, other(1), 9).unwrap();
    assert_eq!(added_external.mode, CacheSubscriptionMode::ReadOnly);
    let change = || PatchUpstreamRequest {
        display_name: some("New"),
        mode: Some(CacheSubscriptionMode::WriteOnly),
        url: some("https://f"),
        public_key: None,
    };
    let changed = patch_cache_upstream(Some(added_external), 1, change(), true).unwrap();
    assert_eq!((changed.mode, changed.url.clone()), (CacheSubscriptionMode::ReadOnly, some("https://f")));
    let changed = patch_cache_upstream(Some(added), 1, change(), false).unwrap();
    assert_eq!((changed.mode, changed.url.clone()), (CacheSubscriptionMode::WriteOnly, None));
    let elsewhere = put_cache_upstream(internal(), 3, other(2), 9).unwrap();
    assert_eq!(
        message(patch_cache_upstream(Some(elsewhere), 1, change(), false).unwrap_err()),
        "404 Upstream cache not found"
    );
    assert!(patch_cache_upstream(None, 1, change(), false).is_err());
    assert_eq!(get_cache_upstreams(&vec![changed])[0].upstream_cache_id, Some(2));
    assert_eq!(message(load_upstream(None, 1).unwrap_err()), "404 Upstream cache not found");
}
