//! The routes of the server: who may call them, how often, and with how much.

use crate::text::{
    lines, lines_spec, same, skip, split_whitespace, starts_with, strip_prefix, has_prefix, views, words,
};
use vstd::prelude::*;

verus! {

// ── Tables ───────────────────────────────────────────────────────────────────
//
// Each line holds the template of a route and the methods that it takes.

/// Below `/api/v1`: routes that always require a valid session.
pub const SESSION_ROUTES: &'static str = "
/orgs GET PUT
/orgs/available GET
/orgs/{organization} PATCH DELETE
/orgs/{organization}/public POST DELETE
/orgs/{organization}/users POST PATCH DELETE
/orgs/{organization}/roles GET POST
/orgs/{organization}/roles/{role_id} GET PATCH DELETE
/orgs/{organization}/ssh GET POST
/orgs/{organization}/subscribe GET
/orgs/{organization}/subscribe/{cache} POST DELETE
/orgs/{organization}/workers GET POST
/orgs/{organization}/workers/{worker_id} PATCH DELETE
/orgs/{organization}/integrations GET PUT
/orgs/{organization}/integrations/summary GET
/orgs/{organization}/integrations/{id} GET PATCH DELETE
/projects/{organization} PUT
/projects/{organization}/available GET
/projects/{organization}/{project} PATCH DELETE
/projects/{organization}/{project}/transfer POST
/projects/{organization}/{project}/check-repository POST
/projects/{organization}/{project}/evaluate POST
/projects/{organization}/{project}/active POST DELETE
/projects/{organization}/{project}/triggers GET POST
/projects/{organization}/{project}/triggers/{id} GET PATCH DELETE
/projects/{organization}/{project}/triggers/{id}/test POST
/projects/{organization}/{project}/actions GET POST
/projects/{organization}/{project}/actions/{id} GET PATCH DELETE
/projects/{organization}/{project}/actions/{id}/test POST
/projects/{organization}/{project}/actions/{id}/regenerate-token POST
/projects/{organization}/{project}/actions/{id}/deliveries GET
/projects/{organization}/{project}/actions/{id}/deliveries/{delivery_id} GET
/evals/{evaluation} POST
/evals/{evaluation}/builds POST
/builds/{build}/log POST
/builds/{build}/download-token GET
/build-requests/manifest POST
/build-requests/{session}/blobs POST
/build-requests/{session}/dispatch POST
/caches GET PUT
/caches/available GET
/caches/{cache} PATCH DELETE
/caches/{cache}/nars POST
/caches/{cache}/nars/{hash} DELETE
/caches/{cache}/active POST DELETE
/caches/{cache}/public POST DELETE
/caches/{cache}/key GET
/caches/{cache}/upstreams GET PUT
/caches/{cache}/upstreams/{id} PATCH DELETE
/caches/{cache}/roles GET POST
/caches/{cache}/roles/{role_id} GET PATCH DELETE
/caches/{cache}/members GET POST PATCH DELETE
/user GET DELETE
/user/search GET
/user/keys GET POST DELETE
/user/keys/permissions GET
/user/keys/{api_id} PATCH
/user/keys/{api_id}/revoke POST
/user/sessions GET
/user/sessions/{session_id} DELETE
/user/audit-log GET
/user/settings GET PATCH
/auth/cli/info GET
/auth/cli/authorize POST
/auth/cli/deny POST
";

/// Below `/api/v1`: routes that accept optional auth (public resources browsable
/// without login).
pub const OPTIONAL_ROUTES: &'static str = "
/orgs/{organization} GET
/orgs/{organization}/users GET
/projects/{organization} GET
/projects/{organization}/{project} GET
/projects/{organization}/{project}/evaluations GET
/projects/{organization}/{project}/details GET
/projects/{organization}/{project}/entry-points GET
/projects/{organization}/{project}/metrics GET
/projects/{organization}/{project}/entry-point-metrics GET
/projects/{organization}/{project}/entry-point-downloads GET
/projects/{organization}/{project}/badge GET
/evals/{evaluation} GET
/evals/{evaluation}/messages GET
/evals/{evaluation}/builds GET
/evals/{evaluation}/artefacts GET
/evals/{evaluation}/closure GET
/evals/{evaluation}/runtime-closure GET
/builds/{build} GET
/builds/{build}/log GET
/builds/{build}/log/chunks GET
/builds/{build}/log/chunk/{index} GET
/builds/{build}/log/lines GET
/builds/{build}/log/search GET
/builds/{build}/dependencies GET
/builds/{build}/graph GET
/builds/{build}/closure GET
/builds/{build}/runtime-closure GET
/builds/{build}/downloads GET
/builds/{build}/download/{filename} GET
/commits/{commit} GET
/caches/{cache} GET
/caches/{cache}/public-key GET
/caches/{cache}/stats GET
/caches/{cache}/nars GET
/caches/{cache}/nars/stats GET
/caches/{cache}/nars/available GET
/caches/{cache}/nars/{hash} GET
";

/// Below `/api/v1`: the sensitive auth surface (login, registration, verification,
/// OAuth).
pub const AUTH_ROUTES: &'static str = "
/auth/basic/login POST
/auth/basic/register POST
/auth/check-username POST
/auth/verify-email GET
/auth/resend-verification POST
/auth/oauth/authorize GET POST
/auth/oidc/login GET
/auth/oidc/callback GET
/auth/cli/start POST
/auth/cli/poll POST
";

/// Below `/api/v1`: incoming forge webhooks (unauthenticated, HMAC-verified).
pub const WEBHOOK_ROUTES: &'static str = "
/hooks/github POST
/hooks/{forge}/{org}/{integration_name} POST
";

/// Below `/api/v1`: fully public routes. The callback is unauthenticated because the
/// browser redirect carries no bearer token; it is bound by a one-shot state token.
pub const PUBLIC_ROUTES: &'static str = "
/orgs/public GET
/caches/public GET
/auth/logout POST
/health GET
/config GET
/admin/github-app/callback GET
";

/// At the root: the public surface of a cache.
pub const CACHE_ROUTES: &'static str = "
/cache/{cache}/gradient-cache-info GET
/cache/{cache}/nix-cache-info GET
/cache/{cache}/{path} GET
/cache/{cache}/nar/upstream/{upstream_id}/{*path} GET
/cache/{cache}/nar/{path} GET
";

/// At the root: looking into archives.
pub const CACHE_INSPECT_ROUTES: &'static str = "
/cache/{cache}/ls/{hash} GET
/cache/{cache}/serve/{hash}/{*path} GET
";

/// At the root: build logs.
pub const CACHE_LOG_ROUTES: &'static str = "
/cache/{cache}/log/{drv} GET
";

/// At the root: the read-only cache socket.
pub const CACHE_PROTO_ROUTES: &'static str = "
/cache/{cache}/proto GET
";

/// At the root, when a metrics token is configured: taken by `GET`.
pub const METRICS_ROUTE: &'static str = "/metrics";

// ── Lookup ───────────────────────────────────────────────────────────────────

/// A line of a table holds this method of this route.
pub open spec fn line_lists(line: Seq<char>, method: Seq<char>, route: Seq<char>) -> bool {
    &&& words(line).len() > 0
    &&& words(line)[0] == route
    &&& exists|j: int| 1 <= j < words(line).len() && #[trigger] words(line)[j] == method
}

/// A table holds this method of this route.
pub open spec fn lists(table: Seq<char>, method: Seq<char>, route: Seq<char>) -> bool {
    exists|i: int|
        0 <= i < lines_spec(table).len() && line_lists(
            #[trigger] lines_spec(table)[i],
            method,
            route,
        )
}

fn holds_line(line: &str, method: &str, route: &str) -> (r: bool)
    ensures
        r == line_lists(line@, method@, route@),
{
    let parts = split_whitespace(line);
    assert(words(line@).len() == parts@.len());
    assert forall|j: int| 0 <= j < parts@.len() implies words(line@)[j] == (#[trigger] parts@[j])@ by {
        assert(views(parts@)[j] == parts@[j]@);
    }
    if parts.len() == 0 {
        return false;
    }
    if !same(parts[0].as_str(), route) {
        return false;
    }
    let mut j: usize = 1;
    while j < parts.len()
        invariant
            1 <= j <= parts.len(),
            words(line@).len() == parts@.len(),
            words(line@)[0] == route@,
            forall|k: int| 0 <= k < parts@.len() ==> words(line@)[k] == (#[trigger] parts@[k])@,
            forall|k: int| 1 <= k < j ==> words(line@)[k] != method@,
        decreases parts.len() - j,
    {
        if same(parts[j].as_str(), method) {
            assert(words(line@)[j as int] == method@);
            return true;
        }
        j += 1;
    }
    false
}

/// Whether a table holds this method of this route.
pub fn is_listed(table: &str, method: &str, route: &str) -> (r: bool)
    ensures
        r == lists(table@, method@, route@),
{
    let rows = lines(table);
    assert(lines_spec(table@).len() == rows@.len());
    assert forall|j: int| 0 <= j < rows@.len() implies lines_spec(table@)[j] == (#[trigger] rows@[j])@ by {
        assert(views(rows@)[j] == rows@[j]@);
    }
    let mut i: usize = 0;
    while i < rows.len()
        invariant
            i <= rows.len(),
            lines_spec(table@).len() == rows@.len(),
            forall|k: int| 0 <= k < rows@.len() ==> lines_spec(table@)[k] == (#[trigger] rows@[k])@,
            forall|k: int|
                0 <= k < i ==> !line_lists(#[trigger] lines_spec(table@)[k], method@, route@),
        decreases rows.len() - i,
    {
        if holds_line(rows[i].as_str(), method, route) {
            assert(line_lists(lines_spec(table@)[i as int], method@, route@));
            return true;
        }
        i += 1;
    }
    false
}

// ── Limits ───────────────────────────────────────────────────────────────────

/// A token bucket per client address: a token comes back each period, and the bucket
/// holds `burst` of them.
#[derive(Debug, Clone, Copy, PartialEq, Eq, Structural)]
pub struct RateLimit {
    pub period_ms: u64,
    pub burst: u32,
}

/// Per-IP token-bucket config. Refill period in seconds and burst (bucket
/// capacity).
pub fn rl_per_second(per_second: u64, burst: u32) -> (r: RateLimit)
    requires
        0 < per_second,
        per_second * 1000 <= u64::MAX,
        0 < burst,
    ensures
        r == (RateLimit { period_ms: (per_second * 1000) as u64, burst }),
{
    RateLimit { period_ms: per_second * 1000, burst }
}

/// Sub-second refill granularity, for tiers needing more than one request per second
/// steady-state.
pub fn rl_per_ms(per_millisecond: u64, burst: u32) -> (r: RateLimit)
    requires
        0 < per_millisecond,
        0 < burst,
    ensures
        r == (RateLimit { period_ms: per_millisecond, burst }),
{
    RateLimit { period_ms: per_millisecond, burst }
}

/// The limit on everything below `/api/v1`.
pub open spec fn default_tier() -> RateLimit {
    RateLimit { period_ms: 200, burst: 150 }
}

/// The limit on the sensitive auth surface and on scrapes: verifying a password and
/// sending mail are expensive.
pub open spec fn sensitive_tier() -> RateLimit {
    RateLimit { period_ms: 6000, burst: 5 }
}

/// The limit on incoming webhooks.
pub open spec fn webhook_tier() -> RateLimit {
    RateLimit { period_ms: 1000, burst: 30 }
}

/// The limit on the public surface of a cache: substituters issue many requests per
/// build, so the burst is generous.
pub open spec fn cache_tier() -> RateLimit {
    RateLimit { period_ms: 60, burst: 1000 }
}

/// The limit on looking into archives.
pub open spec fn inspect_tier() -> RateLimit {
    RateLimit { period_ms: 1000, burst: 60 }
}

/// The limit on build logs.
pub open spec fn log_tier() -> RateLimit {
    RateLimit { period_ms: 1000, burst: 300 }
}

// ── Policies ─────────────────────────────────────────────────────────────────

/// Who may call a route.
#[derive(Debug, Clone, Copy, PartialEq, Eq, Structural)]
pub enum Guard {
    /// Callers with a valid session.
    Session,
    /// Everybody; a session is taken into account.
    Optional,
    /// Callers with the metrics token.
    MetricsToken,
    /// Everybody.
    Open,
}

/// How a route is guarded. Limits are applied from the first on; without a limit of
/// its own, the size of a body is bounded by the web framework.
#[derive(Debug, PartialEq, Eq)]
pub struct RoutePolicy {
    pub guard: Guard,
    pub limits: Vec<RateLimit>,
    pub body_limit: Option<usize>,
}

/// A policy as a mathematical value.
pub ghost struct PolicyModel {
    pub guard: Guard,
    pub limits: Seq<RateLimit>,
    pub body_limit: Option<usize>,
}

impl View for RoutePolicy {
    type V = PolicyModel;

    open spec fn view(&self) -> PolicyModel {
        PolicyModel { guard: self.guard, limits: self.limits@, body_limit: self.body_limit }
    }
}

/// What the configuration says of routes.
#[derive(Debug, Clone, Copy, PartialEq, Eq, Structural)]
pub struct RouterSettings {
    /// Whether a metrics token is configured.
    pub metrics: bool,
    pub max_request_size: usize,
    pub max_nar_upload_size: usize,
    pub max_build_request_size: usize,
    pub anon_rate_per_second: u32,
    pub anon_rate_burst: u32,
}

impl RouterSettings {
    /// The configured limit is one.
    pub open spec fn wf(self) -> bool {
        self.anon_rate_per_second > 0 && self.anon_rate_burst > 0
    }
}

/// Below `/api/v1`: routers that are mounted as a whole, behind a session.
pub open spec fn is_mounted(route: Seq<char>) -> bool {
    starts_with(route, "/admin/"@) || starts_with(
        route,
        "/projects/{organization}/{project}/flake-inputs"@,
    )
}

/// The bound on the body of a request below `/api/v1`: archives and build requests may
/// be larger than others.
pub open spec fn api_body_limit(method: Seq<char>, route: Seq<char>, s: RouterSettings) -> usize {
    if method == "POST"@ && route == "/build-requests/{session}/blobs"@ {
        s.max_build_request_size
    } else if method == "POST"@ && route == "/caches/{cache}/nars"@ {
        s.max_nar_upload_size
    } else {
        s.max_request_size
    }
}

/// Who may call a route below `/api/v1`, and its own limit.
pub open spec fn api_guard(method: Seq<char>, route: Seq<char>) -> Option<(Guard, Seq<RateLimit>)> {
    if lists(SESSION_ROUTES@, method, route) {
        Some((Guard::Session, seq![]))
    } else if lists(OPTIONAL_ROUTES@, method, route) {
        Some((Guard::Optional, seq![]))
    } else if lists(AUTH_ROUTES@, method, route) {
        Some((Guard::Open, seq![sensitive_tier()]))
    } else if lists(WEBHOOK_ROUTES@, method, route) {
        Some((Guard::Open, seq![webhook_tier()]))
    } else if lists(PUBLIC_ROUTES@, method, route) {
        Some((Guard::Open, seq![]))
    } else if is_mounted(route) {
        Some((Guard::Session, seq![]))
    } else {
        None
    }
}

/// How a route at the root is guarded.
pub open spec fn root_policy(method: Seq<char>, route: Seq<char>, s: RouterSettings) -> Option<
    PolicyModel,
> {
    if route == METRICS_ROUTE@ {
        if s.metrics && method == "GET"@ {
            Some(
                PolicyModel {
                    guard: Guard::MetricsToken,
                    limits: seq![sensitive_tier()],
                    body_limit: None,
                },
            )
        } else {
            None
        }
    } else if lists(CACHE_ROUTES@, method, route) {
        Some(PolicyModel { guard: Guard::Open, limits: seq![cache_tier()], body_limit: None })
    } else if lists(CACHE_INSPECT_ROUTES@, method, route) {
        Some(PolicyModel { guard: Guard::Open, limits: seq![inspect_tier()], body_limit: None })
    } else if lists(CACHE_LOG_ROUTES@, method, route) {
        Some(PolicyModel { guard: Guard::Open, limits: seq![log_tier()], body_limit: None })
    } else if lists(CACHE_PROTO_ROUTES@, method, route) {
        Some(
            PolicyModel {
                guard: Guard::Optional,
                limits: seq![
                    RateLimit {
                        period_ms: (s.anon_rate_per_second * 1000) as u64,
                        burst: s.anon_rate_burst,
                    },
                ],
                body_limit: None,
            },
        )
    } else {
        None
    }
}

/// How a route is guarded, or `None` where there is no such route.
pub open spec fn policy(method: Seq<char>, route: Seq<char>, s: RouterSettings) -> Option<PolicyModel> {
    let m = if method == "HEAD"@ {
        "GET"@
    } else {
        method
    };
    if starts_with(route, "/api/v1"@) {
        let rest = skip(route, "/api/v1"@.len() as int);
        match api_guard(m, rest) {
            Some((guard, own)) => Some(
                PolicyModel {
                    guard,
                    limits: seq![default_tier()] + own,
                    body_limit: Some(api_body_limit(m, rest, s)),
                },
            ),
            None => None,
        }
    } else {
        root_policy(m, route, s)
    }
}

fn policy_of_api(method: &str, route: &str) -> (r: Option<(Guard, Option<RateLimit>)>)
    ensures
        match r {
            Some((g, None)) => api_guard(method@, route@) == Some((g, Seq::<RateLimit>::empty())),
            Some((g, Some(l))) => api_guard(method@, route@) == Some((g, seq![l])),
            None => api_guard(method@, route@) is None,
        },
{
    assert(Seq::<RateLimit>::empty() =~= seq![]);
    if is_listed(SESSION_ROUTES, method, route) {
        Some((Guard::Session, None))
    } else if is_listed(OPTIONAL_ROUTES, method, route) {
        Some((Guard::Optional, None))
    } else if is_listed(AUTH_ROUTES, method, route) {
        Some((Guard::Open, Some(rl_per_second(6, 5))))
    } else if is_listed(WEBHOOK_ROUTES, method, route) {
        Some((Guard::Open, Some(rl_per_second(1, 30))))
    } else if is_listed(PUBLIC_ROUTES, method, route) {
        Some((Guard::Open, None))
    } else if has_prefix(route, "/admin/") || has_prefix(
        route,
        "/projects/{organization}/{project}/flake-inputs",
    ) {
        Some((Guard::Session, None))
    } else {
        None
    }
}

fn policy_of_root(method: &str, route: &str, s: &RouterSettings) -> (r: Option<RoutePolicy>)
    requires
        s.wf(),
    ensures
        match r {
            Some(p) => root_policy(method@, route@, *s) == Some(p@),
            None => root_policy(method@, route@, *s) is None,
        },
{
    let (guard, limit) = if same(route, METRICS_ROUTE) {
        if !s.metrics || !same(method, "GET") {
            return None;
        }
        (Guard::MetricsToken, rl_per_second(6, 5))
    } else if is_listed(CACHE_ROUTES, method, route) {
        (Guard::Open, rl_per_ms(60, 1000))
    } else if is_listed(CACHE_INSPECT_ROUTES, method, route) {
        (Guard::Open, rl_per_second(1, 60))
    } else if is_listed(CACHE_LOG_ROUTES, method, route) {
        (Guard::Open, rl_per_second(1, 300))
    } else if is_listed(CACHE_PROTO_ROUTES, method, route) {
        (Guard::Optional, rl_per_second(s.anon_rate_per_second as u64, s.anon_rate_burst))
    } else {
        return None;
    };
    let limits: Vec<RateLimit> = vec![limit];
    assert(limits@ =~= seq![limit]);
    Some(RoutePolicy { guard, limits, body_limit: None })
}

/// How a route is guarded. A route that takes `GET` takes `HEAD` too.
pub fn route_policy(method: &str, route: &str, s: &RouterSettings) -> (r: Option<RoutePolicy>)
    requires
        s.wf(),
    ensures
        match r {
            Some(p) => policy(method@, route@, *s) == Some(p@),
            None => policy(method@, route@, *s) is None,
        },
{
    let method = if same(method, "HEAD") {
        "GET"
    } else {
        method
    };
    match strip_prefix(route, "/api/v1") {
        None => policy_of_root(method, route, s),
        Some(rest) => match policy_of_api(method, rest) {
            None => None,
            Some((guard, own)) => {
                let mut limits: Vec<RateLimit> = vec![rl_per_ms(200, 150)];
                if let Some(l) = own {
                    limits.push(l);
                    assert(limits@ =~= seq![default_tier()] + seq![l]);
                } else {
                    assert(limits@ =~= seq![default_tier()] + Seq::<RateLimit>::empty());
                }
                let post = same(method, "POST");
                let body_limit: usize = if post && same(rest, "/build-requests/{session}/blobs") {
                    s.max_build_request_size
                } else if post && same(rest, "/caches/{cache}/nars") {
                    s.max_nar_upload_size
                } else {
                    s.max_request_size
                };
                Some(RoutePolicy { guard, limits, body_limit: Some(body_limit) })
            },
        },
    }
}

/// Every route has a rate limit, and below `/api/v1` the default limit and a bound on
/// its body besides.
pub proof fn law_every_route_is_limited(method: Seq<char>, route: Seq<char>, s: RouterSettings)
    requires
        policy(method, route, s) is Some,
    ensures
        policy(method, route, s)->0.limits.len() > 0,
        starts_with(route, "/api/v1"@) ==> policy(method, route, s)->0.limits[0] == default_tier()
            && policy(method, route, s)->0.body_limit is Some,
{
}

/// Without a metrics token there is no metrics route, and with one it takes the token; no
/// other route does.
pub proof fn law_metrics_need_a_token(method: Seq<char>, route: Seq<char>, s: RouterSettings)
    ensures
        !s.metrics ==> policy(method, METRICS_ROUTE@, s) is None,
        policy(method, METRICS_ROUTE@, s) matches Some(p) ==> p.guard == Guard::MetricsToken,
        policy(method, route, s) matches Some(p) && p.guard == Guard::MetricsToken ==> s.metrics
            && route == METRICS_ROUTE@,
{
    reveal_strlit("/metrics");
    reveal_strlit("/api/v1");
    assert(METRICS_ROUTE@[1] == 'm' && "/api/v1"@[1] == 'a');
    if starts_with(METRICS_ROUTE@, "/api/v1"@) {
        assert(METRICS_ROUTE@.subrange(0, "/api/v1"@.len() as int)[1] == 'm');
    }
}

/// What is listed as requiring a session does, whatever the configuration.
pub proof fn law_session_routes_require_a_session(method: Seq<char>, rest: Seq<char>, s: RouterSettings)
    requires
        lists(SESSION_ROUTES@, method, rest),
        method != "HEAD"@,
    ensures
        policy(method, "/api/v1"@ + rest, s) is Some,
        policy(method, "/api/v1"@ + rest, s)->0.guard == Guard::Session,
{
    let p = "/api/v1"@;
    assert((p + rest).subrange(0, p.len() as int) =~= p);
    assert(skip(p + rest, p.len() as int) =~= rest);
}

/// A table is read line by line: it lists a method of a route when its first line does, the
/// route being the line's first word and the method one of the others, or when what follows the
/// line does.
pub proof fn law_tables_are_read_by_line(
    line: Seq<char>,
    rest: &str,
    table: &str,
    method: &str,
    route: &str,
    r: bool,
    s: bool,
)
    requires
        call_ensures(is_listed, (table, method, route), r),
        call_ensures(is_listed, (rest, method, route), s),
        table@ == line + seq!['\n'] + rest@,
        forall|i: int| 0 <= i < line.len() ==> line[i] != '\n',
        line.len() > 0 ==> line.last() != '\r',
    ensures
        r <==> s || (words(line).len() > 1 && words(line)[0] == route@ && exists|j: int|
            1 <= j < words(line).len() && #[trigger] words(line)[j] == method@),
{
    crate::text::law_lines(line, rest@);
    let all = lines_spec(table@);
    let less = lines_spec(rest@);
    assert(all[0] == line);
    assert forall|i: int| 0 <= i < less.len() implies all[i + 1] == #[trigger] less[i] by {}
    if s {
        let i = choose|i: int| 0 <= i < less.len()
            && line_lists(#[trigger] less[i], method@, route@);
        assert(line_lists(all[i + 1], method@, route@));
    }
    if r {
        let i = choose|i: int| 0 <= i < all.len() && line_lists(#[trigger] all[i], method@, route@);
        if i > 0 {
            assert(all[i] == less[i - 1]);
            assert(line_lists(less[i - 1], method@, route@));
        }
    }
    if line_lists(line, method@, route@) {
        assert(line_lists(all[0], method@, route@));
    }
}

/// How routes below `/api/v1` are guarded, by the table that lists them: a session, a session
/// where there is one, or nothing. Each has the limit of one token in 200 milliseconds, 150 at
/// once; on the sensitive routes one in six seconds comes on top, five at once, and on webhooks
/// one in a second, thirty at once. `HEAD` counts as `GET`.
pub proof fn law_api_routes(
    method: &str,
    route: &str,
    asked: Seq<char>,
    rest: Seq<char>,
    s: RouterSettings,
    r: Option<RoutePolicy>,
)
    requires
        s.wf(),
        call_ensures(route_policy, (method, route, &s), r),
        route@ == "/api/v1"@ + rest,
        method@ == "HEAD"@ ==> asked == "GET"@,
        method@ != "HEAD"@ ==> asked == method@,
    ensures
        r matches Some(p) ==> p.limits@.len() >= 1 && p.limits@[0] == (RateLimit {
            period_ms: 200,
            burst: 150,
        }),
        lists(SESSION_ROUTES@, asked, rest) ==> r is Some && r->0.guard == Guard::Session
            && r->0.limits@.len() == 1,
        !lists(SESSION_ROUTES@, asked, rest) && lists(OPTIONAL_ROUTES@, asked, rest) ==> r is Some
            && r->0.guard == Guard::Optional && r->0.limits@.len() == 1,
        !lists(SESSION_ROUTES@, asked, rest) && !lists(OPTIONAL_ROUTES@, asked, rest) && lists(
            AUTH_ROUTES@,
            asked,
            rest,
        ) ==> r is Some && r->0.guard == Guard::Open && r->0.limits@.len() == 2 && r->0.limits@[1]
            == (RateLimit { period_ms: 6000, burst: 5 }),
        !lists(SESSION_ROUTES@, asked, rest) && !lists(OPTIONAL_ROUTES@, asked, rest) && !lists(
            AUTH_ROUTES@,
            asked,
            rest,
        ) && lists(WEBHOOK_ROUTES@, asked, rest) ==> r is Some && r->0.guard == Guard::Open
            && r->0.limits@.len() == 2 && r->0.limits@[1] == (RateLimit {
            period_ms: 1000,
            burst: 30,
        }),
        !lists(SESSION_ROUTES@, asked, rest) && !lists(OPTIONAL_ROUTES@, asked, rest) && !lists(
            AUTH_ROUTES@,
            asked,
            rest,
        ) && !lists(WEBHOOK_ROUTES@, asked, rest) && lists(PUBLIC_ROUTES@, asked, rest)
            ==> r is Some
            && r->0.guard == Guard::Open && r->0.limits@.len() == 1,
        !lists(SESSION_ROUTES@, asked, rest) && !lists(OPTIONAL_ROUTES@, asked, rest) && !lists(
            AUTH_ROUTES@,
            asked,
            rest,
        ) && !lists(WEBHOOK_ROUTES@, asked, rest) && !lists(PUBLIC_ROUTES@, asked, rest) ==> {
            let mounted = (rest.len() >= 7 && rest.subrange(0, 7) == "/admin/"@) || (rest.len()
                >= "/projects/{organization}/{project}/flake-inputs"@.len() && rest.subrange(
                0,
                "/projects/{organization}/{project}/flake-inputs"@.len() as int,
            ) == "/projects/{organization}/{project}/flake-inputs"@);
            &&& mounted ==> r is Some && r->0.guard == Guard::Session && r->0.limits@.len() == 1
            &&& !mounted ==> r is None
        },
        r matches Some(p) ==> p.body_limit == Some(
            if asked == "POST"@ && rest == "/build-requests/{session}/blobs"@ {
                s.max_build_request_size
            } else if asked == "POST"@ && rest == "/caches/{cache}/nars"@ {
                s.max_nar_upload_size
            } else {
                s.max_request_size
            },
        ),
{
    reveal_strlit("/admin/");
    let p = "/api/v1"@;
    assert((p + rest).subrange(0, p.len() as int) =~= p);
    assert(skip(p + rest, p.len() as int) =~= rest);
    assert(seq![default_tier()] + Seq::<RateLimit>::empty() =~= seq![default_tier()]);
}

/// How the routes of the caches at the root are guarded: they are open, with a token in 60
/// milliseconds, a thousand at once; to look into archives takes one in a second, sixty at
/// once, and to read build logs one in a second, three hundred at once. The cache socket has
/// the configured limit.
pub proof fn law_cache_routes(
    method: &str,
    route: &str,
    asked: Seq<char>,
    s: RouterSettings,
    r: Option<RoutePolicy>,
)
    requires
        s.wf(),
        call_ensures(route_policy, (method, route, &s), r),
        route@ != "/metrics"@,
        route@.len() < 7 || route@.subrange(0, 7) != "/api/v1"@,
        method@ == "HEAD"@ ==> asked == "GET"@,
        method@ != "HEAD"@ ==> asked == method@,
    ensures
        r matches Some(p) ==> p.limits@.len() == 1 && p.body_limit is None,
        lists(CACHE_ROUTES@, asked, route@) ==> r is Some && r->0.guard == Guard::Open
            && r->0.limits@[0]
            == (RateLimit { period_ms: 60, burst: 1000 }),
        !lists(CACHE_ROUTES@, asked, route@) && lists(CACHE_INSPECT_ROUTES@, asked, route@)
            ==> r is Some
            && r->0.guard == Guard::Open && r->0.limits@[0] == (RateLimit {
            period_ms: 1000,
            burst: 60,
        }),
        !lists(CACHE_ROUTES@, asked, route@) && !lists(CACHE_INSPECT_ROUTES@, asked, route@)
            && lists(
            CACHE_LOG_ROUTES@,
            asked,
            route@,
        ) ==> r is Some && r->0.guard == Guard::Open && r->0.limits@[0] == (RateLimit {
            period_ms: 1000,
            burst: 300,
        }),
        !lists(CACHE_ROUTES@, asked, route@) && !lists(CACHE_INSPECT_ROUTES@, asked, route@)
            && !lists(
            CACHE_LOG_ROUTES@,
            asked,
            route@,
        ) && lists(CACHE_PROTO_ROUTES@, asked, route@) ==> r is Some && r->0.guard
            == Guard::Optional && r->0.limits@[0].period_ms == s.anon_rate_per_second * 1000
            && r->0.limits@[0].burst == s.anon_rate_burst,
        !lists(CACHE_ROUTES@, asked, route@) && !lists(CACHE_INSPECT_ROUTES@, asked, route@)
            && !lists(
            CACHE_LOG_ROUTES@,
            asked,
            route@,
        ) && !lists(CACHE_PROTO_ROUTES@, asked, route@) ==> r is None,
{
    reveal_strlit("/api/v1");
}

/// The metrics are read with `GET` or `HEAD` and the token, where one is configured, at one
/// request in six seconds, five at once.
pub proof fn law_metrics_route(
    method: &str,
    s: RouterSettings,
    r: Option<RoutePolicy>,
    route: &str,
)
    requires
        s.wf(),
        route@ == "/metrics"@,
        call_ensures(route_policy, (method, route, &s), r),
    ensures
        r is Some <==> s.metrics && (method@ == "GET"@ || method@ == "HEAD"@),
        r matches Some(p) ==> p.guard == Guard::MetricsToken && p.limits@.len() == 1 && p.limits@[0]
            == (RateLimit { period_ms: 6000, burst: 5 }) && p.body_limit is None,
{
    reveal_strlit("/metrics");
    reveal_strlit("/api/v1");
    assert(METRICS_ROUTE@[1] == 'm' && "/api/v1"@[1] == 'a');
    if starts_with(METRICS_ROUTE@, "/api/v1"@) {
        assert(METRICS_ROUTE@.subrange(0, "/api/v1"@.len() as int)[1] == 'm');
    }
}

/// A limit refills once per period, given in seconds or in milliseconds.
pub proof fn law_limits(
    period: u64,
    burst: u32,
    s: RateLimit,
    m: RateLimit,
)
    requires
        0 < period && period * 1000 <= u64::MAX && 0 < burst,
        call_ensures(rl_per_second, (period, burst), s),
        call_ensures(rl_per_ms, (period, burst), m),
    ensures
        s.period_ms == period * 1000 && s.burst == burst,
        m.period_ms == period && m.burst == burst,
{
}

} // verus!
