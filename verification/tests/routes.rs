use gradient_web::access::{
    access_rule, AccessRule, Capability, CACHE_KEY_ROUTES, CACHE_ROLE_ROUTES,
    CREATE_PROJECT_ROUTES, DELETE_ORG_ROUTES, EDITOR_ROUTES, EDIT_HOOK_ROUTES,
    EDIT_INTEGRATION_ROUTES, EDIT_PROJECT_ROUTES, MEMBER_ROUTES, ORG_SETTINGS_ROUTES,
    READER_ROUTES, READ_INTEGRATION_ROUTES, ROLE_ROUTES, SSH_KEY_ROUTES, TRIGGER_ROUTES,
    UPSTREAM_ROUTES, VIEW_CACHE_ROUTES, WRITE_STORE_ROUTES,
};
use gradient_web::webhooks::webhook_org_access;
use gradient_web::routes::{
    is_listed, rl_per_ms, rl_per_second, route_policy, Guard, RateLimit, RouterSettings,
    AUTH_ROUTES, CACHE_INSPECT_ROUTES, CACHE_LOG_ROUTES, CACHE_PROTO_ROUTES, CACHE_ROUTES,
    METRICS_ROUTE, OPTIONAL_ROUTES, PUBLIC_ROUTES, SESSION_ROUTES, WEBHOOK_ROUTES,
};
use std::collections::HashSet;

fn settings() -> RouterSettings {
    RouterSettings {
        metrics: true,
        max_request_size: 10,
        max_nar_upload_size: 20,
        max_build_request_size: 30,
        anon_rate_per_second: 2,
        anon_rate_burst: 9,
    }
}

const DEFAULT: RateLimit = RateLimit { period_ms: 200, burst: 150 };

#[test]
fn session_routes_take_a_session() {
    let p = route_policy("PUT", "/api/v1/orgs", &settings()).unwrap();
    assert_eq!(p.guard, Guard::Session);
    assert_eq!(p.limits, vec![DEFAULT]);
    assert_eq!(p.body_limit, Some(10));
}

#[test]
fn methods_of_one_route_differ() {
    let s = settings();
    assert_eq!(route_policy("GET", "/api/v1/orgs/{organization}", &s).unwrap().guard, Guard::Optional);
    assert_eq!(route_policy("HEAD", "/api/v1/orgs/{organization}", &s).unwrap().guard, Guard::Optional);
    assert_eq!(route_policy("PATCH", "/api/v1/orgs/{organization}", &s).unwrap().guard, Guard::Session);
    assert!(route_policy("PUT", "/api/v1/orgs/{organization}", &s).is_none());
}

#[test]
fn uploads_may_be_larger() {
    let s = settings();
    let limit = |m, r| route_policy(m, r, &s).unwrap().body_limit;
    assert_eq!(limit("POST", "/api/v1/caches/{cache}/nars"), Some(20));
    assert_eq!(limit("GET", "/api/v1/caches/{cache}/nars"), Some(10));
    assert_eq!(limit("POST", "/api/v1/build-requests/{session}/blobs"), Some(30));
}

#[test]
fn tiers_are_as_configured() {
    let s = settings();
    let limits = |m, r| route_policy(m, r, &s).unwrap().limits;
    assert_eq!(limits("POST", "/api/v1/auth/basic/login"), vec![DEFAULT, rl_per_second(6, 5)]);
    assert_eq!(limits("POST", "/api/v1/hooks/github"), vec![DEFAULT, rl_per_second(1, 30)]);
    assert_eq!(limits("GET", "/api/v1/health"), vec![DEFAULT]);
    assert_eq!(limits("GET", "/cache/{cache}/{path}"), vec![rl_per_ms(60, 1000)]);
    assert_eq!(limits("GET", "/cache/{cache}/ls/{hash}"), vec![rl_per_second(1, 60)]);
    assert_eq!(limits("GET", "/cache/{cache}/log/{drv}"), vec![rl_per_second(1, 300)]);
    assert_eq!(
        limits("GET", "/cache/{cache}/proto"),
        vec![RateLimit { period_ms: 2000, burst: 9 }]
    );
}

#[test]
fn metrics_route_is_there_with_a_token() {
    let mut s = settings();
    let p = route_policy("GET", "/metrics", &s).unwrap();
    assert_eq!(p.guard, Guard::MetricsToken);
    assert_eq!(p.limits, vec![rl_per_second(6, 5)]);
    assert_eq!(route_policy("HEAD", "/metrics", &s).unwrap().guard, Guard::MetricsToken);
    assert!(route_policy("POST", "/metrics", &s).is_none());
    s.metrics = false;
    for method in ["GET", "HEAD", "POST"] {
        assert!(route_policy(method, "/metrics", &s).is_none());
    }
}

#[test]
fn mounted_routers_take_a_session() {
    let s = settings();
    let guard = |r| route_policy("GET", r, &s).unwrap().guard;
    assert_eq!(guard("/api/v1/admin/workers"), Guard::Session);
    assert_eq!(guard("/api/v1/admin/github-app/callback"), Guard::Open);
    assert_eq!(
        guard("/api/v1/projects/{organization}/{project}/flake-inputs"),
        Guard::Session
    );
    assert!(route_policy("GET", "/api/v1/nowhere", &s).is_none());
    assert!(route_policy("GET", "/nowhere", &s).is_none());
}

#[test]
fn no_route_is_listed_twice() {
    for tables in [
        vec![SESSION_ROUTES, OPTIONAL_ROUTES, AUTH_ROUTES, WEBHOOK_ROUTES, PUBLIC_ROUTES],
        vec![CACHE_ROUTES, CACHE_INSPECT_ROUTES, CACHE_LOG_ROUTES, CACHE_PROTO_ROUTES],
    ] {
        let mut seen = HashSet::new();
        for table in tables {
            for line in table.lines().filter(|l| !l.is_empty()) {
                let mut words = line.split(' ');
                let route = words.next().unwrap();
                assert_ne!(route, METRICS_ROUTE);
                for method in words {
                    assert!(is_listed(table, method, route), "{method} {route}");
                    assert!(seen.insert((method, route)), "{method} {route}");
                }
            }
        }
    }
}

// ── Permissions ──────────────────────────────────────────────────────────────

#[test]
fn routes_ask_for_permissions() {
    let require = |permission, reject_managed| {
        Some(AccessRule::Require { permission, reject_managed })
    };
    let org = "/orgs/{organization}";
    assert_eq!(access_rule("GET", org), Some(AccessRule::Readable));
    assert_eq!(access_rule("PATCH", org), require(Capability::ManageOrgSettings, true));
    assert_eq!(access_rule("DELETE", org), require(Capability::DeleteOrg, true));
    let ssh = "/orgs/{organization}/ssh";
    assert_eq!(access_rule("GET", ssh), Some(AccessRule::Member));
    assert_eq!(access_rule("POST", ssh), require(Capability::ManageSshKey, true));
    let integration = "/orgs/{organization}/integrations/{id}";
    assert_eq!(access_rule("GET", integration), require(Capability::ManageIntegrations, false));
    assert_eq!(access_rule("PATCH", integration), require(Capability::ManageIntegrations, true));
    assert_eq!(
        access_rule("POST", "/orgs/{organization}/roles"),
        require(Capability::ManageRoles, true)
    );
    assert_eq!(
        access_rule("PUT", "/projects/{organization}"),
        require(Capability::CreateProject, true)
    );
    let project = "/projects/{organization}/{project}";
    assert_eq!(access_rule("DELETE", project), require(Capability::EditProject, true));
    let actions = "/projects/{organization}/{project}/actions";
    assert_eq!(access_rule("GET", actions), Some(AccessRule::Member));
    assert_eq!(access_rule("POST", actions), require(Capability::EditProject, false));
    assert_eq!(
        access_rule("POST", "/projects/{organization}/{project}/evaluate"),
        require(Capability::TriggerEvaluation, false)
    );
    let upstreams = "/caches/{cache}/upstreams";
    assert_eq!(access_rule("GET", upstreams), require(Capability::ViewCache, false));
    assert_eq!(access_rule("PUT", upstreams), require(Capability::ManageCacheUpstreams, true));
    assert_eq!(access_rule("PATCH", "/caches/{cache}"), Some(AccessRule::Editable));
    assert_eq!(access_rule("POST", "/caches/{cache}/nars"), require(Capability::WriteStore, false));
    assert_eq!(access_rule("GET", "/caches/{cache}/key"), require(Capability::ManageCacheKeys, false));
    assert_eq!(
        access_rule("DELETE", "/caches/{cache}/roles/{role_id}"),
        require(Capability::ManageCacheRoles, true)
    );
    assert_eq!(access_rule("PUT", org), None);
    assert_eq!(access_rule("GET", "/user"), None);
    assert_eq!(Some(webhook_org_access()), require(Capability::ManageWebhooks, false));
}

#[test]
fn access_tables_follow_the_route_tables() {
    let mut seen = HashSet::new();
    let tables = [
        MEMBER_ROUTES,
        EDITOR_ROUTES,
        CREATE_PROJECT_ROUTES,
        EDIT_PROJECT_ROUTES,
        EDIT_HOOK_ROUTES,
        TRIGGER_ROUTES,
        ORG_SETTINGS_ROUTES,
        DELETE_ORG_ROUTES,
        SSH_KEY_ROUTES,
        ROLE_ROUTES,
        READ_INTEGRATION_ROUTES,
        EDIT_INTEGRATION_ROUTES,
        VIEW_CACHE_ROUTES,
        UPSTREAM_ROUTES,
        WRITE_STORE_ROUTES,
        CACHE_KEY_ROUTES,
        CACHE_ROLE_ROUTES,
        READER_ROUTES,
    ];
    for table in tables {
        let guarded = if table == READER_ROUTES { OPTIONAL_ROUTES } else { SESSION_ROUTES };
        for line in table.lines().filter(|l| !l.is_empty()) {
            let mut words = line.split(' ');
            let route = words.next().unwrap();
            for method in words {
                assert!(is_listed(guarded, method, route), "{method} {route}");
                assert!(access_rule(method, route).is_some(), "{method} {route}");
                assert!(seen.insert((method, route)), "{method} {route}");
            }
        }
    }
}
