use base64::Engine;
use gradient_web::forge_hooks::webhook::ForgeType;
use gradient_web::orgs::integrations::{
    check_integration_mutable, check_new_integration, delete_integration, forge_to_str,
    get_integrations, integration_response,
    kind_to_str, parse_forge, parse_kind, patch_integration, put_integration, secret_to_encrypt,
    CreateIntegrationRequest, IntegrationChange, IntegrationPatchChecks, IntegrationRow,
    PatchIntegrationRequest,
};
use gradient_web::orgs::management::{
    check_new_organization, count_running_evaluations, get, get_organization, patch_organization,
    delete_organization_public, get_org_name_available, post_organization_public,
    post_organization_ssh, put, KeyPair, MakeOrganizationRequest,
    OrganizationListRows, OrganizationRow, OwnMembership, PatchOrganizationRequest, ProjectOrgRow,
};
use gradient_web::orgs::members::{
    delete_organization_users, get_organization_users, patch_organization_users,
    post_organization_users, MembershipRow, RoleNameRow,
};
use gradient_web::orgs::settings::{
    delete_organization_subscribe_cache, enqueue_backfill_signatures, get_organization_subscribe,
    load_subscribable_cache, post_organization_subscribe_cache, require_write_permission,
    CacheAccessRow, CacheSubscriptionMode, SubscribeCacheRequest, SubscriptionRow,
};
use gradient_web::orgs::workers::{
    check_decoded_token, check_worker_id, check_worker_token, delete_org_worker,
    generate_worker_token, get_org_workers, get_workers, hash_token, patch_org_worker,
    post_org_worker, PatchWorkerRequest, RegisterWorkerRequest, WorkerInfo,
};
use gradient_web::projects::integrations::IntegrationKind;
use gradient_web::projects::management::EditorRoles;

fn text(s: &str) -> String {
    s.to_string()
}

// ── Organizations ────────────────────────────────────────────────────────────

fn organization(id: u128) -> OrganizationRow {
    OrganizationRow {
        id,
        name: text("org"),
        display_name: text("Org"),
        description: text("d"),
        public_key: text("pk"),
        private_key: text("sk"),
        public: false,
        created_by: 3,
        created_at: 4,
        managed: false,
        github_installation_id: None,
    }
}

fn keys() -> Option<KeyPair> {
    Some(KeyPair { private_key: text("sk"), public_key: text("pk") })
}

#[test]
fn organizations_are_created() {
    let body = MakeOrganizationRequest {
        name: text("org"),
        display_name: text(" Org "),
        description: text("d "),
        public: Some(true),
    };
    let make = |valid, error: Option<String>, taken, keys| {
        put(&body, valid, &error, taken, keys, 1, 3, 9, 4)
    };
    let (org, member) = make(true, None, false, keys()).ok().unwrap();
    assert_eq!((org.display_name.as_str(), org.description.as_str(), org.public), ("Org", "d", true));
    assert_eq!((member.organization, member.user, member.role), (1, 3, 9));
    assert_eq!(make(true, None, true, keys()).err().unwrap().status(), 409);
    assert_eq!(make(true, None, false, None).err().unwrap().status(), 500);
    assert_eq!(
        make(false, None, true, keys()).err().unwrap().public_message(),
        "Invalid Organization Name"
    );
    assert_eq!(make(true, Some(text("long")), true, keys()).err().unwrap().status(), 400);
    assert!(check_new_organization(true, &None).is_ok());
    assert_eq!(
        check_new_organization(false, &None).unwrap_err().public_message(),
        "Invalid Organization Name"
    );
}

#[test]
fn organizations_are_changed() {
    let body = |name: Option<&str>| PatchOrganizationRequest {
        name: name.map(text),
        display_name: None,
        description: Some(text(" new ")),
    };
    let changed = patch_organization(organization(1), body(None), false, true, &None).ok().unwrap();
    assert_eq!((changed.name.as_str(), changed.description.as_str()), ("org", "new"));
    assert_eq!(
        patch_organization(organization(1), body(Some("x")), true, true, &None).err().unwrap().status(),
        409
    );
    let (shown, m) = post_organization_public(organization(1));
    assert_eq!((shown.public, m), (true, "Organization is now public"));
    assert_eq!(delete_organization_public(shown).1, "Organization is now private");
    assert!(get_org_name_available(true, false) && !get_org_name_available(true, true));
    let fresh = KeyPair { private_key: text("sk2"), public_key: text("pk2") };
    assert_eq!(post_organization_ssh(organization(1), Some(fresh)).ok().unwrap().public_key, "pk2");
    assert!(post_organization_ssh(organization(1), None).is_err());
}

#[test]
fn organizations_are_listed() {
    let rows = OrganizationListRows {
        projects: vec![
            ProjectOrgRow { project: 11, organization: 1 },
            ProjectOrgRow { project: 12, organization: 2 },
        ],
        running: vec![Some(11), Some(12), None, Some(11)],
        memberships: vec![OwnMembership { organization: 1, role: 7 }],
        roles: vec![RoleNameRow { id: 7, name: text("Admin") }],
    };
    assert_eq!(count_running_evaluations(&rows.projects, &rows.running, 1), 2);
    let list = get(&vec![organization(1), organization(2)], &rows);
    assert_eq!((list[0].running_evaluations, list[1].running_evaluations), (2, 1));
    assert_eq!(list[0].role, Some(text("Admin")));
    assert_eq!(list[1].role, None);
    let shown = get_organization(organization(1), true, None);
    assert_eq!((shown.public_key, shown.github_app_available), (Some(text("pk")), true));
}

// ── Members ──────────────────────────────────────────────────────────────────

#[test]
fn members_are_managed() {
    assert_eq!(post_organization_users(true, false, Some(7)).unwrap(), 7);
    assert_eq!(post_organization_users(false, false, Some(7)).unwrap_err().status(), 404);
    assert_eq!(post_organization_users(true, true, Some(7)).unwrap_err().status(), 409);
    assert_eq!(
        post_organization_users(true, false, None).unwrap_err().public_message(),
        "Role not found"
    );
    assert_eq!(patch_organization_users(true, true, Some(8)).unwrap(), 8);
    assert_eq!(patch_organization_users(true, false, Some(8)).unwrap_err().status(), 400);
    assert!(delete_organization_users(true, true).is_ok());
    assert!(delete_organization_users(true, false).is_err());
    let members = vec![
        MembershipRow { user: 1, role: 7, username: Some(text("someone")) },
        MembershipRow { user: 2, role: 7, username: None },
    ];
    let shown = get_organization_users(&members, &vec![RoleNameRow { id: 7, name: text("Admin") }]);
    assert_eq!((shown[0].id.as_str(), shown[0].name.as_str()), ("someone", "Admin"));
}

// ── Subscriptions ────────────────────────────────────────────────────────────

#[test]
fn caches_are_subscribed() {
    let editors = EditorRoles { admin: 1, write: 2 };
    assert!(require_write_permission(Some(1), &editors).is_ok());
    assert!(require_write_permission(None, &editors).is_err());
    let cache = |public| Some(CacheAccessRow { id: 4, public, created_by: 3 });
    assert_eq!(load_subscribable_cache(cache(true), 8).unwrap(), 4);
    assert_eq!(load_subscribable_cache(cache(false), 3).unwrap(), 4);
    assert!(load_subscribable_cache(cache(false), 8).is_err());
    assert!(load_subscribable_cache(None, 8).is_err());
    let subscribe = |role, public, user, already, body| {
        post_organization_subscribe_cache(role, &editors, cache(public), user, already, body)
    };
    assert_eq!(
        subscribe(Some(2), true, 8, false, None).unwrap(),
        (4, CacheSubscriptionMode::ReadWrite)
    );
    let read = SubscribeCacheRequest { mode: Some(CacheSubscriptionMode::ReadOnly) };
    assert_eq!(
        subscribe(Some(1), false, 3, false, Some(read)).unwrap(),
        (4, CacheSubscriptionMode::ReadOnly)
    );
    assert_eq!(subscribe(Some(1), true, 8, true, None).unwrap_err().status(), 409);
    assert_eq!(subscribe(Some(5), true, 8, false, None).unwrap_err().status(), 403);
    assert_eq!(subscribe(Some(1), false, 8, false, None).unwrap_err().status(), 403);
    let unsubscribe = |role, subscribed| {
        delete_organization_subscribe_cache(role, &editors, cache(true), 8, subscribed)
    };
    assert_eq!(unsubscribe(Some(1), true).unwrap(), 4);
    assert_eq!(unsubscribe(Some(1), false).unwrap_err().status(), 400);
    assert_eq!(unsubscribe(None, true).unwrap_err().status(), 403);
    let gone = delete_organization_subscribe_cache(Some(1), &editors, None, 8, true);
    assert_eq!(gone.unwrap_err().public_message(), "Cache not found");
    let rows = vec![
        SubscriptionRow { cache: 4, mode: CacheSubscriptionMode::ReadOnly, cache_name: Some(text("c")) },
        SubscriptionRow { cache: 5, mode: CacheSubscriptionMode::ReadOnly, cache_name: None },
    ];
    assert_eq!(get_organization_subscribe(&rows)[0].name, "c");
    let mut backfill = enqueue_backfill_signatures(&vec![Some(1), None, Some(2), Some(1)], &vec![2]);
    backfill.sort();
    assert_eq!(backfill, vec![1]);
}

// ── Workers ──────────────────────────────────────────────────────────────────

const WORKER: &str = "3f2504e0-4f89-41d3-9a0c-0305e82c3301";

#[test]
fn worker_ids_are_random_uuids() {
    assert_eq!(check_worker_id(WORKER).unwrap(), WORKER);
    assert_eq!(check_worker_id(&WORKER.to_uppercase()).unwrap(), WORKER);
    assert_eq!(check_worker_id(&WORKER.replace('-', "")).unwrap(), WORKER);
    assert!(check_worker_id("00000000-0000-0000-0000-000000000000").is_err());
    assert!(check_worker_id("worker").is_err());
}

#[test]
fn worker_tokens_are_forty_eight_bytes() {
    let engine = base64::engine::general_purpose::STANDARD;
    let token = engine.encode([7u8; 48]);
    assert_eq!(check_worker_token(&format!(" {token}\n")).unwrap(), token);
    assert_eq!(
        check_worker_token(&engine.encode([7u8; 47])).unwrap_err().public_message(),
        "token must be 48 raw bytes encoded as base64 (openssl rand -base64 48)"
    );
    assert_eq!(
        check_worker_token("***").unwrap_err().public_message(),
        "token is not valid base64"
    );
    assert!(check_decoded_token(&Some(vec![0; 48])).is_ok());
    let fresh = generate_worker_token();
    assert_eq!(engine.decode(&fresh).unwrap().len(), 48);
    assert_ne!(fresh, generate_worker_token());
    assert_eq!(
        hash_token("abc"),
        "ba7816bf8f01cfea414140de5dae2223b00361a396177a9cb410ff61f20015ad"
    );
}

fn registration(token: Option<String>) -> RegisterWorkerRequest {
    RegisterWorkerRequest { worker_id: text(WORKER), url: None, display_name: text(" W "), token }
}

#[test]
fn workers_are_registered() {
    let (row, answer) = post_org_worker(&registration(None), 1, 2, 3).ok().unwrap();
    assert_eq!((row.worker_id.as_str(), row.display_name.as_str(), row.active), (WORKER, "W", true));
    assert_eq!(row.token_hash, hash_token(&answer.token.unwrap()));
    assert_eq!(row.id >> 76 & 0xf, 4);
    let given = generate_worker_token();
    let (row, answer) = post_org_worker(&registration(Some(given.clone())), 1, 2, 3).ok().unwrap();
    assert_eq!((row.token_hash, answer.token), (hash_token(&given), None));
    assert!(post_org_worker(&registration(Some(text("short"))), 1, 2, 3).is_err());
}

#[test]
fn workers_are_listed_and_changed() {
    let row = || post_org_worker(&registration(None), 1, 2, 3).ok().unwrap().0;
    let live = WorkerInfo {
        id: text(WORKER),
        capabilities: vec!["fetch", "build"],
        architectures: vec![text("x86_64-linux")],
        system_features: vec![],
        max_concurrent_builds: 4,
        assigned_job_count: 1,
        draining: false,
    };
    let list = get_org_workers(&vec![row()], &vec![live]);
    let shown = list[0].live.as_ref().unwrap();
    assert_eq!(shown.max_concurrent_builds, 4);
    assert_eq!(shown.capabilities, vec!["fetch", "build"]);
    let nobody: Vec<WorkerInfo<bool>> = Vec::new();
    assert!(get_org_workers(&vec![row()], &nobody)[0].live.is_none());
    let off = PatchWorkerRequest { active: Some(false), display_name: None };
    let patch = patch_org_worker(Some(row()), WORKER, &off).ok().unwrap();
    assert!(!patch.row.active && patch.effects.abort_jobs && patch.effects.reauth);
    assert_eq!(patch.message, format!("worker '{WORKER}' updated"));
    assert!(patch_org_worker(None, WORKER, &off).is_err());
    assert_eq!(delete_org_worker(1, "w").ok().unwrap().1, "worker 'w' unregistered");
    assert!(delete_org_worker(0, "w").is_err());
    assert!(get_workers(true, false).is_ok() && get_workers(false, true).is_ok());
    assert!(get_workers(false, false).is_err());
}

// ── Integrations ─────────────────────────────────────────────────────────────

fn integration_request(kind: &str, forge: &str) -> CreateIntegrationRequest {
    CreateIntegrationRequest {
        name: text("gitea"),
        display_name: Some(text("  ")),
        kind: text(kind),
        forge_type: text(forge),
        secret: Some(text("s")),
        endpoint_url: Some(text(" https://g ")),
        access_token: Some(text("")),
    }
}

fn integration() -> IntegrationRow {
    put_integration(
        &integration_request("inbound", "gitea"),
        true,
        "github",
        false,
        Ok(text("enc")),
        Err(text("unused")),
        1,
        2,
        3,
        4,
    )
    .ok()
    .unwrap()
}

#[test]
fn integrations_are_created() {
    let row = integration();
    assert_eq!(row.display_name, "gitea");
    assert_eq!(row.secret, Some(text("enc")));
    assert_eq!(row.access_token, None);
    assert_eq!(row.endpoint_url, Some(text("https://g")));
    let shown = integration_response(row);
    assert_eq!((shown.kind, shown.forge_type), ("inbound", "gitea"));
    assert!(shown.has_secret && !shown.has_access_token);
    assert_eq!(secret_to_encrypt(&Some(text(""))), None);
    let put = |kind, forge, valid, taken, secret| {
        let body = integration_request(kind, forge);
        put_integration(&body, valid, "github", taken, secret, Err(text("unused")), 1, 2, 3, 4)
    };
    let sealed = || Ok(text("enc"));
    assert_eq!(put("inbound", "gitea", true, true, sealed()).err().unwrap().status(), 409);
    assert_eq!(put("inbound", "gitea", true, false, Err(text("k"))).err().unwrap().status(), 500);
    assert_eq!(put("sideways", "gitea", true, true, sealed()).err().unwrap().status(), 400);
    assert_eq!(put("inbound", "cvs", true, true, sealed()).err().unwrap().status(), 400);
    assert_eq!(put("inbound", "gitea", false, true, sealed()).err().unwrap().status(), 400);
    let accepted = check_new_integration(&integration_request("outbound", "gitlab"), true, "github");
    assert!(matches!(accepted, Ok((IntegrationKind::Outbound, ForgeType::GitLab))));
    assert!(check_new_integration(&integration_request("sideways", "gitlab"), true, "github").is_err());
    assert!(check_new_integration(&integration_request("inbound", "cvs"), true, "github").is_err());
    assert!(check_new_integration(&integration_request("inbound", "gitea"), false, "github").is_err());
    assert!(parse_kind("inbound").is_ok() && parse_forge("forgejo").is_ok());
    assert_eq!(kind_to_str(1), "outbound");
    assert_eq!(forge_to_str(Some(ForgeType::GitHub)), "github");
}

#[test]
fn integrations_are_changed() {
    let nothing = || PatchIntegrationRequest {
        name: None,
        display_name: None,
        forge_type: None,
        endpoint_url: None,
        secret: None,
        access_token: None,
    };
    let checks = || IntegrationPatchChecks {
        name_valid: true,
        name_taken: false,
        secret: Ok(text("enc2")),
        token: Ok(text("tok2")),
    };
    let same = patch_integration(integration(), &nothing(), &checks(), "github").ok().unwrap();
    assert_eq!((same.name.as_str(), same.secret.clone()), ("gitea", Some(text("enc"))));
    let secret = PatchIntegrationRequest { secret: Some(text("new")), ..nothing() };
    let set = patch_integration(integration(), &secret, &checks(), "github").ok().unwrap();
    assert_eq!(set.secret, Some(text("enc2")));
    let empty = PatchIntegrationRequest { display_name: Some(text(" ")), ..nothing() };
    assert_eq!(
        patch_integration(integration(), &empty, &checks(), "github").err().unwrap().public_message(),
        "display_name cannot be empty"
    );
    let mut app = integration();
    app.forge_type = Some(ForgeType::GitHub);
    assert!(delete_integration(integration()).is_ok());
    assert_eq!(get_integrations(vec![integration()])[0].name, "gitea");
    assert!(patch_integration(app, &nothing(), &checks(), "github").is_err());
    assert!(check_integration_mutable(Some(ForgeType::GitHub), IntegrationChange::Delete).is_err());
    assert!(check_integration_mutable(Some(ForgeType::Gitea), IntegrationChange::Edit).is_ok());
}
