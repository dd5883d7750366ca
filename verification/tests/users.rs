use gradient_web::commits::{get_commit, CommitRow};
use gradient_web::json::Json;
use gradient_web::users::{
    delete_keys, get, get_keys, get_search, get_settings, patch_settings, post_keys, ApiKeyRequest,
    ApiKeyRow, PatchUserSettingsRequest, SettingsChecks, UserRow,
};
use gradient_web::webhooks::{
    check_new_webhook, get as list_webhooks, get_webhook_deliveries, page_offset, patch_webhook, post_webhook_test, put,
    CreateWebhookRequest, DeliveryRow, TestDelivery, UpdateWebhookRequest, WebhookResponse,
};

fn text(s: &str) -> String {
    s.to_string()
}

fn user() -> UserRow {
    UserRow {
        id: 0x1f,
        username: text("someone"),
        name: text("Some One"),
        email: text("s@example.org"),
        password: Some(text("hash")),
        superuser: false,
        managed: false,
    }
}

fn key(managed: bool) -> ApiKeyRow {
    ApiKeyRow {
        id: 1,
        owned_by: 2,
        name: text("ci"),
        key: text("hashed"),
        last_used_at: 0,
        created_at: 3,
        managed,
    }
}

#[test]
fn profiles_are_shown() {
    assert_eq!(get(&user()).id, "00000000-0000-0000-0000-00000000001f");
    assert_eq!(get_search(&vec![user()])[0].username, "someone");
    let settings = get_settings(&user());
    assert!(!settings.is_oidc);
    let mut oidc = user();
    oidc.password = None;
    assert!(get_settings(&oidc).is_oidc);
}

#[test]
fn api_keys_are_made_and_deleted() {
    let body = ApiKeyRequest { name: text("ci") };
    let (stored, shown) = post_keys(&body, false, "raw", text("hashed"), 1, 2, 0, 3).unwrap();
    assert_eq!(stored, key(false));
    assert_eq!(shown, "GRADraw");
    assert_eq!(post_keys(&body, true, "raw", text("h"), 1, 2, 0, 3).unwrap_err().status(), 409);
    assert_eq!(get_keys(&vec![key(true)])[0].name, "ci");
    assert!(delete_keys(Some(key(false))).is_ok());
    assert_eq!(delete_keys(Some(key(true))).unwrap_err().status(), 403);
    assert_eq!(delete_keys(None).unwrap_err().public_message(), "API-Key not found");
}

#[test]
fn settings_are_changed() {
    let body = || PatchUserSettingsRequest {
        username: Some(text("other")),
        name: Some(text("Other")),
        email: Some(text("o@example.org")),
    };
    let checks = || SettingsChecks {
        username_error: None,
        username_taken: false,
        name_error: None,
        email_taken: false,
    };
    let changed = patch_settings(user(), body(), &checks()).unwrap();
    assert_eq!((changed.username.as_str(), changed.email.as_str()), ("other", "o@example.org"));
    assert_eq!(changed.password, Some(text("hash")));
    let refused = |u, c| {
        let e = patch_settings(u, body(), &c).unwrap_err();
        format!("{} {}", e.status(), e.public_message())
    };
    let mut managed = user();
    managed.managed = true;
    assert!(refused(managed, checks()).starts_with("403 Cannot modify state-managed user."));
    let mut oidc = user();
    oidc.password = None;
    assert!(refused(oidc, checks()).starts_with("403 Cannot modify profile of an OIDC user."));
    assert_eq!(
        refused(user(), SettingsChecks { username_error: Some(text("short")), ..checks() }),
        "400 Invalid username: short"
    );
    assert_eq!(
        refused(user(), SettingsChecks { username_taken: true, ..checks() }),
        "409 Username already exists"
    );
    assert_eq!(
        refused(user(), SettingsChecks { name_error: Some(text("x")), ..checks() }),
        "400 Invalid name: x"
    );
    assert_eq!(
        refused(user(), SettingsChecks { email_taken: true, ..checks() }),
        "409 Email already exists"
    );
}

fn webhook_request() -> CreateWebhookRequest {
    CreateWebhookRequest {
        name: text("hook"),
        url: text("https://h"),
        secret: text("s"),
        events: vec![text("build.completed")],
    }
}

#[test]
fn webhooks_are_created() {
    let made = put(webhook_request(), &None, Ok(text("enc")), 1, 2, 3, 4).unwrap();
    assert_eq!((made.secret.as_str(), made.active, made.organization), ("enc", true, 2));
    let listed = list_webhooks(vec![put(webhook_request(), &None, Ok(text("e")), 9, 2, 3, 4).unwrap()]);
    assert_eq!(listed[0].id, 9);
    let shown = WebhookResponse::from_row(made);
    assert_eq!(shown.events, Json::Array(vec![Json::Text(text("build.completed"))]));
    let refused = |b: CreateWebhookRequest, e: Option<String>| {
        check_new_webhook(&b, &e).unwrap_err().public_message()
    };
    assert_eq!(
        refused(CreateWebhookRequest { name: text(""), ..webhook_request() }, None),
        "Webhook name cannot be empty."
    );
    assert_eq!(
        refused(CreateWebhookRequest { url: text(""), ..webhook_request() }, None),
        "Webhook URL cannot be empty."
    );
    assert_eq!(refused(webhook_request(), Some(text("private address"))), "private address");
    assert_eq!(
        refused(CreateWebhookRequest { secret: text(""), ..webhook_request() }, None),
        "Webhook secret cannot be empty."
    );
    assert!(put(webhook_request(), &None, Err(text("k")), 1, 2, 3, 4).is_err());
}

#[test]
fn webhooks_are_changed() {
    let made = || put(webhook_request(), &None, Ok(text("enc")), 1, 2, 3, 4).unwrap();
    let body = |url: Option<&str>, secret: Option<&str>| UpdateWebhookRequest {
        name: None,
        url: url.map(text),
        secret: secret.map(text),
        events: None,
        active: Some(false),
    };
    let changed = patch_webhook(made(), body(Some("https://i"), Some("t")), &None, Ok(text("enc2"))).unwrap();
    assert_eq!((changed.url.as_str(), changed.secret.as_str(), changed.active), ("https://i", "enc2", false));
    let kept = patch_webhook(made(), body(None, None), &Some(text("bad")), Err(text("k"))).unwrap();
    assert_eq!((kept.url.as_str(), kept.secret.as_str()), ("https://h", "enc"));
    assert_eq!(kept.events, made().events);
    let mut odd = made();
    odd.events = Json::Bool(true);
    let shown = WebhookResponse::from_row(patch_webhook(odd, body(None, None), &None, Ok(text(""))).unwrap());
    assert_eq!(shown.events, Json::Bool(true));
    let events = UpdateWebhookRequest { events: Some(vec![text("x")]), ..body(None, None) };
    let set = patch_webhook(made(), events, &None, Ok(text(""))).unwrap();
    assert_eq!(set.events, Json::Array(vec![Json::Text(text("x"))]));
    assert_eq!(
        patch_webhook(made(), body(Some("x"), None), &Some(text("bad")), Ok(text(""))).unwrap_err().status(),
        400
    );
    assert_eq!(
        patch_webhook(made(), body(None, Some("x")), &None, Err(text("k"))).unwrap_err().status(),
        500
    );
}

#[test]
fn deliveries_are_listed() {
    let row = DeliveryRow {
        id: 1,
        event: text("ping"),
        success: true,
        response_status: Some(200),
        error_message: None,
        duration_ms: 12,
        delivered_at: 1777725240000000,
    };
    let page = get_webhook_deliveries(&vec![row], 5, 2, 1);
    assert_eq!(page.items[0].delivered_at, "2026-05-02T12:34:00+00:00");
    assert_eq!(page.items[0].id, "00000000-0000-0000-0000-000000000001");
    assert_eq!((page.total, page.page, page.per_page), (5, 2, 1));
    assert_eq!(page_offset(3, 20), 40);
}

#[test]
fn test_events_succeed_on_success_codes() {
    assert!(post_webhook_test(&TestDelivery::Answered(204)).unwrap());
    let refused = |d| format!("{:?}", post_webhook_test(&d).unwrap_err());
    assert!(refused(TestDelivery::Answered(300)).contains("Webhook endpoint returned status 300"));
    assert!(refused(TestDelivery::NoSecret(text("k"))).contains("Failed to decrypt webhook secret: k"));
    assert!(refused(TestDelivery::Undelivered(text("t"))).contains("Webhook delivery failed: t"));
}

#[test]
fn commits_are_found() {
    let commit = CommitRow {
        id: 1,
        message: text("m"),
        hash: vec![1],
        author: None,
        author_name: text("a"),
    };
    assert_eq!(get_commit(Some(commit)).unwrap().id, 1);
    assert_eq!(get_commit(None).unwrap_err().public_message(), "Commit not found");
}
