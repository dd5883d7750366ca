use gradient_web::caches::roles::{
    delete_cache_role, get_cache_role, get_cache_roles, patch_cache_role, post_cache_role,
};
use gradient_web::config::{
    content_type_for_filename, debug_url, get_config, get_health, handle_404, server_url,
    ServerSettings,
};
use gradient_web::error::{require_superuser, ErrorCode, WebError, WebResult};
use gradient_web::helpers::{ok_json, OptionExt};
use gradient_web::orgs::roles::{
    delete_organization_role, get_organization_role, get_organization_roles,
    patch_organization_role, post_organization_role,
};
use gradient_web::paths::{file_extension, file_name};
use gradient_web::permissions::{
    available_permissions, mask_to_names, parse_permission_list, Permission,
};
use gradient_web::roles::{
    check_role_mutable, create_role, delete_role, load_role, patch_role, CreateRoleRequest,
    PatchRoleRequest, RoleChange, RoleResponse, RoleRow,
};
use gradient_web::status::{BuildStatus, EvaluationStatus};
use gradient_web::text::{
    cat3, contains_text, has_prefix, has_suffix, is_white, join, lines, rsplit_once, split,
    split_once, split_whitespace, to_decimal, to_signed_decimal, trim, trim_end_char,
    trim_start_text,
};
use sea_orm::{DbErr, RuntimeErr};

fn text(s: &str) -> String {
    s.to_string()
}

// ── Helpers ──────────────────────────────────────────────────────────────────

#[test]
fn ok_json_wraps_with_error_false() {
    let response = ok_json(42i32);
    assert!(!response.error);
    assert_eq!(response.message, 42);
}

#[test]
fn or_not_found_returns_value_for_some() {
    let r: WebResult<i32> = Some(7).or_not_found("Thing");
    assert_eq!(r.unwrap(), 7);
}

#[test]
fn or_not_found_maps_none_to_not_found() {
    let r: WebResult<i32> = Option::<i32>::None.or_not_found("Thing");
    match r.unwrap_err() {
        WebError::NotFound(_, msg) => assert_eq!(msg, "Thing not found"),
        other => panic!("expected NotFound, got {other:?}"),
    }
}

// ── Content types ────────────────────────────────────────────────────────────

#[test]
fn content_type_for_known_extensions() {
    assert_eq!(content_type_for_filename("x.html"), "text/html");
    assert_eq!(content_type_for_filename("x.htm"), "text/html");
    assert_eq!(content_type_for_filename("x.tar"), "application/x-tar");
    assert_eq!(content_type_for_filename("x.gz"), "application/gzip");
    assert_eq!(content_type_for_filename("x.zst"), "application/zstd");
    assert_eq!(content_type_for_filename("x.txt"), "text/plain");
    assert_eq!(content_type_for_filename("x.json"), "application/json");
    assert_eq!(content_type_for_filename("x.zip"), "application/zip");
}

#[test]
fn content_type_falls_back_to_octet_stream() {
    assert_eq!(content_type_for_filename("unknown.xyz"), "application/octet-stream");
    assert_eq!(content_type_for_filename("noext"), "application/octet-stream");
}

#[test]
fn file_names_follow_the_standard_library() {
    for path in [
        "a/b.txt", "a/b/", "/", "", "..", "a/..", "a/./b", ".", "./", ".hidden", "a/.", "x.tar.gz",
        "a//b", "trailing.", "/a/b/../c.d", "dir.d/",
    ] {
        let std = std::path::Path::new(path);
        assert_eq!(file_name(path), std.file_name().and_then(|n| n.to_str()), "{path:?}");
        assert_eq!(file_extension(path), std.extension().and_then(|n| n.to_str()), "{path:?}");
    }
}

// ── Errors ───────────────────────────────────────────────────────────────────

#[test]
fn from_db_err_passes_through_non_db_errors() {
    let err = DbErr::Custom("boom".into());
    let mapped = WebError::from_db_err(err, "Anything");
    assert!(matches!(mapped, WebError::Internal(_)));
}

#[test]
fn from_db_err_passes_through_query_string_errors() {
    let err = DbErr::Query(RuntimeErr::Internal("nope".into()));
    let mapped = WebError::from_db_err(err, "Cache Name");
    assert!(matches!(mapped, WebError::Internal(_)));
}

#[test]
fn from_db_err_record_not_found_is_internal() {
    let err = DbErr::RecordNotFound("nothing".into());
    let mapped = WebError::from_db_err(err, "User");
    assert!(matches!(mapped, WebError::Internal(_)));
}

#[test]
fn from_db_err_keeps_the_message_of_the_database() {
    match WebError::from_db_err(DbErr::Custom("boom".into()), "Anything") {
        WebError::Internal(message) => assert!(message.contains("boom")),
        other => panic!("expected Internal, got {other:?}"),
    }
    match WebError::from_write_failure(true, "detail", "Cache Name") {
        WebError::Conflict(_, message) => assert_eq!(message, "Cache Name already exists"),
        other => panic!("expected Conflict, got {other:?}"),
    }
}

#[test]
fn each_error_has_its_status() {
    let cases = [
        (WebError::bad_request("m"), 400),
        (WebError::unauthorized("m"), 401),
        (WebError::forbidden("m"), 403),
        (WebError::not_found("m"), 404),
        (WebError::conflict("m"), 409),
        (WebError::gone("m"), 410),
        (WebError::payload_too_large("m"), 413),
        (WebError::unprocessable_entity("m"), 422),
        (WebError::service_unavailable("m"), 503),
        (WebError::data_inconsistency("m"), 500),
        (WebError::internal("m"), 500),
    ];
    for (error, status) in cases {
        assert_eq!(error.status(), status, "{error:?}");
    }
}

#[test]
fn internal_details_stay_inside() {
    let shown = WebError::internal("password of the database").into_response();
    assert!(shown.error);
    assert!(!shown.message.contains("password"));
    let other = WebError::data_inconsistency("Build").into_response();
    assert_eq!((shown.status, shown.code, shown.message), (other.status, other.code, other.message));
    let plain = WebError::invalid_name("Cache Name").into_response();
    assert_eq!(plain.code, ErrorCode::INVALID_NAME);
    assert_eq!(plain.code.as_str(), "invalid_name");
    assert_eq!(plain.message, "Invalid Cache Name");
}

#[test]
fn superusers_only() {
    assert!(require_superuser(true).is_ok());
    match require_superuser(false) {
        Err(WebError::Forbidden(code, message)) => {
            assert_eq!(code, ErrorCode::SUPERUSER_REQUIRED);
            assert_eq!(message, "superuser required");
        }
        other => panic!("expected Forbidden, got {other:?}"),
    }
}

// ── Configuration ────────────────────────────────────────────────────────────

#[test]
fn configuration_is_shown() {
    let mut settings = ServerSettings {
        version: "1.0".to_string(),
        oidc_required: None,
        enable_registration: true,
        email_verification: Some(true),
        quic: false,
    };
    let open = get_config(&settings).message;
    assert!(open.registration_enabled && !open.oidc_enabled && open.email_verification_enabled);
    settings.oidc_required = Some(true);
    let closed = get_config(&settings).message;
    assert!(!closed.registration_enabled && closed.oidc_enabled && closed.oidc_required);
    assert_eq!(get_health().message, "200 ALIVE");
    assert_eq!(handle_404().status(), 404);
    assert_eq!(debug_url("127.0.0.1"), "http://127.0.0.1:8000");
    assert_eq!(server_url("127.0.0.1", 3000), "127.0.0.1:3000");
}

// ── Text ─────────────────────────────────────────────────────────────────────

#[test]
fn white_space_is_that_of_the_standard_library() {
    for n in 0..=0x10ffffu32 {
        if let Some(c) = char::from_u32(n) {
            assert_eq!(is_white(c), c.is_whitespace(), "{n:x}");
        }
    }
}

#[test]
fn text_functions_follow_the_standard_library() {
    let samples = [
        "", " ", "a", " a ", "a b", "a\nb", "a\r\nb\n", "\n", "\n\n", "a=b=c", "==", "\u{fc}=\u{e4}",
        "sha256:sha256:x", "x//", "\u{3000}wide\u{3000}",
    ];
    for s in samples {
        assert_eq!(trim(s), s.trim(), "{s:?}");
        assert_eq!(lines(s), s.lines().map(str::to_string).collect::<Vec<_>>(), "{s:?}");
        assert_eq!(split(s, '='), s.split('=').map(str::to_string).collect::<Vec<_>>(), "{s:?}");
        assert_eq!(split_once(s, '='), s.split_once('='), "{s:?}");
        assert_eq!(rsplit_once(s, '='), s.rsplit_once('='), "{s:?}");
        assert_eq!(
            split_whitespace(s),
            s.split_whitespace().map(str::to_string).collect::<Vec<_>>(),
            "{s:?}"
        );
        assert_eq!(trim_end_char(s, '/'), s.trim_end_matches('/'), "{s:?}");
        assert_eq!(trim_start_text(s, "sha256:"), s.trim_start_matches("sha256:"), "{s:?}");
        assert_eq!(contains_text(s, "a"), s.contains("a"), "{s:?}");
        assert_eq!(has_prefix(s, "a"), s.starts_with("a"), "{s:?}");
        assert_eq!(has_suffix(s, "b"), s.ends_with("b"), "{s:?}");
    }
    for n in [0, 1, 9, 10, 12345, u64::MAX] {
        assert_eq!(to_decimal(n), n.to_string());
    }
    for n in [0, -1, 10, i64::MIN, i64::MAX] {
        assert_eq!(to_signed_decimal(n), n.to_string());
    }
    assert_eq!(join(&vec!["a".to_string(), "b".to_string()], ", "), "a, b");
    assert_eq!(cat3("a", "b", "c"), "abc");
}

// ── Permissions and roles ────────────────────────────────────────────────────

fn catalogue() -> Vec<Permission> {
    vec![
        Permission { wire_name: "viewOrg", bit: 1, mutating: false },
        Permission { wire_name: "editOrg", bit: 2, mutating: true },
        Permission { wire_name: "deleteOrg", bit: 4, mutating: true },
    ]
}

#[test]
fn permissions_become_a_mask_and_back() {
    let names = vec!["deleteOrg".to_string(), "viewOrg".to_string(), "viewOrg".to_string()];
    let mask = parse_permission_list(&catalogue(), &names, "GET /roles").unwrap();
    assert_eq!(mask, 5);
    assert_eq!(mask_to_names(&catalogue(), mask), vec!["viewOrg", "deleteOrg"]);
    assert_eq!(available_permissions(&catalogue()).len(), 3);
    let unknown = vec!["fly".to_string()];
    let error = parse_permission_list(&catalogue(), &unknown, "GET /roles").unwrap_err();
    assert_eq!(error.status(), 400);
    assert!(error.public_message().contains("fly"));
    assert!(error.public_message().contains("GET /roles"));
}

#[test]
fn built_in_and_managed_roles_stay() {
    assert!(matches!(
        check_role_mutable(true, false, RoleChange::Modify),
        Err(WebError::Forbidden(_, m)) if m == "Built-in roles (Admin, Write, View) cannot be modified."
    ));
    assert!(matches!(
        check_role_mutable(false, true, RoleChange::Delete),
        Err(WebError::Forbidden(_, m)) if m == "State-managed roles cannot be deleted via the API."
    ));
    assert!(check_role_mutable(false, false, RoleChange::Delete).is_ok());
    assert!(matches!(delete_role(false, false, true), Err(WebError::BadRequest(_, _))));
    assert!(delete_role(false, false, false).is_ok());
}

#[test]
fn custom_roles_are_created_and_changed() {
    let body = CreateRoleRequest {
        name: "builder".to_string(),
        permissions: vec!["editOrg".to_string()],
    };
    let role = create_role(&body, 9, 1, true, false, &catalogue(), "h").unwrap();
    assert_eq!((role.id, role.owner, role.permission, role.managed), (9, Some(1), 2, false));
    assert!(create_role(&body, 9, 1, false, false, &catalogue(), "h").is_err());
    assert!(matches!(
        create_role(&body, 9, 1, true, true, &catalogue(), "h"),
        Err(WebError::Conflict(_, _))
    ));
    let patch = PatchRoleRequest { name: None, permissions: Some(vec!["viewOrg".to_string()]) };
    let role = patch_role(role, false, patch, true, false, &catalogue(), "h").unwrap();
    assert_eq!((role.name.as_str(), role.permission), ("builder", 1));
    let other: WebResult<RoleRow> = load_role(Some(role), 2);
    assert!(matches!(other, Err(WebError::NotFound(_, _))));
    let builtin =
        RoleRow { id: 1, name: "Admin".to_string(), owner: None, permission: 7, managed: false };
    let shown = RoleResponse::from_model(load_role(Some(builtin), 2).unwrap(), true, &catalogue());
    assert_eq!(shown.permissions, vec!["viewOrg", "editOrg", "deleteOrg"]);
}

#[test]
fn scopes_keep_their_roles_apart() {
    let role = |id, owner| RoleRow {
        id,
        name: text("r"),
        owner,
        permission: 1,
        managed: false,
    };
    let shown = get_cache_roles(vec![role(1, None), role(9, Some(5))], &vec![1], &catalogue());
    assert_eq!(
        shown.roles.iter().map(|r| r.builtin).collect::<Vec<_>>(),
        vec![true, false]
    );
    assert_eq!(shown.available_permissions.len(), 3);
    assert_eq!(get_organization_roles(vec![role(9, Some(5))], &vec![1], &catalogue()).roles[0].id, 9);
    assert!(get_organization_role(Some(role(9, Some(5))), 6, &vec![1], &catalogue()).is_err());
    assert!(get_cache_role(Some(role(9, Some(5))), 5, &vec![1], &catalogue()).is_ok());
    let patch = |name: &str| PatchRoleRequest { name: Some(text(name)), permissions: None };
    let changed =
        patch_cache_role(Some(role(9, Some(5))), 5, &vec![1], patch("new"), true, false, &catalogue());
    assert_eq!(changed.unwrap().name, "new");
    let frozen =
        patch_organization_role(Some(role(1, None)), 5, &vec![1], patch("new"), true, false, &catalogue());
    assert_eq!(frozen.err().unwrap().status(), 403);
    assert!(delete_cache_role(Some(role(9, Some(5))), 5, &vec![1], false).is_ok());
    assert_eq!(
        delete_organization_role(Some(role(9, Some(5))), 5, &vec![1], true).err().unwrap().status(),
        400
    );
    let body = |p: &str| CreateRoleRequest { name: text("n"), permissions: vec![text(p)] };
    let hint = |e: WebError| e.public_message();
    let cache = post_cache_role(&body("fly"), 1, 5, true, false, &catalogue()).err().unwrap();
    assert!(hint(cache).contains("GET /caches/{cache}/roles"));
    let org = post_organization_role(&body("fly"), 1, 5, true, false, &catalogue()).err().unwrap();
    assert!(hint(org).contains("GET /orgs/{organization}/roles"));
}

#[test]
fn states_are_told_apart() {
    assert!(EvaluationStatus::Waiting.is_active());
    assert!(!EvaluationStatus::Aborted.is_active());
    assert!(BuildStatus::Substituted.is_success());
    assert!(BuildStatus::FailedTimeout.is_failure());
    assert!(!BuildStatus::DependencyFailed.is_success());
}
