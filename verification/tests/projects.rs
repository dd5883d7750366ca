use gradient_web::access::{AccessRule, Capability};
use gradient_web::error::WebError;
use gradient_web::evals::builds::OutputRow;
use gradient_web::evals::query::{BuildStatusRow, EntryPointRow, EvaluationRow};
use gradient_web::json::{
    first_text, listed_texts, text_array, without_member, Json,
};
use gradient_web::projects::actions::{
    action_token, action_type_to_str, changed_action, check_action_update, check_new_action,
    check_regenerate_token, create_action, created_response, delete_action, list_actions,
    read_action, regenerate_token, store_token, stored_action, test_action, test_fired,
    to_response, token_to_encrypt, update_action, ActionChecks, ActionConfig, ActionRow,
    ActionType, CreateActionRequest, IntegrationLookup, NewAction, UpdateActionRequest,
};
use gradient_web::projects::artifacts::{
    admit_entry_point_download, artifact_candidates, entry_point_build, get_entry_point_download,
    serve_hydra_artifact, ArtifactCandidate, ArtifactOutput, Credential, DownloadLookup,
    Extraction, ProductRow,
};
use gradient_web::projects::evaluations::{
    check_evaluation_project, completed_derivations, entry_points_evaluation, evaluate_mode,
    evaluations_to_summaries, get_project_details, get_project_entry_points,
    post_project_evaluate, CommitRow, EntryPointBuildRow, EntryPointDerivationRow,
    EntryPointRelatedData, EntryPointsQuery, EvaluateMode, EvaluateRequest, EvaluationBuildRow, FoundEvaluation, ProjectRights,
    ProjectRow, SummaryRows, TriggerError, TriggerTypeRow,
};
use gradient_web::projects::integrations::{
    get_project_integration, project_integration_access, put_project_integration,
    validate_integration, IntegrationKind, PutProjectIntegrationRequest,
};
use gradient_web::projects::management::{
    admit_project_transfer, check_new_project, get_project, name_available, patch_project,
    delete_project_active, get, get_project_name_available, post_project_active,
    post_project_check_repository, post_project_transfer, put, user_can_edit,
    EditorRoles, MakeProjectRequest, PatchChecks, PatchProjectRequest, ProjectChecks,
};
use gradient_web::projects::metrics::{
    get_entry_point_metrics, get_project_metrics, millis, missing_hashes, project_metric_point,
    sum_build_times, sum_output_sizes, CachedSizeRow, Closure, DependencyRow,
    EntryPointMetricsQuery, OutputSizeRow,
};
use gradient_web::projects::triggers::{
    check_fire, create, delete_one, fire_now, list, read, reject_allow, trigger_out, update, ConcurrencyPolicy,
    CreateBody, FireOutcome, NewConfig, TriggerType, UpdateBody,
};
use gradient_web::status::{BuildStatus, EvaluationStatus};

fn text(s: &str) -> String {
    s.to_string()
}

fn project() -> ProjectRow {
    ProjectRow {
        id: 1,
        organization: 2,
        name: text("p"),
        active: true,
        display_name: text("P"),
        description: text("d"),
        repository: text("https://r"),
        wildcard: text("*"),
        last_evaluation: Some(9),
        last_check_at: 0,
        force_evaluation: false,
        keep_evaluations: 30,
        created_by: 3,
        created_at: 4,
        managed: false,
    }
}

// ── Sizes and closures ───────────────────────────────────────────────────────

fn drv_output(hash: &str, nar_size: Option<i64>) -> OutputSizeRow {
    OutputSizeRow { hash: text(hash), nar_size }
}

fn cached_row(hash: &str, nar_size: i64) -> CachedSizeRow {
    CachedSizeRow { hash: text(hash), nar_size: Some(nar_size) }
}

#[test]
fn sum_output_sizes_falls_back_to_cached_path_for_substituted() {
    let outputs = vec![drv_output("abc", None)];
    assert_eq!(missing_hashes(&outputs), vec![text("abc")]);
    let total = sum_output_sizes(&outputs, &vec![cached_row("abc", 1024)]);
    assert_eq!(total, Some(1024));
}

#[test]
fn sum_output_sizes_mixes_built_and_substituted_outputs() {
    let outputs = vec![drv_output("built", Some(2048)), drv_output("subst", None)];
    let total = sum_output_sizes(&outputs, &vec![cached_row("subst", 512)]);
    assert_eq!(total, Some(2048 + 512));
}

#[test]
fn sum_output_sizes_returns_none_when_nothing_known() {
    let total = sum_output_sizes(&vec![drv_output("unknown", None)], &vec![]);
    assert_eq!(total, None);
}

#[test]
fn closures_expand_each_derivation_once() {
    let row = |derivation, dependency| DependencyRow { derivation, dependency };
    let mut closure = Closure::new(vec![1, 2]);
    closure.step(&vec![row(1, 3), row(2, 3), row(1, 4), row(2, 1)]);
    assert_eq!(closure.frontier(), &vec![3, 4]);
}

#[test]
fn closure_is_what_is_reachable() {
    let edges = [(1, 2), (2, 3), (3, 1), (4, 5), (2, 6)];
    let mut closure = Closure::new(vec![1]);
    while !closure.is_done() {
        let frontier = closure.frontier().clone();
        let rows = edges
            .iter()
            .filter(|(d, _)| frontier.contains(d))
            .map(|(derivation, dependency)| DependencyRow {
                derivation: *derivation,
                dependency: *dependency,
            })
            .collect();
        closure.step(&rows);
    }
    assert_eq!(closure.len(), 4);
    for id in [1, 2, 3, 6] {
        assert!(closure.contains(id));
    }
    assert!(!closure.contains(4));
}

#[test]
fn metrics_are_oldest_first() {
    assert_eq!(millis(1_000, 5_999), 4);
    assert_eq!(millis(5_999, 1_000), -4);
    assert_eq!(sum_build_times(&vec![Some(3), None, Some(4)]), 7);
    let point = |id| project_metric_point(id, 0, 2_000_000, &vec![Some(5)], 2, 7, None, Some(1));
    let metrics = get_project_metrics(30, &vec![point(2), point(1)]);
    assert_eq!(metrics.points[0].evaluation_id, 1);
    assert_eq!(metrics.points[0].eval_time_ms, 2000);
    assert_eq!(metrics.points[0].dependencies_count, 5);
    assert_eq!(get_entry_point_metrics(EntryPointMetricsQuery { eval: text("a") }, 30, &vec![None]).points.len(), 0);
}

// ── Evaluations ──────────────────────────────────────────────────────────────

fn evaluation(id: u128, previous: Option<u128>) -> EvaluationRow {
    EvaluationRow {
        id,
        project: Some(1),
        repository: text("https://r"),
        commit: 50,
        wildcard: text("*"),
        status: EvaluationStatus::Completed,
        previous,
        next: None,
        trigger: Some(60),
        created_at: 10,
        updated_at: 20,
    }
}

fn entry_point(id: u128, evaluation: u128, build: u128) -> EntryPointRow {
    EntryPointRow { id, evaluation, build, eval: text("a"), created_at: 0 }
}

fn summary_rows() -> SummaryRows {
    SummaryRows {
        commits: vec![CommitRow { id: 50, hash: text("abc") }],
        triggers: vec![TriggerTypeRow { id: 60, trigger_type: 2 }],
        builds: vec![
            EvaluationBuildRow { evaluation: 1, status: BuildStatus::Completed },
            EvaluationBuildRow { evaluation: 1, status: BuildStatus::FailedPermanent },
            EvaluationBuildRow { evaluation: 2, status: BuildStatus::Completed },
        ],
        entry_points: vec![entry_point(1, 1, 31), entry_point(2, 1, 32), entry_point(3, 2, 33)],
        entry_point_builds: vec![
            BuildStatusRow { id: 31, status: BuildStatus::Completed },
            BuildStatusRow { id: 32, status: BuildStatus::FailedTimeout },
            BuildStatusRow { id: 33, status: BuildStatus::Completed },
        ],
    }
}

#[test]
fn evaluations_are_summarised() {
    let evaluations = vec![evaluation(1, Some(2)), evaluation(2, None)];
    let summaries = evaluations_to_summaries(&evaluations, &summary_rows());
    assert_eq!(summaries.len(), 2);
    let first = &summaries[0];
    assert_eq!(first.commit, "abc");
    assert_eq!((first.total_builds, first.failed_builds), (2, 1));
    assert_eq!((first.completed_entry_points, first.failed_entry_points), (1, 1));
    assert_eq!(first.trigger.as_ref().unwrap().trigger_type, 2);
    assert_eq!((summaries[1].total_builds, summaries[1].failed_builds), (1, 0));
}

#[test]
fn details_follow_the_rights() {
    let evaluations = vec![evaluation(1, None)];
    let open = get_project_details(&project(), &evaluations, &summary_rows(), None);
    assert!(!open.can_edit && !open.can_trigger);
    let rights = ProjectRights { can_edit: true, can_trigger: true };
    let own = get_project_details(&project(), &evaluations, &summary_rows(), Some(rights));
    assert!(own.can_edit && own.can_trigger);
    assert_eq!(own.last_evaluations.len(), 1);
}

#[test]
fn evaluations_are_started() {
    let mode = |m: &str| evaluate_mode(Some(&EvaluateRequest { mode: Some(text(m)) }));
    assert!(matches!(mode("restart_failed"), EvaluateMode::RestartFailed));
    assert!(matches!(mode("other"), EvaluateMode::Normal));
    assert!(matches!(evaluate_mode(None), EvaluateMode::Normal));
    let normal = |fetched, queued| post_project_evaluate(EvaluateMode::Normal, fetched, queued);
    assert_eq!(normal(Ok(()), Ok(())).unwrap(), "Evaluation started");
    assert_eq!(
        normal(Err(text("refused")), Ok(())).unwrap_err().public_message(),
        "Failed to fetch repository state: refused"
    );
    assert_eq!(
        normal(Ok(()), Err(TriggerError::AlreadyInProgress)).unwrap_err().public_message(),
        "Evaluation already in progress"
    );
    let restart = |queued| post_project_evaluate(EvaluateMode::RestartFailed, Ok(()), queued);
    assert_eq!(restart(Ok(())).unwrap(), "Restarting failed builds");
    assert_eq!(restart(Err(TriggerError::NoPreviousEvaluation)).unwrap_err().status(), 400);
    assert_eq!(restart(Err(TriggerError::Db(text("x")))).unwrap_err().status(), 500);
}

#[test]
fn entry_points_are_shown() {
    let query = |evaluation_id| EntryPointsQuery { evaluation_id };
    assert_eq!(entry_points_evaluation(&query(Some(1)), Some(2)), Some(1));
    assert_eq!(entry_points_evaluation(&query(None), Some(2)), Some(2));
    assert!(check_evaluation_project(Some(Some(1)), 1).is_ok());
    assert!(check_evaluation_project(Some(Some(2)), 1).is_err());
    let builds = vec![EntryPointBuildRow {
        id: 31,
        derivation: 41,
        status: BuildStatus::Completed,
        api_status: BuildStatus::Completed,
    }];
    assert_eq!(completed_derivations(&builds), vec![41]);
    let data = EntryPointRelatedData {
        builds,
        derivations: vec![EntryPointDerivationRow {
            id: 41,
            store_path: text("/nix/store/h-a.drv"),
            architecture: text("x86_64-linux"),
        }],
        outputs: vec![OutputRow { id: 51, derivation: 41 }],
        products: vec![51],
    };
    let found =
        FoundEvaluation { id: 1, project: Some(1), status: EvaluationStatus::Completed };
    let shown =
        get_project_entry_points(true, Some(found), 1, &vec![entry_point(1, 1, 31)], &data).unwrap();
    assert_eq!(shown[0].derivation_path, "/nix/store/h-a.drv");
    assert!(shown[0].has_artefacts);
    assert!(get_project_entry_points(false, None, 1, &vec![], &data).unwrap().is_empty());
    assert!(get_project_entry_points(true, None, 1, &vec![], &data).is_err());
}

// ── Artifacts ────────────────────────────────────────────────────────────────

#[test]
fn artifacts_are_located() {
    let product = |output, name: &str, path: &str, subtype: &str| ProductRow {
        derivation_output: output,
        name: text(name),
        path: text(path),
        subtype: text(subtype),
    };
    let outputs = vec![
        ArtifactOutput { id: 1, root: text("/nix/store/h-a"), hash: text("h") },
        ArtifactOutput { id: 2, root: text("/nix/store/g-b"), hash: text("") },
    ];
    let products = vec![
        product(1, "manual", "/nix/store/h-a/share/index.html", "html"),
        product(1, "index.html", "//other", "doc"),
        product(2, "index.html", "/nix/store/g-b/x", "doc"),
        product(1, "other", "/nix/store/h-a/other", "doc"),
    ];
    let found = artifact_candidates(&products, &outputs, "index.html");
    let shown: Vec<(&str, &str, bool)> =
        found.iter().map(|c| (c.hash.as_str(), c.rel.as_str(), c.inline)).collect();
    assert_eq!(shown, vec![("h", "share/index.html", true), ("h", "other", false)]);
}

fn candidate(inline: bool) -> ArtifactCandidate {
    ArtifactCandidate { hash: text("h"), rel: text("r"), inline }
}

#[test]
fn artifacts_are_served() {
    let candidates = vec![candidate(false), candidate(true)];
    let ask = |found: Vec<Extraction>| serve_hydra_artifact(&candidates, &found, "x.txt");
    let (k, headers) = ask(vec![Extraction::NotFound, Extraction::File]).ok().unwrap().unwrap();
    assert_eq!((k, headers.content_type, headers.content_disposition.as_str()), (1, "text/plain", "inline"));
    let (k, headers) = ask(vec![Extraction::Directory]).ok().unwrap().unwrap();
    assert_eq!(
        (k, headers.content_type, headers.content_disposition.as_str()),
        (0, "application/zstd", "attachment; filename=\"x.txt.tar.zst\"")
    );
    assert!(ask(vec![Extraction::NoArchive, Extraction::NotFound]).ok().unwrap().is_none());
    assert_eq!(ask(vec![Extraction::Failed]).err().unwrap().status(), 500);
    let lookup = |credential, build| DownloadLookup {
        org_found: true,
        project_found: true,
        credential,
        org_public: false,
        member: Some(true),
        evaluation_found: true,
        entry_point_found: true,
        build,
    };
    let fine = lookup(Credential::Token, Some(BuildStatus::Completed));
    let found = || ask(vec![Extraction::File]);
    assert_eq!(get_entry_point_download(&fine, found()).ok().unwrap().0, 0);
    let refused = |l: &DownloadLookup, served| get_entry_point_download(l, served).err().unwrap();
    assert_eq!(refused(&fine, Ok(None)).public_message(), "File not found");
    assert_eq!(refused(&fine, ask(vec![Extraction::Failed])).status(), 500);
    let forged = lookup(Credential::InvalidToken, Some(BuildStatus::Completed));
    assert_eq!(refused(&forged, found()).public_message(), "Invalid token");
    let outsider = DownloadLookup { member: Some(false), ..lookup(Credential::Session, None) };
    assert_eq!(refused(&outsider, found()).public_message(), "Project not found");
    assert_eq!(refused(&lookup(Credential::Session, None), found()).public_message(), "Build not found");
    let queued = lookup(Credential::Session, Some(BuildStatus::Queued));
    assert_eq!(refused(&queued, found()).public_message(), "File not found");
}

#[test]
fn downloads_are_admitted() {
    let ask = |c, public, member| admit_entry_point_download(true, true, c, public, member);
    assert!(ask(Credential::Session, true, None).is_ok());
    assert!(ask(Credential::Token, false, Some(true)).is_ok());
    assert_eq!(ask(Credential::Session, false, Some(false)).unwrap_err().status(), 404);
    assert_eq!(ask(Credential::Session, false, None).unwrap_err().status(), 401);
    assert_eq!(ask(Credential::InvalidToken, true, None).unwrap_err().public_message(), "Invalid token");
    assert_eq!(ask(Credential::ForbiddenSource, true, None).unwrap_err().status(), 403);
    assert!(entry_point_build(true, true, Some(BuildStatus::Substituted)).is_ok());
    assert_eq!(
        entry_point_build(true, true, Some(BuildStatus::Queued)).unwrap_err().public_message(),
        "File not found"
    );
}

// ── Actions ──────────────────────────────────────────────────────────────────

fn checks() -> ActionChecks {
    ActionChecks {
        smtp_enabled: true,
        url_error: None,
        integration: IntegrationLookup::Outbound,
        name_taken: false,
    }
}

fn web_request(token: Option<&str>) -> ActionConfig {
    ActionConfig::SendWebRequest { url: text("https://h"), token: token.map(text) }
}

fn request(config: ActionConfig) -> CreateActionRequest {
    CreateActionRequest { name: text("a"), config, events: vec![text("e")], active: true }
}

#[test]
fn actions_are_refused() {
    let refused = |config: ActionConfig, events: Vec<String>, c: ActionChecks| {
        check_new_action(&config, &events, &c).unwrap_err().public_message()
    };
    let mail = |recipients: Vec<String>| ActionConfig::SendMail { recipients, rest: Json::Null };
    assert_eq!(
        refused(mail(vec![]), vec![], ActionChecks { smtp_enabled: false, ..checks() }),
        "SMTP is not configured on this server"
    );
    assert_eq!(refused(mail(vec![]), vec![], checks()), "send_mail requires at least one recipient");
    let report = || ActionConfig::ForgeStatusReport { integration_id: 1 };
    assert_eq!(
        refused(report(), vec![text("e")], checks()),
        "forge_status_report actions cannot carry custom events"
    );
    assert_eq!(
        refused(report(), vec![], ActionChecks { integration: IntegrationLookup::Inbound, ..checks() }),
        "integration is not an outbound integration"
    );
    assert_eq!(
        refused(web_request(None), vec![], ActionChecks { url_error: Some(text("private")), ..checks() }),
        "private"
    );
    assert_eq!(
        refused(web_request(None), vec![], ActionChecks { name_taken: true, ..checks() }),
        "action with this name already exists"
    );
    assert!(check_new_action(&web_request(None), &vec![], &checks()).is_ok());
}

fn member(key: &str, value: &str) -> (String, Json) {
    (text(key), Json::Text(text(value)))
}

/// What is stored of a configuration: a web request with a member that is not its own.
fn encoded(config: &ActionConfig) -> Json {
    match config {
        ActionConfig::SendWebRequest { url, token } => {
            let mut members = vec![member("url", url), member("extra", "kept")];
            members.extend(token.iter().map(|t| member("token", t)));
            Json::Object(members)
        }
        ActionConfig::SendMail { recipients, rest: _ } => {
            let to = recipients.iter().cloned().map(Json::Text).collect();
            Json::Object(vec![(text("recipients"), Json::Array(to)), member("token", "a name")])
        }
        ActionConfig::ForgeStatusReport { .. } => Json::Null,
    }
}

fn row_of(new: NewAction) -> ActionRow {
    let config = encoded(&new.draft.config);
    stored_action(new.draft, Ok(config)).ok().unwrap()
}

fn web_row() -> ActionRow {
    row_of(
        create_action(request(web_request(Some("t"))), &checks(), Ok(text("enc")), 1, 7, 2, 3)
            .ok()
            .unwrap(),
    )
}

#[test]
fn tokens_are_shown_once() {
    assert_eq!(token_to_encrypt(&web_request(Some("t"))), Some(&text("t")));
    let create = |checks: ActionChecks, encrypted| {
        create_action(request(web_request(Some("t"))), &checks, encrypted, 1, 7, 2, 3)
    };
    let mut new = create(checks(), Ok(text("enc"))).ok().unwrap();
    assert_eq!(token_to_encrypt(&new.draft.config), Some(&text("enc")));
    let token = new.plaintext_token.take();
    let row = row_of(new);
    assert_eq!((row.id, row.project, row.created_by), (1, 7, 2));
    assert_eq!((row.created_at, row.updated_at, row.last_fired_at), (3, 3, None));
    assert_eq!(row.action_type, Some(ActionType::SendWebRequest));
    assert_eq!(row.events, Json::Array(vec![Json::Text(text("e"))]));
    let shown = created_response(row, token);
    assert_eq!((shown.action.id, shown.action.name.as_str()), (1, "a"));
    assert_eq!(shown.token, Some(text("t")));
    assert_eq!(
        shown.action.config,
        Json::Object(vec![member("url", "https://h"), member("extra", "kept")])
    );
    assert_eq!(shown.action.events, vec![text("e")]);
    assert_eq!(shown.action.action_type, action_type_to_str(ActionType::SendWebRequest));
    assert!(create(checks(), Err(text("k"))).is_err());
    let draft = create(checks(), Ok(text("enc"))).ok().unwrap().draft;
    assert!(matches!(stored_action(draft, Err(text("j"))), Err(WebError::Internal(m)) if m == "j"));
    let private = ActionChecks { url_error: Some(text("private")), ..checks() };
    assert_eq!(create(private, Ok(text("enc"))).err().unwrap().public_message(), "private");
    let taken = ActionChecks { name_taken: true, ..checks() };
    assert_eq!(
        create(taken, Ok(text("enc"))).err().unwrap().public_message(),
        "action with this name already exists"
    );
    let mail = CreateActionRequest {
        name: text("m"),
        config: ActionConfig::SendMail { recipients: vec![], rest: Json::Null },
        events: vec![],
        active: true,
    };
    let refused = create_action(mail, &checks(), Ok(text("")), 1, 7, 2, 3).err().unwrap();
    assert_eq!(
        (refused.status(), refused.public_message()),
        (422, text("send_mail requires at least one recipient"))
    );
}

#[test]
fn stored_columns_are_shown_as_they_are() {
    let odd = |action_type, config, events| ActionRow {
        action_type,
        config,
        events,
        ..web_row()
    };
    let mixed = || Json::Array(vec![
        Json::Null,
        Json::Text(text("a")),
        Json::Number(text("1")),
        Json::Text(text("b")),
    ]);
    let secret = || Json::Object(vec![member("token", "x"), (text("n"), Json::Number(text("1.5")))]);
    let web = to_response(odd(Some(ActionType::SendWebRequest), secret(), mixed()));
    assert_eq!(web.config, Json::Object(vec![(text("n"), Json::Number(text("1.5")))]));
    assert_eq!(web.events, vec![text("a"), text("b")]);
    let mail = to_response(odd(Some(ActionType::SendMail), secret(), Json::Text(text("e"))));
    assert_eq!(mail.config, secret());
    assert!(mail.events.is_empty());
    let unknown = to_response(odd(None, secret(), Json::Null));
    assert_eq!((unknown.config, unknown.action_type), (secret(), "send_mail"));
    let plain = to_response(odd(Some(ActionType::SendWebRequest), Json::Bool(true), Json::Null));
    assert_eq!(plain.config, Json::Bool(true));
    assert_eq!(without_member(Json::Null, "token"), Json::Null);
    assert_eq!(first_text(&mixed()), None);
    assert_eq!(first_text(&text_array(vec![text("a")])), Some(&text("a")));
    assert_eq!(first_text(&Json::Array(vec![])), None);
    assert_eq!(listed_texts(&text_array(vec![text("a"), text("b")])), vec![text("a"), text("b")]);
}

#[test]
fn updates_keep_the_token() {
    let change = |config: Option<ActionConfig>| UpdateActionRequest {
        name: None,
        config,
        events: None,
        active: Some(false),
    };
    let stored = || Ok(web_request(Some("enc")));
    let no_secret = || Err(text("k"));
    let update = |config, stored, encrypted| {
        update_action(Some(web_row()), change(config), &checks(), stored, encrypted, 9)
    };
    let kept = update(Some(web_request(None)), stored(), no_secret()).ok().unwrap();
    assert_eq!(kept.config, Some(web_request(Some("enc"))));
    assert_eq!((kept.row.active, kept.row.updated_at, kept.row.created_at), (false, 9, 3));
    assert_eq!(kept.row.events, web_row().events);
    let written = changed_action(kept, Ok(Json::Bool(true))).ok().unwrap();
    assert_eq!((written.config, written.id), (Json::Bool(true), 1));
    let set = update(Some(web_request(Some("u"))), Err(text("j")), Ok(text("new"))).ok().unwrap();
    assert_eq!(set.config, Some(web_request(Some("new"))));
    assert!(matches!(changed_action(set, Err(text("j"))), Err(WebError::Internal(m)) if m == "j"));
    let untouched = update(None, Err(text("j")), no_secret()).ok().unwrap();
    assert_eq!(untouched.config, None);
    assert_eq!(changed_action(untouched, Err(text("j"))).ok().unwrap().config, web_row().config);
    let unread = update(Some(web_request(None)), Err(text("j")), no_secret());
    assert!(matches!(unread, Err(WebError::Internal(m)) if m == "j"));
    let unsealed = update(Some(web_request(Some("u"))), stored(), no_secret());
    assert!(matches!(unsealed, Err(WebError::Internal(m)) if m == "k"));
    let events = UpdateActionRequest { events: Some(vec![text("x")]), ..change(None) };
    let renamed = update_action(Some(web_row()), events, &checks(), stored(), no_secret(), 9);
    assert_eq!(renamed.ok().unwrap().row.events, Json::Array(vec![Json::Text(text("x"))]));
    let mail = change(Some(ActionConfig::SendMail { recipients: vec![text("x")], rest: Json::Null }));
    assert_eq!(
        check_action_update(&mail, ActionType::SendWebRequest, &checks()).unwrap_err().public_message(),
        "action_type cannot be changed"
    );
    let retyped =
        update_action(Some(web_row()), mail, &checks(), stored(), no_secret(), 9).err().unwrap();
    assert_eq!(
        (retyped.status(), retyped.public_message()),
        (422, text("action_type cannot be changed"))
    );
    let missing =
        update_action(None, change(None), &checks(), stored(), no_secret(), 9).err().unwrap();
    assert_eq!(missing.public_message(), "Action not found");
}

#[test]
fn tokens_are_rotated() {
    let stored = || Ok(web_request(Some("enc")));
    let failed = store_token(web_row(), Err(text("k")), Err(text("j")), 11);
    assert!(matches!(failed, Err(WebError::Internal(m)) if m == "k"));
    let unread = store_token(web_row(), Ok(text("rotated")), Err(text("j")), 11);
    assert!(matches!(unread, Err(WebError::Internal(m)) if m == "j"));
    let rotated = store_token(web_row(), Ok(text("rotated")), stored(), 11).ok().unwrap();
    assert_eq!(rotated.config, Some(web_request(Some("rotated"))));
    let config = encoded(rotated.config.as_ref().unwrap());
    let row = changed_action(rotated, Ok(config)).ok().unwrap();
    assert_eq!(row.updated_at, 11);
    assert_eq!(
        to_response(row).config,
        Json::Object(vec![member("url", "https://h"), member("extra", "kept")])
    );
    assert_eq!(list_actions(vec![web_row(), web_row()]).len(), 2);
    assert!(read_action(Some(web_row())).is_ok() && read_action(None).is_err());
    assert!(delete_action(true).unwrap().deleted && delete_action(false).is_err());
}

#[test]
fn action_tokens_are_random() {
    let fixed = action_token(&vec![0; 32]);
    assert!(fixed.contains("AAAAAAAA"), "{fixed}");
    let row = |config: ActionConfig, events: Vec<String>| {
        let body = CreateActionRequest { name: text("a"), config, events, active: true };
        row_of(create_action(body, &checks(), Ok(text("enc")), 1, 7, 2, 3).ok().unwrap())
    };
    let web = row(web_request(None), vec![text("build.failed")]);
    let recipients = vec![text("x")];
    let mail = row(ActionConfig::SendMail { recipients, rest: Json::Null }, vec![]);
    let fresh = || regenerate_token(Some(&web)).unwrap();
    assert_ne!(fresh(), fresh());
    assert_eq!((&fresh()[..4], fresh().len()), ("gat_", 47));
    assert_eq!(regenerate_token(Some(&mail)).unwrap_err().status(), 422);
    assert_eq!(regenerate_token(None).unwrap_err().public_message(), "Action not found");
    assert!(check_regenerate_token(Some(ActionType::SendWebRequest)).is_ok());
    assert!(check_regenerate_token(Some(ActionType::SendMail)).is_err());
    let payload = test_action(Some(&web), "o", "p", text("now")).ok().unwrap();
    assert_eq!(payload.link, "https://gradient.example/projects/o/p");
    assert_eq!((payload.event.as_str(), payload.status), ("build.failed", "ok"));
    assert!(payload.synthetic && payload.time == "now");
    let plain = test_action(Some(&mail), "o", "p", text("now")).ok().unwrap();
    assert_eq!(plain.event, "evaluation.completed");
    let odd = ActionRow { events: Json::Array(vec![Json::Null]), ..web_row() };
    let event = test_action(Some(&odd), "o", "p", text("now")).ok().unwrap().event;
    assert_eq!(event, "evaluation.completed");
    assert_eq!(test_action(None, "o", "p", text("now")).err().unwrap().status(), 404);
    assert!(test_fired(Ok(())).is_ok());
    assert!(matches!(test_fired(Err(text("x"))), Err(WebError::Internal(m)) if m == "test fire failed: x"));
}

// ── Triggers ─────────────────────────────────────────────────────────────────

fn new_config(error: Option<&str>) -> NewConfig {
    NewConfig {
        trigger_type: TriggerType::Time,
        json: text("{}"),
        error: error.map(text),
    }
}

#[test]
fn triggers_are_created_and_changed() {
    let body = |concurrency, error| CreateBody { config: new_config(error), concurrency, active: true };
    let made = || create(body(ConcurrencyPolicy::Cancel, None), 1, 2, 3).ok().unwrap();
    assert!(matches!(made().trigger_type, Some(TriggerType::Time)));
    let refused = |b| create(b, 1, 2, 3).err().unwrap().public_message();
    assert_eq!(refused(body(ConcurrencyPolicy::Allow, Some("x"))), "concurrency `allow` is reserved");
    assert_eq!(refused(body(ConcurrencyPolicy::Skip, Some("bad cron"))), "bad cron");
    assert!(reject_allow(ConcurrencyPolicy::Skip).is_ok());
    let change = UpdateBody { config: None, concurrency: None, active: Some(false) };
    let changed = update(Some(made()), change, 9).ok().unwrap();
    let again = || UpdateBody { config: None, concurrency: None, active: None };
    assert_eq!(update(None, again(), 9).err().unwrap().public_message(), "Trigger not found");
    assert_eq!((changed.active, changed.updated_at, changed.created_at), (false, 9, 3));
    assert!(check_fire(&changed).is_ok());
    let mut broken = made();
    broken.trigger_type = None;
    assert!(check_fire(&broken).is_err());
    assert!(matches!(trigger_out(broken).trigger_type, TriggerType::Polling));
    assert_eq!(list(vec![made(), made()]).len(), 2);
    assert!(read(Some(made())).is_ok() && read(None).is_err());
    assert!(delete_one(true).unwrap().deleted && delete_one(false).is_err());
    let row = made();
    let fire = |head, applied| fire_now(Some(&row), head, applied);
    let created = || Ok(FireOutcome::Created { evaluation_id: 4 });
    let fired = fire(Ok(()), created()).ok().unwrap();
    assert_eq!((fired.outcome, fired.evaluation_id), ("Created", Some(4)));
    let skipped = fire(Ok(()), Ok(FireOutcome::SkippedConcurrency)).ok().unwrap();
    assert_eq!((skipped.outcome, skipped.evaluation_id), ("SkippedConcurrency", None));
    let why = |r: Result<_, WebError>| match r.err().unwrap() {
        WebError::Internal(m) => m,
        other => other.public_message(),
    };
    assert_eq!(why(fire(Err(text("no head")), created())), "no head");
    assert_eq!(why(fire(Ok(()), Err(text("down")))), "down");
    assert_eq!(why(fire_now(None, Ok(()), created())), "Trigger not found");
    let mut broken = made();
    broken.trigger_type = None;
    assert_eq!(why(fire_now(Some(&broken), Ok(()), created())), "invalid trigger_type in row");
    broken = made();
    broken.concurrency = None;
    assert_eq!(why(fire_now(Some(&broken), Ok(()), created())), "invalid concurrency in row");
}

// ── Integrations ─────────────────────────────────────────────────────────────

#[test]
fn integrations_have_the_right_kind() {
    assert!(validate_integration(1, Some(0), IntegrationKind::Inbound).is_ok());
    let wrong = validate_integration(1, Some(0), IntegrationKind::Outbound).unwrap_err();
    assert_eq!(
        wrong.public_message(),
        "Integration 00000000-0000-0000-0000-000000000001 is not outbound."
    );
    assert_eq!(validate_integration(1, None, IntegrationKind::Inbound).unwrap_err().status(), 404);
    let body = || PutProjectIntegrationRequest {
        inbound_integration: Some(1),
        outbound_integration: None,
    };
    let linked = put_project_integration(7, body(), Some(0), None).ok().unwrap();
    assert_eq!((linked.project, linked.inbound_integration), (7, Some(1)));
    assert!(put_project_integration(7, body(), Some(1), None).is_err());
    assert_eq!(get_project_integration(7, None).inbound_integration, None);
    assert_eq!(project_integration_access(false), AccessRule::Member);
    assert_eq!(
        project_integration_access(true),
        AccessRule::Require { permission: Capability::EditProject, reject_managed: true }
    );
}

// ── Management ───────────────────────────────────────────────────────────────

#[test]
fn projects_are_created() {
    let body = MakeProjectRequest {
        name: text("p"),
        display_name: text(" P "),
        description: text(" d "),
        repository: text("https://r"),
        evaluation_wildcard: text("*"),
    };
    let ok = ProjectChecks { name_valid: true, display_name_error: None, repository_error: None };
    let make = |c: &ProjectChecks, taken, wildcard| put(&body, c, 1, 2, taken, wildcard, 3, 0, 4);
    let made = make(&ok, false, Ok(text("*"))).ok().unwrap();
    assert_eq!((made.display_name.as_str(), made.description.as_str()), ("P", "d"));
    assert_eq!((made.created_at, made.last_check_at), (4, 0));
    assert_eq!(make(&ok, true, Ok(text("*"))).err().unwrap().status(), 409);
    assert_eq!(make(&ok, false, Err(text("w"))).err().unwrap().status(), 400);
    let nameless =
        ProjectChecks { name_valid: false, display_name_error: None, repository_error: None };
    assert_eq!(
        make(&nameless, true, Ok(text("*"))).err().unwrap().public_message(),
        "Invalid Project Name"
    );
    assert!(check_new_project(&ok).is_ok());
    assert!(check_new_project(&ProjectChecks { name_valid: false, ..ok }).is_err());
    assert!(name_available(true, false) && !name_available(false, false));
    let editors = EditorRoles { admin: 1, write: 2 };
    assert!(user_can_edit(Some(2), &editors) && !user_can_edit(Some(3), &editors));
}

#[test]
fn projects_are_changed() {
    let nothing = || PatchProjectRequest {
        name: None,
        display_name: None,
        description: None,
        repository: None,
        evaluation_wildcard: None,
        keep_evaluations: None,
    };
    let checks = || PatchChecks {
        name_valid: true,
        name_taken: false,
        display_name_error: None,
        repository_error: None,
        wildcard: Ok(text("packages.*")),
    };
    let same = patch_project(project(), &nothing(), &checks(), 100).ok().unwrap();
    assert_eq!((same.name.as_str(), same.keep_evaluations, same.force_evaluation), ("p", 30, true));
    let keep = |n| PatchProjectRequest { keep_evaluations: Some(n), ..nothing() };
    assert_eq!(patch_project(project(), &keep(50), &checks(), 100).ok().unwrap().keep_evaluations, 50);
    assert_eq!(patch_project(project(), &keep(101), &checks(), 100).err().unwrap().status(), 400);
    assert_eq!(patch_project(project(), &keep(0), &checks(), 100).err().unwrap().status(), 400);
    let wild = PatchProjectRequest { evaluation_wildcard: Some(text("x")), ..nothing() };
    assert_eq!(
        patch_project(project(), &wild, &checks(), 100).ok().unwrap().wildcard,
        "packages.*"
    );
    let (off, m) = delete_project_active(project());
    assert_eq!((off.active, m), (false, "Project disabled"));
    assert_eq!(post_project_active(off).1, "Project enabled");
    assert!(get_project_name_available(true, true, false).unwrap());
    assert!(!get_project_name_available(false, false, false).unwrap());
    assert!(get_project_name_available(false, true, false).is_err());
    let shown = get_project(&project(), Some(EvaluationStatus::Failed), ProjectRights { can_edit: false, can_trigger: true });
    assert_eq!(shown.last_evaluation_status, Some(EvaluationStatus::Failed));
    let rights = || ProjectRights { can_edit: true, can_trigger: false };
    let rows = vec![
        project(),
        ProjectRow { id: 5, last_evaluation: Some(8), ..project() },
        ProjectRow { id: 6, last_evaluation: None, ..project() },
    ];
    let statuses = vec![
        (9, EvaluationStatus::Queued),
        (7, EvaluationStatus::Failed),
        (9, EvaluationStatus::Completed),
    ];
    let list = get(&rows, &statuses, rights());
    let told: Vec<_> = list.iter().map(|p| (p.id, p.last_evaluation_status)).collect();
    assert_eq!(told, vec![(1, Some(EvaluationStatus::Completed)), (5, None), (6, None)]);
    assert!(list.iter().all(|p| p.can_edit && !p.can_trigger && p.organization == 2));
}

#[test]
fn projects_are_handed_over() {
    assert!(admit_project_transfer(false, true, false).is_ok());
    assert_eq!(admit_project_transfer(false, false, true).unwrap_err().status(), 403);
    assert_eq!(
        admit_project_transfer(true, false, true).unwrap_err().public_message(),
        "Cannot transfer ownership of a state-managed project."
    );
    let transfer = |user, is_admin, target| post_project_transfer(project(), user, is_admin, target);
    assert_eq!(transfer(3, false, Ok(8)).ok().unwrap().organization, 8);
    assert_eq!(transfer(9, true, Ok(8)).ok().unwrap().organization, 8);
    assert_eq!(transfer(9, false, Ok(8)).err().unwrap().status(), 403);
    assert_eq!(transfer(3, false, Ok(2)).err().unwrap().status(), 400);
    assert_eq!(transfer(3, false, Err(WebError::not_found("Organization"))).err().unwrap().status(), 404);
    let managed = ProjectRow { managed: true, ..project() };
    assert_eq!(post_project_transfer(managed, 3, true, Ok(8)).err().unwrap().status(), 403);
    assert_eq!(post_project_check_repository(&vec![1], text("01")).unwrap(), "01");
    assert!(post_project_check_repository(&vec![], text("")).is_err());
}
