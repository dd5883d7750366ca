use gradient_web::error::WebError;
use gradient_web::forge_hooks::approval::{
    approval_click, ci_run_action, ci_run_of_comment, ci_run_request, ci_run_step, click_probe,
    comment_targets, github_comment_urls, handle_github_check_run, handle_github_installation,
    handle_issue_comment, sender_is_trusted, writer_probe, ApprovalClick, CheckRunPayload,
    CiRunAction, CiRunRequest, ClickedEvaluation, CommentFacts, CommentPayload, CommentSender,
    InstallationChange, ParkedEvaluation, WriterAnswer, WriterProbe,
};
use gradient_web::forge_hooks::comment::{parse_ci_run_command, CiRunCommand};
use gradient_web::forge_hooks::events::{
    decode_sha_hex, ParsedPullRequestEvent, ParsedPushEvent, ParsedReleaseEvent,
};
use gradient_web::forge_hooks::glob::{glob_match_pattern, glob_matches};
use gradient_web::forge_hooks::queries::{
    active_projects_stmt, active_triggers_stmt, evaluation_by_check_stmt,
};
use gradient_web::forge_hooks::response::WebhookTriggerOutcome;
use gradient_web::forge_hooks::trigger::{
    approval_context_from, decide_pr_gate, fan_out_triggers, filter_pull_request, filter_push,
    filter_release, normalize_repo_url, plan_trigger, push_concerns, repositories_match,
    resolve_github_app_targets, touch_trigger_last_fired, trigger_for_repo_urls,
    trigger_pr_for_integration, trigger_push_for_integration, trigger_release_for_integration,
    trigger_report, ApplyReport, FilterResult, OrgCandidate, PullRequestApprovalContext,
    PushProject, PushRefKind, TriggerConfig, TriggerPlan, TriggerReport,
};
use gradient_web::forge_hooks::webhook::{
    admit_webhook_secret_change, delete_forge_webhook_secret, forge_event_type, forge_of_route,
    forge_webhook, forge_webhook_step, github_app_webhook, github_app_webhook_step, next_step,
    post_forge_webhook_secret, store_webhook_secret, verify_forge_signature, webhook_answer,
    webhook_secret_response, Dispatched, ForgeEvent, ForgeHeaders, ForgeType, HeaderField, Lookup,
    PayloadKind, WebhookSecret, WebhookStep,
};
use gradient_web::projects::triggers::{ConcurrencyPolicy, TriggerRow, TriggerType};

fn strings(v: &[&str]) -> Vec<String> {
    v.iter().map(|s| s.to_string()).collect()
}

fn no_headers() -> ForgeHeaders {
    ForgeHeaders {
        gitea_event: HeaderField::Absent,
        gogs_event: HeaderField::Absent,
        gitlab_event: HeaderField::Absent,
        gitea_signature: HeaderField::Absent,
        gitlab_token: HeaderField::Absent,
        hub_signature: HeaderField::Absent,
    }
}

// ── Repository addresses ─────────────────────────────────────────────────────

#[test]
fn normalize_strips_dot_git_suffix() {
    assert_eq!(
        normalize_repo_url("https://github.com/owner/repo.git"),
        "https://github.com/owner/repo"
    );
}

#[test]
fn normalize_strips_trailing_slash() {
    assert_eq!(
        normalize_repo_url("https://github.com/owner/repo/"),
        "https://github.com/owner/repo"
    );
}

#[test]
fn normalize_rewrites_ssh_to_https() {
    assert_eq!(
        normalize_repo_url("git@github.com:owner/repo.git"),
        "https://github.com/owner/repo"
    );
}

#[test]
fn normalize_passes_through_canonical_form() {
    assert_eq!(
        normalize_repo_url("https://github.com/owner/repo"),
        "https://github.com/owner/repo"
    );
}

#[test]
fn normalize_collapses_url_variants() {
    let canonical = normalize_repo_url("https://github.com/owner/repo");
    for url in [
        "https://github.com/owner/repo.git",
        "https://github.com/owner/repo/",
        "git@github.com:owner/repo.git",
        "  https://github.com/owner/repo  ",
    ] {
        assert_eq!(normalize_repo_url(url), canonical, "input was {url}");
    }
}

#[test]
fn repositories_match_across_variants() {
    let repos = strings(&["git@github.com:owner/repo.git"]);
    assert!(repositories_match(&repos, &strings(&["https://github.com/owner/repo"])));
    assert!(!repositories_match(&repos, &strings(&["https://github.com/owner/other"])));
    assert!(!repositories_match(&repos, &Vec::new()));
}

#[test]
fn app_targets_are_the_owning_organizations() {
    let candidates = vec![
        OrgCandidate { repositories: Some(strings(&["https://h/o/r"])), integration: Some(1) },
        OrgCandidate { repositories: Some(strings(&["https://h/o/x"])), integration: Some(2) },
        OrgCandidate { repositories: None, integration: Some(3) },
        OrgCandidate { repositories: Some(strings(&["https://h/o/r.git"])), integration: None },
        OrgCandidate { repositories: Some(strings(&["git@h:o/r.git"])), integration: Some(5) },
    ];
    let targets = resolve_github_app_targets(&candidates, &strings(&["https://h/o/r/"]));
    assert_eq!(targets, vec![1, 5]);
}

#[test]
fn pushes_concern_projects_at_their_address() {
    let urls = strings(&["https://h/o/r.git", "git@h:o/r.git"]);
    assert!(push_concerns(&urls, "https://h/o/r"));
    assert!(!push_concerns(&urls, "https://h/o/s"));
    let projects = vec![
        PushProject { id: 1, repository: "https://h/o/r".to_string(), active: true },
        PushProject { id: 2, repository: "https://h/o/r".to_string(), active: false },
        PushProject { id: 3, repository: "git@h:o/r".to_string(), active: true },
    ];
    assert_eq!(trigger_for_repo_urls(&projects, &urls), vec![1, 3]);
}

// ── The comment command ──────────────────────────────────────────────────────

#[test]
fn parse_ci_run_command_plain_returns_plain() {
    assert!(matches!(parse_ci_run_command("/ci run"), Some(CiRunCommand::Plain)));
    assert!(matches!(parse_ci_run_command("   /ci run   "), Some(CiRunCommand::Plain)));
    assert!(matches!(parse_ci_run_command("\n/ci run\n"), Some(CiRunCommand::Plain)));
}

#[test]
fn parse_ci_run_command_case_insensitive_prefix() {
    assert!(matches!(parse_ci_run_command("/CI Run"), Some(CiRunCommand::Plain)));
    assert!(matches!(
        parse_ci_run_command("/Ci RUN packages.*.*"),
        Some(CiRunCommand::WithWildcard(ref w)) if w == "packages.*.*"
    ));
}

#[test]
fn parse_ci_run_command_with_wildcard() {
    assert!(matches!(
        parse_ci_run_command("/ci run packages.*.*"),
        Some(CiRunCommand::WithWildcard(ref w)) if w == "packages.*.*"
    ));
}

#[test]
fn parse_ci_run_command_with_complex_wildcard() {
    let body = "/ci run packages.*.foo,!packages.x86_64-linux.broken";
    let Some(CiRunCommand::WithWildcard(w)) = parse_ci_run_command(body) else {
        panic!("expected WithWildcard");
    };
    assert_eq!(w, "packages.*.foo,!packages.x86_64-linux.broken");
}

#[test]
fn parse_ci_run_command_trims_trailing_whitespace_around_wildcard() {
    let body = "   /ci run   packages.*.*   ";
    let Some(CiRunCommand::WithWildcard(w)) = parse_ci_run_command(body) else {
        panic!("expected WithWildcard");
    };
    assert_eq!(w, "packages.*.*");
}

#[test]
fn parse_ci_run_command_after_quote_reply() {
    let body =
        "> @maintainer asked us to retrigger\n> after rebasing main\n\n/ci run packages.*.*";
    let Some(CiRunCommand::WithWildcard(w)) = parse_ci_run_command(body) else {
        panic!("expected WithWildcard");
    };
    assert_eq!(w, "packages.*.*");
}

#[test]
fn parse_ci_run_command_rejects_unrelated() {
    assert!(parse_ci_run_command("looks good").is_none());
    assert!(parse_ci_run_command("/ci runfoo").is_none());
    assert!(parse_ci_run_command("foo\n/ci run\nbar").is_none());
    assert!(
        parse_ci_run_command("quote-reply context\n\n/ci run").is_none(),
        "non-quote prose before /ci run must reject"
    );
}

#[test]
fn parse_ci_run_command_rejects_prose_outside_ascii() {
    assert!(parse_ci_run_command("/ci r\u{fc}n now").is_none());
    assert!(parse_ci_run_command("\u{1f44d}\u{1f44d}\u{1f44d}").is_none());
}

#[test]
fn wildcard_errors_are_answered() {
    let wild = CiRunCommand::WithWildcard("a..b".to_string());
    assert_eq!(ci_run_action(&CiRunCommand::Plain, None), CiRunAction::Unpark);
    assert_eq!(
        ci_run_action(&wild, None),
        CiRunAction::UnparkWithWildcard("a..b".to_string())
    );
    assert_eq!(
        ci_run_action(&wild, Some("empty segment")),
        CiRunAction::Reject("Could not parse wildcard `a..b`: empty segment".to_string())
    );
}

#[test]
fn trigger_outcome_default_is_empty() {
    let o = WebhookTriggerOutcome::default();
    assert_eq!(o.projects_scanned, 0);
    assert!(o.queued.is_empty());
    assert!(o.skipped.is_empty());
}

// ── Globs ────────────────────────────────────────────────────────────────────

#[test]
fn glob_empty_list_matches_all() {
    assert!(glob_matches(&[], "main"));
    assert!(glob_matches(&[], "anything"));
}

#[test]
fn glob_exact_match() {
    let globs = vec!["main".to_string()];
    assert!(glob_matches(&globs, "main"));
    assert!(!glob_matches(&globs, "develop"));
}

#[test]
fn glob_star_prefix() {
    assert!(glob_match_pattern("feature/*", "feature/my-branch"));
    assert!(!glob_match_pattern("feature/*", "bugfix/my-branch"));
}

#[test]
fn glob_star_only() {
    assert!(glob_match_pattern("*", "main"));
    assert!(glob_match_pattern("*", ""));
}

#[test]
fn glob_version_pattern() {
    assert!(glob_match_pattern("v*", "v1.2.3"));
    assert!(!glob_match_pattern("v*", "1.2.3"));
}

#[test]
fn glob_multiple_patterns() {
    let globs = vec!["main".to_string(), "release/*".to_string()];
    assert!(glob_matches(&globs, "main"));
    assert!(glob_matches(&globs, "release/1.0"));
    assert!(!glob_matches(&globs, "develop"));
}

#[test]
fn glob_stars_in_the_middle() {
    assert!(glob_match_pattern("a**b*c", "a-b-bc"));
    assert!(!glob_match_pattern("a*b", "a-b-"));
    assert!(!glob_match_pattern("", "x"));
}

// ── Filters and plans ────────────────────────────────────────────────────────

#[test]
fn push_filter_follows_branches_and_tags() {
    let cfg = TriggerConfig::ReporterPush {
        branches: strings(&["main"]),
        tags: strings(&["v*"]),
        releases_only: false,
    };
    assert_eq!(filter_push(&cfg, PushRefKind::Branch("main")), FilterResult::Fire);
    assert_eq!(filter_push(&cfg, PushRefKind::Branch("dev")), FilterResult::SkipFilter);
    assert_eq!(filter_push(&cfg, PushRefKind::Tag("v1")), FilterResult::Fire);
    assert_eq!(filter_push(&TriggerConfig::Other, PushRefKind::Tag("v1")), FilterResult::Skip);
}

#[test]
fn releases_only_fire_on_releases() {
    let cfg = TriggerConfig::ReporterPush {
        branches: Vec::new(),
        tags: Vec::new(),
        releases_only: true,
    };
    assert_eq!(filter_push(&cfg, PushRefKind::Branch("main")), FilterResult::Skip);
    assert_eq!(filter_release(&cfg, Some("v1")), FilterResult::Fire);
}

#[test]
fn pull_request_filter_follows_actions() {
    let cfg = TriggerConfig::ReporterPullRequest {
        branches: Vec::new(),
        actions: strings(&["opened"]),
        require_approval: true,
    };
    assert_eq!(
        filter_pull_request(&cfg, Some("x"), "opened"),
        FilterResult::FirePr { require_approval: true }
    );
    assert_eq!(filter_pull_request(&cfg, Some("x"), "closed"), FilterResult::SkipFilter);
}

#[test]
fn forks_are_gated() {
    let fork = PullRequestApprovalContext {
        pr_number: Some(7),
        pr_author: Some("someone".to_string()),
        is_fork: Some(true),
    };
    let own = PullRequestApprovalContext { pr_number: Some(7), pr_author: None, is_fork: Some(false) };
    let gate = decide_pr_gate(Some(&fork)).unwrap();
    assert_eq!((gate.pr_number, gate.pr_author.as_str()), (7, "someone"));
    assert!(decide_pr_gate(Some(&own)).is_none());
    assert!(decide_pr_gate(None).is_none());
    let verdict = FilterResult::FirePr { require_approval: true };
    assert!(matches!(plan_trigger(verdict, Some(&fork)), TriggerPlan::Fire { gate: Some(_) }));
    assert_eq!(plan_trigger(FilterResult::Skip, None), TriggerPlan::Ignore);
    assert_eq!(plan_trigger(FilterResult::SkipFilter, None), TriggerPlan::Filtered);
}

#[test]
fn events_are_planned_trigger_by_trigger() {
    let push = || TriggerConfig::ReporterPush {
        branches: strings(&["main"]),
        tags: strings(&["v*"]),
        releases_only: false,
    };
    let releases = || TriggerConfig::ReporterPush {
        branches: Vec::new(),
        tags: strings(&["v*"]),
        releases_only: true,
    };
    let pulls = || TriggerConfig::ReporterPullRequest {
        branches: Vec::new(),
        actions: strings(&["opened"]),
        require_approval: true,
    };
    let configs = vec![None, Some(push()), Some(releases()), Some(pulls())];
    let event = |ref_name: &str, is_tag| ParsedPushEvent {
        commit_hash: vec![1],
        repository_urls: Vec::new(),
        commit_message: None,
        author_name: None,
        ref_name: ref_name.to_string(),
        is_tag,
    };
    let fire = || TriggerPlan::Fire { gate: None };
    assert_eq!(
        trigger_push_for_integration(&configs, &event("main", false)),
        vec![TriggerPlan::Ignore, fire(), TriggerPlan::Ignore, TriggerPlan::Ignore]
    );
    assert_eq!(
        trigger_push_for_integration(&configs, &event("main", true))[1],
        TriggerPlan::Filtered
    );
    let release = ParsedReleaseEvent {
        commit_hash: vec![1],
        repository_urls: Vec::new(),
        tag: Some("v1".to_string()),
    };
    assert_eq!(
        trigger_release_for_integration(&configs, &release),
        vec![TriggerPlan::Ignore, TriggerPlan::Ignore, fire(), TriggerPlan::Ignore]
    );
    let pull = ParsedPullRequestEvent {
        commit_hash: vec![1],
        repository_urls: Vec::new(),
        action: "opened".to_string(),
        branch: None,
    };
    let unknown = approval_context_from(Some(3), None, None);
    let plans = trigger_pr_for_integration(&configs, &pull, &unknown);
    assert!(matches!(&plans[3], TriggerPlan::Fire { gate: Some(g) } if g.pr_number == 3));
    assert_eq!(plans[1], TriggerPlan::Ignore);
}

#[test]
fn reports_follow_the_plan() {
    let report = |plan: TriggerPlan, name: Option<&str>| {
        trigger_report(&plan, 1, name.map(str::to_string), None, ApplyReport::Failed)
    };
    assert!(matches!(report(TriggerPlan::Ignore, Some("p")), TriggerReport::Ignored));
    assert!(matches!(report(TriggerPlan::Filtered, None), TriggerReport::Filtered { .. }));
    let fire = || TriggerPlan::Fire { gate: None };
    assert!(matches!(report(fire(), None), TriggerReport::Ignored));
    let reports = vec![report(fire(), Some("p"))];
    assert_eq!(fan_out_triggers(&reports).skipped[0].reason, "error");
}

#[test]
fn fan_out_accounts_for_each_report() {
    let reports = vec![
        TriggerReport::Ignored,
        TriggerReport::Filtered {
            project_id: 1,
            project_name: None,
            organization: Some("org".to_string()),
        },
        TriggerReport::Applied {
            project_id: 2,
            name: "two".to_string(),
            organization: Some("org".to_string()),
            result: ApplyReport::Created { evaluation_id: 9 },
        },
        TriggerReport::Applied {
            project_id: 3,
            name: "three".to_string(),
            organization: None,
            result: ApplyReport::SkippedConcurrency,
        },
    ];
    let out = fan_out_triggers(&reports);
    assert_eq!(out.projects_scanned, 2);
    assert_eq!(out.queued.len(), 1);
    assert_eq!(out.queued[0].evaluation_id, 9);
    assert_eq!(out.queued[0].project_name, "two");
    assert_eq!(out.skipped.len(), 2);
    assert_eq!(out.skipped[0].reason, "filter");
    assert_eq!(out.skipped[0].organization, "");
    assert_eq!(out.skipped[1].reason, "concurrency");
}

#[test]
fn triggers_remember_when_they_fired() {
    let row = || TriggerRow {
        id: 1,
        project: 2,
        trigger_type: Some(TriggerType::Polling),
        concurrency: Some(ConcurrencyPolicy::Skip),
        config: "{}".to_string(),
        active: true,
        last_fired_at: None,
        created_at: 5,
        updated_at: 5,
    };
    let applied = |result| TriggerReport::Applied {
        project_id: 2,
        name: "two".to_string(),
        organization: None,
        result,
    };
    let stamp = |report: TriggerReport| touch_trigger_last_fired(row(), &report, 99).last_fired_at;
    assert_eq!(stamp(applied(ApplyReport::Created { evaluation_id: 9 })), Some(99));
    assert_eq!(stamp(TriggerReport::Ignored), None);
    assert_eq!(stamp(applied(ApplyReport::Failed)), Some(99));
    assert_eq!(stamp(applied(ApplyReport::SkippedConcurrency)), Some(99));
}

#[test]
fn ssh_and_web_addresses_agree_on_any_host() {
    for (host, path) in [("git.example.org", "a/b/c"), ("h", "x"), ("forge.local", "o/r.git")] {
        let ssh = normalize_repo_url(&format!("git@{host}:{path}"));
        assert_eq!(ssh, normalize_repo_url(&format!("https://{host}/{path}")));
    }
}

// ── Signatures and admission ─────────────────────────────────────────────────

#[test]
fn gitlab_matches_token_exactly() {
    let mut h = no_headers();
    h.gitlab_token = HeaderField::Text("s3cret".to_string());
    assert!(verify_forge_signature(ForgeType::GitLab, "s3cret", &h, false));
}

#[test]
fn gitlab_rejects_mismatched_token() {
    let mut h = no_headers();
    h.gitlab_token = HeaderField::Text("wrong".to_string());
    assert!(!verify_forge_signature(ForgeType::GitLab, "s3cret", &h, false));
}

#[test]
fn gitlab_rejects_missing_token() {
    assert!(!verify_forge_signature(ForgeType::GitLab, "s3cret", &no_headers(), false));
}

#[test]
fn gitea_rejects_missing_signature() {
    // Without a signature header there is nothing that could match.
    assert!(!verify_forge_signature(ForgeType::Gitea, "s3cret", &no_headers(), false));
}

#[test]
fn event_names_follow_the_forge() {
    let mut h = no_headers();
    h.gogs_event = HeaderField::Text("push".to_string());
    assert_eq!(forge_event_type(ForgeType::Gitea, &h), ForgeEvent::Push);
    h.gitea_event = HeaderField::Unreadable;
    assert_eq!(forge_event_type(ForgeType::Forgejo, &h), ForgeEvent::Unknown(String::new()));
    h.gitlab_event = HeaderField::Text("Tag Push Hook".to_string());
    assert_eq!(forge_event_type(ForgeType::GitLab, &h), ForgeEvent::Push);
}

fn gitea_push() -> ForgeHeaders {
    let mut headers = no_headers();
    headers.gitea_event = HeaderField::Text("push".to_string());
    headers
}

#[test]
fn webhooks_are_admitted_in_order() {
    let app = |configured, loaded, signed| github_app_webhook_step(configured, loaded, signed, "push");
    assert!(matches!(app(false, false, false), Err(WebError::ServiceUnavailable(_, _))));
    assert!(matches!(app(true, false, false), Err(WebError::Internal(_))));
    assert!(matches!(app(true, true, false), Err(WebError::Unauthorized(_, _))));
    assert_eq!(
        app(true, true, true).unwrap().step(),
        WebhookStep::Dispatch(PayloadKind::GitHubPush)
    );

    assert!(matches!(forge_of_route("gitea"), Ok(ForgeType::Gitea)));
    assert!(matches!(forge_of_route("github"), Err(WebError::BadRequest(_, _))));
    assert!(matches!(forge_of_route("cvs"), Err(WebError::NotFound(_, _))));

    let found = Lookup::Found;
    let headers = gitea_push();
    let step = |forge, organization, integration, secret, signed| {
        forge_webhook_step(forge, organization, integration, secret, &headers, signed)
    };
    let plain = WebhookSecret::Plain("s");
    assert!(matches!(
        step("gitea", Lookup::Missing, found, plain, true),
        Err(WebError::NotFound(_, _))
    ));
    assert!(matches!(
        step("gitea", found, Lookup::Failed, plain, true),
        Err(WebError::Internal(_))
    ));
    assert!(matches!(
        step("gitea", found, found, WebhookSecret::Missing, true),
        Err(WebError::NotFound(_, _))
    ));
    assert!(matches!(
        step("gitea", found, found, WebhookSecret::Unreadable, true),
        Err(WebError::Internal(_))
    ));
    assert!(matches!(
        step("gitea", found, found, plain, false),
        Err(WebError::Unauthorized(_, _))
    ));
    assert!(matches!(
        step("github", found, found, plain, true),
        Err(WebError::BadRequest(_, _))
    ));
    assert_eq!(
        step("gitea", found, found, plain, true).unwrap().step(),
        WebhookStep::Dispatch(PayloadKind::GiteaPush)
    );
    assert!(matches!(admit_webhook_secret_change(true, false), Err(WebError::Forbidden(_, _))));
    assert_eq!(
        delete_forge_webhook_secret(true, true).unwrap(),
        "Forge webhook secret deleted."
    );
    assert_eq!(delete_forge_webhook_secret(false, true).unwrap_err().status(), 404);
}

#[test]
fn refused_webhooks_take_no_step() {
    let found = Lookup::Found;
    let events = ["push", "pull_request", "release", "issue_comment", "unheard-of"];
    for event in events {
        let mut headers = no_headers();
        headers.gitea_event = HeaderField::Text(event.to_string());
        let refused = forge_webhook_step(
            "forgejo",
            found,
            found,
            WebhookSecret::Plain("s"),
            &headers,
            false,
        );
        assert_eq!(next_step(&refused), None);
        let dispatched = Dispatched {
            repository_urls: strings(&["u"]),
            outcome: WebhookTriggerOutcome::default(),
        };
        let answer = webhook_answer(refused, Some(dispatched)).unwrap_err();
        assert_eq!(answer.status(), 401);
        assert!(matches!(answer, WebError::Unauthorized(_, m) if m == "invalid webhook signature"));

        let refused = github_app_webhook_step(true, true, false, event);
        assert_eq!(next_step(&refused), None);
        assert_eq!(webhook_answer(refused, None).unwrap_err().status(), 401);
    }
    let mut headers = no_headers();
    headers.gitlab_event = HeaderField::Text("Push Hook".to_string());
    headers.gitlab_token = HeaderField::Text("wrong".to_string());
    let refused = forge_webhook_step(
        "gitlab",
        found,
        found,
        WebhookSecret::Plain("s"),
        &headers,
        true,
    );
    assert_eq!(next_step(&refused), None);
}

#[test]
fn admitted_webhooks_take_the_step_of_their_event() {
    let step = |event| github_app_webhook_step(true, true, true, event).unwrap().step();
    assert_eq!(step("push"), WebhookStep::Dispatch(PayloadKind::GitHubPush));
    assert_eq!(step("pull_request"), WebhookStep::Dispatch(PayloadKind::GitHubPullRequest));
    assert_eq!(step("release"), WebhookStep::Dispatch(PayloadKind::GitHubRelease));
    assert_eq!(step("installation"), WebhookStep::Installation);
    assert_eq!(step("installation_repositories"), WebhookStep::Installation);
    assert_eq!(step("check_run"), WebhookStep::CheckRun);
    assert_eq!(step("issue_comment"), WebhookStep::Comment(ForgeType::GitHub));
    assert_eq!(step("ping"), WebhookStep::Answer);

    let gitlab = |event: &str| {
        let mut headers = no_headers();
        headers.gitlab_event = HeaderField::Text(event.to_string());
        headers.gitlab_token = HeaderField::Text("s".to_string());
        let found = Lookup::Found;
        forge_webhook_step("gitlab", found, found, WebhookSecret::Plain("s"), &headers, false)
            .unwrap()
            .step()
    };
    assert_eq!(gitlab("Tag Push Hook"), WebhookStep::Dispatch(PayloadKind::GitLabPush));
    assert_eq!(
        gitlab("Merge Request Hook"),
        WebhookStep::Dispatch(PayloadKind::GitLabMergeRequest)
    );
    assert_eq!(gitlab("Release Hook"), WebhookStep::Dispatch(PayloadKind::GitLabRelease));
    assert_eq!(gitlab("Note Hook"), WebhookStep::Comment(ForgeType::GitLab));
    assert_eq!(gitlab("Wiki Hook"), WebhookStep::Answer);
}

#[test]
fn webhooks_are_answered() {
    let none = github_app_webhook(true, true, true, "push", None);
    assert!(matches!(none, Err(WebError::BadRequest(_, m)) if m == "malformed webhook payload"));
    let ping = github_app_webhook(true, true, true, "ping", None).unwrap();
    assert_eq!(ping.event, "ping");
    assert!(matches!(
        github_app_webhook(true, true, false, "ping", None),
        Err(WebError::Unauthorized(_, _))
    ));
    let headers = gitea_push();
    let answer = |signed, dispatched| {
        forge_webhook(
            "gitea",
            Lookup::Found,
            Lookup::Found,
            WebhookSecret::Plain("s"),
            &headers,
            signed,
            dispatched,
        )
    };
    let dispatched = || {
        Some(Dispatched {
            repository_urls: strings(&["u"]),
            outcome: WebhookTriggerOutcome::default(),
        })
    };
    assert_eq!(answer(false, dispatched()).unwrap_err().status(), 401);
    assert_eq!(answer(true, None).unwrap_err().status(), 400);
    let push = answer(true, dispatched()).unwrap();
    assert_eq!(push.event, "push");
    assert_eq!(push.repository_urls, strings(&["u"]));
}

#[test]
fn webhook_secret_is_sixty_four_digits() {
    let fixed = webhook_secret_response(&vec![0, 255, 16], "https://g", "org");
    assert_eq!(fixed.secret, "00ff10");
    assert_eq!(fixed.webhook_url, "https://g/api/v1/hooks/gitea/org");
    let fresh = || post_forge_webhook_secret(true, true, "https://g", "org").unwrap();
    let secret = fresh().secret;
    assert_eq!(secret.len(), 64);
    assert!(secret.chars().all(|c| c.is_ascii_hexdigit()));
    assert_ne!(secret, fresh().secret);
    assert_eq!(post_forge_webhook_secret(false, true, "", "").unwrap_err().status(), 404);
    assert_eq!(post_forge_webhook_secret(true, false, "", "").unwrap_err().status(), 403);
    assert_eq!(store_webhook_secret(Ok("c".to_string())).unwrap(), "c");
    assert!(matches!(
        store_webhook_secret(Err("no key".to_string())),
        Err(WebError::Internal(m)) if m == "Failed to encrypt webhook secret: no key"
    ));
}

#[test]
fn hexadecimal_is_read_back() {
    let bytes: Vec<u8> = (0..20).map(|i| i * 13).collect();
    let secret = webhook_secret_response(&bytes, "", "").secret;
    assert_eq!(decode_sha_hex(&secret), Some(bytes.clone()));
    assert_eq!(decode_sha_hex(&secret.to_uppercase()), Some(bytes));
}

#[test]
fn path_segments_name_forges() {
    for forge in [ForgeType::Gitea, ForgeType::Forgejo, ForgeType::GitLab, ForgeType::GitHub] {
        assert_eq!(ForgeType::from_path_segment(forge.as_str()), Some(forge));
    }
    assert_eq!(ForgeType::from_path_segment("Gitea"), None);
}

// ── Approval ─────────────────────────────────────────────────────────────────

#[test]
fn installations_are_stored_and_cleared() {
    assert_eq!(
        handle_github_installation("deleted", 4, "org"),
        InstallationChange::Clear { installation_id: 4 }
    );
    assert_eq!(
        handle_github_installation("created", 4, "org"),
        InstallationChange::Store { installation_id: 4, organization: "org".to_string() }
    );
}

#[test]
fn approval_click_needs_the_button() {
    let mut payload = CheckRunPayload {
        action: "requested_action".to_string(),
        identifier: Some("approve".to_string()),
        check_id: 11,
        full_name: Some("owner/repo".to_string()),
        sender: Some("someone".to_string()),
    };
    assert_eq!(
        approval_click(&payload, "approve"),
        Some(ApprovalClick {
            check_id: 11,
            owner: "owner".to_string(),
            repo: "repo".to_string(),
            sender: "someone".to_string(),
        })
    );
    assert!(approval_click(&payload, "other").is_none());
    payload.full_name = Some("owner".to_string());
    assert!(approval_click(&payload, "approve").is_none());
}

fn answer(owner: &str, repo: &str, sender: &str, may_write: bool) -> Option<WriterAnswer> {
    let asked = WriterProbe {
        owner: owner.to_string(),
        repo: repo.to_string(),
        sender: sender.to_string(),
    };
    Some(WriterAnswer { asked, may_write })
}

#[test]
fn clicks_release_what_writers_approve() {
    let payload = CheckRunPayload {
        action: "requested_action".to_string(),
        identifier: Some("approve".to_string()),
        check_id: 11,
        full_name: Some("o/r".to_string()),
        sender: Some("s".to_string()),
    };
    let click = approval_click(&payload, "approve").unwrap();
    assert_eq!(Some(click_probe(&click)), answer("o", "r", "s", true).map(|a| a.asked));
    let clicked = |check_id, project, has_reporter, answer| {
        Some(ClickedEvaluation { evaluation_id: 5, check_id, project, has_reporter, answer })
    };
    let yes = || answer("o", "r", "s", true);
    let release = |c: Option<ClickedEvaluation>| handle_github_check_run(&payload, "approve", &c);
    assert_eq!(release(clicked(11, Some(1), true, yes())), Some(5));
    assert_eq!(release(None), None);
    assert_eq!(release(clicked(12, Some(1), true, yes())), None);
    assert_eq!(release(clicked(11, None, true, yes())), None);
    assert_eq!(release(clicked(11, Some(1), false, yes())), None);
    assert_eq!(release(clicked(11, Some(1), true, None)), None);
    assert_eq!(release(clicked(11, Some(1), true, answer("o", "r", "s", false))), None);
    assert_eq!(release(clicked(11, Some(1), true, answer("o", "r", "t", true))), None);
    assert_eq!(
        handle_github_check_run(&payload, "other", &clicked(11, Some(1), true, yes())),
        None
    );
}

fn comment_on(number: u64, body: &str) -> CommentPayload {
    CommentPayload {
        action: Some("created".to_string()),
        comment_body: Some(body.to_string()),
        issue: Some(Some(number)),
        pull_request: None,
        sender: Some(CommentSender { login: Some("someone".to_string()), username: None }),
        full_name: Some("owner/repo".to_string()),
        has_attributes: false,
        note: None,
        noteable_type: None,
        user: None,
        path_with_namespace: None,
        merge_request_iid: None,
    }
}

#[test]
fn comments_on_pull_requests_are_commands() {
    let payload = comment_on(12, "/ci run a.*");
    let request = ci_run_of_comment(ForgeType::GitHub, &payload).unwrap();
    assert_eq!(
        Some(writer_probe(&request)),
        answer("owner", "repo", "someone", true).map(|a| a.asked)
    );
    assert_eq!(request.pr_number, 12);
    assert_eq!(request.sender, "someone");
    assert_eq!((request.owner.as_str(), request.repo.as_str()), ("owner", "repo"));
    assert_eq!(request.command, CiRunCommand::WithWildcard("a.*".to_string()));
    let prose = CommentFacts {
        body: "thanks".to_string(),
        pr_number: Some(1),
        sender: Some("s".to_string()),
        owner_repo: Some("o/r".to_string()),
    };
    assert!(ci_run_request(&prose).is_none());
    assert_eq!(
        github_comment_urls("o/r"),
        strings(&[
            "https://github.com/o/r",
            "https://github.com/o/r.git",
            "git@github.com:o/r.git",
        ])
    );
}

#[test]
fn comments_reach_integrations() {
    let candidates = vec![
        OrgCandidate { repositories: Some(strings(&["git@github.com:o/r.git"])), integration: Some(4) },
        OrgCandidate { repositories: Some(strings(&["https://github.com/o/x"])), integration: Some(5) },
    ];
    assert_eq!(comment_targets(Some(9), false, &candidates, "o/r"), Some(vec![9]));
    assert_eq!(comment_targets(None, true, &candidates, "o/r"), Some(vec![4]));
    assert_eq!(comment_targets(None, false, &candidates, "o/r"), None);
    assert_eq!(comment_targets(None, true, &candidates, "o/y"), None);
}

fn parked(evaluation_id: u128, integration: u128, pr_number: u64) -> ParkedEvaluation {
    ParkedEvaluation {
        evaluation_id,
        integration,
        pr_number,
        has_reporter: true,
        answer: answer("owner", "repo", "someone", true),
    }
}

#[test]
fn only_trusted_senders_clear_gates() {
    let about = answer("o", "r", "s", true).unwrap().asked;
    assert!(sender_is_trusted(true, &answer("o", "r", "s", true), &about));
    assert!(!sender_is_trusted(true, &answer("o", "r", "s", false), &about));
    assert!(!sender_is_trusted(true, &answer("o", "x", "s", true), &about));
    assert!(!sender_is_trusted(true, &None, &about));
    assert!(!sender_is_trusted(false, &answer("o", "r", "s", true), &about));
}

#[test]
fn ci_runs_release_what_waits_for_them() {
    let request = |command| CiRunRequest {
        command,
        pr_number: 12,
        sender: "someone".to_string(),
        owner_repo: "owner/repo".to_string(),
        owner: "owner".to_string(),
        repo: "repo".to_string(),
    };
    let waiting = vec![
        parked(1, 4, 12),
        parked(2, 4, 13),
        parked(3, 5, 12),
        ParkedEvaluation { has_reporter: false, ..parked(4, 4, 12) },
        ParkedEvaluation { answer: None, ..parked(5, 4, 12) },
        ParkedEvaluation { answer: answer("owner", "repo", "someone", false), ..parked(6, 4, 12) },
        ParkedEvaluation { answer: answer("owner", "repo", "other", true), ..parked(7, 4, 12) },
        parked(8, 4, 12),
    ];
    let plain = request(CiRunCommand::Plain);
    assert_eq!(ci_run_step(&plain, &vec![4], None, &waiting), (CiRunAction::Unpark, vec![1, 8]));
    assert_eq!(ci_run_step(&plain, &vec![5, 4], None, &waiting).1, vec![1, 3, 8]);
    assert_eq!(ci_run_step(&plain, &Vec::new(), None, &waiting).1, Vec::<u128>::new());
    let wild = request(CiRunCommand::WithWildcard("a.*".to_string()));
    assert_eq!(
        ci_run_step(&wild, &vec![4], None, &waiting),
        (CiRunAction::UnparkWithWildcard("a.*".to_string()), vec![1, 8])
    );
    assert_eq!(
        ci_run_step(&wild, &vec![4], Some("bad"), &waiting),
        (CiRunAction::Reject("Could not parse wildcard `a.*`: bad".to_string()), Vec::new())
    );
}

#[test]
fn comment_events_release_parked_evaluations() {
    let waiting = vec![parked(1, 9, 12), parked(2, 4, 12), parked(3, 9, 7)];
    let candidates = vec![OrgCandidate {
        repositories: Some(strings(&["https://github.com/owner/repo"])),
        integration: Some(4),
    }];
    let none: Vec<OrgCandidate> = Vec::new();
    let run = comment_on(12, "/ci run");
    assert_eq!(
        handle_issue_comment(ForgeType::Gitea, &run, Some(9), false, &none, None, &waiting),
        Some((CiRunAction::Unpark, vec![1]))
    );
    assert_eq!(
        handle_issue_comment(ForgeType::GitHub, &run, None, true, &candidates, None, &waiting),
        Some((CiRunAction::Unpark, vec![2]))
    );
    assert_eq!(
        handle_issue_comment(ForgeType::GitHub, &run, None, false, &candidates, None, &waiting),
        None
    );
    let prose = comment_on(12, "looks good");
    assert_eq!(
        handle_issue_comment(ForgeType::Gitea, &prose, Some(9), false, &none, None, &waiting),
        None
    );
    let wild = comment_on(12, "/ci run a..b");
    let (action, ids) =
        handle_issue_comment(ForgeType::Gitea, &wild, Some(9), false, &none, Some("empty"), &waiting)
            .unwrap();
    assert!(matches!(action, CiRunAction::Reject(_)));
    assert!(ids.is_empty());
}

// ── Statements ───────────────────────────────────────────────────────────────

#[test]
fn statements_bind_their_values() {
    let triggers = active_triggers_stmt(0, 3).to_string();
    assert!(triggers.contains("pt.trigger_type = 3 AND i.id = '00000000-0000-0000-0000-000000000000'"));
    let projects = active_projects_stmt(0, 4).to_string();
    assert!(projects.contains("trigger_type = 4"));
    let check = evaluation_by_check_stmt(55).to_string();
    assert!(check.contains("bigint = 55"));
}
