use gradient_web::error::WebResult;
use gradient_web::evals::access::{
    post_evaluation, EvalAccessContext, EvalProject, EvaluationAction, MakeEvaluationRequest,
};
use gradient_web::evals::builds::{
    get_evaluation_builds, status_rank, BuildRow, BuildsQuery, DerivationRow, OutputRow,
};
use gradient_web::evals::log::{label_lines, post_evaluation_builds, IdleStep, LogStream};
use gradient_web::evals::names::{build_list_name, drv_display_name};
use gradient_web::evals::query::{
    get_evaluation, get_evaluation_messages, BuildStatusRow, EntryPointMessageRow, EntryPointRow,
    EvaluationRow, MessageLevel, MessageRow,
};
use gradient_web::status::{BuildStatus, EvaluationStatus};

fn text(s: &str) -> String {
    s.to_string()
}

fn project() -> Option<EvalProject> {
    Some(EvalProject { organization: 5, name: text("p"), display_name: text("P") })
}

fn context() -> WebResult<EvalAccessContext> {
    EvalAccessContext::load(true, true, project(), None, Some(true), false)
}

fn no_context() -> WebResult<EvalAccessContext> {
    EvalAccessContext::load(true, true, project(), None, Some(false), false)
}

// ── Access ───────────────────────────────────────────────────────────────────

#[test]
fn missing_and_forbidden_evaluations_look_alike() {
    let load = |found, in_project, p, direct, public, member| {
        EvalAccessContext::load(found, in_project, p, direct, public, member)
    };
    for refused in [
        load(false, true, project(), None, Some(true), true),
        load(true, true, None, None, Some(true), true),
        load(true, false, None, None, Some(true), true),
        load(true, true, project(), None, None, true),
        load(true, true, project(), None, Some(false), false),
    ] {
        let e = match refused {
            Ok(_) => panic!("expected an error"),
            Err(e) => e,
        };
        assert_eq!((e.status(), e.public_message()), (404, text("Evaluation not found")));
    }
    let ctx = load(true, true, project(), None, Some(false), true).ok().unwrap();
    assert_eq!((ctx.organization_id, ctx.project_name), (5, Some(text("p"))));
    let direct = load(true, false, None, Some(8), Some(true), false).ok().unwrap();
    assert_eq!((direct.organization_id, direct.project_name), (8, None));
}

#[test]
fn only_abort_is_known() {
    let body = |method: &str| MakeEvaluationRequest { method: text(method) };
    let ask = |member, method| post_evaluation(context(), member, &body(method));
    assert!(matches!(ask(true, "abort"), Ok(EvaluationAction::Abort)));
    assert!(matches!(ask(true, "other"), Ok(EvaluationAction::Nothing)));
    assert_eq!(ask(false, "abort").err().unwrap().public_message(), "Evaluation not found");
    let hidden = post_evaluation(no_context(), true, &body("abort"));
    assert_eq!(hidden.err().unwrap().public_message(), "Evaluation not found");
}

// ── Builds ───────────────────────────────────────────────────────────────────

fn build(id: u128, derivation: u128, status: &str) -> BuildRow {
    BuildRow { id, derivation, status: text(status), updated_at: 0, build_time_ms: None }
}

fn derivation(id: u128, path: &str) -> DerivationRow {
    DerivationRow { id, derivation_path: text(path) }
}

fn listed(limit: Option<usize>, offset: Option<usize>) -> (Vec<u128>, usize, usize) {
    let builds = vec![
        build(1, 11, "Completed"),
        build(2, 12, "Queued"),
        build(3, 13, "Building"),
        build(4, 14, "Queued"),
        build(5, 15, "Building"),
        build(6, 99, "Building"),
    ];
    let derivations = vec![
        derivation(11, "/nix/store/h-a.drv"),
        derivation(12, "/nix/store/h-z.drv"),
        derivation(13, "/nix/store/h-m.drv"),
        derivation(14, "/nix/store/h-b.drv"),
        derivation(15, "/nix/store/h-source"),
    ];
    let outputs = vec![OutputRow { id: 21, derivation: 12 }];
    let page = get_evaluation_builds(
        &builds,
        &derivations,
        &outputs,
        &vec![21],
        &BuildsQuery { limit, offset },
    );
    assert!(page.builds.iter().all(|b| b.has_artefacts == (b.id == 2)));
    (page.builds.iter().map(|b| b.id).collect(), page.total, page.active_count)
}

#[test]
fn builds_are_ordered_by_status_and_name() {
    assert_eq!(listed(None, None), (vec![3, 4, 2, 1], 4, 3));
    assert_eq!(listed(Some(2), Some(1)), (vec![4, 2], 4, 3));
    assert_eq!(listed(Some(9), Some(3)), (vec![1], 4, 3));
    assert_eq!(listed(None, Some(7)), (vec![], 4, 3));
}

#[test]
fn statuses_are_ranked() {
    let ranks: Vec<u32> =
        ["Building", "Queued", "Failed", "DependencyFailed", "Substituted", "Created"]
            .iter()
            .map(|s| status_rank(s))
            .collect();
    assert_eq!(ranks, vec![0, 1, 2, 3, 4, 99]);
}

#[test]
fn names_lose_hash_and_suffix() {
    assert_eq!(drv_display_name("/nix/store/abc-hello-2.12.drv"), "hello-2.12");
    assert_eq!(build_list_name("/nix/store/abc-hello-2.12.drv"), "hello-2.12");
    assert_eq!(drv_display_name("plain"), "plain");
    assert_eq!(drv_display_name(""), "");
}

// ── Logs ─────────────────────────────────────────────────────────────────────

#[test]
fn lines_are_labelled() {
    assert_eq!(label_lines("hello", "a\nb"), "hello> a\nhello> b");
    assert_eq!(label_lines("hello", ""), "hello> ");
}

#[test]
fn logs_are_for_members() {
    assert!(post_evaluation_builds(context(), true).is_ok());
    for refused in [
        post_evaluation_builds(context(), false),
        post_evaluation_builds(no_context(), true),
    ] {
        assert_eq!(refused.err().unwrap().public_message(), "Evaluation not found");
    }
}

#[test]
fn growing_logs_are_sent_once() {
    let mut stream = LogStream::new();
    let drv = Some("/nix/store/h-x.drv");
    assert_eq!(stream.past_build(1, drv, "old"), "x> old");
    assert_eq!(stream.offset(1), 3);
    assert_eq!(stream.offset(2), 0);
    assert_eq!(stream.running_build(1, drv, "old"), None);
    assert_eq!(stream.running_build(1, drv, "old\u{fc}!"), Some(text("x> \u{fc}!")));
    assert_eq!(stream.offset(1), 6);
    assert_eq!(stream.running_build(2, None, "z"), Some(text("> z")));
    assert!(matches!(LogStream::idle(true), IdleStep::Wait));
    assert!(matches!(LogStream::idle(false), IdleStep::Finish));
}

// ── Queries ──────────────────────────────────────────────────────────────────

fn evaluation() -> EvaluationRow {
    EvaluationRow {
        id: 1,
        project: Some(2),
        repository: text("https://r"),
        commit: 3,
        wildcard: text("*"),
        status: EvaluationStatus::Completed,
        previous: None,
        next: None,
        trigger: None,
        created_at: 10,
        updated_at: 20,
    }
}

#[test]
fn evaluations_are_summed_up() {
    let ctx = EvalAccessContext {
        organization_id: 5,
        project_name: Some(text("p")),
        project_display_name: Some(text("P")),
    };
    let entry_points = vec![
        EntryPointRow { id: 1, evaluation: 1, build: 31, eval: text("a"), created_at: 0 },
        EntryPointRow { id: 2, evaluation: 1, build: 99, eval: text("b"), created_at: 0 },
    ];
    let builds = vec![BuildStatusRow { id: 31, status: BuildStatus::Completed }];
    let levels = vec![MessageLevel::Error, MessageLevel::Warning, MessageLevel::Error];
    let shown = get_evaluation(
        &evaluation(),
        &ctx,
        Some(text("abc")),
        &levels,
        &entry_points,
        &builds,
        None,
    );
    assert_eq!((shown.error_count, shown.warning_count), (2, 1));
    assert_eq!(shown.commit, "abc");
    assert_eq!(shown.project_display_name, Some(text("P")));
    assert_eq!(shown.entry_points[0].eval, "a");
}

#[test]
fn messages_name_their_entry_points() {
    let message = |id| MessageRow {
        id,
        level: MessageLevel::Notice,
        message: text("m"),
        source: None,
        created_at: 0,
    };
    let rows = vec![
        EntryPointMessageRow { message: 1, entry_point: 7 },
        EntryPointMessageRow { message: 2, entry_point: 8 },
        EntryPointMessageRow { message: 1, entry_point: 9 },
    ];
    let shown = get_evaluation_messages(&vec![message(1), message(3)], &rows);
    assert_eq!(shown[0].entry_points, vec![7, 9]);
    assert!(shown[1].entry_points.is_empty());
}
