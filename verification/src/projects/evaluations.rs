//! Evaluations of a project.

use crate::error::{ErrorCode, ErrorModel, WebError, WebResult};
use crate::evals::builds::{artefacts_of, has_products, output_ids, OutputRow};
use crate::evals::query::{
    index_builds, status_ids, status_of, BuildStatusRow, EntryPointRow, EvaluationRow,
};
use crate::helpers::{Id, Timestamp};
use crate::rows::{
    count_where, last_index, lemma_count_step, lemma_count_whole, IdIndex,
};
use crate::status::{BuildStatus, EvaluationStatus};
use crate::text::{opt_view, cat, same};
use vstd::prelude::*;

verus! {

// ── Summaries ────────────────────────────────────────────────────────────────

/// A commit and its hash in hexadecimal.
pub struct CommitRow {
    pub id: Id,
    pub hash: String,
}

/// A trigger of a known type.
#[derive(Clone, Copy)]
pub struct TriggerTypeRow {
    pub id: Id,
    /// The number of the type.
    pub trigger_type: i16,
}

/// A build of an evaluation.
#[derive(Clone, Copy)]
pub struct EvaluationBuildRow {
    pub evaluation: Id,
    pub status: BuildStatus,
}

#[derive(Debug, Clone, Copy, PartialEq, Eq, Structural)]
pub struct EvaluationTriggerSummary {
    pub id: Id,
    pub trigger_type: i16,
}

pub struct EvaluationSummary {
    pub id: Id,
    pub commit: String,
    pub status: EvaluationStatus,
    pub trigger: Option<EvaluationTriggerSummary>,
    pub total_builds: i64,
    pub failed_builds: i64,
    pub completed_entry_points: i64,
    pub failed_entry_points: i64,
    pub entry_point_diff: Option<i64>,
    pub created_at: Timestamp,
    pub updated_at: Timestamp,
}

/// The rows that summaries are made of, besides the evaluations.
pub struct SummaryRows {
    pub commits: Vec<CommitRow>,
    pub triggers: Vec<TriggerTypeRow>,
    /// The builds of the evaluations.
    pub builds: Vec<EvaluationBuildRow>,
    /// The entry points of the evaluations and of their predecessors.
    pub entry_points: Vec<EntryPointRow>,
    /// The builds of the entry points.
    pub entry_point_builds: Vec<BuildStatusRow>,
}

/// The identifiers of commit rows.
pub open spec fn commit_ids(rows: Seq<CommitRow>) -> Seq<Id> {
    rows.map_values(|c: CommitRow| c.id)
}

/// The identifiers of trigger rows.
pub open spec fn trigger_ids(rows: Seq<TriggerTypeRow>) -> Seq<Id> {
    rows.map_values(|t: TriggerTypeRow| t.id)
}

/// The builds of an evaluation.
pub open spec fn builds_of(id: Id) -> spec_fn(EvaluationBuildRow) -> bool {
    |b: EvaluationBuildRow| b.evaluation == id
}

/// The failed builds of an evaluation.
pub open spec fn failures_of(id: Id) -> spec_fn(EvaluationBuildRow) -> bool {
    |b: EvaluationBuildRow| b.evaluation == id && b.status.failed()
}

/// The entry points of an evaluation.
pub open spec fn points_of(id: Id) -> spec_fn(EntryPointRow) -> bool {
    |ep: EntryPointRow| ep.evaluation == id
}

/// The entry points of an evaluation whose outputs are there.
pub open spec fn completed_points_of(id: Id, builds: Seq<BuildStatusRow>) -> spec_fn(
    EntryPointRow,
) -> bool {
    |ep: EntryPointRow|
        ep.evaluation == id && (status_of(builds, ep.build) matches Some(s) && s.succeeded())
}

/// The entry points of an evaluation whose build failed.
pub open spec fn failed_points_of(id: Id, builds: Seq<BuildStatusRow>) -> spec_fn(
    EntryPointRow,
) -> bool {
    |ep: EntryPointRow|
        ep.evaluation == id && (status_of(builds, ep.build) matches Some(s) && s.failed())
}

impl SummaryRows {
    /// The number of entry points of an evaluation.
    pub open spec fn points(self, id: Id) -> int {
        count_where(self.entry_points@, points_of(id)) as int
    }

    /// The counts fit in the fields that report them.
    pub open spec fn fits(self) -> bool {
        self.builds@.len() <= i64::MAX && self.entry_points@.len() <= i64::MAX
    }

    /// `s` summarises the evaluation `e`.
    pub open spec fn summarises(self, s: EvaluationSummary, e: EvaluationRow) -> bool {
        &&& s.id == e.id
        &&& s.status == e.status
        &&& s.created_at == e.created_at
        &&& s.updated_at == e.updated_at
        &&& s.commit@ == match last_index(commit_ids(self.commits@), e.commit) {
            Some(k) => self.commits@[k].hash@,
            None => Seq::empty(),
        }
        &&& s.trigger == match e.trigger {
            Some(id) => match last_index(trigger_ids(self.triggers@), id) {
                Some(k) => Some(
                    EvaluationTriggerSummary {
                        id,
                        trigger_type: self.triggers@[k].trigger_type,
                    },
                ),
                None => None,
            },
            None => None,
        }
        &&& s.total_builds == count_where(self.builds@, builds_of(e.id))
        &&& s.failed_builds == count_where(self.builds@, failures_of(e.id))
        &&& s.completed_entry_points == count_where(
            self.entry_points@,
            completed_points_of(e.id, self.entry_point_builds@),
        )
        &&& s.failed_entry_points == count_where(
            self.entry_points@,
            failed_points_of(e.id, self.entry_point_builds@),
        )
        &&& match e.previous {
            Some(p) => s.entry_point_diff matches Some(d)
                && d == self.points(e.id) - self.points(p),
            None => s.entry_point_diff is None,
        }
    }
}

fn count_builds(builds: &Vec<EvaluationBuildRow>, id: Id) -> (r: (i64, i64))
    requires
        builds@.len() <= i64::MAX,
    ensures
        r.0 == count_where(builds@, builds_of(id)),
        r.1 == count_where(builds@, failures_of(id)),
{
    let ghost p = builds_of(id);
    let ghost q = failures_of(id);
    let mut total: i64 = 0;
    let mut failed: i64 = 0;
    let mut i: usize = 0;
    proof {
        lemma_count_whole(builds@, p);
        lemma_count_whole(builds@, q);
    }
    while i < builds.len()
        invariant
            i <= builds.len(),
            builds@.len() <= i64::MAX,
            p == builds_of(id),
            q == failures_of(id),
            total == count_where(builds@.take(i as int), p),
            failed == count_where(builds@.take(i as int), q),
            0 <= total <= i,
            0 <= failed <= i,
        decreases builds.len() - i,
    {
        proof {
            lemma_count_step(builds@, p, i as int);
            lemma_count_step(builds@, q, i as int);
        }
        if builds[i].evaluation == id {
            total += 1;
            if builds[i].status.is_failure() {
                failed += 1;
            }
        }
        i += 1;
    }
    (total, failed)
}

fn count_points(entry_points: &Vec<EntryPointRow>, id: Id) -> (r: i64)
    requires
        entry_points@.len() <= i64::MAX,
    ensures
        r == count_where(entry_points@, points_of(id)),
        0 <= r,
{
    let ghost p = points_of(id);
    let mut total: i64 = 0;
    let mut i: usize = 0;
    proof {
        lemma_count_whole(entry_points@, p);
    }
    while i < entry_points.len()
        invariant
            i <= entry_points.len(),
            entry_points@.len() <= i64::MAX,
            p == points_of(id),
            total == count_where(entry_points@.take(i as int), p),
            0 <= total <= i,
        decreases entry_points.len() - i,
    {
        proof {
            lemma_count_step(entry_points@, p, i as int);
        }
        if entry_points[i].evaluation == id {
            total += 1;
        }
        i += 1;
    }
    total
}

fn count_point_results(
    entry_points: &Vec<EntryPointRow>,
    builds: &Vec<BuildStatusRow>,
    index: &IdIndex,
    id: Id,
) -> (r: (i64, i64))
    requires
        entry_points@.len() <= i64::MAX,
        index.wf(),
        index@ == status_ids(builds@),
    ensures
        r.0 == count_where(entry_points@, completed_points_of(id, builds@)),
        r.1 == count_where(entry_points@, failed_points_of(id, builds@)),
{
    let ghost p = completed_points_of(id, builds@);
    let ghost q = failed_points_of(id, builds@);
    let mut completed: i64 = 0;
    let mut failed: i64 = 0;
    let mut i: usize = 0;
    proof {
        lemma_count_whole(entry_points@, p);
        lemma_count_whole(entry_points@, q);
    }
    while i < entry_points.len()
        invariant
            i <= entry_points.len(),
            entry_points@.len() <= i64::MAX,
            index.wf(),
            index@ == status_ids(builds@),
            p == completed_points_of(id, builds@),
            q == failed_points_of(id, builds@),
            completed == count_where(entry_points@.take(i as int), p),
            failed == count_where(entry_points@.take(i as int), q),
            0 <= completed <= i,
            0 <= failed <= i,
        decreases entry_points.len() - i,
    {
        proof {
            lemma_count_step(entry_points@, p, i as int);
            lemma_count_step(entry_points@, q, i as int);
        }
        let ep = &entry_points[i];
        if ep.evaluation == id {
            if let Some(k) = index.find(ep.build) {
                let s = builds[k].status;
                if s.is_success() {
                    completed += 1;
                } else if s.is_failure() {
                    failed += 1;
                }
            }
        }
        i += 1;
    }
    (completed, failed)
}

/// Builds one [`EvaluationSummary`] per evaluation.
pub fn evaluations_to_summaries(evaluations: &Vec<EvaluationRow>, rows: &SummaryRows) -> (r: Vec<
    EvaluationSummary,
>)
    requires
        rows.fits(),
    ensures
        r@.len() == evaluations@.len(),
        forall|i: int| 0 <= i < r@.len() ==> rows.summarises(#[trigger] r@[i], evaluations@[i]),
{
    let mut ids: Vec<Id> = Vec::new();
    let mut c: usize = 0;
    while c < rows.commits.len()
        invariant
            c <= rows.commits.len(),
            ids@ == commit_ids(rows.commits@).take(c as int),
        decreases rows.commits.len() - c,
    {
        ids.push(rows.commits[c].id);
        c += 1;
    }
    assert(commit_ids(rows.commits@).take(c as int) =~= commit_ids(rows.commits@));
    let commits = IdIndex::new(ids);
    let mut tids: Vec<Id> = Vec::new();
    let mut t: usize = 0;
    while t < rows.triggers.len()
        invariant
            t <= rows.triggers.len(),
            tids@ == trigger_ids(rows.triggers@).take(t as int),
        decreases rows.triggers.len() - t,
    {
        tids.push(rows.triggers[t].id);
        t += 1;
    }
    assert(trigger_ids(rows.triggers@).take(t as int) =~= trigger_ids(rows.triggers@));
    let triggers = IdIndex::new(tids);
    let builds = index_builds(&rows.entry_point_builds);
    let mut out: Vec<EvaluationSummary> = Vec::new();
    let mut i: usize = 0;
    while i < evaluations.len()
        invariant
            i <= evaluations.len(),
            rows.fits(),
            commits.wf(),
            commits@ == commit_ids(rows.commits@),
            triggers.wf(),
            triggers@ == trigger_ids(rows.triggers@),
            builds.wf(),
            builds@ == status_ids(rows.entry_point_builds@),
            out@.len() == i,
            forall|j: int| 0 <= j < i ==> rows.summarises(#[trigger] out@[j], evaluations@[j]),
        decreases evaluations.len() - i,
    {
        let e = &evaluations[i];
        let commit = match commits.find(e.commit) {
            Some(k) => rows.commits[k].hash.clone(),
            None => String::new(),
        };
        let trigger = match e.trigger {
            Some(id) => match triggers.find(id) {
                Some(k) => Some(
                    EvaluationTriggerSummary { id, trigger_type: rows.triggers[k].trigger_type },
                ),
                None => None,
            },
            None => None,
        };
        let (total_builds, failed_builds) = count_builds(&rows.builds, e.id);
        let (completed_entry_points, failed_entry_points) = count_point_results(
            &rows.entry_points,
            &rows.entry_point_builds,
            &builds,
            e.id,
        );
        let entry_point_diff = match e.previous {
            Some(p) => {
                let d: i64 = count_points(&rows.entry_points, e.id) - count_points(
                    &rows.entry_points,
                    p,
                );
                Some(d)
            },
            None => None,
        };
        out.push(
            EvaluationSummary {
                id: e.id,
                commit,
                status: e.status,
                trigger,
                total_builds,
                failed_builds,
                completed_entry_points,
                failed_entry_points,
                entry_point_diff,
                created_at: e.created_at,
                updated_at: e.updated_at,
            },
        );
        i += 1;
    }
    out
}

proof fn lemma_counts_disjoint<T>(
    s: Seq<T>,
    p: spec_fn(T) -> bool,
    q: spec_fn(T) -> bool,
    whole: spec_fn(T) -> bool,
)
    requires
        forall|x: T| #[trigger] p(x) ==> whole(x) && !q(x),
        forall|x: T| #[trigger] q(x) ==> whole(x),
    ensures
        count_where(s, p) + count_where(s, q) <= count_where(s, whole),
    decreases s.len(),
{
    if s.len() > 0 {
        lemma_counts_disjoint(s.drop_last(), p, q, whole);
    }
}

proof fn lemma_count_subset<T>(s: Seq<T>, p: spec_fn(T) -> bool, whole: spec_fn(T) -> bool)
    requires
        forall|x: T| #[trigger] p(x) ==> whole(x),
    ensures
        count_where(s, p) <= count_where(s, whole),
    decreases s.len(),
{
    if s.len() > 0 {
        lemma_count_subset(s.drop_last(), p, whole);
    }
}

/// A summary is consistent in itself: no more builds failed than there are, and
/// no entry point is both completed and failed.
pub proof fn law_summary_is_consistent(
    rows: SummaryRows,
    s: EvaluationSummary,
    e: EvaluationRow,
)
    requires
        rows.summarises(s, e),
    ensures
        0 <= s.failed_builds <= s.total_builds,
        0 <= s.completed_entry_points + s.failed_entry_points <= rows.points(e.id),
{
    lemma_count_subset(rows.builds@, failures_of(e.id), builds_of(e.id));
    lemma_counts_disjoint(
        rows.entry_points@,
        completed_points_of(e.id, rows.entry_point_builds@),
        failed_points_of(e.id, rows.entry_point_builds@),
        points_of(e.id),
    );
}

// ── Starting an evaluation ───────────────────────────────────────────────────

/// Why an evaluation could not be queued.
pub enum TriggerError {
    AlreadyInProgress,
    NoPreviousEvaluation,
    /// The database failed, and reported this.
    Db(String),
}

/// What a request to evaluate a project asks for.
#[derive(Debug, Clone, Copy, PartialEq, Eq, Structural)]
pub enum EvaluateMode {
    /// Skip fetching and evaluating, and queue the failed builds of the last
    /// evaluation again.
    RestartFailed,
    Normal,
}

#[derive(Debug, PartialEq, Eq)]
pub struct EvaluateRequest {
    /// Optional mode controlling how the evaluation is triggered.
    /// `"restart_failed"` skips fetch+eval and re-queues failed builds from the
    /// most recent evaluation. Omit or `null` for a normal evaluation.
    pub mode: Option<String>,
}

/// What the mode of a request asks for. Any mode but "restart_failed" is a
/// normal evaluation.
pub fn evaluate_mode(body: Option<&EvaluateRequest>) -> (r: EvaluateMode)
    ensures
        r == (if body is Some && opt_view(body->0.mode) == Some("restart_failed"@) {
            EvaluateMode::RestartFailed
        } else {
            EvaluateMode::Normal
        }),
{
    if let Some(b) = body {
        if let Some(m) = &b.mode {
            if same(m.as_str(), "restart_failed") {
                return EvaluateMode::RestartFailed;
            }
        }
    }
    EvaluateMode::Normal
}

/// The message that answers a request to evaluate a project, once the
/// evaluation was queued or not. `fetched` says, for a normal evaluation, why the
/// state of the repository could not be fetched, if it could not.
pub fn post_project_evaluate(
    mode: EvaluateMode,
    fetched: Result<(), String>,
    queued: Result<(), TriggerError>,
) -> (r: WebResult<String>)
    ensures
        match (mode, fetched, queued) {
            (EvaluateMode::RestartFailed, _, Ok(_)) => r matches Ok(m) && m@
                == "Restarting failed builds"@,
            (EvaluateMode::RestartFailed, _, Err(TriggerError::NoPreviousEvaluation)) => r matches Err(
                e,
            ) && e@ == ErrorModel::bad_request("No previous evaluation to restart from"@),
            (EvaluateMode::Normal, Err(why), _) => r matches Err(e) && e@
                == ErrorModel::bad_request_with(
                ErrorCode::REPOSITORY_UNREACHABLE,
                "Failed to fetch repository state: "@ + why@,
            ),
            (EvaluateMode::Normal, Ok(_), Ok(_)) => r matches Ok(m) && m@ == "Evaluation started"@,
            (EvaluateMode::Normal, Ok(_), Err(TriggerError::NoPreviousEvaluation)) => r matches Err(
                e,
            ) && e@ == ErrorModel::internal("Unexpected error"@),
            (_, _, Err(TriggerError::AlreadyInProgress)) => r matches Err(e) && e@
                == ErrorModel::bad_request("Evaluation already in progress"@),
            (_, _, Err(TriggerError::Db(detail))) => r matches Err(e) && e@ == ErrorModel::internal(
                detail@,
            ),
        },
{
    match mode {
        EvaluateMode::RestartFailed => match queued {
            Ok(_) => Ok("Restarting failed builds".to_owned()),
            Err(TriggerError::AlreadyInProgress) => Err(
                WebError::bad_request("Evaluation already in progress"),
            ),
            Err(TriggerError::NoPreviousEvaluation) => Err(
                WebError::bad_request("No previous evaluation to restart from"),
            ),
            Err(TriggerError::Db(detail)) => Err(WebError::internal(detail.as_str())),
        },
        EvaluateMode::Normal => match fetched {
            Err(why) => Err(
                WebError::bad_request_with(
                    ErrorCode::REPOSITORY_UNREACHABLE,
                    cat("Failed to fetch repository state: ", why.as_str()).as_str(),
                ),
            ),
            Ok(_) => match queued {
                Ok(_) => Ok("Evaluation started".to_owned()),
                Err(TriggerError::AlreadyInProgress) => Err(
                    WebError::bad_request("Evaluation already in progress"),
                ),
                Err(TriggerError::NoPreviousEvaluation) => Err(
                    WebError::internal("Unexpected error"),
                ),
                Err(TriggerError::Db(detail)) => Err(WebError::internal(detail.as_str())),
            },
        },
    }
}

// ── Details ──────────────────────────────────────────────────────────────────

/// A project, as the database holds it.
pub struct ProjectRow {
    pub id: Id,
    pub organization: Id,
    pub name: String,
    pub active: bool,
    pub display_name: String,
    pub description: String,
    pub repository: String,
    pub wildcard: String,
    pub last_evaluation: Option<Id>,
    pub last_check_at: Timestamp,
    pub force_evaluation: bool,
    pub keep_evaluations: i32,
    pub created_by: Id,
    pub created_at: Timestamp,
    pub managed: bool,
}

/// What the caller may do with a project.
#[derive(Debug, Clone, Copy, PartialEq, Eq, Structural)]
pub struct ProjectRights {
    pub can_edit: bool,
    pub can_trigger: bool,
}

/// What the caller may do with a project: nothing without a session.
pub fn project_rights(session: Option<ProjectRights>) -> (r: ProjectRights)
    ensures
        r == match session {
            Some(x) => x,
            None => ProjectRights { can_edit: false, can_trigger: false },
        },
{
    match session {
        Some(x) => x,
        None => ProjectRights { can_edit: false, can_trigger: false },
    }
}

pub struct ProjectDetailsResponse {
    pub id: Id,
    pub name: String,
    pub display_name: String,
    pub description: String,
    pub repository: String,
    pub wildcard: String,
    pub active: bool,
    pub created_at: Timestamp,
    pub keep_evaluations: i32,
    pub last_evaluations: Vec<EvaluationSummary>,
    pub can_edit: bool,
    pub can_trigger: bool,
    pub managed: bool,
}

/// The number of evaluations that the details of a project show.
pub const DETAIL_EVALUATIONS: u64 = 5;

/// The details of a project with its latest evaluations.
pub fn get_project_details(
    project: &ProjectRow,
    evaluations: &Vec<EvaluationRow>,
    rows: &SummaryRows,
    session: Option<ProjectRights>,
) -> (r: ProjectDetailsResponse)
    requires
        rows.fits(),
    ensures
        r.id == project.id,
        r.name == project.name,
        r.display_name == project.display_name,
        r.description == project.description,
        r.repository == project.repository,
        r.wildcard == project.wildcard,
        r.active == project.active,
        r.created_at == project.created_at,
        r.keep_evaluations == project.keep_evaluations,
        r.managed == project.managed,
        r.can_edit == (session is Some && session->0.can_edit),
        r.can_trigger == (session is Some && session->0.can_trigger),
        r.last_evaluations@.len() == evaluations@.len(),
        forall|i: int|
            0 <= i < evaluations@.len() ==> rows.summarises(
                #[trigger] r.last_evaluations@[i],
                evaluations@[i],
            ),
{
    let rights = project_rights(session);
    ProjectDetailsResponse {
        id: project.id,
        name: project.name.clone(),
        display_name: project.display_name.clone(),
        description: project.description.clone(),
        repository: project.repository.clone(),
        wildcard: project.wildcard.clone(),
        active: project.active,
        created_at: project.created_at,
        keep_evaluations: project.keep_evaluations,
        last_evaluations: evaluations_to_summaries(evaluations, rows),
        can_edit: rights.can_edit,
        can_trigger: rights.can_trigger,
        managed: project.managed,
    }
}

// ── Entry points ─────────────────────────────────────────────────────────────

#[derive(Debug, Clone, Copy, PartialEq, Eq, Structural)]
pub struct EntryPointsQuery {
    pub evaluation_id: Option<Id>,
}

/// The evaluation whose entry points are asked for: the one that the request
/// names, or the last one of the project.
pub fn entry_points_evaluation(query: &EntryPointsQuery, last_evaluation: Option<Id>) -> (r: Option<
    Id,
>)
    ensures
        r == if query.evaluation_id is Some {
            query.evaluation_id
        } else {
            last_evaluation
        },
{
    match query.evaluation_id {
        Some(id) => Some(id),
        None => last_evaluation,
    }
}

/// Whether an evaluation is one of the project; `evaluation` holds the project
/// it belongs to, where it was found. One of another project counts as missing.
pub fn check_evaluation_project(evaluation: Option<Option<Id>>, project: Id) -> (r: WebResult<()>)
    ensures
        r is Ok <==> evaluation == Some(Some(project)),
        r matches Err(e) ==> e@ == ErrorModel::not_found("Evaluation"@),
{
    match evaluation {
        Some(Some(p)) => if p == project {
            Ok(())
        } else {
            Err(WebError::not_found("Evaluation"))
        },
        _ => Err(WebError::not_found("Evaluation")),
    }
}

/// A build of an entry point.
pub struct EntryPointBuildRow {
    pub id: Id,
    pub derivation: Id,
    pub status: BuildStatus,
    /// The status that the API shows.
    pub api_status: BuildStatus,
}

/// A derivation of an entry point.
pub struct EntryPointDerivationRow {
    pub id: Id,
    pub store_path: String,
    pub architecture: String,
}

pub struct EntryPointSummary {
    pub id: Id,
    pub build_id: Id,
    pub derivation_path: String,
    pub eval: String,
    pub build_status: BuildStatus,
    pub has_artefacts: bool,
    pub architecture: String,
    pub evaluation_id: Id,
    pub evaluation_status: EvaluationStatus,
    pub created_at: Timestamp,
}

/// All data needed to render a list of [`EntryPointSummary`] records.
pub struct EntryPointRelatedData {
    pub builds: Vec<EntryPointBuildRow>,
    pub derivations: Vec<EntryPointDerivationRow>,
    /// The outputs of the derivations whose build succeeded.
    pub outputs: Vec<OutputRow>,
    /// For each build product of these outputs, the output.
    pub products: Vec<Id>,
}

/// The identifiers of the builds.
pub open spec fn ep_build_ids(rows: Seq<EntryPointBuildRow>) -> Seq<Id> {
    rows.map_values(|b: EntryPointBuildRow| b.id)
}

/// The identifiers of the derivations.
pub open spec fn ep_derivation_ids(rows: Seq<EntryPointDerivationRow>) -> Seq<Id> {
    rows.map_values(|d: EntryPointDerivationRow| d.id)
}

/// The derivations of the builds that succeeded, in order.
pub open spec fn succeeded_derivations(builds: Seq<EntryPointBuildRow>) -> Seq<Id>
    decreases builds.len(),
{
    if builds.len() == 0 {
        Seq::empty()
    } else if builds.last().status.succeeded() {
        succeeded_derivations(builds.drop_last()).push(builds.last().derivation)
    } else {
        succeeded_derivations(builds.drop_last())
    }
}

/// The derivations whose outputs are looked up: those of builds that succeeded.
pub fn completed_derivations(builds: &Vec<EntryPointBuildRow>) -> (r: Vec<Id>)
    ensures
        r@ == succeeded_derivations(builds@),
{
    let mut out: Vec<Id> = Vec::new();
    let mut i: usize = 0;
    proof {
        assert(builds@.take(0) =~= Seq::<EntryPointBuildRow>::empty());
    }
    while i < builds.len()
        invariant
            i <= builds.len(),
            out@ == succeeded_derivations(builds@.take(i as int)),
        decreases builds.len() - i,
    {
        proof {
            assert(builds@.take(i as int + 1).drop_last() =~= builds@.take(i as int));
            assert(builds@.take(i as int + 1).last() == builds@[i as int]);
        }
        if builds[i].status.is_success() {
            out.push(builds[i].derivation);
        }
        i += 1;
    }
    assert(builds@.take(i as int) =~= builds@);
    out
}

impl EntryPointRelatedData {
    /// The summary of an entry point; there is none when its build or its
    /// derivation is not known.
    pub open spec fn summary_of(
        self,
        ep: EntryPointRow,
        evaluation: Id,
        status: EvaluationStatus,
    ) -> Option<EntryPointSummary> {
        match last_index(ep_build_ids(self.builds@), ep.build) {
            Some(b) => {
                let build = self.builds@[b];
                match last_index(ep_derivation_ids(self.derivations@), build.derivation) {
                    Some(d) => Some(
                        EntryPointSummary {
                            id: ep.id,
                            build_id: build.id,
                            derivation_path: self.derivations@[d].store_path,
                            eval: ep.eval,
                            build_status: build.api_status,
                            has_artefacts: has_products(
                                self.outputs@,
                                self.products@,
                                build.derivation,
                            ),
                            architecture: self.derivations@[d].architecture,
                            evaluation_id: evaluation,
                            evaluation_status: status,
                            created_at: ep.created_at,
                        },
                    ),
                    None => None,
                }
            },
            None => None,
        }
    }

    /// The summaries of the entry points that have one, in order.
    pub open spec fn summaries_of(
        self,
        entry_points: Seq<EntryPointRow>,
        evaluation: Id,
        status: EvaluationStatus,
    ) -> Seq<EntryPointSummary>
        decreases entry_points.len(),
    {
        if entry_points.len() == 0 {
            Seq::empty()
        } else {
            let before = self.summaries_of(entry_points.drop_last(), evaluation, status);
            match self.summary_of(entry_points.last(), evaluation, status) {
                Some(s) => before.push(s),
                None => before,
            }
        }
    }

    /// Assemble summary records for `entry_points` using pre-loaded data.
    pub fn build_summaries(
        &self,
        entry_points: &Vec<EntryPointRow>,
        evaluation: Id,
        status: EvaluationStatus,
    ) -> (r: Vec<EntryPointSummary>)
        ensures
            r@ == self.summaries_of(entry_points@, evaluation, status),
    {
        let mut ids: Vec<Id> = Vec::new();
        let mut b: usize = 0;
        while b < self.builds.len()
            invariant
                b <= self.builds.len(),
                ids@ == ep_build_ids(self.builds@).take(b as int),
            decreases self.builds.len() - b,
        {
            ids.push(self.builds[b].id);
            b += 1;
        }
        assert(ep_build_ids(self.builds@).take(b as int) =~= ep_build_ids(self.builds@));
        let builds = IdIndex::new(ids);
        let mut dids: Vec<Id> = Vec::new();
        let mut d: usize = 0;
        while d < self.derivations.len()
            invariant
                d <= self.derivations.len(),
                dids@ == ep_derivation_ids(self.derivations@).take(d as int),
            decreases self.derivations.len() - d,
        {
            dids.push(self.derivations[d].id);
            d += 1;
        }
        assert(ep_derivation_ids(self.derivations@).take(d as int) =~= ep_derivation_ids(
            self.derivations@,
        ));
        let derivations = IdIndex::new(dids);
        let mut out_ids: Vec<Id> = Vec::new();
        let mut o: usize = 0;
        while o < self.outputs.len()
            invariant
                o <= self.outputs.len(),
                out_ids@ == output_ids(self.outputs@).take(o as int),
            decreases self.outputs.len() - o,
        {
            out_ids.push(self.outputs[o].id);
            o += 1;
        }
        assert(output_ids(self.outputs@).take(o as int) =~= output_ids(self.outputs@));
        let mut out: Vec<EntryPointSummary> = Vec::new();
        let mut i: usize = 0;
        proof {
            assert(entry_points@.take(0) =~= Seq::<EntryPointRow>::empty());
        }
        while i < entry_points.len()
            invariant
                i <= entry_points.len(),
                builds.wf(),
                builds@ == ep_build_ids(self.builds@),
                derivations.wf(),
                derivations@ == ep_derivation_ids(self.derivations@),
                out_ids@ == output_ids(self.outputs@),
                out@ == self.summaries_of(entry_points@.take(i as int), evaluation, status),
            decreases entry_points.len() - i,
        {
            let ep = &entry_points[i];
            proof {
                assert(entry_points@.take(i as int
                    + 1).drop_last() =~= entry_points@.take(i as int));
                assert(entry_points@.take(i as int + 1).last() == entry_points@[i as int]);
            }
            if let Some(k) = builds.find(ep.build) {
                let build = &self.builds[k];
                if let Some(j) = derivations.find(build.derivation) {
                    let drv = &self.derivations[j];
                    out.push(
                        EntryPointSummary {
                            id: ep.id,
                            build_id: build.id,
                            derivation_path: drv.store_path.clone(),
                            eval: ep.eval.clone(),
                            build_status: build.api_status,
                            has_artefacts: artefacts_of(
                                &self.outputs,
                                &out_ids,
                                &self.products,
                                build.derivation,
                            ),
                            architecture: drv.architecture.clone(),
                            evaluation_id: evaluation,
                            evaluation_status: status,
                            created_at: ep.created_at,
                        },
                    );
                }
            }
            i += 1;
        }
        assert(entry_points@.take(i as int) =~= entry_points@);
        out
    }
}

/// The evaluation that a request for entry points is about.
pub struct FoundEvaluation {
    pub id: Id,
    pub project: Option<Id>,
    pub status: EvaluationStatus,
}

/// The entry points of an evaluation of the project `project`. `wanted` says
/// whether the request or the project names an evaluation at all, `found` is
/// what the database has under that name.
pub fn get_project_entry_points(
    wanted: bool,
    found: Option<FoundEvaluation>,
    project: Id,
    entry_points: &Vec<EntryPointRow>,
    data: &EntryPointRelatedData,
) -> (r: WebResult<Vec<EntryPointSummary>>)
    ensures
        !wanted ==> (r matches Ok(v) && v@.len() == 0),
        wanted ==> match found {
            Some(e) if e.project == Some(project) => r matches Ok(v) && v@ == data.summaries_of(
                entry_points@,
                e.id,
                e.status,
            ),
            _ => r matches Err(e) && e@ == ErrorModel::not_found("Evaluation"@),
        },
{
    if !wanted {
        return Ok(Vec::new());
    }
    match found {
        None => Err(WebError::not_found("Evaluation")),
        Some(e) => {
            match check_evaluation_project(Some(e.project), project) {
                Err(err) => {
                    return Err(err);
                },
                Ok(_) => {},
            }
            Ok(data.build_summaries(entry_points, e.id, e.status))
        },
    }
}

// ── Laws ─────────────────────────────────────────────────────────────────────

/// A summary counts the builds of its evaluation, and of those the ones that failed for good or
/// ran out of time.
pub proof fn law_summaries_count_builds(
    evaluations: Vec<EvaluationRow>,
    rows: SummaryRows,
    r: Vec<EvaluationSummary>,
    i: int,
)
    requires
        rows.fits(),
        call_ensures(evaluations_to_summaries, (&evaluations, &rows), r),
        0 <= i < evaluations@.len(),
    ensures
        r@.len() == evaluations@.len(),
        r@[i].id == evaluations@[i].id,
        r@[i].status == evaluations@[i].status,
        r@[i].created_at == evaluations@[i].created_at,
        r@[i].updated_at == evaluations@[i].updated_at,
        r@[i].total_builds == count_where(
            rows.builds@,
            |b: EvaluationBuildRow| b.evaluation == evaluations@[i].id,
        ),
        r@[i].failed_builds == count_where(
            rows.builds@,
            |b: EvaluationBuildRow|
                b.evaluation == evaluations@[i].id && (b.status is FailedPermanent
                    || b.status is FailedTimeout),
        ),
{
    let e = evaluations@[i];
    assert(rows.summarises(r@[i], e));
    crate::rows::lemma_count_agrees(
        rows.builds@,
        builds_of(e.id),
        |b: EvaluationBuildRow| b.evaluation == e.id,
    );
    crate::rows::lemma_count_agrees(
        rows.builds@,
        failures_of(e.id),
        |b: EvaluationBuildRow|
            b.evaluation == e.id && (b.status is FailedPermanent || b.status is FailedTimeout),
    );
}

/// A summary counts the entry points of its evaluation by the status of their build: completed
/// where it completed or was substituted, failed where it failed for good or ran out of time. It
/// has the difference to the number of entry points of the previous evaluation, where there is
/// one.
pub proof fn law_summaries_count_entry_points(
    evaluations: Vec<EvaluationRow>,
    rows: SummaryRows,
    r: Vec<EvaluationSummary>,
    i: int,
)
    requires
        rows.fits(),
        call_ensures(evaluations_to_summaries, (&evaluations, &rows), r),
        0 <= i < evaluations@.len(),
    ensures
        r@[i].completed_entry_points == count_where(
            rows.entry_points@,
            |ep: EntryPointRow|
                ep.evaluation == evaluations@[i].id && (status_of(
                    rows.entry_point_builds@,
                    ep.build,
                ) == Some(BuildStatus::Completed) || status_of(
                    rows.entry_point_builds@,
                    ep.build,
                ) == Some(BuildStatus::Substituted)),
        ),
        r@[i].failed_entry_points == count_where(
            rows.entry_points@,
            |ep: EntryPointRow|
                ep.evaluation == evaluations@[i].id && (status_of(
                    rows.entry_point_builds@,
                    ep.build,
                ) == Some(BuildStatus::FailedPermanent) || status_of(
                    rows.entry_point_builds@,
                    ep.build,
                ) == Some(BuildStatus::FailedTimeout)),
        ),
        evaluations@[i].previous is None ==> r@[i].entry_point_diff is None,
        evaluations@[i].previous matches Some(p) ==> r@[i].entry_point_diff is Some
            && r@[i].entry_point_diff->0 == count_where(
            rows.entry_points@,
            |ep: EntryPointRow| ep.evaluation == evaluations@[i].id,
        ) - count_where(rows.entry_points@, |ep: EntryPointRow| ep.evaluation == p),
{
    let e = evaluations@[i];
    let builds = rows.entry_point_builds@;
    assert(rows.summarises(r@[i], e));
    crate::rows::lemma_count_agrees(
        rows.entry_points@,
        completed_points_of(e.id, builds),
        |ep: EntryPointRow|
            ep.evaluation == e.id && (status_of(builds, ep.build) == Some(BuildStatus::Completed)
                || status_of(builds, ep.build) == Some(BuildStatus::Substituted)),
    );
    crate::rows::lemma_count_agrees(
        rows.entry_points@,
        failed_points_of(e.id, builds),
        |ep: EntryPointRow|
            ep.evaluation == e.id && (status_of(builds, ep.build) == Some(
                BuildStatus::FailedPermanent,
            ) || status_of(builds, ep.build) == Some(BuildStatus::FailedTimeout)),
    );
    crate::rows::lemma_count_agrees(
        rows.entry_points@,
        points_of(e.id),
        |ep: EntryPointRow| ep.evaluation == e.id,
    );
    if let Some(p) = e.previous {
        crate::rows::lemma_count_agrees(
            rows.entry_points@,
            points_of(p),
            |ep: EntryPointRow| ep.evaluation == p,
        );
    }
}

/// A summary shows the hash of its evaluation's commit, and the number of its trigger's type, as
/// far as they are known; where two rows share an identifier, the last counts.
pub proof fn law_summaries_name_commit_and_trigger(
    evaluations: Vec<EvaluationRow>,
    rows: SummaryRows,
    r: Vec<EvaluationSummary>,
    i: int,
    k: int,
)
    requires
        rows.fits(),
        call_ensures(evaluations_to_summaries, (&evaluations, &rows), r),
        0 <= i < evaluations@.len(),
    ensures
        0 <= k < rows.commits@.len() && rows.commits@[k].id == evaluations@[i].commit && (
        forall|j: int|
            k < j < rows.commits@.len() ==> (#[trigger] rows.commits@[j]).id
                != evaluations@[i].commit) ==> r@[i].commit@ == rows.commits@[k].hash@,
        (forall|j: int|
            0 <= j < rows.commits@.len() ==> (#[trigger] rows.commits@[j]).id
                != evaluations@[i].commit) ==> r@[i].commit@.len() == 0,
        evaluations@[i].trigger is None ==> r@[i].trigger is None,
        evaluations@[i].trigger matches Some(t) ==> {
            &&& 0 <= k < rows.triggers@.len() && rows.triggers@[k].id == t && (forall|j: int|
                k < j < rows.triggers@.len() ==> (#[trigger] rows.triggers@[j]).id != t)
                ==> r@[i].trigger == Some(
                EvaluationTriggerSummary { id: t, trigger_type: rows.triggers@[k].trigger_type },
            )
            &&& (forall|j: int|
                0 <= j < rows.triggers@.len() ==> (#[trigger] rows.triggers@[j]).id != t)
                ==> r@[i].trigger is None
        },
{
    let e = evaluations@[i];
    assert(rows.summarises(r@[i], e));
    let cids = commit_ids(rows.commits@);
    let tids = trigger_ids(rows.triggers@);
    assert forall|j: int| 0 <= j < cids.len() implies cids[j] == (#[trigger] rows.commits@[j]).id by {}
    assert forall|j: int| 0 <= j < tids.len() implies tids[j] == (#[trigger] rows.triggers@[j]).id by {}
    if 0 <= k < rows.commits@.len() && rows.commits@[k].id == e.commit && (forall|j: int|
        k < j < rows.commits@.len() ==> (#[trigger] rows.commits@[j]).id != e.commit) {
        assert forall|j: int| k < j < cids.len() implies cids[j] != e.commit by {
            assert(cids[j] == rows.commits@[j].id);
        }
        crate::rows::lemma_last_index_is(cids, e.commit, k);
    }
    if forall|j: int|
        0 <= j < rows.commits@.len() ==> (#[trigger] rows.commits@[j]).id != e.commit {
        assert forall|j: int| 0 <= j < cids.len() implies cids[j] != e.commit by {
            assert(cids[j] == rows.commits@[j].id);
        }
        crate::rows::lemma_no_last_index(cids, e.commit);
    }
    if let Some(t) = e.trigger {
        if 0 <= k < rows.triggers@.len() && rows.triggers@[k].id == t && (forall|j: int|
            k < j < rows.triggers@.len() ==> (#[trigger] rows.triggers@[j]).id != t) {
            assert forall|j: int| k < j < tids.len() implies tids[j] != t by {
                assert(tids[j] == rows.triggers@[j].id);
            }
            crate::rows::lemma_last_index_is(tids, t, k);
        }
        if forall|j: int| 0 <= j < rows.triggers@.len() ==> (#[trigger] rows.triggers@[j]).id != t {
            assert forall|j: int| 0 <= j < tids.len() implies tids[j] != t by {
                assert(tids[j] == rows.triggers@[j].id);
            }
            crate::rows::lemma_no_last_index(tids, t);
        }
    }
}

/// A request asks for a restart of the failed builds by the mode `restart_failed`, and for a
/// normal evaluation by any other mode or none.
pub proof fn law_restart_is_asked_for_by_name(body: Option<&EvaluateRequest>, r: EvaluateMode)
    requires
        call_ensures(evaluate_mode, (body,), r),
    ensures
        r is RestartFailed <==> (body matches Some(b) && b.mode matches Some(m) && m@
            == "restart_failed"@),
{
}

/// What a request to evaluate a project is answered. A restart does not look at the repository;
/// a normal evaluation starts only once its state was fetched.
pub proof fn law_evaluate_answers(
    mode: EvaluateMode,
    fetched: Result<(), String>,
    queued: Result<(), TriggerError>,
    r: WebResult<String>,
)
    requires
        call_ensures(post_project_evaluate, (mode, fetched, queued), r),
    ensures
        r is Ok <==> queued is Ok && (mode is RestartFailed || fetched is Ok),
        r is Ok && mode is RestartFailed ==> r->Ok_0@ == "Restarting failed builds"@,
        r is Ok && mode is Normal ==> r->Ok_0@ == "Evaluation started"@,
        mode is Normal && fetched is Err ==> (r matches Err(WebError::BadRequest(c, m)) && c
            == ErrorCode::REPOSITORY_UNREACHABLE && m@ == "Failed to fetch repository state: "@
            + fetched->Err_0@),
        mode is RestartFailed || fetched is Ok ==> match queued {
            Ok(_) => true,
            Err(TriggerError::AlreadyInProgress) => {
                r matches Err(WebError::BadRequest(c, m)) && c == ErrorCode::BAD_REQUEST && m@
                    == "Evaluation already in progress"@
            },
            Err(TriggerError::NoPreviousEvaluation) => if mode is RestartFailed {
                r matches Err(WebError::BadRequest(c, m)) && c == ErrorCode::BAD_REQUEST && m@
                    == "No previous evaluation to restart from"@
            } else {
                r matches Err(WebError::Internal(m)) && m@ == "Unexpected error"@
            },
            Err(TriggerError::Db(detail)) => {
                r matches Err(WebError::Internal(m)) && m@ == detail@
            },
        },
{
}

/// Without a session the caller may neither edit nor trigger; with one, what it says.
pub proof fn law_project_rights_take_a_session(
    project: ProjectRow,
    evaluations: Vec<EvaluationRow>,
    rows: SummaryRows,
    session: Option<ProjectRights>,
    r: ProjectDetailsResponse,
    summaries: Vec<EvaluationSummary>,
)
    requires
        rows.fits(),
        call_ensures(get_project_details, (&project, &evaluations, &rows, session), r),
    ensures
        session is None ==> !r.can_edit && !r.can_trigger,
        session matches Some(x) ==> r.can_edit == x.can_edit && r.can_trigger == x.can_trigger,
        r.id == project.id && r.active == project.active && r.created_at == project.created_at
            && r.keep_evaluations == project.keep_evaluations && r.managed == project.managed,
        r.name@ == project.name@ && r.display_name@ == project.display_name@ && r.description@
            == project.description@ && r.repository@ == project.repository@ && r.wildcard@
            == project.wildcard@,
        r.last_evaluations@.len() == evaluations@.len(),
{
}

/// One more build adds its derivation to those whose outputs are looked up when it completed or
/// was substituted, and nothing otherwise.
pub proof fn law_completed_derivations(
    builds: Vec<EntryPointBuildRow>,
    more: Vec<EntryPointBuildRow>,
    b: EntryPointBuildRow,
    r: Vec<Id>,
    s: Vec<Id>,
)
    requires
        more@ == builds@.push(b),
        call_ensures(completed_derivations, (&builds,), r),
        call_ensures(completed_derivations, (&more,), s),
    ensures
        builds@.len() == 0 ==> r@.len() == 0,
        b.status is Completed || b.status is Substituted ==> s@ == r@.push(b.derivation),
        !(b.status is Completed || b.status is Substituted) ==> s@ == r@,
{
    assert(more@.drop_last() =~= builds@);
}

/// One more entry point adds its summary when its build and the derivation of that build are
/// known, and nothing otherwise; where two rows share an identifier, the last counts.
pub proof fn law_known_entry_points_are_summarised(
    data: EntryPointRelatedData,
    entry_points: Vec<EntryPointRow>,
    more: Vec<EntryPointRow>,
    ep: EntryPointRow,
    evaluation: Id,
    status: EvaluationStatus,
    r: Vec<EntryPointSummary>,
    s: Vec<EntryPointSummary>,
    b: int,
    d: int,
)
    requires
        more@ == entry_points@.push(ep),
        call_ensures(
            EntryPointRelatedData::build_summaries,
            (&data, &entry_points, evaluation, status),
            r,
        ),
        call_ensures(
            EntryPointRelatedData::build_summaries,
            (&data, &more, evaluation, status),
            s,
        ),
    ensures
        entry_points@.len() == 0 ==> r@.len() == 0,
        (forall|j: int| 0 <= j < data.builds@.len() ==> (#[trigger] data.builds@[j]).id != ep.build)
            ==> s@ == r@,
        0 <= b < data.builds@.len() && data.builds@[b].id == ep.build && (forall|j: int|
            b < j < data.builds@.len() ==> (#[trigger] data.builds@[j]).id != ep.build) ==> {
            let drv = data.builds@[b].derivation;
            let last = s@.last();
            &&& (forall|j: int|
                0 <= j < data.derivations@.len() ==> (#[trigger] data.derivations@[j]).id != drv)
                ==> s@ == r@
            &&& 0 <= d < data.derivations@.len() && data.derivations@[d].id == drv && (forall|
                j: int,
            |
                d < j < data.derivations@.len() ==> (#[trigger] data.derivations@[j]).id != drv)
                ==> {
                &&& s@ == r@.push(last)
                &&& last.id == ep.id
                &&& last.build_id == data.builds@[b].id
                &&& last.build_status == data.builds@[b].api_status
                &&& last.derivation_path@ == data.derivations@[d].store_path@
                &&& last.architecture@ == data.derivations@[d].architecture@
                &&& last.eval@ == ep.eval@
                &&& last.evaluation_id == evaluation
                &&& last.evaluation_status == status
                &&& last.created_at == ep.created_at
                &&& last.has_artefacts == has_products(data.outputs@, data.products@, drv)
            }
        },
{
    assert(more@.drop_last() =~= entry_points@);
    let bids = ep_build_ids(data.builds@);
    let dids = ep_derivation_ids(data.derivations@);
    assert forall|j: int| 0 <= j < bids.len() implies bids[j] == (#[trigger] data.builds@[j]).id by {}
    assert forall|j: int| 0 <= j < dids.len() implies dids[j] == (#[trigger] data.derivations@[j]).id by {}
    if forall|j: int| 0 <= j < data.builds@.len() ==> (#[trigger] data.builds@[j]).id != ep.build {
        assert forall|j: int| 0 <= j < bids.len() implies bids[j] != ep.build by {
            assert(bids[j] == data.builds@[j].id);
        }
        crate::rows::lemma_no_last_index(bids, ep.build);
    }
    if 0 <= b < data.builds@.len() && data.builds@[b].id == ep.build && (forall|j: int|
        b < j < data.builds@.len() ==> (#[trigger] data.builds@[j]).id != ep.build) {
        assert forall|j: int| b < j < bids.len() implies bids[j] != ep.build by {
            assert(bids[j] == data.builds@[j].id);
        }
        crate::rows::lemma_last_index_is(bids, ep.build, b);
        let drv = data.builds@[b].derivation;
        if forall|j: int|
            0 <= j < data.derivations@.len() ==> (#[trigger] data.derivations@[j]).id != drv {
            assert forall|j: int| 0 <= j < dids.len() implies dids[j] != drv by {
                assert(dids[j] == data.derivations@[j].id);
            }
            crate::rows::lemma_no_last_index(dids, drv);
        }
        if 0 <= d < data.derivations@.len() && data.derivations@[d].id == drv && (forall|j: int|
            d < j < data.derivations@.len() ==> (#[trigger] data.derivations@[j]).id != drv) {
            assert forall|j: int| d < j < dids.len() implies dids[j] != drv by {
                assert(dids[j] == data.derivations@[j].id);
            }
            crate::rows::lemma_last_index_is(dids, drv, d);
        }
    }
}

/// The entry points that are shown are those of the evaluation that the request names, or of the
/// project's last one. One of another project, or of none, counts as missing; without any there
/// is nothing to show.
pub proof fn law_entry_points_stay_in_the_project(
    query: EntryPointsQuery,
    last_evaluation: Option<Id>,
    chosen: Option<Id>,
    wanted: bool,
    found: Option<FoundEvaluation>,
    project: Id,
    entry_points: Vec<EntryPointRow>,
    data: EntryPointRelatedData,
    r: WebResult<Vec<EntryPointSummary>>,
    evaluation: Option<Option<Id>>,
    checked: WebResult<()>,
)
    requires
        call_ensures(entry_points_evaluation, (&query, last_evaluation), chosen),
        call_ensures(
            get_project_entry_points,
            (wanted, found, project, &entry_points, &data),
            r,
        ),
        call_ensures(check_evaluation_project, (evaluation, project), checked),
    ensures
        query.evaluation_id is Some ==> chosen == query.evaluation_id,
        query.evaluation_id is None ==> chosen == last_evaluation,
        checked is Ok <==> evaluation == Some(Some(project)),
        checked is Err ==> (checked matches Err(WebError::NotFound(ErrorCode::NOT_FOUND, m)) && m@
            == "Evaluation"@ + " not found"@),
        !wanted ==> r is Ok && r->Ok_0@.len() == 0,
        wanted ==> (r is Ok <==> found is Some && found->0.project == Some(project)),
        r is Err ==> (r matches Err(WebError::NotFound(ErrorCode::NOT_FOUND, m)) && m@
            == "Evaluation"@ + " not found"@),
{
}

} // verus!
