//! Creating, changing and handing over projects.

use crate::error::{ErrorCode, ErrorModel, WebError, WebResult};
use crate::helpers::{Id, Timestamp};
use crate::projects::evaluations::{ProjectRights, ProjectRow};
use crate::rows::{last_index, IdIndex};
use crate::status::EvaluationStatus;
use crate::text::{cat, opt_view, signed_decimal, to_signed_decimal, trim, trimmed, white};
use vstd::prelude::*;

verus! {

pub struct MakeProjectRequest {
    pub name: String,
    pub display_name: String,
    pub description: String,
    pub repository: String,
    pub evaluation_wildcard: String,
}

pub struct PatchProjectRequest {
    pub name: Option<String>,
    pub display_name: Option<String>,
    pub description: Option<String>,
    pub repository: Option<String>,
    pub evaluation_wildcard: Option<String>,
    pub keep_evaluations: Option<i32>,
}

pub struct TransferOwnershipRequest {
    pub organization: String,
}

/// The built-in roles that may edit what belongs to an organization.
pub struct EditorRoles {
    pub admin: Id,
    pub write: Id,
}

/// Whether a member with `role` may edit; nobody else may.
pub fn user_can_edit(role: Option<Id>, editors: &EditorRoles) -> (r: bool)
    ensures
        r == (role == Some(editors.admin) || role == Some(editors.write)),
{
    match role {
        Some(id) => id == editors.admin || id == editors.write,
        None => false,
    }
}

/// Whether a name may be given to something new: it has to be well-formed and
/// free.
pub fn name_available(well_formed: bool, exists: bool) -> (r: bool)
    ensures
        r == (well_formed && !exists),
{
    if !well_formed {
        return false;
    }
    !exists
}

/// Whether a name may be given to a new project of an organization. A malformed name
/// may not, whatever the organization; otherwise the organization has to be there.
pub fn get_project_name_available(org_found: bool, well_formed: bool, exists: bool) -> (r: WebResult<
    bool,
>)
    ensures
        match r {
            Ok(available) => available == (well_formed && !exists) && (well_formed ==> org_found),
            Err(e) => well_formed && !org_found && e@ == ErrorModel::not_found("Organization"@),
        },
{
    if !well_formed {
        return Ok(false);
    }
    if !org_found {
        return Err(WebError::not_found("Organization"));
    }
    Ok(name_available(well_formed, exists))
}

// ── Creation ─────────────────────────────────────────────────────────────────

/// What the validators said of the fields of a request: nothing, or why not.
pub struct ProjectChecks {
    pub name_valid: bool,
    pub display_name_error: Option<String>,
    pub repository_error: Option<String>,
}

/// Why a request to create a project is refused before anything is looked up.
pub open spec fn make_project_error(checks: ProjectChecks) -> Option<ErrorModel> {
    if !checks.name_valid {
        Some(ErrorModel::invalid_name("Project Name"@))
    } else {
        match (checks.display_name_error, checks.repository_error) {
            (Some(e), _) => Some(ErrorModel::bad_request("Invalid display name: "@ + e@)),
            (None, Some(e)) => Some(ErrorModel::bad_request(e@)),
            (None, None) => None,
        }
    }
}

/// Whether a request to create a project is well-formed.
pub fn check_new_project(checks: &ProjectChecks) -> (r: WebResult<()>)
    ensures
        match r {
            Ok(_) => make_project_error(*checks) is None,
            Err(e) => make_project_error(*checks) == Some(e@),
        },
{
    if !checks.name_valid {
        return Err(WebError::invalid_name("Project Name"));
    }
    if let Some(e) = &checks.display_name_error {
        return Err(WebError::bad_request(cat("Invalid display name: ", e.as_str()).as_str()));
    }
    if let Some(e) = &checks.repository_error {
        return Err(WebError::bad_request(e.as_str()));
    }
    Ok(())
}

/// The number of evaluations that a new project keeps.
pub const DEFAULT_KEEP_EVALUATIONS: i32 = 30;

/// The project that a request creates. `wildcard` is what the trimmed evaluation
/// wildcard reads as, or why it is none; `never` is the time that stands for no check
/// yet.
pub fn put(
    body: &MakeProjectRequest,
    checks: &ProjectChecks,
    id: Id,
    organization: Id,
    name_taken: bool,
    wildcard: Result<String, String>,
    created_by: Id,
    never: Timestamp,
    now: Timestamp,
) -> (r: WebResult<ProjectRow>)
    ensures
        r is Ok <==> make_project_error(*checks) is None && !name_taken && wildcard is Ok,
        match r {
            Ok(p) => {
                &&& p.id == id
                &&& p.organization == organization
                &&& p.name == body.name
                &&& p.active
                &&& p.display_name@ == trimmed(body.display_name@)
                &&& p.description@ == trimmed(body.description@)
                &&& p.repository == body.repository
                &&& p.wildcard == wildcard->Ok_0
                &&& p.last_evaluation is None
                &&& p.last_check_at == never
                &&& !p.force_evaluation
                &&& p.keep_evaluations == DEFAULT_KEEP_EVALUATIONS
                &&& p.created_by == created_by
                &&& p.created_at == now
                &&& !p.managed
            },
            Err(e) => e@ == if make_project_error(*checks) is Some {
                make_project_error(*checks)->0
            } else if name_taken {
                ErrorModel::already_exists("Project Name"@)
            } else {
                ErrorModel::bad_request(wildcard->Err_0@)
            },
        },
{
    if let Err(e) = check_new_project(checks) {
        return Err(e);
    }
    if name_taken {
        return Err(WebError::already_exists("Project Name"));
    }
    let wildcard = match wildcard {
        Ok(w) => w,
        Err(e) => {
            return Err(WebError::bad_request(e.as_str()));
        },
    };
    Ok(
        ProjectRow {
            id,
            organization,
            name: body.name.clone(),
            active: true,
            display_name: trim(body.display_name.as_str()).to_owned(),
            description: trim(body.description.as_str()).to_owned(),
            repository: body.repository.clone(),
            wildcard,
            last_evaluation: None,
            last_check_at: never,
            force_evaluation: false,
            keep_evaluations: DEFAULT_KEEP_EVALUATIONS,
            created_by,
            created_at: now,
            managed: false,
        },
    )
}

// ── Changes ──────────────────────────────────────────────────────────────────

/// Applies the fields of a patch to a project, one by one. Where a field is
/// refused the project stays as it is.
pub struct ProjectPatcher {
    pub project: ProjectRow,
    /// The largest number of evaluations that a project may keep; none when not
    /// positive.
    pub max_keep_evaluations: i32,
}

/// Why a number of evaluations to keep is refused.
pub open spec fn keep_error(keep: i32, global_max: i32) -> Option<ErrorModel> {
    if keep < 1 {
        Some(ErrorModel::bad_request("keep_evaluations must be at least 1"@))
    } else if global_max > 0 && keep > global_max {
        Some(
            ErrorModel::bad_request(
                "keep_evaluations cannot exceed the server maximum of "@ + signed_decimal(
                    global_max as int,
                ),
            ),
        )
    } else {
        None
    }
}

/// Why a new name is refused.
pub open spec fn name_error(valid: bool, taken: bool) -> Option<ErrorModel> {
    if !valid {
        Some(ErrorModel::invalid_name("Project Name"@))
    } else if taken {
        Some(ErrorModel::already_exists("Project Name"@))
    } else {
        None
    }
}

impl ProjectPatcher {
    pub fn new(project: ProjectRow, max_keep_evaluations: i32) -> (r: ProjectPatcher)
        ensures
            r.project == project,
            r.max_keep_evaluations == max_keep_evaluations,
    {
        ProjectPatcher { project, max_keep_evaluations }
    }

    pub fn apply_name(&mut self, name: &String, valid: bool, taken: bool) -> (r: WebResult<()>)
        ensures
            match r {
                Ok(_) => name_error(valid, taken) is None && *final(self) == (ProjectPatcher {
                    project: ProjectRow { name: *name, ..old(self).project },
                    ..*old(self)
                }),
                Err(e) => name_error(valid, taken) == Some(e@) && *final(self) == *old(self),
            },
    {
        if !valid {
            return Err(WebError::invalid_name("Project Name"));
        }
        if taken {
            return Err(WebError::already_exists("Project Name"));
        }
        self.project.name = name.clone();
        Ok(())
    }

    /// `error` is what the validator said of the trimmed name.
    pub fn apply_display_name(&mut self, display_name: &str, error: Option<&str>) -> (r: WebResult<
        (),
    >)
        ensures
            match r {
                Ok(_) => {
                    &&& error is None
                    &&& final(self).project.display_name@ == trimmed(display_name@)
                    &&& *final(self) == (ProjectPatcher {
                        project: ProjectRow {
                            display_name: final(self).project.display_name,
                            ..old(self).project
                        },
                        ..*old(self)
                    })
                },
                Err(e) => {
                    &&& error is Some
                    &&& e@ == ErrorModel::bad_request("Invalid display name: "@ + error->0@)
                    &&& *final(self) == *old(self)
                },
            },
    {
        if let Some(e) = error {
            return Err(WebError::bad_request(cat("Invalid display name: ", e).as_str()));
        }
        self.project.display_name = trim(display_name).to_owned();
        Ok(())
    }

    pub fn apply_description(&mut self, description: &str)
        ensures
            final(self).project.description@ == trimmed(description@),
            *final(self) == (ProjectPatcher {
                project: ProjectRow {
                    description: final(self).project.description,
                    ..old(self).project
                },
                ..*old(self)
            }),
    {
        self.project.description = trim(description).to_owned();
    }

    /// `error` says why the repository address is none.
    pub fn apply_repository(&mut self, repository: &String, error: Option<&str>) -> (r: WebResult<()>)
        ensures
            match r {
                Ok(_) => error is None && *final(self) == (ProjectPatcher {
                    project: ProjectRow { repository: *repository, ..old(self).project },
                    ..*old(self)
                }),
                Err(e) => error is Some && e@ == ErrorModel::bad_request(error->0@) && *final(self)
                    == *old(self),
            },
    {
        if let Some(e) = error {
            return Err(WebError::bad_request(e));
        }
        self.project.repository = repository.clone();
        Ok(())
    }

    /// `wildcard` is what the trimmed wildcard reads as, or why it is none.
    pub fn apply_evaluation_wildcard(&mut self, wildcard: &Result<String, String>) -> (r: WebResult<
        (),
    >)
        ensures
            match r {
                Ok(_) => wildcard is Ok && *final(self) == (ProjectPatcher {
                    project: ProjectRow { wildcard: wildcard->Ok_0, ..old(self).project },
                    ..*old(self)
                }),
                Err(e) => wildcard is Err && e@ == ErrorModel::bad_request(wildcard->Err_0@)
                    && *final(self) == *old(self),
            },
    {
        match wildcard {
            Ok(w) => {
                self.project.wildcard = w.clone();
                Ok(())
            },
            Err(e) => Err(WebError::bad_request(e.as_str())),
        }
    }

    pub fn apply_keep_evaluations(&mut self, keep: i32) -> (r: WebResult<()>)
        ensures
            match r {
                Ok(_) => keep_error(keep, old(self).max_keep_evaluations) is None
                    && *final(self) == (
                ProjectPatcher {
                    project: ProjectRow { keep_evaluations: keep, ..old(self).project },
                    ..*old(self)
                }),
                Err(e) => keep_error(keep, old(self).max_keep_evaluations) == Some(e@)
                    && *final(self) == *old(self),
            },
    {
        if keep < 1 {
            return Err(WebError::bad_request("keep_evaluations must be at least 1"));
        }
        let global_max: i32 = self.max_keep_evaluations;
        if global_max > 0 && keep > global_max {
            let limit = to_signed_decimal(global_max as i64);
            return Err(
                WebError::bad_request(
                    cat(
                        "keep_evaluations cannot exceed the server maximum of ",
                        limit.as_str(),
                    ).as_str(),
                ),
            );
        }
        self.project.keep_evaluations = keep;
        Ok(())
    }
}

/// What was found out about the fields of a patch that are there.
pub struct PatchChecks {
    pub name_valid: bool,
    pub name_taken: bool,
    /// What the validator said of the trimmed display name.
    pub display_name_error: Option<String>,
    pub repository_error: Option<String>,
    /// What the trimmed wildcard reads as, or why it is none.
    pub wildcard: Result<String, String>,
}

/// The view of an optional text, for the fields that are there only.
pub open spec fn present_error(field: Option<String>, error: Option<String>) -> Option<Seq<char>> {
    if field is Some {
        opt_view(error)
    } else {
        None
    }
}

/// Why a patch is refused: the first field that is, in the order name, display
/// name, repository, wildcard, number of evaluations.
pub open spec fn patch_error(
    body: PatchProjectRequest,
    checks: PatchChecks,
    global_max: i32,
) -> Option<ErrorModel> {
    let by_name = if body.name is Some {
        name_error(checks.name_valid, checks.name_taken)
    } else {
        None
    };
    let display = present_error(body.display_name, checks.display_name_error);
    let repository = present_error(body.repository, checks.repository_error);
    let by_keep = match body.keep_evaluations {
        Some(k) => keep_error(k, global_max),
        None => None,
    };
    if by_name is Some {
        by_name
    } else if display is Some {
        Some(ErrorModel::bad_request("Invalid display name: "@ + display->0))
    } else if repository is Some {
        Some(ErrorModel::bad_request(repository->0))
    } else if body.evaluation_wildcard is Some && checks.wildcard is Err {
        Some(ErrorModel::bad_request(checks.wildcard->Err_0@))
    } else {
        by_keep
    }
}

/// `field` trimmed where it is there, else `old`.
pub open spec fn patched_text(field: Option<String>, old: Seq<char>) -> Seq<char> {
    match field {
        Some(s) => trimmed(s@),
        None => old,
    }
}

/// The project after a patch. A patched project is always evaluated again.
pub fn patch_project(
    project: ProjectRow,
    body: &PatchProjectRequest,
    checks: &PatchChecks,
    max_keep_evaluations: i32,
) -> (r: WebResult<ProjectRow>)
    ensures
        match r {
            Ok(p) => {
                &&& patch_error(*body, *checks, max_keep_evaluations) is None
                &&& p.name@ == (match body.name {
                    Some(n) => n@,
                    None => project.name@,
                })
                &&& p.display_name@ == patched_text(body.display_name, project.display_name@)
                &&& p.description@ == patched_text(body.description, project.description@)
                &&& p.repository@ == (match body.repository {
                    Some(x) => x@,
                    None => project.repository@,
                })
                &&& p.wildcard@ == (if body.evaluation_wildcard is Some {
                    checks.wildcard->Ok_0@
                } else {
                    project.wildcard@
                })
                &&& p.keep_evaluations == (match body.keep_evaluations {
                    Some(k) => k,
                    None => project.keep_evaluations,
                })
                &&& p.force_evaluation
                &&& p.id == project.id
                &&& p.organization == project.organization
                &&& p.active == project.active
                &&& p.last_evaluation == project.last_evaluation
                &&& p.last_check_at == project.last_check_at
                &&& p.created_by == project.created_by
                &&& p.created_at == project.created_at
                &&& p.managed == project.managed
            },
            Err(e) => patch_error(*body, *checks, max_keep_evaluations) == Some(e@),
        },
{
    let mut patcher = ProjectPatcher::new(project, max_keep_evaluations);
    if let Some(name) = &body.name {
        match patcher.apply_name(name, checks.name_valid, checks.name_taken) {
            Ok(_) => {},
            Err(e) => {
                return Err(e);
            },
        }
    }
    if let Some(display_name) = &body.display_name {
        let error = match &checks.display_name_error {
            Some(e) => Some(e.as_str()),
            None => None,
        };
        match patcher.apply_display_name(display_name.as_str(), error) {
            Ok(_) => {},
            Err(e) => {
                return Err(e);
            },
        }
    }
    if let Some(description) = &body.description {
        patcher.apply_description(description.as_str());
    }
    if let Some(repository) = &body.repository {
        let error = match &checks.repository_error {
            Some(e) => Some(e.as_str()),
            None => None,
        };
        match patcher.apply_repository(repository, error) {
            Ok(_) => {},
            Err(e) => {
                return Err(e);
            },
        }
    }
    if body.evaluation_wildcard.is_some() {
        match patcher.apply_evaluation_wildcard(&checks.wildcard) {
            Ok(_) => {},
            Err(e) => {
                return Err(e);
            },
        }
    }
    if let Some(keep) = body.keep_evaluations {
        match patcher.apply_keep_evaluations(keep) {
            Ok(_) => {},
            Err(e) => {
                return Err(e);
            },
        }
    }
    let mut project = patcher.project;
    project.force_evaluation = true;
    Ok(project)
}

/// The commit that the repository of a project is at, in hexadecimal; an empty
/// hash means that the repository could not be asked.
pub fn post_project_check_repository(remote_hash: &Vec<u8>, hex: String) -> (r: WebResult<String>)
    ensures
        match r {
            Ok(h) => remote_hash@.len() > 0 && h == hex,
            Err(e) => remote_hash@.len() == 0 && e@ == ErrorModel::internal(
                "Failed to check repository"@,
            ),
        },
{
    if remote_hash.len() > 0 {
        Ok(hex)
    } else {
        Err(WebError::internal("Failed to check repository"))
    }
}

/// Whether the caller may hand over a project: an editor of the organization or
/// the owner of the project may, unless the project is state-managed.
pub fn admit_project_transfer(is_admin: bool, is_owner: bool, managed: bool) -> (r: WebResult<()>)
    ensures
        r is Ok <==> (is_admin || is_owner) && !managed,
        r matches Err(e) ==> e@ == if !is_admin && !is_owner {
            ErrorModel::forbidden(
                "Only the project owner or an organization admin can transfer ownership."@,
            )
        } else {
            ErrorModel::forbidden("Cannot transfer ownership of a state-managed project."@)
        },
{
    if !is_admin && !is_owner {
        return Err(
            WebError::forbidden(
                "Only the project owner or an organization admin can transfer ownership.",
            ),
        );
    }
    if managed {
        return Err(
            WebError::forbidden("Cannot transfer ownership of a state-managed project."),
        );
    }
    Ok(())
}

/// The project after it was handed over. `target` is the organization that the caller
/// may create projects in, or why there is none.
pub fn post_project_transfer(
    project: ProjectRow,
    user: Id,
    is_admin: bool,
    target: WebResult<Id>,
) -> (r: WebResult<ProjectRow>)
    ensures
        r is Ok <==> (is_admin || project.created_by == user) && !project.managed && target is Ok
            && target->Ok_0 != project.organization,
        match r {
            Ok(p) => p == (ProjectRow { organization: target->Ok_0, ..project }),
            Err(e) => e@ == if !is_admin && project.created_by != user {
                ErrorModel::forbidden(
                    "Only the project owner or an organization admin can transfer ownership."@,
                )
            } else if project.managed {
                ErrorModel::forbidden("Cannot transfer ownership of a state-managed project."@)
            } else if target is Err {
                target->Err_0@
            } else {
                ErrorModel::bad_request("Project is already in this organization."@)
            },
        },
{
    if let Err(e) = admit_project_transfer(is_admin, project.created_by == user, project.managed) {
        return Err(e);
    }
    let target: Id = match target {
        Ok(t) => t,
        Err(e) => {
            return Err(e);
        },
    };
    if target == project.organization {
        return Err(WebError::bad_request("Project is already in this organization."));
    }
    let mut p = project;
    p.organization = target;
    Ok(p)
}

/// The project after it was enabled, and the message that says so.
pub fn post_project_active(project: ProjectRow) -> (r: (ProjectRow, &'static str))
    ensures
        r.0 == (ProjectRow { active: true, ..project }),
        r.1@ == "Project enabled"@,
{
    let mut changed = project;
    changed.active = true;
    (changed, "Project enabled")
}

/// The project after it was disabled, and the message that says so.
pub fn delete_project_active(project: ProjectRow) -> (r: (ProjectRow, &'static str))
    ensures
        r.0 == (ProjectRow { active: false, ..project }),
        r.1@ == "Project disabled"@,
{
    let mut changed = project;
    changed.active = false;
    (changed, "Project disabled")
}

pub struct ProjectResponse {
    pub id: Id,
    pub organization: Id,
    pub name: String,
    pub active: bool,
    pub display_name: String,
    pub description: String,
    pub repository: String,
    pub wildcard: String,
    pub last_evaluation: Option<Id>,
    pub last_evaluation_status: Option<EvaluationStatus>,
    pub force_evaluation: bool,
    pub created_by: Id,
    pub created_at: Timestamp,
    pub managed: bool,
    pub keep_evaluations: i32,
    /// The caller may edit project configuration.
    pub can_edit: bool,
    /// The caller may start, restart or abort evaluations.
    pub can_trigger: bool,
}

/// The response on a project. `last_status` is the status of its last
/// evaluation, where that was found.
pub open spec fn project_response(
    project: ProjectRow,
    last_status: Option<EvaluationStatus>,
    rights: ProjectRights,
) -> ProjectResponse {
    ProjectResponse {
        id: project.id,
        organization: project.organization,
        name: project.name,
        active: project.active,
        display_name: project.display_name,
        description: project.description,
        repository: project.repository,
        wildcard: project.wildcard,
        last_evaluation: project.last_evaluation,
        last_evaluation_status: if project.last_evaluation is Some {
            last_status
        } else {
            None
        },
        force_evaluation: project.force_evaluation,
        created_by: project.created_by,
        created_at: project.created_at,
        managed: project.managed,
        keep_evaluations: project.keep_evaluations,
        can_edit: rights.can_edit,
        can_trigger: rights.can_trigger,
    }
}

/// The response on a project. `last_status` is the status of its last
/// evaluation, where that was found.
pub fn get_project(
    project: &ProjectRow,
    last_status: Option<EvaluationStatus>,
    rights: ProjectRights,
) -> (r: ProjectResponse)
    ensures
        r == project_response(*project, last_status, rights),
{
    ProjectResponse {
        id: project.id,
        organization: project.organization,
        name: project.name.clone(),
        active: project.active,
        display_name: project.display_name.clone(),
        description: project.description.clone(),
        repository: project.repository.clone(),
        wildcard: project.wildcard.clone(),
        last_evaluation: project.last_evaluation,
        last_evaluation_status: match project.last_evaluation {
            Some(_) => last_status,
            None => None,
        },
        force_evaluation: project.force_evaluation,
        created_by: project.created_by,
        created_at: project.created_at,
        managed: project.managed,
        keep_evaluations: project.keep_evaluations,
        can_edit: rights.can_edit,
        can_trigger: rights.can_trigger,
    }
}

/// The identifiers of evaluations that were loaded with their status.
pub open spec fn status_ids(statuses: Seq<(Id, EvaluationStatus)>) -> Seq<Id> {
    statuses.map_values(|s: (Id, EvaluationStatus)| s.0)
}

/// The status of the last evaluation of a project: that of the last row with its
/// identifier.
pub open spec fn last_status(
    project: ProjectRow,
    statuses: Seq<(Id, EvaluationStatus)>,
) -> Option<EvaluationStatus> {
    match project.last_evaluation {
        Some(id) => match last_index(status_ids(statuses), id) {
            Some(k) => Some(statuses[k].1),
            None => None,
        },
        None => None,
    }
}

/// The projects of an organization, each with the status of its last evaluation.
pub fn get(
    projects: &Vec<ProjectRow>,
    statuses: &Vec<(Id, EvaluationStatus)>,
    rights: ProjectRights,
) -> (r: Vec<ProjectResponse>)
    ensures
        r@.len() == projects@.len(),
        forall|i: int|
            0 <= i < r@.len() ==> #[trigger] r@[i] == project_response(
                projects@[i],
                last_status(projects@[i], statuses@),
                rights,
            ),
{
    let mut ids: Vec<Id> = Vec::new();
    let mut k: usize = 0;
    while k < statuses.len()
        invariant
            k <= statuses.len(),
            ids@ == status_ids(statuses@).take(k as int),
        decreases statuses.len() - k,
    {
        ids.push(statuses[k].0);
        assert(ids@ =~= status_ids(statuses@).take(k as int + 1));
        k += 1;
    }
    assert(ids@ =~= status_ids(statuses@));
    let index = IdIndex::new(ids);
    let mut out: Vec<ProjectResponse> = Vec::new();
    let mut i: usize = 0;
    while i < projects.len()
        invariant
            i <= projects.len(),
            index.wf(),
            index@ == status_ids(statuses@),
            out@.len() == i,
            forall|j: int|
                0 <= j < i ==> #[trigger] out@[j] == project_response(
                    projects@[j],
                    last_status(projects@[j], statuses@),
                    rights,
                ),
        decreases projects.len() - i,
    {
        let status = match projects[i].last_evaluation {
            Some(id) => match index.find(id) {
                Some(k) => Some(statuses[k].1),
                None => None,
            },
            None => None,
        };
        out.push(get_project(&projects[i], status, rights));
        i += 1;
    }
    out
}

/// A number of evaluations that a patch sets is positive, and within the limit
/// of the server where there is one.
pub proof fn law_kept_evaluations_are_bounded(keep: i32, global_max: i32)
    requires
        keep_error(keep, global_max) is None,
    ensures
        1 <= keep,
        global_max > 0 ==> keep <= global_max,
{
}

/// An empty patch changes nothing but that the project is evaluated again.
pub proof fn law_empty_patch_is_accepted(
    body: PatchProjectRequest,
    checks: PatchChecks,
    global_max: i32,
)
    requires
        body.name is None,
        body.display_name is None,
        body.description is None,
        body.repository is None,
        body.evaluation_wildcard is None,
        body.keep_evaluations is None,
    ensures
        patch_error(body, checks, global_max) is None,
{
}

/// Members with one of the two editing roles may edit, and nobody else; a name is available
/// when it is well-formed and free, and for a project only in an organization that is there.
pub proof fn law_who_edits_and_which_names_are_free(
    role: Option<Id>,
    editors: EditorRoles,
    edits: bool,
    well_formed: bool,
    exists_already: bool,
    available: bool,
    org_found: bool,
    r: WebResult<bool>,
)
    requires
        call_ensures(user_can_edit, (role, &editors), edits),
        call_ensures(name_available, (well_formed, exists_already), available),
        call_ensures(get_project_name_available, (org_found, well_formed, exists_already), r),
    ensures
        edits <==> role is Some && (role->0 == editors.admin || role->0 == editors.write),
        available <==> well_formed && !exists_already,
        !well_formed ==> r is Ok && !r->Ok_0,
        well_formed && org_found ==> r is Ok && (r->Ok_0 <==> !exists_already),
        well_formed && !org_found ==> (r matches Err(WebError::NotFound(c, m))
            && c == ErrorCode::NOT_FOUND && m@ == "Organization"@ + " not found"@),
{
}

/// A project is created when its fields are well-formed, its name is free and its wildcard
/// reads as one, in this order. It starts active, unmanaged, never checked, and keeps thirty
/// evaluations.
pub proof fn law_created_projects(
    body: MakeProjectRequest,
    checks: ProjectChecks,
    id: Id,
    organization: Id,
    name_taken: bool,
    wildcard: Result<String, String>,
    created_by: Id,
    never: Timestamp,
    now: Timestamp,
    before: Seq<char>,
    shown: Seq<char>,
    after: Seq<char>,
    r: WebResult<ProjectRow>,
)
    requires
        call_ensures(put, (&body, &checks, id, organization, name_taken, wildcard, created_by, never, now), r),
    ensures
        r is Ok <==> checks.name_valid && checks.display_name_error is None
            && checks.repository_error is None && !name_taken && wildcard is Ok,
        !checks.name_valid ==> (r matches Err(WebError::BadRequest(c, m))
            && c == ErrorCode::INVALID_NAME && m@ == "Invalid "@ + "Project Name"@),
        checks.name_valid && checks.display_name_error is Some
            ==> (r matches Err(WebError::BadRequest(c, m)) && c == ErrorCode::BAD_REQUEST
            && m@ == "Invalid display name: "@ + checks.display_name_error->0@),
        checks.name_valid && checks.display_name_error is None && checks.repository_error is Some
            ==> (r matches Err(WebError::BadRequest(c, m)) && c == ErrorCode::BAD_REQUEST
            && m@ == checks.repository_error->0@),
        checks.name_valid && checks.display_name_error is None && checks.repository_error is None
            && name_taken ==> (r matches Err(WebError::Conflict(c, m))
            && c == ErrorCode::ALREADY_EXISTS && m@ == "Project Name"@ + " already exists"@),
        checks.name_valid && checks.display_name_error is None && checks.repository_error is None
            && !name_taken && wildcard is Err ==> (r matches Err(WebError::BadRequest(c, m))
            && c == ErrorCode::BAD_REQUEST && m@ == wildcard->Err_0@),
        r matches Ok(p) ==> {
            &&& p.id == id && p.organization == organization && p.created_by == created_by
                && p.created_at == now && p.last_check_at == never
            &&& p.name@ == body.name@ && p.repository@ == body.repository@ && p.wildcard@
                == wildcard->Ok_0@
            &&& p.active && !p.managed && !p.force_evaluation && p.last_evaluation is None
            &&& p.keep_evaluations == 30
        },
        ({
            &&& r is Ok
            &&& body.display_name@ == before + shown + after
            &&& forall|i: int| 0 <= i < before.len() ==> white(#[trigger] before[i])
            &&& forall|i: int| 0 <= i < after.len() ==> white(#[trigger] after[i])
            &&& shown.len() > 0 ==> !white(shown[0]) && !white(shown.last())
        }) ==> r->Ok_0.display_name@ == shown,
        ({
            &&& r is Ok
            &&& body.description@ == before + shown + after
            &&& forall|i: int| 0 <= i < before.len() ==> white(#[trigger] before[i])
            &&& forall|i: int| 0 <= i < after.len() ==> white(#[trigger] after[i])
            &&& shown.len() > 0 ==> !white(shown[0]) && !white(shown.last())
        }) ==> r->Ok_0.description@ == shown,
{
    if (forall|i: int| 0 <= i < before.len() ==> white(#[trigger] before[i])) && (forall|i: int|
        0 <= i < after.len() ==> white(#[trigger] after[i]))
            && (shown.len() > 0 ==> !white(shown[0])
        && !white(shown.last())) {
        crate::text::law_trimming(before, shown, after);
    }
}

/// A patch is refused for the first field that is: the name, the display name, the repository,
/// the wildcard, the number of evaluations to keep, which is at least one and no more than the
/// server allows. Fields that are not there are not looked at.
pub proof fn law_patches_are_checked(
    project: ProjectRow,
    body: PatchProjectRequest,
    checks: PatchChecks,
    max: i32,
    r: WebResult<ProjectRow>,
)
    requires
        call_ensures(patch_project, (project, &body, &checks, max), r),
    ensures
        r is Ok <==> {
            &&& body.name is Some ==> checks.name_valid && !checks.name_taken
            &&& body.display_name is Some ==> checks.display_name_error is None
            &&& body.repository is Some ==> checks.repository_error is None
            &&& body.evaluation_wildcard is Some ==> checks.wildcard is Ok
            &&& body.keep_evaluations is Some ==> body.keep_evaluations->0 >= 1 && (max <= 0
                || body.keep_evaluations->0 <= max)
        },
        body.name is Some && !checks.name_valid
            ==> (r matches Err(WebError::BadRequest(c, m)) && c == ErrorCode::INVALID_NAME
            && m@ == "Invalid "@ + "Project Name"@),
        body.name is Some && checks.name_valid && checks.name_taken
            ==> (r matches Err(WebError::Conflict(c, m)) && c == ErrorCode::ALREADY_EXISTS
            && m@ == "Project Name"@ + " already exists"@),
        body.name is None && body.display_name is Some && checks.display_name_error is Some
            ==> (r matches Err(WebError::BadRequest(c, m)) && c == ErrorCode::BAD_REQUEST
            && m@ == "Invalid display name: "@ + checks.display_name_error->0@),
        body.name is None && body.display_name is None && body.repository is Some
            && checks.repository_error is Some ==> (r matches Err(WebError::BadRequest(c, m))
            && c == ErrorCode::BAD_REQUEST && m@ == checks.repository_error->0@),
        body.name is None && body.display_name is None && body.repository is None
            && body.evaluation_wildcard is Some && checks.wildcard is Err
            ==> (r matches Err(WebError::BadRequest(c, m)) && c == ErrorCode::BAD_REQUEST
            && m@ == checks.wildcard->Err_0@),
        body.name is None && body.display_name is None && body.repository is None
            && body.evaluation_wildcard is None && body.keep_evaluations is Some
            && body.keep_evaluations->0 < 1 ==> (r matches Err(WebError::BadRequest(c, m))
            && c == ErrorCode::BAD_REQUEST && m@ == "keep_evaluations must be at least 1"@),
        body.name is None && body.display_name is None && body.repository is None
            && body.evaluation_wildcard is None && body.keep_evaluations is Some && max > 0
            && body.keep_evaluations->0 > max ==> (r matches Err(WebError::BadRequest(c, m))
            && c == ErrorCode::BAD_REQUEST && m@
            == "keep_evaluations cannot exceed the server maximum of "@
            + signed_decimal(max as int)),
{
}

/// A patched project has the new fields and keeps the others, and is evaluated again.
pub proof fn law_patches_change_what_they_name(
    project: ProjectRow,
    body: PatchProjectRequest,
    checks: PatchChecks,
    max: i32,
    r: WebResult<ProjectRow>,
)
    requires
        call_ensures(patch_project, (project, &body, &checks, max), r),
        r is Ok,
    ensures
        ({
            let p = r->Ok_0;
            &&& p.force_evaluation
            &&& p.id == project.id && p.organization == project.organization && p.active
                == project.active && p.last_evaluation == project.last_evaluation
                && p.last_check_at == project.last_check_at && p.created_by == project.created_by
                && p.created_at == project.created_at && p.managed == project.managed
            &&& p.name@ == if body.name is Some {
                body.name->0@
            } else {
                project.name@
            }
            &&& p.display_name@ == if body.display_name is Some {
                trimmed(body.display_name->0@)
            } else {
                project.display_name@
            }
            &&& p.description@ == if body.description is Some {
                trimmed(body.description->0@)
            } else {
                project.description@
            }
            &&& p.repository@ == if body.repository is Some {
                body.repository->0@
            } else {
                project.repository@
            }
            &&& p.wildcard@ == if body.evaluation_wildcard is Some {
                checks.wildcard->Ok_0@
            } else {
                project.wildcard@
            }
            &&& p.keep_evaluations == if body.keep_evaluations is Some {
                body.keep_evaluations->0
            } else {
                project.keep_evaluations
            }
        }),
{
}

/// A project is handed over by an editor of its organization or by its owner, unless it is
/// state-managed, to another organization that the caller may create projects in; nothing else
/// of it changes.
pub proof fn law_project_transfers(
    project: ProjectRow,
    user: Id,
    is_admin: bool,
    target: WebResult<Id>,
    r: WebResult<ProjectRow>,
)
    requires
        call_ensures(post_project_transfer, (project, user, is_admin, target), r),
    ensures
        r is Ok <==> (is_admin || project.created_by == user) && !project.managed && target is Ok
            && target->Ok_0 != project.organization,
        r is Ok ==> r->Ok_0 == (ProjectRow { organization: target->Ok_0, ..project }),
        !is_admin && project.created_by != user
            ==> (r matches Err(WebError::Forbidden(c, m)) && c == ErrorCode::FORBIDDEN
            && m@ == "Only the project owner or an organization admin can transfer ownership."@),
        (is_admin || project.created_by == user) && project.managed
            ==> (r matches Err(WebError::Forbidden(c, m)) && c == ErrorCode::FORBIDDEN
            && m@ == "Cannot transfer ownership of a state-managed project."@),
        (is_admin || project.created_by == user) && !project.managed && target is Err ==> r is Err
            && r->Err_0@ == target->Err_0@,
        (is_admin || project.created_by == user) && !project.managed && target is Ok
            && target->Ok_0 == project.organization
            ==> (r matches Err(WebError::BadRequest(c, m)) && c == ErrorCode::BAD_REQUEST
            && m@ == "Project is already in this organization."@),
{
}

/// Enabling and disabling change nothing but whether the project is active. A repository that
/// gives no hash could not be checked.
pub proof fn law_activation(
    project: ProjectRow,
    on: (ProjectRow, &str),
    off: (ProjectRow, &str),
    remote_hash: Vec<u8>,
    hex: String,
    r: WebResult<String>,
)
    requires
        call_ensures(post_project_active, (project,), on),
        call_ensures(delete_project_active, (project,), off),
        call_ensures(post_project_check_repository, (&remote_hash, hex), r),
    ensures
        on.0 == (ProjectRow { active: true, ..project }),
        off.0 == (ProjectRow { active: false, ..project }),
        on.1@ == "Project enabled"@,
        off.1@ == "Project disabled"@,
        remote_hash@.len() > 0 ==> r is Ok && r->Ok_0@ == hex@,
        remote_hash@.len() == 0 ==> (r matches Err(WebError::Internal(m))
            && m@ == "Failed to check repository"@),
{
}

/// A list shows every project, in order, with the status of its last evaluation where it has
/// one that is known, and the rights of the caller.
pub proof fn law_listed_projects(
    projects: Vec<ProjectRow>,
    statuses: Vec<(Id, EvaluationStatus)>,
    rights: ProjectRights,
    r: Vec<ProjectResponse>,
    i: int,
    k: int,
)
    requires
        call_ensures(get, (&projects, &statuses, rights), r),
        0 <= i < projects@.len(),
    ensures
        r@.len() == projects@.len(),
        ({
            let p = projects@[i];
            let x = r@[i];
            &&& x.id == p.id && x.organization == p.organization && x.active == p.active
                && x.last_evaluation == p.last_evaluation && x.force_evaluation
                == p.force_evaluation && x.created_by == p.created_by && x.created_at
                == p.created_at && x.managed == p.managed && x.keep_evaluations
                == p.keep_evaluations
            &&& x.name@ == p.name@ && x.display_name@ == p.display_name@ && x.description@
                == p.description@ && x.repository@ == p.repository@ && x.wildcard@ == p.wildcard@
            &&& x.can_edit == rights.can_edit && x.can_trigger == rights.can_trigger
        }),
        projects@[i].last_evaluation is None ==> r@[i].last_evaluation_status is None,
        projects@[i].last_evaluation matches Some(id) ==> {
            &&& 0 <= k < statuses@.len() && statuses@[k].0 == id && (forall|j: int|
                k < j < statuses@.len() ==> (#[trigger] statuses@[j]).0 != id)
                ==> r@[i].last_evaluation_status == Some(statuses@[k].1)
            &&& (forall|j: int| 0 <= j < statuses@.len() ==> (#[trigger] statuses@[j]).0 != id)
                ==> r@[i].last_evaluation_status is None
        },
{
    assert(r@[i] == project_response(projects@[i], last_status(projects@[i], statuses@), rights));
    if let Some(id) = projects@[i].last_evaluation {
        let ids = status_ids(statuses@);
        assert forall|j: int| 0 <= j < ids.len() implies ids[j] == (#[trigger] statuses@[j]).0 by {}
        if 0 <= k < statuses@.len() && statuses@[k].0 == id && (forall|j: int|
            k < j < statuses@.len() ==> (#[trigger] statuses@[j]).0 != id) {
            assert forall|j: int| k < j < ids.len() implies ids[j] != id by {
                assert(ids[j] == statuses@[j].0);
            }
            crate::rows::lemma_last_index_is(ids, id, k);
        }
        if forall|j: int| 0 <= j < statuses@.len() ==> (#[trigger] statuses@[j]).0 != id {
            assert forall|j: int| 0 <= j < ids.len() implies ids[j] != id by {
                assert(ids[j] == statuses@[j].0);
            }
            crate::rows::lemma_no_last_index(ids, id);
        }
    }
}

/// A project is shown with what it holds, what the caller may do with it, and the status of its
/// last evaluation where it has one.
pub proof fn law_shown_project(
    project: ProjectRow,
    last_status: Option<EvaluationStatus>,
    rights: ProjectRights,
    x: ProjectResponse,
)
    requires
        call_ensures(get_project, (&project, last_status, rights), x),
    ensures
        x.id == project.id && x.organization == project.organization && x.active == project.active
            && x.managed == project.managed,
        x.name == project.name && x.display_name == project.display_name
            && x.description == project.description && x.repository == project.repository
            && x.wildcard == project.wildcard,
        x.last_evaluation == project.last_evaluation
            && x.force_evaluation == project.force_evaluation
            && x.keep_evaluations == project.keep_evaluations,
        x.created_by == project.created_by && x.created_at == project.created_at,
        project.last_evaluation is Some ==> x.last_evaluation_status == last_status,
        project.last_evaluation is None ==> x.last_evaluation_status is None,
        x.can_edit == rights.can_edit && x.can_trigger == rights.can_trigger,
{
}

} // verus!
