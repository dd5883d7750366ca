//! Who may see or change an evaluation.

use crate::error::{ErrorCode, ErrorModel, WebError, WebResult};
use crate::helpers::Id;
use crate::text::{opt_view, same};
use vstd::prelude::*;

verus! {

/// The project of an evaluation, as far as access needs it.
pub struct EvalProject {
    pub organization: Id,
    pub name: String,
    pub display_name: String,
}

/// Resolved access context for an evaluation.
pub struct EvalAccessContext {
    pub organization_id: Id,
    /// Only set when the evaluation is linked to a project (not a direct build).
    pub project_name: Option<String>,
    pub project_display_name: Option<String>,
}

/// The organization that owns an evaluation: that of its project, or of its
/// direct build when it belongs to no project.
pub open spec fn owner(
    in_project: bool,
    project: Option<EvalProject>,
    direct_build_org: Option<Id>,
) -> Option<Id> {
    if in_project {
        match project {
            Some(p) => Some(p.organization),
            None => None,
        }
    } else {
        direct_build_org
    }
}

impl EvalAccessContext {
    /// Resolves the organization that owns an evaluation and enforces the access
    /// check. `in_project` says whether the evaluation is linked to a project,
    /// `project` and `direct_build_org` are what was found of either;
    /// `org_public` is `None` when the organization is gone. Returns
    /// `not_found("Evaluation")` on any failure so callers cannot distinguish
    /// missing from forbidden.
    pub fn load(
        found: bool,
        in_project: bool,
        project: Option<EvalProject>,
        direct_build_org: Option<Id>,
        org_public: Option<bool>,
        is_member: bool,
    ) -> (r: WebResult<EvalAccessContext>)
        ensures
            r is Ok <==> found && owner(in_project, project, direct_build_org) is Some && (
            org_public == Some(true) || (org_public is Some && is_member)),
            match r {
                Ok(c) => {
                    &&& Some(c.organization_id) == owner(in_project, project, direct_build_org)
                    &&& opt_view(c.project_name) == if in_project {
                        Some(project->0.name@)
                    } else {
                        None
                    }
                    &&& opt_view(c.project_display_name) == if in_project {
                        Some(project->0.display_name@)
                    } else {
                        None
                    }
                },
                Err(e) => e@ == ErrorModel::not_found("Evaluation"@),
            },
    {
        if !found {
            return Err(WebError::not_found("Evaluation"));
        }
        let (organization_id, project_name, project_display_name) = if in_project {
            match project {
                Some(p) => (p.organization, Some(p.name), Some(p.display_name)),
                None => {
                    return Err(WebError::not_found("Evaluation"));
                },
            }
        } else {
            match direct_build_org {
                Some(id) => (id, None, None),
                None => {
                    return Err(WebError::not_found("Evaluation"));
                },
            }
        };
        match org_public {
            None => {
                return Err(WebError::not_found("Evaluation"));
            },
            Some(public) => {
                if !public && !is_member {
                    return Err(WebError::not_found("Evaluation"));
                }
            },
        }
        Ok(EvalAccessContext { organization_id, project_name, project_display_name })
    }
}

#[derive(Debug, PartialEq, Eq)]
pub struct MakeEvaluationRequest {
    pub method: String,
}

/// What a request to change an evaluation comes to.
#[derive(Debug, Clone, Copy, PartialEq, Eq, Structural)]
pub enum EvaluationAction {
    Abort,
    Nothing,
}

/// What a request to change an evaluation comes to. The caller has to see the evaluation
/// (`ctx`); mutations require membership of its organization even where that is public.
pub fn post_evaluation(
    ctx: WebResult<EvalAccessContext>,
    is_member: bool,
    body: &MakeEvaluationRequest,
) -> (r: WebResult<EvaluationAction>)
    ensures
        match r {
            Ok(a) => ctx is Ok && is_member && a == if body.method@ == "abort"@ {
                EvaluationAction::Abort
            } else {
                EvaluationAction::Nothing
            },
            Err(e) => e@ == if ctx is Err {
                ctx->Err_0@
            } else {
                ErrorModel::not_found("Evaluation"@)
            } && (ctx is Err || !is_member),
        },
{
    if let Err(e) = ctx {
        return Err(e);
    }
    if !is_member {
        return Err(WebError::not_found("Evaluation"));
    }
    if same(body.method.as_str(), "abort") {
        Ok(EvaluationAction::Abort)
    } else {
        Ok(EvaluationAction::Nothing)
    }
}

/// An evaluation can be seen when it is there, belongs to an organization, through its project
/// or its direct build, and that organization is public or the caller is a member. Anything else
/// looks like an evaluation that is not there.
pub proof fn law_evaluations_are_seen_by_members(
    found: bool,
    in_project: bool,
    project: Option<EvalProject>,
    direct_build_org: Option<Id>,
    org_public: Option<bool>,
    is_member: bool,
    r: WebResult<EvalAccessContext>,
)
    requires
        call_ensures(
            EvalAccessContext::load,
            (found, in_project, project, direct_build_org, org_public, is_member),
            r,
        ),
    ensures
        r is Ok <==> {
            &&& found
            &&& in_project ==> project is Some
            &&& !in_project ==> direct_build_org is Some
            &&& org_public is Some
            &&& org_public->0 || is_member
        },
        r matches Ok(c) ==> if in_project {
            &&& c.organization_id == project->0.organization
            &&& c.project_name is Some && c.project_name->0@ == project->0.name@
            &&& c.project_display_name is Some && c.project_display_name->0@
                == project->0.display_name@
        } else {
            &&& c.organization_id == direct_build_org->0
            &&& c.project_name is None
            &&& c.project_display_name is None
        },
        r is Err ==> (r matches Err(WebError::NotFound(ErrorCode::NOT_FOUND, m)) && m@
            == "Evaluation"@ + " not found"@),
{
}

/// Only members abort an evaluation, and only by asking for `abort`; any other method does
/// nothing.
pub proof fn law_members_abort_evaluations(
    ctx: WebResult<EvalAccessContext>,
    is_member: bool,
    body: MakeEvaluationRequest,
    r: WebResult<EvaluationAction>,
)
    requires
        call_ensures(post_evaluation, (ctx, is_member, &body), r),
    ensures
        r matches Ok(EvaluationAction::Abort) <==> ctx is Ok && is_member && body.method@
            == "abort"@,
        r is Err <==> ctx is Err || !is_member,
        r is Err && ctx is Err ==> r->Err_0@ == ctx->Err_0@,
        r is Err && ctx is Ok ==> (r matches Err(WebError::NotFound(ErrorCode::NOT_FOUND, m)) && m@
            == "Evaluation"@ + " not found"@),
{
}

} // verus!
