//! The link between a project and the integrations of its organization.

use crate::access::{unmanaged, AccessRule, Capability};
use crate::codec::{format_uuid, uuid_text};
use crate::error::{ErrorCode, ErrorModel, WebError, WebResult};
use crate::helpers::Id;
use crate::text::cat5;
use vstd::prelude::*;

verus! {

/// What a request about the link of a project asks for: members may see it, and those who
/// may edit the project, where that is not state-managed, may change it.
pub fn project_integration_access(changes: bool) -> (r: AccessRule)
    ensures
        r == if changes {
            unmanaged(Capability::EditProject)
        } else {
            AccessRule::Member
        },
{
    if changes {
        AccessRule::Require { permission: Capability::EditProject, reject_managed: true }
    } else {
        AccessRule::Member
    }
}

/// Which way an integration works.
#[derive(Debug, Clone, Copy, PartialEq, Eq, Structural)]
pub enum IntegrationKind {
    Inbound,
    Outbound,
}

impl IntegrationKind {
    /// The name of the kind.
    pub open spec fn name(self) -> Seq<char> {
        match self {
            IntegrationKind::Inbound => "inbound"@,
            IntegrationKind::Outbound => "outbound"@,
        }
    }

    /// The name of the kind.
    pub fn as_str(self) -> (r: &'static str)
        ensures
            r@ == self.name(),
    {
        match self {
            IntegrationKind::Inbound => "inbound",
            IntegrationKind::Outbound => "outbound",
        }
    }

    /// The number under which the kind is stored.
    pub open spec fn number(self) -> i16 {
        match self {
            IntegrationKind::Inbound => 0,
            IntegrationKind::Outbound => 1,
        }
    }

    /// The number under which the kind is stored.
    pub fn as_i16(self) -> (r: i16)
        ensures
            r == self.number(),
    {
        match self {
            IntegrationKind::Inbound => 0,
            IntegrationKind::Outbound => 1,
        }
    }
}

#[derive(Debug, Clone, Copy, PartialEq, Eq, Structural)]
pub struct PutProjectIntegrationRequest {
    pub inbound_integration: Option<Id>,
    pub outbound_integration: Option<Id>,
}

#[derive(Debug, Clone, Copy, PartialEq, Eq, Structural)]
pub struct ProjectIntegrationResponse {
    pub project: Id,
    pub inbound_integration: Option<Id>,
    pub outbound_integration: Option<Id>,
}

/// Whether the integration `id` can be linked as `expected`; `stored` is the
/// number of its kind, where the organization has such an integration.
pub fn validate_integration(id: Id, stored: Option<i16>, expected: IntegrationKind) -> (r: WebResult<
    (),
>)
    ensures
        r is Ok <==> stored == Some(expected.number()),
        r matches Err(e) ==> e@ == if stored is None {
            ErrorModel::not_found("Integration"@)
        } else {
            ErrorModel::bad_request(
                "Integration "@ + uuid_text(id) + " is not "@ + expected.name() + "."@,
            )
        },
{
    match stored {
        None => Err(WebError::not_found("Integration")),
        Some(k) => if k != expected.as_i16() {
            let text = format_uuid(id);
            Err(
                WebError::bad_request(
                    cat5(
                        "Integration ",
                        text.as_str(),
                        " is not ",
                        expected.as_str(),
                        ".",
                    ).as_str(),
                ),
            )
        } else {
            Ok(())
        },
    }
}

/// The link of a project; empty when there is none.
pub fn get_project_integration(project: Id, link: Option<PutProjectIntegrationRequest>) -> (r:
    ProjectIntegrationResponse)
    ensures
        r == (ProjectIntegrationResponse {
            project,
            inbound_integration: match link {
                Some(l) => l.inbound_integration,
                None => None,
            },
            outbound_integration: match link {
                Some(l) => l.outbound_integration,
                None => None,
            },
        }),
{
    match link {
        Some(l) => ProjectIntegrationResponse {
            project,
            inbound_integration: l.inbound_integration,
            outbound_integration: l.outbound_integration,
        },
        None => ProjectIntegrationResponse {
            project,
            inbound_integration: None,
            outbound_integration: None,
        },
    }
}

/// Why a link is refused: the inbound integration is looked at first.
pub open spec fn accepts(
    body: PutProjectIntegrationRequest,
    inbound: Option<i16>,
    outbound: Option<i16>,
) -> bool {
    &&& body.inbound_integration is Some ==> inbound == Some(IntegrationKind::Inbound.number())
    &&& body.outbound_integration is Some ==> outbound == Some(IntegrationKind::Outbound.number())
}

/// The link that a request sets. `inbound` and `outbound` are the numbers of the
/// kinds of the integrations that it names, where the organization has them.
pub fn put_project_integration(
    project: Id,
    body: PutProjectIntegrationRequest,
    inbound: Option<i16>,
    outbound: Option<i16>,
) -> (r: WebResult<ProjectIntegrationResponse>)
    ensures
        r is Ok <==> accepts(body, inbound, outbound),
        match r {
            Ok(l) => l == (ProjectIntegrationResponse {
                project,
                inbound_integration: body.inbound_integration,
                outbound_integration: body.outbound_integration,
            }),
            Err(e) => {
                let bad_inbound = body.inbound_integration is Some && inbound != Some(
                    IntegrationKind::Inbound.number(),
                );
                let (id, stored, kind) = if bad_inbound {
                    (body.inbound_integration->0, inbound, IntegrationKind::Inbound)
                } else {
                    (body.outbound_integration->0, outbound, IntegrationKind::Outbound)
                };
                e@ == if stored is None {
                    ErrorModel::not_found("Integration"@)
                } else {
                    ErrorModel::bad_request(
                        "Integration "@ + uuid_text(id) + " is not "@ + kind.name() + "."@,
                    )
                }
            },
        },
{
    if let Some(id) = body.inbound_integration {
        match validate_integration(id, inbound, IntegrationKind::Inbound) {
            Ok(_) => {},
            Err(e) => {
                return Err(e);
            },
        }
    }
    if let Some(id) = body.outbound_integration {
        match validate_integration(id, outbound, IntegrationKind::Outbound) {
            Ok(_) => {},
            Err(e) => {
                return Err(e);
            },
        }
    }
    Ok(
        ProjectIntegrationResponse {
            project,
            inbound_integration: body.inbound_integration,
            outbound_integration: body.outbound_integration,
        },
    )
}

/// Members see the link of a project; to change it takes the right to edit the project, which
/// must not be state-managed.
pub proof fn law_link_access(
    changes: bool,
    r: AccessRule,
)
    requires
        call_ensures(project_integration_access, (changes,), r),
    ensures
        !changes ==> r == AccessRule::Member,
        changes ==> r == (AccessRule::Require { permission: Capability::EditProject, reject_managed: true }),
{
}

/// The kinds of integrations are stored as 0 and 1, and go by the names `inbound` and
/// `outbound`.
pub proof fn law_integration_kinds(
    k: IntegrationKind,
    name: &str,
    n: i16,
)
    requires
        call_ensures(IntegrationKind::as_str, (k,), name),
        call_ensures(IntegrationKind::as_i16, (k,), n),
    ensures
        k is Inbound ==> name@ == "inbound"@ && n == 0,
        k is Outbound ==> name@ == "outbound"@ && n == 1,
{
}

/// A link is set when each integration that it names belongs to the organization and works in
/// that direction; the inbound one is looked at first. A link that is not there is empty.
pub proof fn law_links_match_their_direction(
    project: Id,
    body: PutProjectIntegrationRequest,
    inbound: Option<i16>,
    outbound: Option<i16>,
    r: WebResult<ProjectIntegrationResponse>,
    link: Option<PutProjectIntegrationRequest>,
    shown: ProjectIntegrationResponse,
)
    requires
        call_ensures(put_project_integration, (project, body, inbound, outbound), r),
        call_ensures(get_project_integration, (project, link), shown),
    ensures
        r is Ok <==> (body.inbound_integration is Some ==> inbound == Some(0i16))
            && (body.outbound_integration is Some ==> outbound == Some(1i16)),
        r matches Ok(l) ==> l.project == project
            && l.inbound_integration == body.inbound_integration
            && l.outbound_integration == body.outbound_integration,
        body.inbound_integration is Some && inbound is None
            ==> (r matches Err(WebError::NotFound(c, m)) && c == ErrorCode::NOT_FOUND
            && m@ == "Integration"@ + " not found"@),
        body.inbound_integration is Some && inbound is Some && inbound->0 != 0
            ==> (r matches Err(WebError::BadRequest(c, m)) && c == ErrorCode::BAD_REQUEST
            && m@ == "Integration "@ + uuid_text(body.inbound_integration->0) + " is not "@
            + "inbound"@ + "."@),
        (body.inbound_integration is None || inbound == Some(0i16))
            && body.outbound_integration is Some && outbound is None
            ==> (r matches Err(WebError::NotFound(c, m)) && c == ErrorCode::NOT_FOUND
            && m@ == "Integration"@ + " not found"@),
        (body.inbound_integration is None || inbound == Some(0i16))
            && body.outbound_integration is Some && outbound is Some && outbound->0 != 1
            ==> (r matches Err(WebError::BadRequest(c, m)) && c == ErrorCode::BAD_REQUEST
            && m@ == "Integration "@ + uuid_text(body.outbound_integration->0) + " is not "@
            + "outbound"@ + "."@),
        shown.project == project,
        link is Some ==> shown.inbound_integration == link->0.inbound_integration
            && shown.outbound_integration == link->0.outbound_integration,
        link is None ==> shown.inbound_integration is None && shown.outbound_integration is None,
{
}

} // verus!
