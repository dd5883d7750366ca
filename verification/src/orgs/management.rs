//! Creating, changing and listing organizations.

use crate::error::{ErrorCode, ErrorModel, WebError, WebResult};
use crate::helpers::{Id, Timestamp};
use crate::orgs::members::{index_roles, role_ids, role_name, RoleNameRow};
use crate::rows::{count_where, last_index, lemma_count_step, lemma_count_whole, IdIndex};
use crate::projects::management::name_available;
use crate::text::{cat, opt_view, trim, trimmed};
use vstd::prelude::*;

verus! {

pub struct MakeOrganizationRequest {
    pub name: String,
    pub display_name: String,
    pub description: String,
    pub public: Option<bool>,
}

pub struct PatchOrganizationRequest {
    pub name: Option<String>,
    pub display_name: Option<String>,
    pub description: Option<String>,
}

/// An organization, as the database holds it.
pub struct OrganizationRow {
    pub id: Id,
    pub name: String,
    pub display_name: String,
    pub description: String,
    pub public_key: String,
    /// The private key, encrypted.
    pub private_key: String,
    pub public: bool,
    pub created_by: Id,
    pub created_at: Timestamp,
    pub managed: bool,
    pub github_installation_id: Option<i64>,
}

pub struct OrganizationSummary {
    pub id: Id,
    pub name: String,
    pub display_name: String,
    pub description: String,
    pub public_key: Option<String>,
    pub public: bool,
    pub managed: bool,
    pub created_by: Id,
    pub created_at: Timestamp,
    pub running_evaluations: i64,
    pub role: Option<String>,
}

pub struct OrgResponse {
    pub id: Id,
    pub name: String,
    pub display_name: String,
    pub description: String,
    pub public_key: Option<String>,
    pub public: bool,
    pub managed: bool,
    pub created_by: Id,
    pub created_at: Timestamp,
    /// GitHub App installation of this organization. `Some` is the single signal
    /// that the organization uses the GitHub App.
    pub github_installation_id: Option<i64>,
    /// Whether the server has a GitHub App configured at all.
    pub github_app_available: bool,
    pub role: Option<String>,
}

// ── Creation and changes ─────────────────────────────────────────────────────

/// Why the names of a request are refused; `display_name_error` is what the
/// validator said.
pub open spec fn names_error(
    name_valid: bool,
    display_name_error: Option<Seq<char>>,
) -> Option<ErrorModel> {
    if !name_valid {
        Some(ErrorModel::invalid_name("Organization Name"@))
    } else {
        match display_name_error {
            Some(e) => Some(ErrorModel::bad_request("Invalid display name: "@ + e)),
            None => None,
        }
    }
}

/// Whether the names of a request are well-formed.
pub fn check_new_organization(name_valid: bool, display_name_error: &Option<String>) -> (r: WebResult<()>)
    ensures
        match r {
            Ok(_) => names_error(name_valid, opt_view(*display_name_error)) is None,
            Err(e) => names_error(name_valid, opt_view(*display_name_error)) == Some(e@),
        },
{
    if !name_valid {
        return Err(WebError::invalid_name("Organization Name"));
    }
    if let Some(e) = display_name_error {
        return Err(WebError::bad_request(cat("Invalid display name: ", e.as_str()).as_str()));
    }
    Ok(())
}

/// A fresh key pair; the private key is encrypted.
pub struct KeyPair {
    pub private_key: String,
    pub public_key: String,
}

/// The membership of the user who creates an organization.
#[derive(Debug, Clone, Copy, PartialEq, Eq, Structural)]
pub struct FirstMember {
    pub organization: Id,
    pub user: Id,
    pub role: Id,
}

/// The organization that a request creates, and its first member, who becomes its
/// admin. `keys` is `None` when no key could be made.
pub fn put(
    body: &MakeOrganizationRequest,
    name_valid: bool,
    display_name_error: &Option<String>,
    name_taken: bool,
    keys: Option<KeyPair>,
    id: Id,
    created_by: Id,
    admin_role: Id,
    now: Timestamp,
) -> (r: WebResult<(OrganizationRow, FirstMember)>)
    ensures
        r is Ok <==> names_error(name_valid, opt_view(*display_name_error)) is None && !name_taken
            && keys is Some,
        match r {
            Ok((o, m)) => {
                &&& o.id == id
                &&& o.name == body.name
                &&& o.display_name@ == trimmed(body.display_name@)
                &&& o.description@ == trimmed(body.description@)
                &&& o.public_key == keys->0.public_key
                &&& o.private_key == keys->0.private_key
                &&& o.public == (body.public == Some(true))
                &&& o.created_by == created_by
                &&& o.created_at == now
                &&& !o.managed
                &&& o.github_installation_id is None
                &&& m == (FirstMember { organization: id, user: created_by, role: admin_role })
            },
            Err(e) => e@ == if names_error(name_valid, opt_view(*display_name_error)) is Some {
                names_error(name_valid, opt_view(*display_name_error))->0
            } else if name_taken {
                ErrorModel::already_exists("Organization Name"@)
            } else {
                ErrorModel::internal(
                    "["@ + ErrorCode::SSH_KEY_GENERATION_FAILED.slug()
                        + "] Failed to generate SSH key"@,
                )
            },
        },
{
    if let Err(e) = check_new_organization(name_valid, display_name_error) {
        return Err(e);
    }
    if name_taken {
        return Err(WebError::already_exists("Organization Name"));
    }
    let keys = match keys {
        Some(k) => k,
        None => {
            return Err(WebError::failed_ssh_key_generation());
        },
    };
    let public = match body.public {
        Some(p) => p,
        None => false,
    };
    Ok(
        (
            OrganizationRow {
                id,
                name: body.name.clone(),
                display_name: trim(body.display_name.as_str()).to_owned(),
                description: trim(body.description.as_str()).to_owned(),
                public_key: keys.public_key,
                private_key: keys.private_key,
                public,
                created_by,
                created_at: now,
                managed: false,
                github_installation_id: None,
            },
            FirstMember { organization: id, user: created_by, role: admin_role },
        ),
    )
}

/// Why a change is refused.
pub open spec fn patch_organization_error(
    body: PatchOrganizationRequest,
    name_valid: bool,
    name_taken: bool,
    display_name_error: Option<Seq<char>>,
) -> Option<ErrorModel> {
    if body.name is Some && !name_valid {
        Some(ErrorModel::invalid_name("Organization Name"@))
    } else if body.name is Some && name_taken {
        Some(ErrorModel::already_exists("Organization Name"@))
    } else if body.display_name is Some && display_name_error is Some {
        Some(ErrorModel::bad_request("Invalid display name: "@ + display_name_error->0))
    } else {
        None
    }
}

/// The organization after a change. `display_name_error` is what the validator
/// said of the trimmed display name.
pub fn patch_organization(
    org: OrganizationRow,
    body: PatchOrganizationRequest,
    name_valid: bool,
    name_taken: bool,
    display_name_error: &Option<String>,
) -> (r: WebResult<OrganizationRow>)
    ensures
        match r {
            Ok(o) => {
                &&& patch_organization_error(
                    body,
                    name_valid,
                    name_taken,
                    opt_view(*display_name_error),
                ) is None
                &&& o.name@ == (match body.name {
                    Some(n) => n@,
                    None => org.name@,
                })
                &&& o.display_name@ == (match body.display_name {
                    Some(d) => trimmed(d@),
                    None => org.display_name@,
                })
                &&& o.description@ == (match body.description {
                    Some(d) => trimmed(d@),
                    None => org.description@,
                })
                &&& o == (OrganizationRow {
                    name: o.name,
                    display_name: o.display_name,
                    description: o.description,
                    ..org
                })
            },
            Err(e) => patch_organization_error(
                body,
                name_valid,
                name_taken,
                opt_view(*display_name_error),
            ) == Some(e@),
        },
{
    let mut o = org;
    if let Some(name) = body.name {
        if !name_valid {
            return Err(WebError::invalid_name("Organization Name"));
        }
        if name_taken {
            return Err(WebError::already_exists("Organization Name"));
        }
        o.name = name;
    }
    if let Some(d) = body.display_name {
        if let Some(e) = display_name_error {
            return Err(WebError::bad_request(cat("Invalid display name: ", e.as_str()).as_str()));
        }
        o.display_name = trim(d.as_str()).to_owned();
    }
    if let Some(d) = body.description {
        o.description = trim(d.as_str()).to_owned();
    }
    Ok(o)
}

/// The organization after it was made public, and the message that says so.
pub fn post_organization_public(org: OrganizationRow) -> (r: (OrganizationRow, &'static str))
    ensures
        r.0 == (OrganizationRow { public: true, ..org }),
        r.1@ == "Organization is now public"@,
{
    let mut changed = org;
    changed.public = true;
    (changed, "Organization is now public")
}

/// The organization after it was made private, and the message that says so.
pub fn delete_organization_public(org: OrganizationRow) -> (r: (OrganizationRow, &'static str))
    ensures
        r.0 == (OrganizationRow { public: false, ..org }),
        r.1@ == "Organization is now private"@,
{
    let mut changed = org;
    changed.public = false;
    (changed, "Organization is now private")
}

/// Whether a name may be given to a new organization.
pub fn get_org_name_available(well_formed: bool, exists: bool) -> (r: bool)
    ensures
        r == (well_formed && !exists),
{
    name_available(well_formed, exists)
}

/// The organization after its keys were replaced.
pub fn post_organization_ssh(org: OrganizationRow, keys: Option<KeyPair>) -> (r: WebResult<
    OrganizationRow,
>)
    ensures
        match r {
            Ok(o) => keys matches Some(k) && o == (OrganizationRow {
                public_key: k.public_key,
                private_key: k.private_key,
                ..org
            }),
            Err(e) => keys is None && e@ == ErrorModel::internal(
                "["@ + ErrorCode::SSH_KEY_GENERATION_FAILED.slug()
                    + "] Failed to generate SSH key"@,
            ),
        },
{
    match keys {
        None => Err(WebError::failed_ssh_key_generation()),
        Some(k) => {
            let mut o = org;
            o.public_key = k.public_key;
            o.private_key = k.private_key;
            Ok(o)
        },
    }
}

// ── Listing ──────────────────────────────────────────────────────────────────

/// A project and the organization it belongs to.
#[derive(Clone, Copy)]
pub struct ProjectOrgRow {
    pub project: Id,
    pub organization: Id,
}

/// The identifiers of projects.
pub open spec fn project_ids(rows: Seq<ProjectOrgRow>) -> Seq<Id> {
    rows.map_values(|p: ProjectOrgRow| p.project)
}

/// An evaluation of the project `project` runs in the organization `org`.
pub open spec fn runs_in(projects: Seq<ProjectOrgRow>, org: Id) -> spec_fn(Option<Id>) -> bool {
    |project: Option<Id>|
        project matches Some(p) && (last_index(project_ids(projects), p) matches Some(k)
            && projects[k].organization == org)
}

/// Count in-progress evaluations of the organization `org`: `running` holds the
/// project of each evaluation in progress.
pub fn count_running_evaluations(
    projects: &Vec<ProjectOrgRow>,
    running: &Vec<Option<Id>>,
    org: Id,
) -> (r: i64)
    requires
        running@.len() <= i64::MAX,
    ensures
        r == count_where(running@, runs_in(projects@, org)),
{
    let mut ids: Vec<Id> = Vec::new();
    let mut p: usize = 0;
    while p < projects.len()
        invariant
            p <= projects.len(),
            ids@ == project_ids(projects@).take(p as int),
        decreases projects.len() - p,
    {
        ids.push(projects[p].project);
        p += 1;
    }
    assert(project_ids(projects@).take(p as int) =~= project_ids(projects@));
    let index = IdIndex::new(ids);
    let ghost f = runs_in(projects@, org);
    let mut n: i64 = 0;
    let mut i: usize = 0;
    proof {
        lemma_count_whole(running@, f);
    }
    while i < running.len()
        invariant
            i <= running.len(),
            running@.len() <= i64::MAX,
            index.wf(),
            index@ == project_ids(projects@),
            f == runs_in(projects@, org),
            n == count_where(running@.take(i as int), f),
            0 <= n <= i,
        decreases running.len() - i,
    {
        proof {
            lemma_count_step(running@, f, i as int);
        }
        if let Some(id) = running[i] {
            if let Some(k) = index.find(id) {
                if projects[k].organization == org {
                    n += 1;
                }
            }
        }
        i += 1;
    }
    n
}

/// A membership of the user who asks.
#[derive(Clone, Copy)]
pub struct OwnMembership {
    pub organization: Id,
    pub role: Id,
}

/// The name of the role that the user has in `org`: that of the last membership
/// whose role is known.
pub open spec fn own_role(
    memberships: Seq<OwnMembership>,
    roles: Seq<RoleNameRow>,
    org: Id,
) -> Option<Seq<char>>
    decreases memberships.len(),
{
    if memberships.len() == 0 {
        None
    } else {
        let m = memberships.last();
        if m.organization == org && role_name(roles, m.role) is Some {
            role_name(roles, m.role)
        } else {
            own_role(memberships.drop_last(), roles, org)
        }
    }
}

fn find_own_role(
    memberships: &Vec<OwnMembership>,
    roles: &Vec<RoleNameRow>,
    index: &IdIndex,
    org: Id,
) -> (r: Option<String>)
    requires
        index.wf(),
        index@ == role_ids(roles@),
    ensures
        opt_view(r) == own_role(memberships@, roles@, org),
{
    let mut i: usize = memberships.len();
    assert(memberships@.take(i as int) =~= memberships@);
    while i > 0
        invariant
            i <= memberships.len(),
            index.wf(),
            index@ == role_ids(roles@),
            own_role(memberships@, roles@, org) == own_role(
                memberships@.take(i as int),
                roles@,
                org,
            ),
        decreases i,
    {
        assert(memberships@.take(i as int).drop_last() =~= memberships@.take(i as int - 1));
        let m = memberships[i - 1];
        if m.organization == org {
            if let Some(k) = index.find(m.role) {
                return Some(roles[k].name.clone());
            }
        }
        i -= 1;
    }
    None
}

/// The rows that the list of organizations is made of, besides the
/// organizations.
pub struct OrganizationListRows {
    pub projects: Vec<ProjectOrgRow>,
    /// The project of each evaluation in progress.
    pub running: Vec<Option<Id>>,
    pub memberships: Vec<OwnMembership>,
    pub roles: Vec<RoleNameRow>,
}

impl OrganizationListRows {
    /// `s` summarises the organization `o`.
    pub open spec fn summarises(self, s: OrganizationSummary, o: OrganizationRow) -> bool {
        &&& s.id == o.id
        &&& s.name == o.name
        &&& s.display_name == o.display_name
        &&& s.description == o.description
        &&& s.public_key == Some(o.public_key)
        &&& s.public == o.public
        &&& s.managed == o.managed
        &&& s.created_by == o.created_by
        &&& s.created_at == o.created_at
        &&& s.running_evaluations == count_where(self.running@, runs_in(self.projects@, o.id))
        &&& opt_view(s.role) == own_role(self.memberships@, self.roles@, o.id)
    }
}

/// The organizations of a user. None of them shows its private key.
pub fn get(orgs: &Vec<OrganizationRow>, rows: &OrganizationListRows) -> (r: Vec<OrganizationSummary>)
    requires
        rows.running@.len() <= i64::MAX,
    ensures
        r@.len() == orgs@.len(),
        forall|i: int| 0 <= i < r@.len() ==> rows.summarises(#[trigger] r@[i], orgs@[i]),
{
    let index = index_roles(&rows.roles);
    let mut out: Vec<OrganizationSummary> = Vec::new();
    let mut i: usize = 0;
    while i < orgs.len()
        invariant
            i <= orgs.len(),
            rows.running@.len() <= i64::MAX,
            index.wf(),
            index@ == role_ids(rows.roles@),
            out@.len() == i,
            forall|j: int| 0 <= j < i ==> rows.summarises(#[trigger] out@[j], orgs@[j]),
        decreases orgs.len() - i,
    {
        let o = &orgs[i];
        out.push(
            OrganizationSummary {
                id: o.id,
                name: o.name.clone(),
                display_name: o.display_name.clone(),
                description: o.description.clone(),
                public_key: Some(o.public_key.clone()),
                public: o.public,
                managed: o.managed,
                created_by: o.created_by,
                created_at: o.created_at,
                running_evaluations: count_running_evaluations(
                    &rows.projects,
                    &rows.running,
                    o.id,
                ),
                role: find_own_role(&rows.memberships, &rows.roles, &index, o.id),
            },
        );
        i += 1;
    }
    out
}

/// The response on an organization. `role` is the name of the role that the
/// caller has in it, if any.
pub fn get_organization(org: OrganizationRow, github_app_available: bool, role: Option<String>) -> (r:
    OrgResponse)
    ensures
        r == (OrgResponse {
            id: org.id,
            name: org.name,
            display_name: org.display_name,
            description: org.description,
            public_key: Some(org.public_key),
            public: org.public,
            managed: org.managed,
            created_by: org.created_by,
            created_at: org.created_at,
            github_installation_id: org.github_installation_id,
            github_app_available,
            role,
        }),
{
    OrgResponse {
        id: org.id,
        name: org.name,
        display_name: org.display_name,
        description: org.description,
        public_key: Some(org.public_key),
        public: org.public,
        managed: org.managed,
        created_by: org.created_by,
        created_at: org.created_at,
        github_installation_id: org.github_installation_id,
        github_app_available,
        role,
    }
}

/// An organization is created when its names are well-formed, the name is free and a key could
/// be made, in this order. It starts unmanaged and without GitHub App, private unless the
/// request says otherwise, and who creates it is its admin.
pub proof fn law_created_organizations(
    body: MakeOrganizationRequest,
    name_valid: bool,
    display_name_error: Option<String>,
    name_taken: bool,
    keys: Option<KeyPair>,
    id: Id,
    created_by: Id,
    admin_role: Id,
    now: Timestamp,
    r: WebResult<(OrganizationRow, FirstMember)>,
)
    requires
        call_ensures(put, (&body, name_valid, &display_name_error, name_taken, keys, id, created_by, admin_role, now), r),
    ensures
        r is Ok <==> name_valid && display_name_error is None && !name_taken && keys is Some,
        !name_valid ==> (r matches Err(WebError::BadRequest(c, m)) && c == ErrorCode::INVALID_NAME
            && m@ == "Invalid "@ + "Organization Name"@),
        name_valid && display_name_error is Some
            ==> (r matches Err(WebError::BadRequest(c, m)) && c == ErrorCode::BAD_REQUEST
            && m@ == "Invalid display name: "@ + display_name_error->0@),
        name_valid && display_name_error is None && name_taken
            ==> (r matches Err(WebError::Conflict(c, m)) && c == ErrorCode::ALREADY_EXISTS
            && m@ == "Organization Name"@ + " already exists"@),
        name_valid && display_name_error is None && !name_taken && keys is None
            ==> (r matches Err(WebError::Internal(m))
            && m@ == "["@ + "ssh_key_generation_failed"@ + "] Failed to generate SSH key"@),
        r matches Ok((o, m)) ==> {
            &&& o.id == id && o.created_by == created_by && o.created_at == now && !o.managed
                && o.github_installation_id is None
            &&& o.name@ == body.name@ && o.display_name@ == trimmed(body.display_name@)
                && o.description@ == trimmed(body.description@)
            &&& o.public_key@ == keys->0.public_key@ && o.private_key@ == keys->0.private_key@
            &&& o.public <==> body.public is Some && body.public->0
            &&& m.organization == id && m.user == created_by && m.role == admin_role
        },
{
}

/// A change is refused for a malformed or taken name and a bad display name; it gives an
/// organization the new names and keeps everything else.
pub proof fn law_changed_organizations(
    org: OrganizationRow,
    body: PatchOrganizationRequest,
    name_valid: bool,
    name_taken: bool,
    display_name_error: Option<String>,
    r: WebResult<OrganizationRow>,
)
    requires
        call_ensures(patch_organization, (org, body, name_valid, name_taken, &display_name_error), r),
    ensures
        r is Ok <==> (body.name is Some ==> name_valid && !name_taken)
            && (body.display_name is Some ==> display_name_error is None),
        body.name is Some && !name_valid ==> (r matches Err(WebError::BadRequest(c, m))
            && c == ErrorCode::INVALID_NAME && m@ == "Invalid "@ + "Organization Name"@),
        body.name is Some && name_valid && name_taken
            ==> (r matches Err(WebError::Conflict(c, m)) && c == ErrorCode::ALREADY_EXISTS
            && m@ == "Organization Name"@ + " already exists"@),
        (body.name is Some ==> name_valid && !name_taken) && body.display_name is Some
            && display_name_error is Some ==> (r matches Err(WebError::BadRequest(c, m))
            && c == ErrorCode::BAD_REQUEST && m@
            == "Invalid display name: "@ + display_name_error->0@),
        r matches Ok(o) ==> {
            &&& o == (OrganizationRow {
                name: o.name,
                display_name: o.display_name,
                description: o.description,
                ..org
            })
            &&& body.name is Some ==> o.name@ == body.name->0@
            &&& body.name is None ==> o.name@ == org.name@
            &&& body.display_name is Some ==> o.display_name@ == trimmed(body.display_name->0@)
            &&& body.display_name is None ==> o.display_name@ == org.display_name@
            &&& body.description is Some ==> o.description@ == trimmed(body.description->0@)
            &&& body.description is None ==> o.description@ == org.description@
        },
{
}

/// Visibility and keys change alone; a name is free when it is well-formed and nobody has it.
pub proof fn law_organization_switches(
    org: OrganizationRow,
    on: (OrganizationRow, &str),
    off: (OrganizationRow, &str),
    keys: Option<KeyPair>,
    r: WebResult<OrganizationRow>,
    well_formed: bool,
    taken: bool,
    available: bool,
)
    requires
        call_ensures(post_organization_public, (org,), on),
        call_ensures(delete_organization_public, (org,), off),
        call_ensures(post_organization_ssh, (org, keys), r),
        call_ensures(get_org_name_available, (well_formed, taken), available),
    ensures
        on.0 == (OrganizationRow { public: true, ..org }),
        off.0 == (OrganizationRow { public: false, ..org }),
        on.1@ == "Organization is now public"@,
        off.1@ == "Organization is now private"@,
        available <==> well_formed && !taken,
        r is Ok <==> keys is Some,
        r is Ok ==> r->Ok_0 == (OrganizationRow { public_key: keys->0.public_key, private_key: keys->0.private_key, ..org }),
        r is Err ==> (r matches Err(WebError::Internal(m))
            && m@ == "["@ + "ssh_key_generation_failed"@ + "] Failed to generate SSH key"@),
{
}

/// One more evaluation in progress counts for the organization that its project belongs to, and
/// for no other; where two rows share a project, the last counts.
pub proof fn law_running_evaluations(
    projects: Vec<ProjectOrgRow>,
    running: Vec<Option<Id>>,
    more: Vec<Option<Id>>,
    x: Option<Id>,
    org: Id,
    r: i64,
    s: i64,
    k: int,
)
    requires
        more@ == running@.push(x),
        more@.len() <= i64::MAX,
        call_ensures(count_running_evaluations, (&projects, &running, org), r),
        call_ensures(count_running_evaluations, (&projects, &more, org), s),
    ensures
        running@.len() == 0 ==> r == 0,
        x is None ==> s == r,
        x is Some && (forall|j: int| 0 <= j < projects@.len() ==> (#[trigger] projects@[j]).project
            != x->0) ==> s == r,
        x is Some && 0 <= k < projects@.len() && projects@[k].project == x->0 && (forall|j: int|
            k < j < projects@.len() ==> (#[trigger] projects@[j]).project != x->0) ==> s == if
            projects@[k].organization == org {
            r + 1
        } else {
            r as int
        },
{
    crate::rows::law_counting(running@, x, runs_in(projects@, org));
    let ids = project_ids(projects@);
    assert forall|j: int| 0 <= j < ids.len() implies ids[j] == (#[trigger] projects@[j]).project by {}
    if x is Some && 0 <= k < projects@.len() && projects@[k].project == x->0 && (forall|j: int|
        k < j < projects@.len() ==> (#[trigger] projects@[j]).project != x->0) {
        assert forall|j: int| k < j < ids.len() implies ids[j] != x->0 by {
            assert(ids[j] == projects@[j].project);
        }
        crate::rows::lemma_last_index_is(ids, x->0, k);
    }
    if x is Some && (forall|j: int| 0 <= j < projects@.len() ==> (#[trigger] projects@[j]).project
        != x->0) {
        assert forall|j: int| 0 <= j < ids.len() implies ids[j] != x->0 by {
            assert(ids[j] == projects@[j].project);
        }
        crate::rows::lemma_no_last_index(ids, x->0);
    }
}

/// A list shows every organization, in order, with the evaluations in progress in it and the
/// role of the caller in it; it has the public key and not the private one.
pub proof fn law_listed_organizations(
    orgs: Vec<OrganizationRow>,
    rows: OrganizationListRows,
    r: Vec<OrganizationSummary>,
    i: int,
    n: i64,
    org: OrganizationRow,
    app: bool,
    role: Option<String>,
    one: OrgResponse,
)
    requires
        rows.running@.len() <= i64::MAX,
        call_ensures(get, (&orgs, &rows), r),
        0 <= i < orgs@.len(),
        call_ensures(count_running_evaluations, (&rows.projects, &rows.running, orgs@[i].id), n),
        call_ensures(get_organization, (org, app, role), one),
    ensures
        r@.len() == orgs@.len(),
        r@[i].running_evaluations == n,
        ({
            let s = r@[i];
            let o = orgs@[i];
            &&& s.id == o.id && s.public == o.public && s.managed == o.managed && s.created_by
                == o.created_by && s.created_at == o.created_at
            &&& s.name@ == o.name@ && s.display_name@ == o.display_name@ && s.description@
                == o.description@
            &&& s.public_key is Some && s.public_key->0@ == o.public_key@
        }),
        one.id == org.id && one.public == org.public && one.managed == org.managed && one.created_by
            == org.created_by && one.created_at == org.created_at && one.github_installation_id
            == org.github_installation_id && one.github_app_available == app && one.role == role,
        one.name@ == org.name@ && one.display_name@ == org.display_name@ && one.description@
            == org.description@ && one.public_key == Some(org.public_key),
{
    assert(rows.summarises(r@[i], orgs@[i]));
}

/// The role that a list shows: the last membership in the organization whose role is known
/// names it, and other memberships do not matter.
pub proof fn law_own_role(
    memberships: Seq<OwnMembership>,
    m: OwnMembership,
    roles: Seq<RoleNameRow>,
    org: Id,
)
    ensures
        own_role(Seq::<OwnMembership>::empty(), roles, org) is None,
        m.organization != org || role_name(roles, m.role) is None
            ==> own_role(memberships.push(m), roles, org) == own_role(memberships, roles, org),
        m.organization == org && role_name(roles, m.role) is Some
            ==> own_role(memberships.push(m), roles, org) == role_name(roles, m.role),
{
    assert(memberships.push(m).drop_last() =~= memberships);
}

} // verus!
