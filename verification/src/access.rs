//! What requests ask of the organization, project or cache that their route names:
//! to read it, to belong to it, or to hold a permission on it; and which of them leave
//! what is managed by the state file alone.

use crate::routes::{
    is_listed, law_session_routes_require_a_session, lists, policy, Guard, RouterSettings,
    OPTIONAL_ROUTES, SESSION_ROUTES,
};
use vstd::prelude::*;

verus! {

/// The permissions that routes ask for, on organizations and on caches.
#[derive(Debug, Clone, Copy, PartialEq, Eq, Structural)]
pub enum Capability {
    CreateProject,
    EditProject,
    TriggerEvaluation,
    ManageOrgSettings,
    DeleteOrg,
    ManageSshKey,
    ManageRoles,
    ManageIntegrations,
    ManageWebhooks,
    ViewCache,
    WriteStore,
    ManageCacheUpstreams,
    ManageCacheKeys,
    ManageCacheRoles,
}

/// What a request has to be allowed.
#[derive(Debug, Clone, Copy, PartialEq, Eq, Structural)]
pub enum AccessRule {
    /// To read: what is public, or what the caller belongs to.
    Readable,
    /// To belong to it.
    Member,
    /// To edit it.
    Editable,
    /// To hold a permission on it. State-managed rows may be refused on top of that.
    Require { permission: Capability, reject_managed: bool },
}

/// A permission on rows that are not state-managed.
pub open spec fn unmanaged(permission: Capability) -> AccessRule {
    AccessRule::Require { permission, reject_managed: true }
}

/// A permission on any row.
pub open spec fn anywhere(permission: Capability) -> AccessRule {
    AccessRule::Require { permission, reject_managed: false }
}

// ── Tables ───────────────────────────────────────────────────────────────────
//
// Each line holds the template of a route below `/api/v1` and the methods that ask
// for what the table is named after. Routes that are in none of the tables have a rule
// of their own, or none.

/// Those who may read the organization, project or cache.
pub const READER_ROUTES: &'static str = "
/orgs/{organization} GET
/orgs/{organization}/users GET
/projects/{organization} GET
/projects/{organization}/{project} GET
/projects/{organization}/{project}/evaluations GET
/projects/{organization}/{project}/details GET
/projects/{organization}/{project}/entry-points GET
/projects/{organization}/{project}/metrics GET
/projects/{organization}/{project}/entry-point-metrics GET
/caches/{cache}/public-key GET
";

/// Members of the organization or of the cache.
pub const MEMBER_ROUTES: &'static str = "
/orgs/{organization}/users POST PATCH DELETE
/orgs/{organization}/roles GET
/orgs/{organization}/roles/{role_id} GET
/orgs/{organization}/ssh GET
/orgs/{organization}/subscribe GET
/orgs/{organization}/subscribe/{cache} POST DELETE
/orgs/{organization}/workers GET POST
/orgs/{organization}/workers/{worker_id} PATCH DELETE
/projects/{organization}/{project}/transfer POST
/projects/{organization}/{project}/triggers GET
/projects/{organization}/{project}/triggers/{id} GET
/projects/{organization}/{project}/actions GET
/projects/{organization}/{project}/actions/{id} GET
/caches/{cache}/roles GET
/caches/{cache}/roles/{role_id} GET
";

/// Those who may edit the organization or the cache.
pub const EDITOR_ROUTES: &'static str = "
/orgs/{organization}/public POST DELETE
/caches/{cache} PATCH DELETE
/caches/{cache}/nars/{hash} DELETE
/caches/{cache}/active POST DELETE
/caches/{cache}/public POST DELETE
";

/// `CreateProject`, in an organization that is not state-managed.
pub const CREATE_PROJECT_ROUTES: &'static str = "
/projects/{organization} PUT
";

/// `EditProject`, on a project that is not state-managed.
pub const EDIT_PROJECT_ROUTES: &'static str = "
/projects/{organization}/{project} PATCH DELETE
/projects/{organization}/{project}/check-repository POST
/projects/{organization}/{project}/active POST DELETE
";

/// `EditProject`, on any project.
pub const EDIT_HOOK_ROUTES: &'static str = "
/projects/{organization}/{project}/triggers POST
/projects/{organization}/{project}/triggers/{id} PATCH DELETE
/projects/{organization}/{project}/actions POST
/projects/{organization}/{project}/actions/{id} PATCH DELETE
/projects/{organization}/{project}/actions/{id}/test POST
/projects/{organization}/{project}/actions/{id}/regenerate-token POST
";

/// `TriggerEvaluation`, on any project.
pub const TRIGGER_ROUTES: &'static str = "
/projects/{organization}/{project}/evaluate POST
/projects/{organization}/{project}/triggers/{id}/test POST
";

/// `ManageOrgSettings`, on an organization that is not state-managed.
pub const ORG_SETTINGS_ROUTES: &'static str = "
/orgs/{organization} PATCH
";

/// `DeleteOrg`, on an organization that is not state-managed.
pub const DELETE_ORG_ROUTES: &'static str = "
/orgs/{organization} DELETE
";

/// `ManageSshKey`, on an organization that is not state-managed.
pub const SSH_KEY_ROUTES: &'static str = "
/orgs/{organization}/ssh POST
";

/// `ManageRoles`, on an organization that is not state-managed.
pub const ROLE_ROUTES: &'static str = "
/orgs/{organization}/roles POST
/orgs/{organization}/roles/{role_id} PATCH DELETE
";

/// `ManageIntegrations`, on any organization.
pub const READ_INTEGRATION_ROUTES: &'static str = "
/orgs/{organization}/integrations GET
/orgs/{organization}/integrations/{id} GET
";

/// `ManageIntegrations`, on an organization that is not state-managed.
pub const EDIT_INTEGRATION_ROUTES: &'static str = "
/orgs/{organization}/integrations PUT
/orgs/{organization}/integrations/{id} PATCH DELETE
";

/// `ViewCache`, on any cache.
pub const VIEW_CACHE_ROUTES: &'static str = "
/caches/{cache}/upstreams GET
";

/// `ManageCacheUpstreams`, on a cache that is not state-managed.
pub const UPSTREAM_ROUTES: &'static str = "
/caches/{cache}/upstreams PUT
/caches/{cache}/upstreams/{id} PATCH DELETE
";

/// `WriteStore`, on any cache.
pub const WRITE_STORE_ROUTES: &'static str = "
/caches/{cache}/nars POST
";

/// `ManageCacheKeys`, on any cache.
pub const CACHE_KEY_ROUTES: &'static str = "
/caches/{cache}/key GET
";

/// `ManageCacheRoles`, on a cache that is not state-managed.
pub const CACHE_ROLE_ROUTES: &'static str = "
/caches/{cache}/roles POST
/caches/{cache}/roles/{role_id} PATCH DELETE
";

// ── Lookup ───────────────────────────────────────────────────────────────────

/// What a route that takes a session asks for.
pub open spec fn session_rule(method: Seq<char>, route: Seq<char>) -> Option<AccessRule> {
    if lists(MEMBER_ROUTES@, method, route) {
        Some(AccessRule::Member)
    } else if lists(EDITOR_ROUTES@, method, route) {
        Some(AccessRule::Editable)
    } else if lists(CREATE_PROJECT_ROUTES@, method, route) {
        Some(unmanaged(Capability::CreateProject))
    } else if lists(EDIT_PROJECT_ROUTES@, method, route) {
        Some(unmanaged(Capability::EditProject))
    } else if lists(EDIT_HOOK_ROUTES@, method, route) {
        Some(anywhere(Capability::EditProject))
    } else if lists(TRIGGER_ROUTES@, method, route) {
        Some(anywhere(Capability::TriggerEvaluation))
    } else if lists(ORG_SETTINGS_ROUTES@, method, route) {
        Some(unmanaged(Capability::ManageOrgSettings))
    } else if lists(DELETE_ORG_ROUTES@, method, route) {
        Some(unmanaged(Capability::DeleteOrg))
    } else if lists(SSH_KEY_ROUTES@, method, route) {
        Some(unmanaged(Capability::ManageSshKey))
    } else if lists(ROLE_ROUTES@, method, route) {
        Some(unmanaged(Capability::ManageRoles))
    } else if lists(READ_INTEGRATION_ROUTES@, method, route) {
        Some(anywhere(Capability::ManageIntegrations))
    } else if lists(EDIT_INTEGRATION_ROUTES@, method, route) {
        Some(unmanaged(Capability::ManageIntegrations))
    } else if lists(VIEW_CACHE_ROUTES@, method, route) {
        Some(anywhere(Capability::ViewCache))
    } else if lists(UPSTREAM_ROUTES@, method, route) {
        Some(unmanaged(Capability::ManageCacheUpstreams))
    } else if lists(WRITE_STORE_ROUTES@, method, route) {
        Some(anywhere(Capability::WriteStore))
    } else if lists(CACHE_KEY_ROUTES@, method, route) {
        Some(anywhere(Capability::ManageCacheKeys))
    } else if lists(CACHE_ROLE_ROUTES@, method, route) {
        Some(unmanaged(Capability::ManageCacheRoles))
    } else {
        None
    }
}

/// What a route below `/api/v1` asks for.
pub open spec fn access_of(method: Seq<char>, route: Seq<char>) -> Option<AccessRule> {
    if lists(SESSION_ROUTES@, method, route) {
        session_rule(method, route)
    } else if lists(OPTIONAL_ROUTES@, method, route) && lists(READER_ROUTES@, method, route) {
        Some(AccessRule::Readable)
    } else {
        None
    }
}

fn rule_of_session_route(method: &str, route: &str) -> (r: Option<AccessRule>)
    ensures
        r == session_rule(method@, route@),
{
    if is_listed(MEMBER_ROUTES, method, route) {
        Some(AccessRule::Member)
    } else if is_listed(EDITOR_ROUTES, method, route) {
        Some(AccessRule::Editable)
    } else if is_listed(CREATE_PROJECT_ROUTES, method, route) {
        Some(AccessRule::Require { permission: Capability::CreateProject, reject_managed: true })
    } else if is_listed(EDIT_PROJECT_ROUTES, method, route) {
        Some(AccessRule::Require { permission: Capability::EditProject, reject_managed: true })
    } else if is_listed(EDIT_HOOK_ROUTES, method, route) {
        Some(AccessRule::Require { permission: Capability::EditProject, reject_managed: false })
    } else if is_listed(TRIGGER_ROUTES, method, route) {
        Some(AccessRule::Require { permission: Capability::TriggerEvaluation, reject_managed: false })
    } else if is_listed(ORG_SETTINGS_ROUTES, method, route) {
        Some(AccessRule::Require { permission: Capability::ManageOrgSettings, reject_managed: true })
    } else if is_listed(DELETE_ORG_ROUTES, method, route) {
        Some(AccessRule::Require { permission: Capability::DeleteOrg, reject_managed: true })
    } else if is_listed(SSH_KEY_ROUTES, method, route) {
        Some(AccessRule::Require { permission: Capability::ManageSshKey, reject_managed: true })
    } else if is_listed(ROLE_ROUTES, method, route) {
        Some(AccessRule::Require { permission: Capability::ManageRoles, reject_managed: true })
    } else if is_listed(READ_INTEGRATION_ROUTES, method, route) {
        Some(AccessRule::Require { permission: Capability::ManageIntegrations, reject_managed: false })
    } else if is_listed(EDIT_INTEGRATION_ROUTES, method, route) {
        Some(AccessRule::Require { permission: Capability::ManageIntegrations, reject_managed: true })
    } else if is_listed(VIEW_CACHE_ROUTES, method, route) {
        Some(AccessRule::Require { permission: Capability::ViewCache, reject_managed: false })
    } else if is_listed(UPSTREAM_ROUTES, method, route) {
        Some(AccessRule::Require { permission: Capability::ManageCacheUpstreams, reject_managed: true })
    } else if is_listed(WRITE_STORE_ROUTES, method, route) {
        Some(AccessRule::Require { permission: Capability::WriteStore, reject_managed: false })
    } else if is_listed(CACHE_KEY_ROUTES, method, route) {
        Some(AccessRule::Require { permission: Capability::ManageCacheKeys, reject_managed: false })
    } else if is_listed(CACHE_ROLE_ROUTES, method, route) {
        Some(AccessRule::Require { permission: Capability::ManageCacheRoles, reject_managed: true })
    } else {
        None
    }
}

/// What a route below `/api/v1` asks for, where it has no rule of its own.
pub fn access_rule(method: &str, route: &str) -> (r: Option<AccessRule>)
    ensures
        r == access_of(method@, route@),
{
    if is_listed(SESSION_ROUTES, method, route) {
        rule_of_session_route(method, route)
    } else if is_listed(OPTIONAL_ROUTES, method, route) && is_listed(READER_ROUTES, method, route) {
        Some(AccessRule::Readable)
    } else {
        None
    }
}

/// Membership and permissions are asked only of callers with a session: whoever may call
/// a route without one only reads.
pub proof fn law_permissions_take_a_session(
    method: Seq<char>,
    rest: Seq<char>,
    s: RouterSettings,
)
    requires
        access_of(method, rest) is Some,
        access_of(method, rest)->0 != AccessRule::Readable,
        method != "HEAD"@,
    ensures
        policy(method, "/api/v1"@ + rest, s) is Some,
        policy(method, "/api/v1"@ + rest, s)->0.guard == Guard::Session,
{
    law_session_routes_require_a_session(method, rest, s);
}

/// What each table of routes asks for: a route that takes a session asks for what its table is
/// named after, in the order of the tables; one that takes a session where there is one, and is
/// open to readers, asks to be readable. Any other route has a rule of its own, or none.
pub proof fn law_tables_say_what_is_asked_for(
    method: &str,
    route: &str,
    r: Option<AccessRule>,
)
    requires
        call_ensures(access_rule, (method, route), r),
    ensures
        !lists(SESSION_ROUTES@, method@, route@)
            && !(lists(OPTIONAL_ROUTES@, method@, route@) && lists(READER_ROUTES@, method@, route@))
            ==> r is None,
        !lists(SESSION_ROUTES@, method@, route@) && lists(OPTIONAL_ROUTES@, method@, route@)
            && lists(READER_ROUTES@, method@, route@) ==> r == Some(AccessRule::Readable),
        lists(SESSION_ROUTES@, method@, route@) && lists(MEMBER_ROUTES@, method@, route@)
            ==> r == Some(AccessRule::Member),
        lists(SESSION_ROUTES@, method@, route@) && lists(EDITOR_ROUTES@, method@, route@)
            && !lists(MEMBER_ROUTES@, method@, route@) ==> r == Some(AccessRule::Editable),
        lists(SESSION_ROUTES@, method@, route@) && lists(CREATE_PROJECT_ROUTES@, method@, route@)
            && !lists(MEMBER_ROUTES@, method@, route@) && !lists(EDITOR_ROUTES@, method@, route@)
            ==> r == Some(AccessRule::Require { permission: Capability::CreateProject, reject_managed: true }),
        lists(SESSION_ROUTES@, method@, route@) && lists(EDIT_PROJECT_ROUTES@, method@, route@)
            && !lists(MEMBER_ROUTES@, method@, route@) && !lists(EDITOR_ROUTES@, method@, route@)
            && !lists(CREATE_PROJECT_ROUTES@, method@, route@)
            ==> r == Some(AccessRule::Require { permission: Capability::EditProject, reject_managed: true }),
        lists(SESSION_ROUTES@, method@, route@) && lists(EDIT_HOOK_ROUTES@, method@, route@)
            && !lists(MEMBER_ROUTES@, method@, route@) && !lists(EDITOR_ROUTES@, method@, route@)
            && !lists(CREATE_PROJECT_ROUTES@, method@, route@)
            && !lists(EDIT_PROJECT_ROUTES@, method@, route@)
            ==> r == Some(AccessRule::Require { permission: Capability::EditProject, reject_managed: false }),
        lists(SESSION_ROUTES@, method@, route@) && lists(TRIGGER_ROUTES@, method@, route@)
            && !lists(MEMBER_ROUTES@, method@, route@) && !lists(EDITOR_ROUTES@, method@, route@)
            && !lists(CREATE_PROJECT_ROUTES@, method@, route@)
            && !lists(EDIT_PROJECT_ROUTES@, method@, route@)
            && !lists(EDIT_HOOK_ROUTES@, method@, route@)
            ==> r == Some(AccessRule::Require { permission: Capability::TriggerEvaluation, reject_managed: false }),
        lists(SESSION_ROUTES@, method@, route@) && lists(ORG_SETTINGS_ROUTES@, method@, route@)
            && !lists(MEMBER_ROUTES@, method@, route@) && !lists(EDITOR_ROUTES@, method@, route@)
            && !lists(CREATE_PROJECT_ROUTES@, method@, route@)
            && !lists(EDIT_PROJECT_ROUTES@, method@, route@)
            && !lists(EDIT_HOOK_ROUTES@, method@, route@)
            && !lists(TRIGGER_ROUTES@, method@, route@)
            ==> r == Some(AccessRule::Require { permission: Capability::ManageOrgSettings, reject_managed: true }),
        lists(SESSION_ROUTES@, method@, route@) && lists(DELETE_ORG_ROUTES@, method@, route@)
            && !lists(MEMBER_ROUTES@, method@, route@) && !lists(EDITOR_ROUTES@, method@, route@)
            && !lists(CREATE_PROJECT_ROUTES@, method@, route@)
            && !lists(EDIT_PROJECT_ROUTES@, method@, route@)
            && !lists(EDIT_HOOK_ROUTES@, method@, route@)
            && !lists(TRIGGER_ROUTES@, method@, route@)
            && !lists(ORG_SETTINGS_ROUTES@, method@, route@)
            ==> r == Some(AccessRule::Require { permission: Capability::DeleteOrg, reject_managed: true }),
        lists(SESSION_ROUTES@, method@, route@) && lists(SSH_KEY_ROUTES@, method@, route@)
            && !lists(MEMBER_ROUTES@, method@, route@) && !lists(EDITOR_ROUTES@, method@, route@)
            && !lists(CREATE_PROJECT_ROUTES@, method@, route@)
            && !lists(EDIT_PROJECT_ROUTES@, method@, route@)
            && !lists(EDIT_HOOK_ROUTES@, method@, route@)
            && !lists(TRIGGER_ROUTES@, method@, route@)
            && !lists(ORG_SETTINGS_ROUTES@, method@, route@)
            && !lists(DELETE_ORG_ROUTES@, method@, route@)
            ==> r == Some(AccessRule::Require { permission: Capability::ManageSshKey, reject_managed: true }),
        lists(SESSION_ROUTES@, method@, route@) && lists(ROLE_ROUTES@, method@, route@)
            && !lists(MEMBER_ROUTES@, method@, route@) && !lists(EDITOR_ROUTES@, method@, route@)
            && !lists(CREATE_PROJECT_ROUTES@, method@, route@)
            && !lists(EDIT_PROJECT_ROUTES@, method@, route@)
            && !lists(EDIT_HOOK_ROUTES@, method@, route@)
            && !lists(TRIGGER_ROUTES@, method@, route@)
            && !lists(ORG_SETTINGS_ROUTES@, method@, route@)
            && !lists(DELETE_ORG_ROUTES@, method@, route@)
            && !lists(SSH_KEY_ROUTES@, method@, route@)
            ==> r == Some(AccessRule::Require { permission: Capability::ManageRoles, reject_managed: true }),
        lists(SESSION_ROUTES@, method@, route@) && lists(READ_INTEGRATION_ROUTES@, method@, route@)
            && !lists(MEMBER_ROUTES@, method@, route@) && !lists(EDITOR_ROUTES@, method@, route@)
            && !lists(CREATE_PROJECT_ROUTES@, method@, route@)
            && !lists(EDIT_PROJECT_ROUTES@, method@, route@)
            && !lists(EDIT_HOOK_ROUTES@, method@, route@)
            && !lists(TRIGGER_ROUTES@, method@, route@)
            && !lists(ORG_SETTINGS_ROUTES@, method@, route@)
            && !lists(DELETE_ORG_ROUTES@, method@, route@)
            && !lists(SSH_KEY_ROUTES@, method@, route@) && !lists(ROLE_ROUTES@, method@, route@)
            ==> r == Some(AccessRule::Require { permission: Capability::ManageIntegrations, reject_managed: false }),
        lists(SESSION_ROUTES@, method@, route@) && lists(EDIT_INTEGRATION_ROUTES@, method@, route@)
            && !lists(MEMBER_ROUTES@, method@, route@) && !lists(EDITOR_ROUTES@, method@, route@)
            && !lists(CREATE_PROJECT_ROUTES@, method@, route@)
            && !lists(EDIT_PROJECT_ROUTES@, method@, route@)
            && !lists(EDIT_HOOK_ROUTES@, method@, route@)
            && !lists(TRIGGER_ROUTES@, method@, route@)
            && !lists(ORG_SETTINGS_ROUTES@, method@, route@)
            && !lists(DELETE_ORG_ROUTES@, method@, route@)
            && !lists(SSH_KEY_ROUTES@, method@, route@) && !lists(ROLE_ROUTES@, method@, route@)
            && !lists(READ_INTEGRATION_ROUTES@, method@, route@)
            ==> r == Some(AccessRule::Require { permission: Capability::ManageIntegrations, reject_managed: true }),
        lists(SESSION_ROUTES@, method@, route@) && lists(VIEW_CACHE_ROUTES@, method@, route@)
            && !lists(MEMBER_ROUTES@, method@, route@) && !lists(EDITOR_ROUTES@, method@, route@)
            && !lists(CREATE_PROJECT_ROUTES@, method@, route@)
            && !lists(EDIT_PROJECT_ROUTES@, method@, route@)
            && !lists(EDIT_HOOK_ROUTES@, method@, route@)
            && !lists(TRIGGER_ROUTES@, method@, route@)
            && !lists(ORG_SETTINGS_ROUTES@, method@, route@)
            && !lists(DELETE_ORG_ROUTES@, method@, route@)
            && !lists(SSH_KEY_ROUTES@, method@, route@) && !lists(ROLE_ROUTES@, method@, route@)
            && !lists(READ_INTEGRATION_ROUTES@, method@, route@)
            && !lists(EDIT_INTEGRATION_ROUTES@, method@, route@)
            ==> r == Some(AccessRule::Require { permission: Capability::ViewCache, reject_managed: false }),
        lists(SESSION_ROUTES@, method@, route@) && lists(UPSTREAM_ROUTES@, method@, route@)
            && !lists(MEMBER_ROUTES@, method@, route@) && !lists(EDITOR_ROUTES@, method@, route@)
            && !lists(CREATE_PROJECT_ROUTES@, method@, route@)
            && !lists(EDIT_PROJECT_ROUTES@, method@, route@)
            && !lists(EDIT_HOOK_ROUTES@, method@, route@)
            && !lists(TRIGGER_ROUTES@, method@, route@)
            && !lists(ORG_SETTINGS_ROUTES@, method@, route@)
            && !lists(DELETE_ORG_ROUTES@, method@, route@)
            && !lists(SSH_KEY_ROUTES@, method@, route@) && !lists(ROLE_ROUTES@, method@, route@)
            && !lists(READ_INTEGRATION_ROUTES@, method@, route@)
            && !lists(EDIT_INTEGRATION_ROUTES@, method@, route@)
            && !lists(VIEW_CACHE_ROUTES@, method@, route@)
            ==> r == Some(AccessRule::Require { permission: Capability::ManageCacheUpstreams, reject_managed: true }),
        lists(SESSION_ROUTES@, method@, route@) && lists(WRITE_STORE_ROUTES@, method@, route@)
            && !lists(MEMBER_ROUTES@, method@, route@) && !lists(EDITOR_ROUTES@, method@, route@)
            && !lists(CREATE_PROJECT_ROUTES@, method@, route@)
            && !lists(EDIT_PROJECT_ROUTES@, method@, route@)
            && !lists(EDIT_HOOK_ROUTES@, method@, route@)
            && !lists(TRIGGER_ROUTES@, method@, route@)
            && !lists(ORG_SETTINGS_ROUTES@, method@, route@)
            && !lists(DELETE_ORG_ROUTES@, method@, route@)
            && !lists(SSH_KEY_ROUTES@, method@, route@) && !lists(ROLE_ROUTES@, method@, route@)
            && !lists(READ_INTEGRATION_ROUTES@, method@, route@)
            && !lists(EDIT_INTEGRATION_ROUTES@, method@, route@)
            && !lists(VIEW_CACHE_ROUTES@, method@, route@)
            && !lists(UPSTREAM_ROUTES@, method@, route@)
            ==> r == Some(AccessRule::Require { permission: Capability::WriteStore, reject_managed: false }),
        lists(SESSION_ROUTES@, method@, route@) && lists(CACHE_KEY_ROUTES@, method@, route@)
            && !lists(MEMBER_ROUTES@, method@, route@) && !lists(EDITOR_ROUTES@, method@, route@)
            && !lists(CREATE_PROJECT_ROUTES@, method@, route@)
            && !lists(EDIT_PROJECT_ROUTES@, method@, route@)
            && !lists(EDIT_HOOK_ROUTES@, method@, route@)
            && !lists(TRIGGER_ROUTES@, method@, route@)
            && !lists(ORG_SETTINGS_ROUTES@, method@, route@)
            && !lists(DELETE_ORG_ROUTES@, method@, route@)
            && !lists(SSH_KEY_ROUTES@, method@, route@) && !lists(ROLE_ROUTES@, method@, route@)
            && !lists(READ_INTEGRATION_ROUTES@, method@, route@)
            && !lists(EDIT_INTEGRATION_ROUTES@, method@, route@)
            && !lists(VIEW_CACHE_ROUTES@, method@, route@)
            && !lists(UPSTREAM_ROUTES@, method@, route@)
            && !lists(WRITE_STORE_ROUTES@, method@, route@)
            ==> r == Some(AccessRule::Require { permission: Capability::ManageCacheKeys, reject_managed: false }),
        lists(SESSION_ROUTES@, method@, route@) && lists(CACHE_ROLE_ROUTES@, method@, route@)
            && !lists(MEMBER_ROUTES@, method@, route@) && !lists(EDITOR_ROUTES@, method@, route@)
            && !lists(CREATE_PROJECT_ROUTES@, method@, route@)
            && !lists(EDIT_PROJECT_ROUTES@, method@, route@)
            && !lists(EDIT_HOOK_ROUTES@, method@, route@)
            && !lists(TRIGGER_ROUTES@, method@, route@)
            && !lists(ORG_SETTINGS_ROUTES@, method@, route@)
            && !lists(DELETE_ORG_ROUTES@, method@, route@)
            && !lists(SSH_KEY_ROUTES@, method@, route@) && !lists(ROLE_ROUTES@, method@, route@)
            && !lists(READ_INTEGRATION_ROUTES@, method@, route@)
            && !lists(EDIT_INTEGRATION_ROUTES@, method@, route@)
            && !lists(VIEW_CACHE_ROUTES@, method@, route@)
            && !lists(UPSTREAM_ROUTES@, method@, route@)
            && !lists(WRITE_STORE_ROUTES@, method@, route@)
            && !lists(CACHE_KEY_ROUTES@, method@, route@)
            ==> r == Some(AccessRule::Require { permission: Capability::ManageCacheRoles, reject_managed: true }),
        lists(SESSION_ROUTES@, method@, route@) && !lists(MEMBER_ROUTES@, method@, route@)
            && !lists(EDITOR_ROUTES@, method@, route@)
            && !lists(CREATE_PROJECT_ROUTES@, method@, route@)
            && !lists(EDIT_PROJECT_ROUTES@, method@, route@)
            && !lists(EDIT_HOOK_ROUTES@, method@, route@)
            && !lists(TRIGGER_ROUTES@, method@, route@)
            && !lists(ORG_SETTINGS_ROUTES@, method@, route@)
            && !lists(DELETE_ORG_ROUTES@, method@, route@)
            && !lists(SSH_KEY_ROUTES@, method@, route@) && !lists(ROLE_ROUTES@, method@, route@)
            && !lists(READ_INTEGRATION_ROUTES@, method@, route@)
            && !lists(EDIT_INTEGRATION_ROUTES@, method@, route@)
            && !lists(VIEW_CACHE_ROUTES@, method@, route@)
            && !lists(UPSTREAM_ROUTES@, method@, route@)
            && !lists(WRITE_STORE_ROUTES@, method@, route@)
            && !lists(CACHE_KEY_ROUTES@, method@, route@)
            && !lists(CACHE_ROLE_ROUTES@, method@, route@) ==> r is None,
{
}

} // verus!
