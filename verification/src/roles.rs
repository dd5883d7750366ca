//! Custom roles of an organization or a cache.
//!
//! Each scope carries the three immutable built-in roles (Admin/Write/View) for
//! free; on top of that it may hold custom roles whose permission set is freely
//! chosen from the catalogue.

use crate::error::{ErrorCode, ErrorModel, WebError, WebResult};
use crate::helpers::Id;
use crate::permissions::{
    available_permissions, first_unknown, granted, mask_of, mask_to_names, parse_permission_list,
    unknown_permission, Permission, PermissionEntry,
};
use crate::rows::{holds, reversed};
use crate::text::views;
use vstd::prelude::*;

verus! {

/// A role, as the database holds it.
pub struct RoleRow {
    pub id: Id,
    pub name: String,
    /// The organization or cache that owns the role; none for built-in roles.
    pub owner: Option<Id>,
    pub permission: u64,
    pub managed: bool,
}

pub struct RoleResponse {
    pub id: Id,
    pub name: String,
    /// `None` for built-in roles, the owner for custom roles.
    pub owner: Option<Id>,
    /// True for the three immutable system roles (Admin/Write/View).
    pub builtin: bool,
    /// True for roles that the configuration provides. Managed roles are
    /// immutable like built-in ones.
    pub managed: bool,
    /// The wire names of the permissions that the role grants.
    pub permissions: Vec<&'static str>,
}

pub struct CreateRoleRequest {
    pub name: String,
    pub permissions: Vec<String>,
}

pub struct PatchRoleRequest {
    pub name: Option<String>,
    /// When present, replaces the permissions wholesale.
    pub permissions: Option<Vec<String>>,
}

pub struct RoleListResponse {
    /// Roles available in the scope: the three built-ins plus any custom roles that
    /// the scope owns.
    pub roles: Vec<RoleResponse>,
    /// All capabilities a custom role may carry, for the role-management UI.
    pub available_permissions: Vec<PermissionEntry>,
}

/// What is done to a role.
#[derive(Debug, Clone, Copy, PartialEq, Eq, Structural)]
pub enum RoleChange {
    Modify,
    Delete,
}

/// A role is shown with the permissions that it grants.
pub open spec fn shows_role(
    r: RoleResponse,
    role: RoleRow,
    builtin: bool,
    catalogue: Seq<Permission>,
) -> bool {
    &&& r.id == role.id
    &&& r.name == role.name
    &&& r.owner == role.owner
    &&& r.builtin == builtin
    &&& r.managed == role.managed
    &&& r.permissions@ == granted(catalogue, role.permission)
}

impl RoleResponse {
    pub fn from_model(role: RoleRow, builtin: bool, catalogue: &Vec<Permission>) -> (r: RoleResponse)
        ensures
            shows_role(r, role, builtin, catalogue@),
    {
        RoleResponse {
            id: role.id,
            name: role.name,
            owner: role.owner,
            builtin,
            managed: role.managed,
            permissions: mask_to_names(catalogue, role.permission),
        }
    }
}

/// The role that a request in the scope `scope` names. A role of another scope
/// counts as missing, so that identifiers do not leak.
pub fn load_role(role: Option<RoleRow>, scope: Id) -> (r: WebResult<RoleRow>)
    ensures
        match role {
            Some(x) if x.owner is None || x.owner == Some(scope) => r == Ok::<RoleRow, WebError>(x),
            _ => r matches Err(e) && e@ == ErrorModel::not_found("Role"@),
        },
{
    match role {
        None => Err(WebError::not_found("Role")),
        Some(x) => match x.owner {
            Some(owner) => if owner != scope {
                Err(WebError::not_found("Role"))
            } else {
                Ok(x)
            },
            None => Ok(x),
        },
    }
}

/// Why a role cannot be changed.
pub open spec fn immutable_error(builtin: bool, managed: bool, change: RoleChange) -> Option<ErrorModel> {
    if builtin {
        Some(
            ErrorModel::forbidden(
                match change {
                    RoleChange::Modify => "Built-in roles (Admin, Write, View) cannot be modified."@,
                    RoleChange::Delete => "Built-in roles (Admin, Write, View) cannot be deleted."@,
                },
            ),
        )
    } else if managed {
        Some(
            ErrorModel::forbidden(
                match change {
                    RoleChange::Modify => "State-managed roles cannot be modified via the API."@,
                    RoleChange::Delete => "State-managed roles cannot be deleted via the API."@,
                },
            ),
        )
    } else {
        None
    }
}

/// Whether a role can be changed: built-in and state-managed roles are
/// immutable.
pub fn check_role_mutable(builtin: bool, managed: bool, change: RoleChange) -> (r: WebResult<()>)
    ensures
        match r {
            Ok(_) => immutable_error(builtin, managed, change) is None,
            Err(e) => immutable_error(builtin, managed, change) == Some(e@),
        },
{
    if builtin {
        return Err(
            match change {
                RoleChange::Modify => WebError::forbidden(
                    "Built-in roles (Admin, Write, View) cannot be modified.",
                ),
                RoleChange::Delete => WebError::forbidden(
                    "Built-in roles (Admin, Write, View) cannot be deleted.",
                ),
            },
        );
    }
    if managed {
        return Err(
            match change {
                RoleChange::Modify => WebError::forbidden(
                    "State-managed roles cannot be modified via the API.",
                ),
                RoleChange::Delete => WebError::forbidden(
                    "State-managed roles cannot be deleted via the API.",
                ),
            },
        );
    }
    Ok(())
}

/// Why a new role is refused.
pub open spec fn create_role_error(
    name_valid: bool,
    catalogue: Seq<Permission>,
    permissions: Seq<Seq<char>>,
    hint: Seq<char>,
    clash: bool,
) -> Option<ErrorModel> {
    if !name_valid {
        Some(ErrorModel::invalid_name("Role Name"@))
    } else if first_unknown(catalogue, permissions) is Some {
        Some(unknown_permission(first_unknown(catalogue, permissions)->0, hint))
    } else if clash {
        Some(ErrorModel::already_exists("Role Name"@))
    } else {
        None
    }
}

/// `r` is the role that a request creates in the scope `scope`, or why it does not.
pub open spec fn is_created(
    r: WebResult<RoleRow>,
    body: CreateRoleRequest,
    id: Id,
    scope: Id,
    name_valid: bool,
    clash: bool,
    catalogue: Seq<Permission>,
    hint: Seq<char>,
) -> bool {
    let error = create_role_error(name_valid, catalogue, views(body.permissions@), hint, clash);
    match r {
        Ok(x) => error is None && x == (RoleRow {
            id,
            name: body.name,
            owner: Some(scope),
            permission: mask_of(catalogue, views(body.permissions@)),
            managed: false,
        }),
        Err(e) => error == Some(e@),
    }
}

/// The role that a request creates in the scope `scope`. `clash` says whether
/// the scope or the built-in roles have one of that name.
pub fn create_role(
    body: &CreateRoleRequest,
    id: Id,
    scope: Id,
    name_valid: bool,
    clash: bool,
    catalogue: &Vec<Permission>,
    hint: &str,
) -> (r: WebResult<RoleRow>)
    ensures
        is_created(r, *body, id, scope, name_valid, clash, catalogue@, hint@),
{
    if !name_valid {
        return Err(WebError::invalid_name("Role Name"));
    }
    let permission: u64 = match parse_permission_list(catalogue, &body.permissions, hint) {
        Ok(m) => m,
        Err(e) => {
            return Err(e);
        },
    };
    if clash {
        return Err(WebError::already_exists("Role Name"));
    }
    Ok(
        RoleRow {
            id,
            name: body.name.clone(),
            owner: Some(scope),
            permission,
            managed: false,
        },
    )
}

/// Why a change to a role is refused.
pub open spec fn patch_role_error(
    builtin: bool,
    managed: bool,
    body: PatchRoleRequest,
    name_valid: bool,
    clash: bool,
    catalogue: Seq<Permission>,
    hint: Seq<char>,
) -> Option<ErrorModel> {
    let frozen = immutable_error(builtin, managed, RoleChange::Modify);
    if frozen is Some {
        frozen
    } else if body.name is Some && !name_valid {
        Some(ErrorModel::invalid_name("Role Name"@))
    } else if body.name is Some && clash {
        Some(ErrorModel::already_exists("Role Name"@))
    } else {
        match body.permissions {
            Some(p) => match first_unknown(catalogue, views(p@)) {
                Some(n) => Some(unknown_permission(n, hint)),
                None => None,
            },
            None => None,
        }
    }
}

/// `r` is the role after a change, or why it is refused.
pub open spec fn is_patched(
    r: WebResult<RoleRow>,
    role: RoleRow,
    builtin: bool,
    body: PatchRoleRequest,
    name_valid: bool,
    clash: bool,
    catalogue: Seq<Permission>,
    hint: Seq<char>,
) -> bool {
    let error = patch_role_error(builtin, role.managed, body, name_valid, clash, catalogue, hint);
    match r {
        Ok(x) => error is None && x == (RoleRow {
            name: match body.name {
                Some(n) => n,
                None => role.name,
            },
            permission: match body.permissions {
                Some(p) => mask_of(catalogue, views(p@)),
                None => role.permission,
            },
            ..role
        }),
        Err(e) => error == Some(e@),
    }
}

/// The role after a change. `clash` says whether another role of the scope, or a
/// built-in one, has the new name.
pub fn patch_role(
    role: RoleRow,
    builtin: bool,
    body: PatchRoleRequest,
    name_valid: bool,
    clash: bool,
    catalogue: &Vec<Permission>,
    hint: &str,
) -> (r: WebResult<RoleRow>)
    ensures
        is_patched(r, role, builtin, body, name_valid, clash, catalogue@, hint@),
{
    match check_role_mutable(builtin, role.managed, RoleChange::Modify) {
        Ok(_) => {},
        Err(e) => {
            return Err(e);
        },
    }
    if body.name.is_some() {
        if !name_valid {
            return Err(WebError::invalid_name("Role Name"));
        }
        if clash {
            return Err(WebError::already_exists("Role Name"));
        }
    }
    let permission: u64 = match &body.permissions {
        Some(p) => match parse_permission_list(catalogue, p, hint) {
            Ok(m) => m,
            Err(e) => {
                return Err(e);
            },
        },
        None => role.permission,
    };
    Ok(
        RoleRow {
            id: role.id,
            name: match body.name {
                Some(n) => n,
                None => role.name,
            },
            owner: role.owner,
            permission,
            managed: role.managed,
        },
    )
}

/// Whether a role can be deleted. Refuses to delete a role that is still in use;
/// the caller must reassign affected members first.
pub fn delete_role(builtin: bool, managed: bool, in_use: bool) -> (r: WebResult<()>)
    ensures
        r is Ok <==> !builtin && !managed && !in_use,
        r matches Err(e) ==> if builtin || managed {
            immutable_error(builtin, managed, RoleChange::Delete) == Some(e@)
        } else {
            e@ == ErrorModel::bad_request(
                "Role is still assigned to members. Reassign them before deleting the role."@,
            )
        },
{
    match check_role_mutable(builtin, managed, RoleChange::Delete) {
        Ok(_) => {},
        Err(e) => {
            return Err(e);
        },
    }
    if in_use {
        return Err(
            WebError::bad_request(
                "Role is still assigned to members. Reassign them before deleting the role.",
            ),
        );
    }
    Ok(())
}

// ── Roles of a scope ─────────────────────────────────────────────────────────

/// The role can be named in the scope `scope`: it is built in, or the scope owns it.
pub open spec fn in_scope(role: Option<RoleRow>, scope: Id) -> bool {
    role is Some && (role->0.owner is None || role->0.owner == Some(scope))
}

/// `r` lists the roles of a scope; `builtins` holds the built-in ones.
pub open spec fn lists_roles(
    r: RoleListResponse,
    rows: Seq<RoleRow>,
    builtins: Seq<Id>,
    catalogue: Seq<Permission>,
) -> bool {
    &&& r.roles@.len() == rows.len()
    &&& forall|i: int|
        0 <= i < rows.len() ==> shows_role(
            #[trigger] r.roles@[i],
            rows[i],
            builtins.contains(rows[i].id),
            catalogue,
        )
    &&& r.available_permissions@ == catalogue.map_values(
        |p: Permission| PermissionEntry { id: p.wire_name, mutating: p.mutating },
    )
}

/// The roles of a scope.
pub fn scope_roles(rows: Vec<RoleRow>, builtins: &Vec<Id>, catalogue: &Vec<Permission>) -> (r:
    RoleListResponse)
    ensures
        lists_roles(r, rows@, builtins@, catalogue@),
{
    let ghost whole = rows@;
    let mut rest = reversed(rows);
    let mut roles: Vec<RoleResponse> = Vec::new();
    while rest.len() > 0
        invariant
            rest@.len() + roles@.len() == whole.len(),
            forall|j: int| 0 <= j < rest@.len() ==> rest@[j] == whole[whole.len() - 1 - j],
            forall|i: int|
                0 <= i < roles@.len() ==> shows_role(
                    #[trigger] roles@[i],
                    whole[i],
                    builtins@.contains(whole[i].id),
                    catalogue@,
                ),
        decreases rest.len(),
    {
        if let Some(row) = rest.pop() {
            let builtin = holds(builtins, row.id);
            roles.push(RoleResponse::from_model(row, builtin, catalogue));
        }
    }
    RoleListResponse { roles, available_permissions: available_permissions(catalogue) }
}

/// `r` shows the role that a request in the scope `scope` names.
pub open spec fn is_shown(
    r: WebResult<RoleResponse>,
    role: Option<RoleRow>,
    scope: Id,
    builtins: Seq<Id>,
    catalogue: Seq<Permission>,
) -> bool {
    match r {
        Ok(x) => in_scope(role, scope) && shows_role(
            x,
            role->0,
            builtins.contains(role->0.id),
            catalogue,
        ),
        Err(e) => !in_scope(role, scope) && e@ == ErrorModel::not_found("Role"@),
    }
}

/// The role that a request in the scope `scope` names.
pub fn scope_role(
    role: Option<RoleRow>,
    scope: Id,
    builtins: &Vec<Id>,
    catalogue: &Vec<Permission>,
) -> (r: WebResult<RoleResponse>)
    ensures
        is_shown(r, role, scope, builtins@, catalogue@),
{
    match load_role(role, scope) {
        Ok(x) => {
            let builtin = holds(builtins, x.id);
            Ok(RoleResponse::from_model(x, builtin, catalogue))
        },
        Err(e) => Err(e),
    }
}

/// `r` is the role of the scope `scope` after a change, or why it is refused.
pub open spec fn is_changed(
    r: WebResult<RoleRow>,
    role: Option<RoleRow>,
    scope: Id,
    builtins: Seq<Id>,
    body: PatchRoleRequest,
    name_valid: bool,
    clash: bool,
    catalogue: Seq<Permission>,
    hint: Seq<char>,
) -> bool {
    if in_scope(role, scope) {
        is_patched(
            r,
            role->0,
            builtins.contains(role->0.id),
            body,
            name_valid,
            clash,
            catalogue,
            hint,
        )
    } else {
        r matches Err(e) && e@ == ErrorModel::not_found("Role"@)
    }
}

/// The role of the scope `scope` after a change.
pub fn change_scope_role(
    role: Option<RoleRow>,
    scope: Id,
    builtins: &Vec<Id>,
    body: PatchRoleRequest,
    name_valid: bool,
    clash: bool,
    catalogue: &Vec<Permission>,
    hint: &str,
) -> (r: WebResult<RoleRow>)
    ensures
        is_changed(r, role, scope, builtins@, body, name_valid, clash, catalogue@, hint@),
{
    match load_role(role, scope) {
        Ok(x) => {
            let builtin = holds(builtins, x.id);
            patch_role(x, builtin, body, name_valid, clash, catalogue, hint)
        },
        Err(e) => Err(e),
    }
}

/// `r` is the role of the scope `scope` that may be deleted, or why it may not.
pub open spec fn is_deletable(
    r: WebResult<RoleRow>,
    role: Option<RoleRow>,
    scope: Id,
    builtins: Seq<Id>,
    in_use: bool,
) -> bool {
    let frozen = immutable_error(
        builtins.contains(role->0.id),
        role->0.managed,
        RoleChange::Delete,
    );
    match r {
        Ok(x) => in_scope(role, scope) && role == Some(x) && frozen is None && !in_use,
        Err(e) => e@ == if !in_scope(role, scope) {
            ErrorModel::not_found("Role"@)
        } else if frozen is Some {
            frozen->0
        } else {
            ErrorModel::bad_request(
                "Role is still assigned to members. Reassign them before deleting the role."@,
            )
        } && (!in_scope(role, scope) || frozen is Some || in_use),
    }
}

/// The role of the scope `scope` that is to be deleted.
pub fn delete_scope_role(role: Option<RoleRow>, scope: Id, builtins: &Vec<Id>, in_use: bool) -> (r:
    WebResult<RoleRow>)
    ensures
        is_deletable(r, role, scope, builtins@, in_use),
{
    match load_role(role, scope) {
        Ok(x) => {
            let builtin = holds(builtins, x.id);
            match delete_role(builtin, x.managed, in_use) {
                Ok(_) => Ok(x),
                Err(e) => Err(e),
            }
        },
        Err(e) => Err(e),
    }
}

/// Built-in and state-managed roles are immutable: attempting to change or
/// delete one is always forbidden, whatever else the request says.
pub proof fn law_builtin_and_managed_roles_are_immutable(
    builtin: bool,
    managed: bool,
    body: PatchRoleRequest,
    name_valid: bool,
    clash: bool,
    catalogue: Seq<Permission>,
    hint: Seq<char>,
)
    requires
        builtin || managed,
    ensures
        patch_role_error(builtin, managed, body, name_valid, clash, catalogue, hint) matches Some(e)
            && e.kind.http_status() == 403,
        immutable_error(builtin, managed, RoleChange::Delete) matches Some(e)
            && e.kind.http_status() == 403,
{
}

/// A request reaches the built-in roles and those of its own scope; a role of another scope
/// counts as missing.
pub proof fn law_roles_stay_in_their_scope(
    role: Option<RoleRow>,
    scope: Id,
    r: WebResult<RoleRow>,
)
    requires
        call_ensures(load_role, (role, scope), r),
    ensures
        r is Ok <==> role is Some && (role->0.owner is None || role->0.owner->0 == scope),
        r is Ok ==> r->Ok_0 == role->0,
        r is Err ==> (r matches Err(WebError::NotFound(c, m)) && c == ErrorCode::NOT_FOUND
            && m@ == "Role"@ + " not found"@),
{
}

/// Built-in and state-managed roles can neither be modified nor deleted, all others can; a role
/// that is in use is not deleted.
pub proof fn law_which_roles_change(
    builtin: bool,
    managed: bool,
    in_use: bool,
    modify: WebResult<()>,
    delete: WebResult<()>,
    removed: WebResult<()>,
)
    requires
        call_ensures(check_role_mutable, (builtin, managed, RoleChange::Modify), modify),
        call_ensures(check_role_mutable, (builtin, managed, RoleChange::Delete), delete),
        call_ensures(delete_role, (builtin, managed, in_use), removed),
    ensures
        modify is Ok <==> !builtin && !managed,
        delete is Ok <==> !builtin && !managed,
        removed is Ok <==> !builtin && !managed && !in_use,
        builtin ==> (modify matches Err(WebError::Forbidden(c, m)) && c == ErrorCode::FORBIDDEN
            && m@ == "Built-in roles (Admin, Write, View) cannot be modified."@),
        !builtin && managed ==> (modify matches Err(WebError::Forbidden(c, m))
            && c == ErrorCode::FORBIDDEN
            && m@ == "State-managed roles cannot be modified via the API."@),
        builtin ==> (delete matches Err(WebError::Forbidden(c, m)) && c == ErrorCode::FORBIDDEN
            && m@ == "Built-in roles (Admin, Write, View) cannot be deleted."@),
        !builtin && managed ==> (delete matches Err(WebError::Forbidden(c, m))
            && c == ErrorCode::FORBIDDEN
            && m@ == "State-managed roles cannot be deleted via the API."@),
        builtin || managed ==> removed is Err && removed->Err_0@ == delete->Err_0@,
        !builtin && !managed && in_use ==> (removed matches Err(WebError::BadRequest(c, m))
            && c == ErrorCode::BAD_REQUEST && m@
            == "Role is still assigned to members. Reassign them before deleting the role."@),
{
}

/// A role is created in its scope with the permissions that the request lists, unless its name
/// is malformed, a permission is unknown, or the name is taken, in this order.
pub proof fn law_created_roles(
    body: CreateRoleRequest,
    id: Id,
    scope: Id,
    name_valid: bool,
    clash: bool,
    catalogue: Vec<Permission>,
    hint: &str,
    mask: WebResult<u64>,
    r: WebResult<RoleRow>,
)
    requires
        call_ensures(create_role, (&body, id, scope, name_valid, clash, &catalogue, hint), r),
        call_ensures(parse_permission_list, (&catalogue, &body.permissions, hint), mask),
    ensures
        r is Ok <==> name_valid && mask is Ok && !clash,
        !name_valid ==> (r matches Err(WebError::BadRequest(c, m)) && c == ErrorCode::INVALID_NAME
            && m@ == "Invalid "@ + "Role Name"@),
        name_valid && mask is Err ==> r is Err && r->Err_0@ == mask->Err_0@,
        name_valid && mask is Ok && clash ==> (r matches Err(WebError::Conflict(c, m))
            && c == ErrorCode::ALREADY_EXISTS && m@ == "Role Name"@ + " already exists"@),
        r matches Ok(x) ==> x.id == id && x.name@ == body.name@ && x.owner == Some(scope)
            && x.permission == mask->Ok_0 && !x.managed,
{
}

/// A change gives a role the new name and the new permissions, where the request has them, and
/// keeps everything else. A role of another scope, a frozen role, a malformed or taken name and
/// an unknown permission refuse it, in this order.
pub proof fn law_changed_roles(
    role: Option<RoleRow>,
    scope: Id,
    builtins: Vec<Id>,
    body: PatchRoleRequest,
    name_valid: bool,
    clash: bool,
    catalogue: Vec<Permission>,
    hint: &str,
    wire: Vec<String>,
    mask: WebResult<u64>,
    r: WebResult<RoleRow>,
)
    requires
        call_ensures(change_scope_role, (role, scope, &builtins, body, name_valid, clash, &catalogue, hint), r),
        call_ensures(parse_permission_list, (&catalogue, &wire, hint), mask),
        body.permissions is Some ==> body.permissions->0 == wire,
    ensures
        ({
            let reached = role is Some && (role->0.owner is None || role->0.owner->0 == scope);
            let frozen = builtins@.contains(role->0.id) || role->0.managed;
            &&& r is Ok <==> reached && !frozen && (body.name is Some ==> name_valid && !clash) && (
            body.permissions is Some ==> mask is Ok)
            &&& !reached ==> (r matches Err(WebError::NotFound(c, m)) && c == ErrorCode::NOT_FOUND
                && m@ == "Role"@ + " not found"@)
            &&& reached && builtins@.contains(role->0.id)
                ==> (r matches Err(WebError::Forbidden(c, m)) && c == ErrorCode::FORBIDDEN
                && m@ == "Built-in roles (Admin, Write, View) cannot be modified."@)
            &&& reached && !builtins@.contains(role->0.id) && role->0.managed
                ==> (r matches Err(WebError::Forbidden(c, m)) && c == ErrorCode::FORBIDDEN
                && m@ == "State-managed roles cannot be modified via the API."@)
            &&& reached && !frozen && body.name is Some && !name_valid
                ==> (r matches Err(WebError::BadRequest(c, m)) && c == ErrorCode::INVALID_NAME
                && m@ == "Invalid "@ + "Role Name"@)
            &&& reached && !frozen && body.name is Some && name_valid && clash
                ==> (r matches Err(WebError::Conflict(c, m)) && c == ErrorCode::ALREADY_EXISTS
                && m@ == "Role Name"@ + " already exists"@)
            &&& reached && !frozen && (body.name is Some ==> name_valid && !clash)
                && body.permissions is Some && mask is Err ==> r is Err && r->Err_0@
                == mask->Err_0@
        }),
        r matches Ok(x) ==> {
            &&& x.id == role->0.id && x.owner == role->0.owner && x.managed == role->0.managed
            &&& body.name is Some ==> x.name@ == body.name->0@
            &&& body.name is None ==> x.name@ == role->0.name@
            &&& body.permissions is Some ==> x.permission == mask->Ok_0
            &&& body.permissions is None ==> x.permission == role->0.permission
        },
{
}

/// A role is deleted where the request reaches it, it is neither built in nor state-managed,
/// and nobody has it.
pub proof fn law_deleted_roles(
    role: Option<RoleRow>,
    scope: Id,
    builtins: Vec<Id>,
    in_use: bool,
    r: WebResult<RoleRow>,
)
    requires
        call_ensures(delete_scope_role, (role, scope, &builtins, in_use), r),
    ensures
        r is Ok <==> role is Some && (role->0.owner is None || role->0.owner->0 == scope)
            && !builtins@.contains(role->0.id) && !role->0.managed && !in_use,
        r is Ok ==> r->Ok_0 == role->0,
        role is None ==> (r matches Err(WebError::NotFound(c, m)) && c == ErrorCode::NOT_FOUND
            && m@ == "Role"@ + " not found"@),
        role is Some && role->0.owner is Some && role->0.owner->0 != scope
            ==> (r matches Err(WebError::NotFound(c, m)) && c == ErrorCode::NOT_FOUND
            && m@ == "Role"@ + " not found"@),
{
}

/// A list shows every role of the scope, in order: its owner, whether it is built in or state-
/// managed, and the names of the permissions that it grants; and the whole catalogue.
pub proof fn law_listed_roles(
    rows: Vec<RoleRow>,
    builtins: Vec<Id>,
    catalogue: Vec<Permission>,
    r: RoleListResponse,
    i: int,
    names: Vec<&'static str>,
    entries: Vec<PermissionEntry>,
    one: WebResult<RoleResponse>,
    scope: Id,
)
    requires
        call_ensures(scope_roles, (rows, &builtins, &catalogue), r),
        0 <= i < rows@.len(),
        call_ensures(mask_to_names, (&catalogue, rows@[i].permission), names),
        call_ensures(available_permissions, (&catalogue,), entries),
        call_ensures(scope_role, (Some(rows@[i]), scope, &builtins, &catalogue), one),
    ensures
        r.roles@.len() == rows@.len(),
        r.available_permissions@ == entries@,
        ({
            let x = r.roles@[i];
            &&& x.id == rows@[i].id && x.name@ == rows@[i].name@ && x.owner == rows@[i].owner
                && x.managed == rows@[i].managed
            &&& x.builtin <==> builtins@.contains(rows@[i].id)
            &&& x.permissions@ == names@
        }),
        one is Ok <==> rows@[i].owner is None || rows@[i].owner->0 == scope,
        one matches Ok(x) ==> {
            &&& x.id == rows@[i].id && x.name@ == rows@[i].name@ && x.owner == rows@[i].owner
                && x.managed == rows@[i].managed
            &&& x.builtin <==> builtins@.contains(rows@[i].id)
            &&& x.permissions@ == names@
        },
        one is Err ==> (one matches Err(WebError::NotFound(c, m)) && c == ErrorCode::NOT_FOUND
            && m@ == "Role"@ + " not found"@),
{
    assert(shows_role(r.roles@[i], rows@[i], builtins@.contains(rows@[i].id), catalogue@));
}

} // verus!
