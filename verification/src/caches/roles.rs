//! Custom roles of a cache.

use crate::error::WebResult;
use crate::helpers::Id;
use crate::permissions::Permission;
use crate::roles::{
    change_scope_role, create_role, delete_scope_role, is_changed, is_created, is_deletable,
    is_shown, lists_roles, scope_role, scope_roles, CreateRoleRequest, PatchRoleRequest,
    RoleListResponse, RoleResponse, RoleRow,
};
use vstd::prelude::*;

verus! {

pub type CacheRoleResponse = RoleResponse;

pub type CacheRoleListResponse = RoleListResponse;

pub type CreateCacheRoleRequest = CreateRoleRequest;

pub type PatchCacheRoleRequest = PatchRoleRequest;

/// Where a client finds the permissions that a role may hold.
pub const CATALOGUE_HINT: &'static str = "GET /caches/{cache}/roles";

/// The roles available in a cache; `builtins` holds the built-in ones.
pub fn get_cache_roles(rows: Vec<RoleRow>, builtins: &Vec<Id>, catalogue: &Vec<Permission>) -> (r:
    RoleListResponse)
    ensures
        lists_roles(r, rows@, builtins@, catalogue@),
{
    scope_roles(rows, builtins, catalogue)
}

/// The custom role that a request creates. `clash` says whether a cache or the
/// built-in roles have one of that name.
pub fn post_cache_role(
    body: &CreateRoleRequest,
    id: Id,
    cache: Id,
    name_valid: bool,
    clash: bool,
    catalogue: &Vec<Permission>,
) -> (r: WebResult<RoleRow>)
    ensures
        is_created(r, *body, id, cache, name_valid, clash, catalogue@, CATALOGUE_HINT@),
{
    create_role(body, id, cache, name_valid, clash, catalogue, CATALOGUE_HINT)
}

/// A single role of a cache.
pub fn get_cache_role(
    role: Option<RoleRow>,
    cache: Id,
    builtins: &Vec<Id>,
    catalogue: &Vec<Permission>,
) -> (r: WebResult<RoleResponse>)
    ensures
        is_shown(r, role, cache, builtins@, catalogue@),
{
    scope_role(role, cache, builtins, catalogue)
}

/// The custom role after a change. Built-in roles are immutable: attempting to mutate
/// them is forbidden.
pub fn patch_cache_role(
    role: Option<RoleRow>,
    cache: Id,
    builtins: &Vec<Id>,
    body: PatchRoleRequest,
    name_valid: bool,
    clash: bool,
    catalogue: &Vec<Permission>,
) -> (r: WebResult<RoleRow>)
    ensures
        is_changed(
            r,
            role,
            cache,
            builtins@,
            body,
            name_valid,
            clash,
            catalogue@,
            CATALOGUE_HINT@,
        ),
{
    change_scope_role(role, cache, builtins, body, name_valid, clash, catalogue, CATALOGUE_HINT)
}

/// The custom role that is to be deleted. A role that is still in use stays; the caller
/// must reassign affected members first.
pub fn delete_cache_role(role: Option<RoleRow>, cache: Id, builtins: &Vec<Id>, in_use: bool) -> (r:
    WebResult<RoleRow>)
    ensures
        is_deletable(r, role, cache, builtins@, in_use),
{
    delete_scope_role(role, cache, builtins, in_use)
}

/// The routes of a cache do what the roles of a scope do, and point to the catalogue of the
/// cache.
pub proof fn law_cache_roles(
    body: CreateRoleRequest,
    id: Id,
    cache: Id,
    name_valid: bool,
    clash: bool,
    catalogue: Vec<Permission>,
    hint: &str,
    r: WebResult<RoleRow>,
    x: WebResult<RoleRow>,
    role: Option<RoleRow>,
    builtins: Vec<Id>,
    patch: PatchRoleRequest,
    p: WebResult<RoleRow>,
    y: WebResult<RoleRow>,
    in_use: bool,
    d: WebResult<RoleRow>,
    z: WebResult<RoleRow>,
)
    requires
        hint@ == "GET /caches/{cache}/roles"@,
        call_ensures(post_cache_role, (&body, id, cache, name_valid, clash, &catalogue), r),
        call_ensures(create_role, (&body, id, cache, name_valid, clash, &catalogue, hint), x),
        call_ensures(patch_cache_role, (role, cache, &builtins, patch, name_valid, clash, &catalogue), p),
        call_ensures(change_scope_role, (role, cache, &builtins, patch, name_valid, clash, &catalogue, hint), y),
        call_ensures(delete_cache_role, (role, cache, &builtins, in_use), d),
        call_ensures(delete_scope_role, (role, cache, &builtins, in_use), z),
    ensures
        r is Ok <==> x is Ok,
        r is Ok ==> r->Ok_0 == x->Ok_0,
        r is Err ==> r->Err_0@ == x->Err_0@,
        p is Ok <==> y is Ok,
        p is Ok ==> p->Ok_0 == y->Ok_0,
        p is Err ==> p->Err_0@ == y->Err_0@,
        d is Ok <==> z is Ok,
        d is Ok ==> d->Ok_0 == z->Ok_0,
        d is Err ==> d->Err_0@ == z->Err_0@,
{
}

/// The roles of a cache are shown as those of any scope are.
pub proof fn law_cache_roles_are_shown(
    rows: Vec<RoleRow>,
    builtins: Vec<Id>,
    catalogue: Vec<Permission>,
    r: RoleListResponse,
    x: RoleListResponse,
    i: int,
    role: Option<RoleRow>,
    cache: Id,
    o: WebResult<RoleResponse>,
    y: WebResult<RoleResponse>,
)
    requires
        call_ensures(get_cache_roles, (rows, &builtins, &catalogue), r),
        call_ensures(scope_roles, (rows, &builtins, &catalogue), x),
        call_ensures(get_cache_role, (role, cache, &builtins, &catalogue), o),
        call_ensures(scope_role, (role, cache, &builtins, &catalogue), y),
    ensures
        r.roles@.len() == rows@.len() && x.roles@.len() == rows@.len(),
        r.available_permissions@ == x.available_permissions@,
        0 <= i < rows@.len() ==> r.roles@[i].id == x.roles@[i].id
            && r.roles@[i].name == x.roles@[i].name && r.roles@[i].owner == x.roles@[i].owner
            && r.roles@[i].builtin == x.roles@[i].builtin
            && r.roles@[i].managed == x.roles@[i].managed
            && r.roles@[i].permissions@ == x.roles@[i].permissions@,
        o is Ok <==> y is Ok,
        o is Err ==> o->Err_0@ == y->Err_0@,
        o is Ok ==> o->Ok_0.id == y->Ok_0.id && o->Ok_0.name == y->Ok_0.name
            && o->Ok_0.owner == y->Ok_0.owner && o->Ok_0.builtin == y->Ok_0.builtin
            && o->Ok_0.managed == y->Ok_0.managed && o->Ok_0.permissions@ == y->Ok_0.permissions@,
{
}

} // verus!
