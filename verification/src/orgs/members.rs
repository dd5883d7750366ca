//! Members of an organization.

use crate::codec::{format_uuid, uuid_text};
use crate::error::{ErrorCode, ErrorModel, WebError, WebResult};
use crate::helpers::Id;
use crate::rows::{last_index, IdIndex};
use vstd::prelude::*;

verus! {

pub struct StringListItem {
    pub id: String,
    pub name: String,
}

pub struct AddUserRequest {
    pub user: String,
    pub role: String,
}

pub struct RemoveUserRequest {
    pub user: String,
}

/// A membership, as the database holds it.
pub struct MembershipRow {
    pub user: Id,
    pub role: Id,
    /// The name of the user, where the user was found.
    pub username: Option<String>,
}

/// A role and its name.
pub struct RoleNameRow {
    pub id: Id,
    pub name: String,
}

/// The identifiers of roles.
pub open spec fn role_ids(roles: Seq<RoleNameRow>) -> Seq<Id> {
    roles.map_values(|r: RoleNameRow| r.id)
}

/// The name of the role `id`, where it is known.
pub open spec fn role_name(roles: Seq<RoleNameRow>, id: Id) -> Option<Seq<char>> {
    match last_index(role_ids(roles), id) {
        Some(k) => Some(roles[k].name@),
        None => None,
    }
}

/// `item` shows the membership `m`: the name of the user and of the role, or
/// their identifiers where the names are not known.
pub open spec fn shows_member(item: StringListItem, m: MembershipRow, roles: Seq<RoleNameRow>) -> bool {
    &&& item.id@ == match m.username {
        Some(n) => n@,
        None => uuid_text(m.user),
    }
    &&& item.name@ == match role_name(roles, m.role) {
        Some(n) => n,
        None => uuid_text(m.role),
    }
}

/// Roles by their identifier.
pub(crate) fn index_roles(roles: &Vec<RoleNameRow>) -> (r: IdIndex)
    ensures
        r.wf(),
        r@ == role_ids(roles@),
{
    let mut ids: Vec<Id> = Vec::new();
    let mut i: usize = 0;
    while i < roles.len()
        invariant
            i <= roles.len(),
            ids@ == role_ids(roles@).take(i as int),
        decreases roles.len() - i,
    {
        ids.push(roles[i].id);
        i += 1;
    }
    assert(role_ids(roles@).take(i as int) =~= role_ids(roles@));
    IdIndex::new(ids)
}

/// The members of an organization and their roles.
pub fn get_organization_users(members: &Vec<MembershipRow>, roles: &Vec<RoleNameRow>) -> (r: Vec<
    StringListItem,
>)
    ensures
        r@.len() == members@.len(),
        forall|i: int| 0 <= i < r@.len() ==> shows_member(#[trigger] r@[i], members@[i], roles@),
{
    let index = index_roles(roles);
    let mut out: Vec<StringListItem> = Vec::new();
    let mut i: usize = 0;
    while i < members.len()
        invariant
            i <= members.len(),
            index.wf(),
            index@ == role_ids(roles@),
            out@.len() == i,
            forall|j: int| 0 <= j < i ==> shows_member(#[trigger] out@[j], members@[j], roles@),
        decreases members.len() - i,
    {
        let m = &members[i];
        let id = match &m.username {
            Some(n) => n.clone(),
            None => format_uuid(m.user),
        };
        let name = match index.find(m.role) {
            Some(k) => roles[k].name.clone(),
            None => format_uuid(m.role),
        };
        out.push(StringListItem { id, name });
        i += 1;
    }
    out
}

/// Whether a user is added: the user and the role have to exist, and the user
/// must not be a member yet. Answers with the role to give.
pub fn post_organization_users(user_found: bool, is_member: bool, role: Option<Id>) -> (r: WebResult<Id>)
    ensures
        r is Ok <==> user_found && !is_member && role is Some,
        match r {
            Ok(id) => role == Some(id),
            Err(e) => e@ == if !user_found {
                ErrorModel::not_found("User"@)
            } else if is_member {
                ErrorModel::already_exists("User already in Organization"@)
            } else {
                ErrorModel::not_found("Role"@)
            },
        },
{
    if !user_found {
        return Err(WebError::not_found("User"));
    }
    if is_member {
        return Err(WebError::already_exists("User already in Organization"));
    }
    match role {
        Some(id) => Ok(id),
        None => Err(WebError::not_found("Role")),
    }
}

/// Whether the role of a user is changed: the user has to exist and be a member,
/// and the role has to exist. Answers with the role to give.
pub fn patch_organization_users(user_found: bool, is_member: bool, role: Option<Id>) -> (r: WebResult<Id>)
    ensures
        r is Ok <==> user_found && is_member && role is Some,
        match r {
            Ok(id) => role == Some(id),
            Err(e) => e@ == if !user_found {
                ErrorModel::not_found("User"@)
            } else if !is_member {
                ErrorModel::bad_request("User not in Organization"@)
            } else {
                ErrorModel::not_found("Role"@)
            },
        },
{
    if !user_found {
        return Err(WebError::not_found("User"));
    }
    if !is_member {
        return Err(WebError::bad_request("User not in Organization"));
    }
    match role {
        Some(id) => Ok(id),
        None => Err(WebError::not_found("Role")),
    }
}

/// Whether a user is removed: the user has to exist and be a member.
pub fn delete_organization_users(user_found: bool, is_member: bool) -> (r: WebResult<()>)
    ensures
        r is Ok <==> user_found && is_member,
        r matches Err(e) ==> e@ == if !user_found {
            ErrorModel::not_found("User"@)
        } else {
            ErrorModel::bad_request("User not in Organization"@)
        },
{
    if !user_found {
        return Err(WebError::not_found("User"));
    }
    if !is_member {
        return Err(WebError::bad_request("User not in Organization"));
    }
    Ok(())
}

/// The members are shown in order by the names of the user and the role, and by their
/// identifiers where a name is not known.
pub proof fn law_shown_members(
    members: Vec<MembershipRow>,
    roles: Vec<RoleNameRow>,
    r: Vec<StringListItem>,
    i: int,
    k: int,
)
    requires
        call_ensures(get_organization_users, (&members, &roles), r),
        0 <= i < members@.len(),
    ensures
        r@.len() == members@.len(),
        members@[i].username is Some ==> r@[i].id@ == members@[i].username->0@,
        members@[i].username is None ==> r@[i].id@ == uuid_text(members@[i].user),
        0 <= k < roles@.len() && roles@[k].id == members@[i].role && (forall|j: int|
            k < j < roles@.len() ==> (#[trigger] roles@[j]).id != members@[i].role) ==> r@[i].name@
            == roles@[k].name@,
        (forall|j: int| 0 <= j < roles@.len() ==> (#[trigger] roles@[j]).id != members@[i].role)
            ==> r@[i].name@ == uuid_text(members@[i].role),
{
    assert(shows_member(r@[i], members@[i], roles@));
    lemma_role_name(roles@, members@[i].role, k);
}

pub(crate) proof fn lemma_role_name(roles: Seq<RoleNameRow>, id: Id, k: int)
    ensures
        0 <= k < roles.len() && roles[k].id == id && (forall|j: int|
            k < j < roles.len() ==> (#[trigger] roles[j]).id != id) ==> role_name(roles, id)
            == Some(roles[k].name@),
        (forall|j: int| 0 <= j < roles.len() ==> (#[trigger] roles[j]).id != id) ==> role_name(
            roles,
            id,
        ) is None,
{
    let ids = role_ids(roles);
    assert forall|j: int| 0 <= j < ids.len() implies ids[j] == (#[trigger] roles[j]).id by {}
    if 0 <= k < roles.len() && roles[k].id == id && (forall|j: int|
        k < j < roles.len() ==> (#[trigger] roles[j]).id != id) {
        assert forall|j: int| k < j < ids.len() implies ids[j] != id by {
            assert(ids[j] == roles[j].id);
        }
        crate::rows::lemma_last_index_is(ids, id, k);
    }
    if forall|j: int| 0 <= j < roles.len() ==> (#[trigger] roles[j]).id != id {
        assert forall|j: int| 0 <= j < ids.len() implies ids[j] != id by {
            assert(ids[j] == roles[j].id);
        }
        crate::rows::lemma_no_last_index(ids, id);
    }
}

/// A user is added when they exist, are no member yet and the role exists; changed when they
/// are a member; removed when they are one.
pub proof fn law_membership_changes(
    user_found: bool,
    is_member: bool,
    role: Option<Id>,
    added: WebResult<Id>,
    changed: WebResult<Id>,
    removed: WebResult<()>,
)
    requires
        call_ensures(post_organization_users, (user_found, is_member, role), added),
        call_ensures(patch_organization_users, (user_found, is_member, role), changed),
        call_ensures(delete_organization_users, (user_found, is_member), removed),
    ensures
        added is Ok <==> user_found && !is_member && role is Some,
        changed is Ok <==> user_found && is_member && role is Some,
        removed is Ok <==> user_found && is_member,
        added is Ok ==> added->Ok_0 == role->0,
        changed is Ok ==> changed->Ok_0 == role->0,
        !user_found ==> (added matches Err(WebError::NotFound(c, m)) && c == ErrorCode::NOT_FOUND
            && m@ == "User"@ + " not found"@),
        !user_found ==> (changed matches Err(WebError::NotFound(c, m)) && c == ErrorCode::NOT_FOUND
            && m@ == "User"@ + " not found"@),
        !user_found ==> (removed matches Err(WebError::NotFound(c, m)) && c == ErrorCode::NOT_FOUND
            && m@ == "User"@ + " not found"@),
        user_found && is_member ==> (added matches Err(WebError::Conflict(c, m))
            && c == ErrorCode::ALREADY_EXISTS && m@
            == "User already in Organization"@ + " already exists"@),
        user_found && !is_member && role is None
            ==> (added matches Err(WebError::NotFound(c, m)) && c == ErrorCode::NOT_FOUND
            && m@ == "Role"@ + " not found"@),
        user_found && !is_member ==> (changed matches Err(WebError::BadRequest(c, m))
            && c == ErrorCode::BAD_REQUEST && m@ == "User not in Organization"@),
        user_found && is_member && role is None
            ==> (changed matches Err(WebError::NotFound(c, m)) && c == ErrorCode::NOT_FOUND
            && m@ == "Role"@ + " not found"@),
        user_found && !is_member ==> (removed matches Err(WebError::BadRequest(c, m))
            && c == ErrorCode::BAD_REQUEST && m@ == "User not in Organization"@),
{
}

} // verus!
