//! Users: their profile, settings and API keys.

use crate::codec::{format_uuid, uuid_text};
use crate::error::{ErrorCode, ErrorModel, WebError, WebResult};
use crate::helpers::{Id, Timestamp};
use crate::text::cat;
use vstd::prelude::*;

verus! {

#[derive(Debug, PartialEq, Eq)]
pub struct UserInfoResponse {
    pub id: String,
    pub username: String,
    pub name: String,
    pub email: String,
    pub superuser: bool,
}

#[derive(Debug, PartialEq, Eq)]
pub struct ApiKeyRequest {
    pub name: String,
}

#[derive(Debug, PartialEq, Eq)]
pub struct PatchUserSettingsRequest {
    pub username: Option<String>,
    pub name: Option<String>,
    pub email: Option<String>,
}

#[derive(Debug, PartialEq, Eq)]
pub struct GetUserSettingsResponse {
    pub username: String,
    pub name: String,
    pub email: String,
    pub is_oidc: bool,
    pub managed: bool,
}

#[derive(Debug, PartialEq, Eq)]
pub struct UserSearchResult {
    pub id: String,
    pub username: String,
    pub name: String,
}

/// A user, as the database holds it.
#[derive(Debug, PartialEq, Eq)]
pub struct UserRow {
    pub id: Id,
    pub username: String,
    pub name: String,
    pub email: String,
    /// The hash of the password; users of an identity provider have none.
    pub password: Option<String>,
    pub superuser: bool,
    pub managed: bool,
}

/// An API key, as the database holds it.
#[derive(Debug, PartialEq, Eq)]
pub struct ApiKeyRow {
    pub id: Id,
    pub owned_by: Id,
    pub name: String,
    /// The hash of the key.
    pub key: String,
    pub last_used_at: Timestamp,
    pub created_at: Timestamp,
    pub managed: bool,
}

/// An API key in the list.
#[derive(Debug, PartialEq, Eq)]
pub struct ApiKeyItem {
    pub id: Id,
    pub name: String,
    pub managed: bool,
}

// ── Profile ──────────────────────────────────────────────────────────────────

/// A found user shows who they are and nothing more.
pub open spec fn shows(r: UserSearchResult, u: UserRow) -> bool {
    r.id@ == uuid_text(u.id) && r.username == u.username && r.name == u.name
}

/// The users that a search found.
pub fn get_search(users: &Vec<UserRow>) -> (r: Vec<UserSearchResult>)
    ensures
        r@.len() == users@.len(),
        forall|i: int| 0 <= i < r@.len() ==> shows(#[trigger] r@[i], users@[i]),
{
    let mut out: Vec<UserSearchResult> = Vec::new();
    let mut i: usize = 0;
    while i < users.len()
        invariant
            i <= users.len(),
            out@.len() == i,
            forall|j: int| 0 <= j < i ==> shows(#[trigger] out@[j], users@[j]),
        decreases users.len() - i,
    {
        let u = &users[i];
        out.push(
            UserSearchResult {
                id: format_uuid(u.id),
                username: u.username.clone(),
                name: u.name.clone(),
            },
        );
        i += 1;
    }
    out
}

/// The profile of a user.
pub fn get(user: &UserRow) -> (r: UserInfoResponse)
    ensures
        r.id@ == uuid_text(user.id),
        r.username == user.username,
        r.name == user.name,
        r.email == user.email,
        r.superuser == user.superuser,
{
    UserInfoResponse {
        id: format_uuid(user.id),
        username: user.username.clone(),
        name: user.name.clone(),
        email: user.email.clone(),
        superuser: user.superuser,
    }
}

// ── API keys ─────────────────────────────────────────────────────────────────

/// The entry of an API key, which does not show the key.
pub open spec fn key_item(k: ApiKeyRow) -> ApiKeyItem {
    ApiKeyItem { id: k.id, name: k.name, managed: k.managed }
}

/// The API keys of a user.
pub fn get_keys(keys: &Vec<ApiKeyRow>) -> (r: Vec<ApiKeyItem>)
    ensures
        r@ == keys@.map_values(|k: ApiKeyRow| key_item(k)),
{
    let mut out: Vec<ApiKeyItem> = Vec::new();
    let mut i: usize = 0;
    while i < keys.len()
        invariant
            i <= keys.len(),
            out@ == keys@.map_values(|k: ApiKeyRow| key_item(k)).take(i as int),
        decreases keys.len() - i,
    {
        let k = &keys[i];
        out.push(ApiKeyItem { id: k.id, name: k.name.clone(), managed: k.managed });
        i += 1;
    }
    assert(keys@.map_values(|k: ApiKeyRow| key_item(k)).take(i as int) =~= keys@.map_values(
        |k: ApiKeyRow| key_item(k),
    ));
    out
}

/// A new API key: what is stored, and what the user is shown once. `raw` is the
/// fresh key and `hashed` its hash.
pub fn post_keys(
    body: &ApiKeyRequest,
    name_taken: bool,
    raw: &str,
    hashed: String,
    id: Id,
    owner: Id,
    never: Timestamp,
    now: Timestamp,
) -> (r: WebResult<(ApiKeyRow, String)>)
    ensures
        match r {
            Ok((k, shown)) => {
                &&& !name_taken
                &&& k == (ApiKeyRow {
                    id,
                    owned_by: owner,
                    name: body.name,
                    key: hashed,
                    last_used_at: never,
                    created_at: now,
                    managed: false,
                })
                &&& shown@ == "GRAD"@ + raw@
            },
            Err(e) => name_taken && e@ == ErrorModel::already_exists("API-Key Name"@),
        },
{
    if name_taken {
        return Err(WebError::already_exists("API-Key Name"));
    }
    Ok(
        (
            ApiKeyRow {
                id,
                owned_by: owner,
                name: body.name.clone(),
                key: hashed,
                last_used_at: never,
                created_at: now,
                managed: false,
            },
            cat("GRAD", raw),
        ),
    )
}

/// The API key to delete; state-managed keys stay.
pub fn delete_keys(key: Option<ApiKeyRow>) -> (r: WebResult<ApiKeyRow>)
    ensures
        match r {
            Ok(k) => key == Some(k) && !k.managed,
            Err(e) => if key is None {
                e@ == ErrorModel::not_found("API-Key"@)
            } else {
                key->0.managed && e@ == ErrorModel::forbidden(
                    "Cannot delete a state-managed API key."@,
                )
            },
        },
{
    match key {
        None => Err(WebError::not_found("API-Key")),
        Some(k) => if k.managed {
            Err(WebError::forbidden("Cannot delete a state-managed API key."))
        } else {
            Ok(k)
        },
    }
}

// ── Settings ─────────────────────────────────────────────────────────────────

/// The settings of a user.
pub fn get_settings(user: &UserRow) -> (r: GetUserSettingsResponse)
    ensures
        r.username == user.username,
        r.name == user.name,
        r.email == user.email,
        r.is_oidc == (user.password is None),
        r.managed == user.managed,
{
    GetUserSettingsResponse {
        username: user.username.clone(),
        name: user.name.clone(),
        email: user.email.clone(),
        is_oidc: user.password.is_none(),
        managed: user.managed,
    }
}

/// What is known of the values in a change of settings.
pub struct SettingsChecks {
    pub username_error: Option<String>,
    pub username_taken: bool,
    pub name_error: Option<String>,
    pub email_taken: bool,
}

/// Why a change of settings is refused.
pub open spec fn settings_error(
    user: UserRow,
    body: PatchUserSettingsRequest,
    checks: SettingsChecks,
) -> Option<ErrorModel> {
    if user.managed {
        Some(
            ErrorModel::forbidden(
                "Cannot modify state-managed user. This user is managed by configuration and cannot be edited through the API."@,
            ),
        )
    } else if user.password is None {
        Some(
            ErrorModel::forbidden(
                "Cannot modify profile of an OIDC user. Your profile is managed by your identity provider."@,
            ),
        )
    } else if body.username is Some && checks.username_error is Some {
        Some(ErrorModel::bad_request_with(
                ErrorCode::INVALID_USERNAME,
                "Invalid username: "@ + checks.username_error->0@,
            ))
    } else if body.username is Some && checks.username_taken {
        Some(ErrorModel::already_exists("Username"@))
    } else if body.name is Some && checks.name_error is Some {
        Some(ErrorModel::bad_request("Invalid name: "@ + checks.name_error->0@))
    } else if body.email is Some && checks.email_taken {
        Some(ErrorModel::already_exists("Email"@))
    } else {
        None
    }
}

/// The user after a change of settings.
pub open spec fn with_settings(u: UserRow, body: PatchUserSettingsRequest) -> UserRow {
    UserRow {
        username: match body.username {
            Some(v) => v,
            None => u.username,
        },
        name: match body.name {
            Some(v) => v,
            None => u.name,
        },
        email: match body.email {
            Some(v) => v,
            None => u.email,
        },
        ..u
    }
}

/// The user after a change of settings. State-managed users and users of an
/// identity provider cannot change theirs.
pub fn patch_settings(user: UserRow, body: PatchUserSettingsRequest, checks: &SettingsChecks) -> (r:
    WebResult<UserRow>)
    ensures
        match r {
            Ok(u) => settings_error(user, body, *checks) is None && u == with_settings(user, body),
            Err(e) => settings_error(user, body, *checks) == Some(e@),
        },
{
    if user.managed {
        return Err(
            WebError::forbidden(
                "Cannot modify state-managed user. This user is managed by configuration and cannot be edited through the API.",
            ),
        );
    }
    if user.password.is_none() {
        return Err(
            WebError::forbidden(
                "Cannot modify profile of an OIDC user. Your profile is managed by your identity provider.",
            ),
        );
    }
    let mut u = user;
    if let Some(username) = body.username {
        if let Some(e) = &checks.username_error {
            return Err(WebError::invalid_username(e.clone()));
        }
        if checks.username_taken {
            return Err(WebError::already_exists("Username"));
        }
        u.username = username;
    }
    if let Some(name) = body.name {
        if let Some(e) = &checks.name_error {
            return Err(WebError::bad_request(cat("Invalid name: ", e.as_str()).as_str()));
        }
        u.name = name;
    }
    if let Some(email) = body.email {
        if checks.email_taken {
            return Err(WebError::already_exists("Email"));
        }
        u.email = email;
    }
    Ok(u)
}

/// A change of settings never touches the password, the rights or the identity of
/// a user.
pub proof fn law_settings_keep_identity(u: UserRow, body: PatchUserSettingsRequest)
    ensures
        with_settings(u, body).id == u.id,
        with_settings(u, body).password == u.password,
        with_settings(u, body).superuser == u.superuser,
        with_settings(u, body).managed == u.managed,
{
}

/// What is shown of users and their API keys: never the password, never the hash of a key.
pub proof fn law_what_users_show(
    users: Vec<UserRow>,
    f: Vec<UserSearchResult>,
    i: int,
    u: UserRow,
    info: UserInfoResponse,
    set: GetUserSettingsResponse,
    keys: Vec<ApiKeyRow>,
    items: Vec<ApiKeyItem>,
)
    requires
        call_ensures(get_search, (&users,), f),
        call_ensures(get, (&u,), info),
        call_ensures(get_settings, (&u,), set),
        call_ensures(get_keys, (&keys,), items),
    ensures
        f@.len() == users@.len(),
        0 <= i < users@.len() ==> f@[i].id@ == uuid_text(users@[i].id) && f@[i].username
            == users@[i].username && f@[i].name == users@[i].name,
        info.id@ == uuid_text(u.id) && info.username == u.username && info.name == u.name,
        info.email == u.email && info.superuser == u.superuser,
        set.username == u.username && set.name == u.name && set.email == u.email,
        set.is_oidc <==> u.password is None,
        set.managed == u.managed,
        items@.len() == keys@.len(),
        0 <= i < keys@.len() ==> items@[i].id == keys@[i].id && items@[i].name == keys@[i].name
            && items@[i].managed == keys@[i].managed,
{
}

/// A new API key takes a free name. Its hash is stored, unused and not managed; the key itself
/// is shown once, after `GRAD`.
pub proof fn law_new_api_keys(
    body: ApiKeyRequest,
    name_taken: bool,
    raw: &str,
    hashed: String,
    id: Id,
    owner: Id,
    never: Timestamp,
    now: Timestamp,
    r: WebResult<(ApiKeyRow, String)>,
)
    requires
        call_ensures(post_keys, (&body, name_taken, raw, hashed, id, owner, never, now), r),
    ensures
        r is Ok <==> !name_taken,
        name_taken ==> (r matches Err(WebError::Conflict(c, m)) && c == ErrorCode::ALREADY_EXISTS
            && m@ == "API-Key Name"@ + " already exists"@),
        r matches Ok((k, shown)) ==> k.id == id && k.owned_by == owner && k.name == body.name
            && k.key
            == hashed && k.last_used_at == never && k.created_at == now && !k.managed && shown@
            == "GRAD"@ + raw@,
{
}

/// An API key is deleted where there is one that configuration does not manage.
pub proof fn law_deleted_api_keys(
    key: Option<ApiKeyRow>,
    r: WebResult<ApiKeyRow>,
)
    requires
        call_ensures(delete_keys, (key,), r),
    ensures
        r is Ok <==> key is Some && !key->0.managed,
        r is Ok ==> r->Ok_0 == key->0,
        key is None ==> (r matches Err(WebError::NotFound(c, m)) && c == ErrorCode::NOT_FOUND
            && m@ == "API-Key"@ + " not found"@),
        key is Some && key->0.managed ==> (r matches Err(WebError::Forbidden(c, m))
            && c == ErrorCode::FORBIDDEN && m@ == "Cannot delete a state-managed API key."@),
{
}

/// Settings change for users with a password that configuration does not manage, where every
/// value given is valid and free. What is given replaces what was there, and everything else
/// stays.
pub proof fn law_changed_settings(
    user: UserRow,
    body: PatchUserSettingsRequest,
    checks: SettingsChecks,
    r: WebResult<UserRow>,
)
    requires
        call_ensures(patch_settings, (user, body, &checks), r),
    ensures
        ({
            let own = !user.managed && user.password is Some;
            let name_ok = body.username is Some ==> checks.username_error is None
                && !checks.username_taken;
            let display_ok = body.name is Some ==> checks.name_error is None;
            let email_ok = body.email is Some ==> !checks.email_taken;
            &&& r is Ok <==> own && name_ok && display_ok && email_ok
            &&& user.managed ==> (r matches Err(WebError::Forbidden(c, m))
                && c == ErrorCode::FORBIDDEN
                && m@ == "Cannot modify state-managed user. This user is managed by configuration and cannot be edited through the API."@)
            &&& !user.managed && user.password is None
                ==> (r matches Err(WebError::Forbidden(c, m)) && c == ErrorCode::FORBIDDEN
                && m@ == "Cannot modify profile of an OIDC user. Your profile is managed by your identity provider."@)
            &&& own && body.username is Some && checks.username_error is Some
                ==> (r matches Err(WebError::BadRequest(c, m)) && c == ErrorCode::INVALID_USERNAME
                && m@ == "Invalid username: "@ + checks.username_error->0@)
            &&& own && body.username is Some && checks.username_error is None
                && checks.username_taken
                ==> (r matches Err(WebError::Conflict(c, m)) && c == ErrorCode::ALREADY_EXISTS
                    && m@ == "Username"@ + " already exists"@)
            &&& own && name_ok && !display_ok ==> (r matches Err(WebError::BadRequest(c, m))
                && c == ErrorCode::BAD_REQUEST && m@ == "Invalid name: "@ + checks.name_error->0@)
            &&& own && name_ok && display_ok && !email_ok
                ==> (r matches Err(WebError::Conflict(c, m)) && c == ErrorCode::ALREADY_EXISTS
                && m@ == "Email"@ + " already exists"@)
        }),
        r matches Ok(u) ==> {
            &&& body.username is Some ==> u.username == body.username->0
            &&& body.username is None ==> u.username == user.username
            &&& body.name is Some ==> u.name == body.name->0
            &&& body.name is None ==> u.name == user.name
            &&& body.email is Some ==> u.email == body.email->0
            &&& body.email is None ==> u.email == user.email
            &&& u.id == user.id && u.password == user.password && u.superuser == user.superuser
                && u.managed == user.managed
        },
{
}

} // verus!
