//! Who may use a cache.

use crate::codec::{base64_decoded, decode_base64, decode_utf8_text};
use crate::error::{ErrorCode, ErrorModel, WebError, WebResult};
use crate::helpers::Id;
use crate::rows::holds;
use crate::text::{position, skip, split_once, starts_with, strip_prefix};
use vstd::prelude::*;
use vstd::utf8::{decode_utf8, encode_utf8, valid_utf8};

verus! {

// ── Basic credentials ────────────────────────────────────────────────────────

/// The password in credentials that decode to `bytes`: what follows the first
/// colon, where they are text and have one. The user name is ignored.
pub open spec fn password_in(bytes: Seq<u8>) -> Option<Seq<char>> {
    let creds = decode_utf8(bytes);
    if valid_utf8(bytes) && position(creds, ':') < creds.len() {
        Some(skip(creds, position(creds, ':') + 1))
    } else {
        None
    }
}

/// The password of an `Authorization` header.
pub open spec fn password_of_header(header: Seq<char>) -> Option<Seq<char>> {
    if starts_with(header, "Basic "@) {
        match base64_decoded(skip(header, "Basic "@.len() as int)) {
            Some(bytes) => password_in(bytes),
            None => None,
        }
    } else {
        None
    }
}

/// The password in credentials that decode to `decoded`, if they do.
pub fn password_of(decoded: Option<Vec<u8>>) -> (r: Option<String>)
    ensures
        match r {
            Some(p) => decoded matches Some(b) && password_in(b@) == Some(p@),
            None => decoded is None || password_in(decoded->0@) is None,
        },
{
    match decoded {
        None => None,
        Some(bytes) => {
            let ghost b = bytes@;
            match decode_utf8_text(bytes) {
                None => None,
                Some(creds) => {
                    proof {
                        vstd::utf8::encode_utf8_decode_utf8(creds@);
                    }
                    match split_once(creds.as_str(), ':') {
                        Some((_, p)) => Some(p.to_owned()),
                        None => None,
                    }
                },
            }
        },
    }
}

/// Extracts the password of HTTP Basic Auth credentials. It is treated as a JWT
/// or API key; the username is ignored.
pub fn try_authenticate_basic(header: &str) -> (r: Option<String>)
    ensures
        match r {
            Some(p) => password_of_header(header@) == Some(p@),
            None => password_of_header(header@) is None,
        },
{
    match strip_prefix(header, "Basic ") {
        Some(encoded) => password_of(decode_base64(encoded)),
        None => None,
    }
}

// ── Access ───────────────────────────────────────────────────────────────────

/// Some organization is in both lists.
pub open spec fn share_member(a: Seq<Id>, b: Seq<Id>) -> bool {
    exists|i: int| 0 <= i < a.len() && b.contains(#[trigger] a[i])
}

/// Returns true if `user` is allowed to read a cache. Access is granted when the
/// user is the cache owner or belongs to any organization that subscribes to the
/// cache.
pub fn user_can_access_cache(
    owner: Id,
    user: Id,
    user_orgs: &Vec<Id>,
    subscribers: &Vec<Id>,
) -> (r: bool)
    ensures
        r == (owner == user || share_member(user_orgs@, subscribers@)),
{
    if owner == user {
        return true;
    }
    let mut i: usize = 0;
    while i < user_orgs.len()
        invariant
            i <= user_orgs.len(),
            forall|j: int| 0 <= j < i ==> !subscribers@.contains(#[trigger] user_orgs@[j]),
        decreases user_orgs.len() - i,
    {
        if holds(subscribers, user_orgs[i]) {
            return true;
        }
        i += 1;
    }
    false
}

/// Checks authorization for a private cache request. `access` is `None` when no
/// valid credentials came with it, and else says whether they grant access.
pub fn require_cache_auth(public: bool, access: Option<bool>) -> (r: WebResult<()>)
    ensures
        match r {
            Ok(_) => public || access == Some(true),
            Err(e) => !public && access != Some(true) && e@ == ErrorModel::unauthorized(
                "Authentication required to access this cache"@,
            ),
        },
{
    if public {
        return Ok(());
    }
    match access {
        Some(true) => Ok(()),
        _ => Err(WebError::unauthorized("Authentication required to access this cache")),
    }
}

/// A cache that a request names, as far as access needs it.
#[derive(Debug, Clone, Copy, PartialEq, Eq, Structural)]
pub struct CacheState {
    pub id: Id,
    pub active: bool,
    pub public: bool,
}

/// Resolved context for a Nix cache protocol request.
#[derive(Debug, Clone, Copy, PartialEq, Eq, Structural)]
pub struct CacheContext {
    pub cache: Id,
}

impl CacheContext {
    /// Looks up the cache, rejects inactive caches with `BadRequest`, and
    /// enforces access control, in this order.
    pub fn load(cache: Option<CacheState>, access: Option<bool>) -> (r: WebResult<CacheContext>)
        ensures
            match r {
                Ok(c) => cache matches Some(x) && x.active && (x.public || access == Some(true))
                    && c.cache == x.id,
                Err(e) => match cache {
                    None => e@ == ErrorModel::not_found("Cache"@),
                    Some(x) => if !x.active {
                        e@ == ErrorModel::bad_request("Cache is disabled"@)
                    } else {
                        &&& !x.public
                        &&& access != Some(true)
                        &&& e@ == ErrorModel::unauthorized(
                            "Authentication required to access this cache"@,
                        )
                    },
                },
            },
    {
        match cache {
            None => Err(WebError::not_found("Cache")),
            Some(x) => {
                if !x.active {
                    return Err(WebError::bad_request("Cache is disabled"));
                }
                match require_cache_auth(x.public, access) {
                    Ok(_) => Ok(CacheContext { cache: x.id }),
                    Err(e) => Err(e),
                }
            },
        }
    }
}

/// A cache that a request names, and who asks.
#[derive(Debug, Clone, Copy, PartialEq, Eq, Structural)]
pub struct CacheView {
    pub found: bool,
    pub public: bool,
    pub owner: Id,
    pub user: Option<Id>,
}

impl CacheView {
    /// The cache can be seen through the API: public caches by everybody, the others by
    /// their owner.
    pub open spec fn visible(self) -> bool {
        self.found && (self.public || self.user == Some(self.owner))
    }
}

/// Whether a cache can be seen through the API. Anybody who cannot see it is told that
/// there is no such cache.
pub fn resolve_visible_cache(view: CacheView) -> (r: WebResult<()>)
    ensures
        match r {
            Ok(_) => view.visible(),
            Err(e) => !view.visible() && e@ == ErrorModel::not_found("Cache"@),
        },
{
    if !view.found {
        return Err(WebError::not_found("Cache"));
    }
    if !view.public {
        match view.user {
            Some(u) => if u != view.owner {
                return Err(WebError::not_found("Cache"));
            },
            None => {
                return Err(WebError::not_found("Cache"));
            },
        }
    }
    Ok(())
}

/// Whether a caller who brings neither a session nor a key is let in on the
/// cache socket at all.
pub fn admit_anonymous(has_user: bool, has_key: bool, allow_anonymous: bool) -> (r: WebResult<bool>)
    ensures
        match r {
            Ok(anonymous) => anonymous == (!has_user && !has_key)
                && (anonymous ==> allow_anonymous),
            Err(e) => !has_user && !has_key && !allow_anonymous && e@ == ErrorModel::forbidden(
                "Anonymous cache access is disabled."@,
            ),
        },
{
    let anonymous = !has_user && !has_key;
    if anonymous && !allow_anonymous {
        return Err(WebError::forbidden("Anonymous cache access is disabled."));
    }
    Ok(anonymous)
}

/// The cache on which a socket is opened. Callers without credentials are let in where
/// the server allows them, and only they count against the limit of their address, of
/// which `permit` says whether it has room. `cache` is the cache that the caller may
/// read, or why there is none.
pub fn cache_proto(
    has_user: bool,
    has_key: bool,
    allow_anonymous: bool,
    cache: WebResult<Id>,
    permit: bool,
) -> (r: WebResult<Id>)
    ensures
        ({
            let anonymous = !has_user && !has_key;
            match r {
                Ok(id) => (anonymous ==> allow_anonymous && permit)
                    && cache == Ok::<Id, WebError>(id),
                Err(e) => e@ == if anonymous && !allow_anonymous {
                    ErrorModel::forbidden("Anonymous cache access is disabled."@)
                } else if cache is Err {
                    cache->Err_0@
                } else {
                    ErrorModel::service_unavailable(
                        "Too many connections from your IP; retry later."@,
                    )
                } && ((anonymous && !(allow_anonymous && permit)) || cache is Err),
            }
        }),
{
    let anonymous = match admit_anonymous(has_user, has_key, allow_anonymous) {
        Ok(b) => b,
        Err(e) => {
            return Err(e);
        },
    };
    let id: Id = match cache {
        Ok(id) => id,
        Err(e) => {
            return Err(e);
        },
    };
    if anonymous && !permit {
        return Err(
            WebError::service_unavailable("Too many connections from your IP; retry later."),
        );
    }
    Ok(id)
}

/// The encoding of a user name and a password.
pub open spec fn credentials(user: Seq<char>, password: Seq<char>) -> Seq<u8> {
    encode_utf8(user + ":"@ + password)
}

/// The password comes out of the credentials it went into, whatever the user
/// name, so long as that has no colon.
pub proof fn law_password_is_read_back(user: Seq<char>, password: Seq<char>)
    requires
        position(user, ':') == user.len(),
    ensures
        password_in(credentials(user, password)) == Some(password),
{
    reveal_strlit(":");
    let whole = user + ":"@ + password;
    vstd::utf8::encode_utf8_valid_utf8(whole);
    vstd::utf8::encode_utf8_decode_utf8(whole);
    crate::text::lemma_position_bounds(user, ':');
    assert forall|j: int| 0 <= j < user.len() implies whole[j] != ':' by {
        assert(whole[j] == user[j]);
    }
    assert(whole[user.len() as int] == ':');
    crate::text::lemma_position_is(whole, ':', user.len() as int);
    assert(skip(whole, user.len() as int + 1) =~= password);
}

/// The password of a Basic header is what follows the first colon of its credentials; the user
/// name is ignored. Without `Basic `, or where the credentials do not decode to text with a
/// colon, there is none.
pub proof fn law_basic_password(
    header: &str,
    encoded: Seq<char>,
    user: Seq<char>,
    password: Seq<char>,
    r: Option<String>,
    bytes: Vec<u8>,
    d: Option<String>,
    none: Option<String>,
)
    requires
        call_ensures(try_authenticate_basic, (header,), r),
        call_ensures(password_of, (Some(bytes),), d),
        call_ensures(password_of, (None::<Vec<u8>>,), none),
        forall|i: int| 0 <= i < user.len() ==> user[i] != ':',
    ensures
        none is None,
        bytes@ == encode_utf8(user + seq![':'] + password) ==> d is Some && d->0@ == password,
        header@.len() < 6 || header@.subrange(0, 6) != "Basic "@ ==> r is None,
        header@ == "Basic "@ + encoded && base64_decoded(encoded) is None ==> r is None,
        header@ == "Basic "@ + encoded && base64_decoded(encoded) == Some(bytes@)
            ==> (r is Some <==> d is Some) && (r is Some ==> r->0@ == d->0@),
        !valid_utf8(bytes@) ==> d is None,
{
    reveal_strlit("Basic ");
    reveal_strlit(":");
    assert(":"@ =~= seq![':']);
    crate::text::lemma_position_is(user, ':', user.len() as int);
    law_password_is_read_back(user, password);
    let whole = "Basic "@ + encoded;
    assert(whole.subrange(0, 6) =~= "Basic "@);
    assert(skip(whole, 6) =~= encoded);
}

/// A cache is read by its owner and by the members of the organizations that subscribe to it; a
/// public one by everybody. A disabled cache is read by nobody.
pub proof fn law_who_reads_caches(
    owner: Id,
    user: Id,
    user_orgs: Vec<Id>,
    subscribers: Vec<Id>,
    may: bool,
    cache: Option<CacheState>,
    access: Option<bool>,
    r: WebResult<CacheContext>,
    public: bool,
    auth: WebResult<()>,
)
    requires
        call_ensures(user_can_access_cache, (owner, user, &user_orgs, &subscribers), may),
        call_ensures(CacheContext::load, (cache, access), r),
        call_ensures(require_cache_auth, (public, access), auth),
    ensures
        may <==> owner == user || exists|i: int, j: int|
            0 <= i < user_orgs@.len() && 0 <= j < subscribers@.len() && #[trigger] user_orgs@[i]
                == #[trigger] subscribers@[j],
        auth is Ok <==> public || (access is Some && access->0),
        auth is Err ==> (auth matches Err(WebError::Unauthorized(c, m))
            && c == ErrorCode::UNAUTHORIZED && m@
            == "Authentication required to access this cache"@),
        r is Ok <==> cache is Some && cache->0.active
            && (cache->0.public || (access is Some && access->0)),
        r is Ok ==> r->Ok_0.cache == cache->0.id,
        cache is None ==> (r matches Err(WebError::NotFound(c, m)) && c == ErrorCode::NOT_FOUND
            && m@ == "Cache"@ + " not found"@),
        cache is Some && !cache->0.active ==> (r matches Err(WebError::BadRequest(c, m))
            && c == ErrorCode::BAD_REQUEST && m@ == "Cache is disabled"@),
        cache is Some && cache->0.active && r is Err
            ==> (r matches Err(WebError::Unauthorized(c, m)) && c == ErrorCode::UNAUTHORIZED
            && m@ == "Authentication required to access this cache"@),
{
    if share_member(user_orgs@, subscribers@) {
        let i = choose|i: int| 0 <= i < user_orgs@.len()
            && subscribers@.contains(#[trigger] user_orgs@[i]);
        let j = subscribers@.index_of(user_orgs@[i]);
        assert(user_orgs@[i] == subscribers@[j]);
    }
    if exists|i: int, j: int|
        0 <= i < user_orgs@.len() && 0 <= j < subscribers@.len() && #[trigger] user_orgs@[i]
            == #[trigger] subscribers@[j] {
        let (i, j) = choose|i: int, j: int|
            0 <= i < user_orgs@.len() && 0 <= j < subscribers@.len() && #[trigger] user_orgs@[i]
                == #[trigger] subscribers@[j];
        assert(subscribers@.contains(user_orgs@[i]));
    }
}

/// Through the API a cache is seen by everybody where it is public, and else by its owner; to
/// anybody else it is not there. The cache socket takes callers without credentials where the
/// server allows them and their address has room; those with credentials need neither.
pub proof fn law_cache_visibility(
    view: CacheView,
    v: WebResult<()>,
    has_user: bool,
    has_key: bool,
    allow: bool,
    a: WebResult<bool>,
    cache: WebResult<Id>,
    permit: bool,
    r: WebResult<Id>,
)
    requires
        call_ensures(resolve_visible_cache, (view,), v),
        call_ensures(admit_anonymous, (has_user, has_key, allow), a),
        call_ensures(cache_proto, (has_user, has_key, allow, cache, permit), r),
    ensures
        v is Ok <==> view.found && (view.public
            || (view.user is Some && view.user->0 == view.owner)),
        v is Err ==> (v matches Err(WebError::NotFound(c, m)) && c == ErrorCode::NOT_FOUND
            && m@ == "Cache"@ + " not found"@),
        a is Ok <==> has_user || has_key || allow,
        a is Ok ==> (a->Ok_0 <==> !has_user && !has_key),
        a is Err ==> (a matches Err(WebError::Forbidden(c, m)) && c == ErrorCode::FORBIDDEN
            && m@ == "Anonymous cache access is disabled."@),
        r is Ok <==> cache is Ok && (has_user || has_key || (allow && permit)),
        r is Ok ==> r->Ok_0 == cache->Ok_0,
        !has_user && !has_key && !allow ==> (r matches Err(WebError::Forbidden(c, m))
            && c == ErrorCode::FORBIDDEN && m@ == "Anonymous cache access is disabled."@),
        (has_user || has_key || allow) && cache is Err ==> r is Err && r->Err_0@ == cache->Err_0@,
        !has_user && !has_key && allow && cache is Ok && !permit
            ==> (r matches Err(WebError::ServiceUnavailable(c, m))
            && c == ErrorCode::SERVICE_UNAVAILABLE
            && m@ == "Too many connections from your IP; retry later."@),
{
}

} // verus!
