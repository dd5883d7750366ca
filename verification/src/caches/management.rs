//! Creating and changing caches.

use crate::caches::access::{resolve_visible_cache, CacheView};
use crate::caches::upstreams::UpstreamRow;
use crate::error::{ErrorCode, ErrorModel, WebError, WebResult};
use crate::helpers::{Id, Timestamp};
use crate::orgs::management::KeyPair;
use crate::orgs::settings::CacheSubscriptionMode;
use crate::projects::management::name_available;
use crate::rows::holds;
use crate::text::{cat, opt_view, trim, trimmed};
use vstd::prelude::*;

verus! {

#[derive(Debug, PartialEq, Eq)]
pub struct MakeCacheRequest {
    pub name: String,
    pub display_name: String,
    pub description: String,
    pub priority: i32,
    pub public: Option<bool>,
}

#[derive(Debug, PartialEq, Eq)]
pub struct CacheResponse {
    pub id: Id,
    pub name: String,
    pub display_name: String,
    pub description: String,
    pub active: bool,
    pub priority: i32,
    pub public_key: String,
    pub public: bool,
    pub created_by: Id,
    pub created_at: Timestamp,
    pub managed: bool,
    pub can_edit: bool,
}

#[derive(Debug, PartialEq, Eq)]
pub struct PatchCacheRequest {
    pub name: Option<String>,
    pub display_name: Option<String>,
    pub description: Option<String>,
    pub priority: Option<i32>,
}

/// A cache, as the database holds it.
#[derive(Debug, PartialEq, Eq)]
pub struct CacheRow {
    pub id: Id,
    pub name: String,
    pub active: bool,
    pub display_name: String,
    pub description: String,
    pub priority: i32,
    pub public_key: String,
    pub private_key: String,
    pub public: bool,
    pub created_by: Id,
    pub created_at: Timestamp,
    pub managed: bool,
}

// ── Listing ──────────────────────────────────────────────────────────────────

/// The caches that concern a user: their own, and those in `subscribed`, to which
/// one of their organizations subscribes.
pub open spec fn concerns(c: CacheRow, user: Id, subscribed: Seq<Id>) -> bool {
    c.created_by == user || subscribed.contains(c.id)
}

/// The positions of the caches that concern a user.
pub fn get(caches: &Vec<CacheRow>, user: Id, subscribed: &Vec<Id>) -> (r: Vec<usize>)
    ensures
        forall|k: int| 0 <= k < r@.len() ==> (#[trigger] r@[k]) < caches@.len(),
        forall|a: int, b: int| 0 <= a < b < r@.len() ==> r@[a] < r@[b],
        forall|i: int|
            0 <= i < caches@.len() ==> (r@.contains(i as usize) <==> concerns(
                #[trigger] caches@[i],
                user,
                subscribed@,
            )),
        forall|k: usize|
            k < caches@.len() ==> (#[trigger] r@.contains(k) <==> caches@[k as int].created_by
                == user || subscribed@.contains(caches@[k as int].id)),
{
    let mut out: Vec<usize> = Vec::new();
    let mut i: usize = 0;
    while i < caches.len()
        invariant
            i <= caches.len(),
            forall|k: int| 0 <= k < out@.len() ==> (#[trigger] out@[k]) < i,
            forall|a: int, b: int| 0 <= a < b < out@.len() ==> out@[a] < out@[b],
            forall|j: int|
                0 <= j < i ==> (out@.contains(j as usize) <==> concerns(
                    #[trigger] caches@[j],
                    user,
                    subscribed@,
                )),
        decreases caches.len() - i,
    {
        let ghost before = out@;
        if caches[i].created_by == user || holds(subscribed, caches[i].id) {
            out.push(i);
            proof {
                assert(out@[before.len() as int] == i);
                assert forall|j: int| 0 <= j <= i implies (out@.contains(j as usize) <==> concerns(
                    #[trigger] caches@[j],
                    user,
                    subscribed@,
                )) by {
                    if j < i {
                        if before.contains(j as usize) {
                            let k = choose|k: int| 0 <= k < before.len() && before[k] == j as usize;
                            assert(out@[k] == j as usize);
                        }
                        if out@.contains(j as usize) {
                            let k = choose|k: int| 0 <= k < out@.len() && out@[k] == j as usize;
                            assert(before[k] == j as usize);
                        }
                    }
                }
            }
        } else {
            assert(!out@.contains(i));
        }
        i += 1;
    }
    assert forall|k: usize| k < caches@.len() implies (#[trigger] out@.contains(k)
        <==> caches@[k as int].created_by == user || subscribed@.contains(
        caches@[k as int].id,
    )) by {
        assert(concerns(caches@[k as int], user, subscribed@) <==> out@.contains(
            (k as int) as usize,
        ));
    }
    out
}

/// The cache as the user sees it. `public_key` is `None` when the public key could
/// not be derived.
pub fn get_cache(cache: Option<CacheRow>, user: Option<Id>, public_key: Option<String>) -> (r:
    WebResult<CacheResponse>)
    ensures
        match r {
            Ok(c) => {
                &&& cache matches Some(x)
                &&& x.public || user == Some(x.created_by)
                &&& public_key == Some(c.public_key)
                &&& c == (CacheResponse {
                    id: x.id,
                    name: x.name,
                    display_name: x.display_name,
                    description: x.description,
                    active: x.active,
                    priority: x.priority,
                    public_key: c.public_key,
                    public: x.public,
                    created_by: x.created_by,
                    created_at: x.created_at,
                    managed: x.managed,
                    can_edit: user == Some(x.created_by),
                })
            },
            Err(e) => if cache is None || (!cache->0.public && user != Some(cache->0.created_by)) {
                e@ == ErrorModel::not_found("Cache"@)
            } else {
                public_key is None && e@ == ErrorModel::internal("Failed to derive public key"@)
            },
        },
{
    let x = match cache {
        Some(x) => x,
        None => {
            return Err(WebError::not_found("Cache"));
        },
    };
    if let Err(e) = resolve_visible_cache(
        CacheView { found: true, public: x.public, owner: x.created_by, user },
    ) {
        return Err(e);
    }
    let public_key = match public_key {
        Some(k) => k,
        None => {
            return Err(WebError::internal("Failed to derive public key"));
        },
    };
    let can_edit = match user {
        Some(u) => u == x.created_by,
        None => false,
    };
    Ok(
        CacheResponse {
            id: x.id,
            name: x.name,
            display_name: x.display_name,
            description: x.description,
            active: x.active,
            priority: x.priority,
            public_key,
            public: x.public,
            created_by: x.created_by,
            created_at: x.created_at,
            managed: x.managed,
            can_edit,
        },
    )
}

/// The private key of a cache; `key` is `None` when it could not be decrypted.
pub fn get_cache_key(key: Option<String>) -> (r: WebResult<String>)
    ensures
        match r {
            Ok(k) => key == Some(k),
            Err(e) => key is None && e@ == ErrorModel::internal("Failed to generate cache key"@),
        },
{
    match key {
        Some(k) => Ok(k),
        None => Err(WebError::internal("Failed to generate cache key")),
    }
}

/// The public key of a cache; `key` is `None` when it could not be derived.
pub fn get_cache_public_key(key: Option<String>) -> (r: WebResult<String>)
    ensures
        match r {
            Ok(k) => key == Some(k),
            Err(e) => key is None && e@ == ErrorModel::internal("Failed to derive public key"@),
        },
{
    match key {
        Some(k) => Ok(k),
        None => Err(WebError::internal("Failed to derive public key")),
    }
}

/// Whether a name may be given to a new cache.
pub fn get_cache_name_available(well_formed: bool, exists: bool) -> (r: bool)
    ensures
        r == (well_formed && !exists),
{
    name_available(well_formed, exists)
}

// ── Creating ─────────────────────────────────────────────────────────────────

/// Why the names of a request are refused; `display_name_error` is what the validator
/// said of the display name.
pub open spec fn names_error(
    name_valid: bool,
    display_name_error: Option<Seq<char>>,
) -> Option<ErrorModel> {
    if !name_valid {
        Some(ErrorModel::invalid_name("Cache Name"@))
    } else {
        match display_name_error {
            Some(why) => Some(ErrorModel::bad_request("Invalid display name: "@ + why)),
            None => None,
        }
    }
}

/// Whether the names of a request for a new cache are well-formed.
pub fn check_new_cache(name_valid: bool, display_name_error: &Option<String>) -> (r: WebResult<()>)
    ensures
        match r {
            Ok(_) => names_error(name_valid, opt_view(*display_name_error)) is None,
            Err(e) => names_error(name_valid, opt_view(*display_name_error)) == Some(e@),
        },
{
    if !name_valid {
        return Err(WebError::invalid_name("Cache Name"));
    }
    if let Some(why) = display_name_error {
        return Err(WebError::bad_request(cat("Invalid display name: ", why.as_str()).as_str()));
    }
    Ok(())
}

/// `u` is the upstream that every new cache starts with.
pub open spec fn is_default_upstream(u: UpstreamRow, id: Id, cache: Id) -> bool {
    &&& u.id == id
    &&& u.cache == cache
    &&& u.display_name@ == "cache.nixos.org"@
    &&& u.mode == CacheSubscriptionMode::ReadOnly
    &&& u.upstream_cache is None
    &&& opt_view(u.url) == Some("https://cache.nixos.org"@)
    &&& opt_view(u.public_key) == Some(
        "cache.nixos.org-1:6NCHdD59X431o0gWypbMrAURkbJ16ZPMQFGspcDShjY="@,
    )
}

/// The upstream that every new cache starts with.
pub fn default_upstream(id: Id, cache: Id) -> (r: UpstreamRow)
    ensures
        is_default_upstream(r, id, cache),
{
    UpstreamRow {
        id,
        cache,
        display_name: "cache.nixos.org".to_owned(),
        mode: CacheSubscriptionMode::ReadOnly,
        upstream_cache: None,
        url: Some("https://cache.nixos.org".to_owned()),
        public_key: Some(
            "cache.nixos.org-1:6NCHdD59X431o0gWypbMrAURkbJ16ZPMQFGspcDShjY=".to_owned(),
        ),
    }
}

/// The cache that a request creates, and the upstream that it starts with. `keys` is
/// `None` when no signing key could be made.
pub fn put(
    body: &MakeCacheRequest,
    name_valid: bool,
    display_name_error: &Option<String>,
    name_taken: bool,
    keys: Option<KeyPair>,
    id: Id,
    upstream_id: Id,
    created_by: Id,
    now: Timestamp,
) -> (r: WebResult<(CacheRow, UpstreamRow)>)
    ensures
        r is Ok <==> names_error(name_valid, opt_view(*display_name_error)) is None && !name_taken
            && keys is Some,
        match r {
            Ok((c, u)) => {
                &&& is_default_upstream(u, upstream_id, id)
                &&& c.id == id
                &&& c.name == body.name
                &&& c.active
                &&& c.display_name@ == trimmed(body.display_name@)
                &&& c.description@ == trimmed(body.description@)
                &&& c.priority == body.priority
                &&& c.public_key == keys->0.public_key
                &&& c.private_key == keys->0.private_key
                &&& c.public == (body.public == Some(true))
                &&& c.created_by == created_by
                &&& c.created_at == now
                &&& !c.managed
            },
            Err(e) => e@ == if names_error(name_valid, opt_view(*display_name_error)) is Some {
                names_error(name_valid, opt_view(*display_name_error))->0
            } else if name_taken {
                ErrorModel::already_exists("Cache Name"@)
            } else {
                ErrorModel::internal("Failed to generate signing key"@)
            },
        },
{
    if let Err(e) = check_new_cache(name_valid, display_name_error) {
        return Err(e);
    }
    if name_taken {
        return Err(WebError::already_exists("Cache Name"));
    }
    let keys = match keys {
        Some(k) => k,
        None => {
            return Err(WebError::internal("Failed to generate signing key"));
        },
    };
    let public = match body.public {
        Some(p) => p,
        None => false,
    };
    let cache = CacheRow {
        id,
        name: body.name.clone(),
        active: true,
        display_name: trim(body.display_name.as_str()).to_owned(),
        description: trim(body.description.as_str()).to_owned(),
        priority: body.priority,
        public_key: keys.public_key,
        private_key: keys.private_key,
        public,
        created_by,
        created_at: now,
        managed: false,
    };
    Ok((cache, default_upstream(upstream_id, id)))
}

// ── Changing ─────────────────────────────────────────────────────────────────

/// Why a change is refused.
pub open spec fn patch_cache_error(
    body: PatchCacheRequest,
    name_valid: bool,
    name_taken: bool,
    display_name_error: Option<Seq<char>>,
) -> Option<ErrorModel> {
    if body.name is Some && !name_valid {
        Some(ErrorModel::invalid_name("Cache Name"@))
    } else if body.name is Some && name_taken {
        Some(ErrorModel::already_exists("Cache Name"@))
    } else if body.display_name is Some && display_name_error is Some {
        Some(ErrorModel::bad_request("Invalid display name: "@ + display_name_error->0))
    } else {
        None
    }
}

/// The cache after a change. `display_name_error` is what the validator said of
/// the trimmed display name.
pub fn patch_cache(
    cache: CacheRow,
    body: PatchCacheRequest,
    name_valid: bool,
    name_taken: bool,
    display_name_error: &Option<String>,
) -> (r: WebResult<CacheRow>)
    ensures
        match r {
            Ok(c) => {
                &&& patch_cache_error(
                    body,
                    name_valid,
                    name_taken,
                    opt_view(*display_name_error),
                ) is None
                &&& c.name@ == (match body.name {
                    Some(n) => n@,
                    None => cache.name@,
                })
                &&& c.display_name@ == (match body.display_name {
                    Some(d) => trimmed(d@),
                    None => cache.display_name@,
                })
                &&& c.description@ == (match body.description {
                    Some(d) => trimmed(d@),
                    None => cache.description@,
                })
                &&& c.priority == (match body.priority {
                    Some(p) => p,
                    None => cache.priority,
                })
                &&& c == (CacheRow {
                    name: c.name,
                    display_name: c.display_name,
                    description: c.description,
                    priority: c.priority,
                    ..cache
                })
            },
            Err(e) => patch_cache_error(
                body,
                name_valid,
                name_taken,
                opt_view(*display_name_error),
            ) == Some(e@),
        },
{
    let mut c = cache;
    if let Some(name) = body.name {
        if !name_valid {
            return Err(WebError::invalid_name("Cache Name"));
        }
        if name_taken {
            return Err(WebError::already_exists("Cache Name"));
        }
        c.name = name;
    }
    if let Some(d) = body.display_name {
        if let Some(why) = display_name_error {
            return Err(
                WebError::bad_request(cat("Invalid display name: ", why.as_str()).as_str()),
            );
        }
        c.display_name = trim(d.as_str()).to_owned();
    }
    if let Some(d) = body.description {
        c.description = trim(d.as_str()).to_owned();
    }
    if let Some(p) = body.priority {
        c.priority = p;
    }
    Ok(c)
}

/// The cache after it was enabled, and the message that says so.
pub fn post_cache_active(cache: CacheRow) -> (r: (CacheRow, &'static str))
    ensures
        r.0 == (CacheRow { active: true, ..cache }),
        r.1@ == "Cache enabled"@,
{
    let mut changed = cache;
    changed.active = true;
    (changed, "Cache enabled")
}

/// The cache after it was disabled, and the message that says so.
pub fn delete_cache_active(cache: CacheRow) -> (r: (CacheRow, &'static str))
    ensures
        r.0 == (CacheRow { active: false, ..cache }),
        r.1@ == "Cache disabled"@,
{
    let mut changed = cache;
    changed.active = false;
    (changed, "Cache disabled")
}

/// The cache after it was made public, and the message that says so.
pub fn post_cache_public(cache: CacheRow) -> (r: (CacheRow, &'static str))
    ensures
        r.0 == (CacheRow { public: true, ..cache }),
        r.1@ == "Cache is now public"@,
{
    let mut changed = cache;
    changed.public = true;
    (changed, "Cache is now public")
}

/// The cache after it was made private, and the message that says so.
pub fn delete_cache_public(cache: CacheRow) -> (r: (CacheRow, &'static str))
    ensures
        r.0 == (CacheRow { public: false, ..cache }),
        r.1@ == "Cache is now private"@,
{
    let mut changed = cache;
    changed.public = false;
    (changed, "Cache is now private")
}

/// A list has the caches that the user owns or that one of their organizations subscribes to,
/// in order.
pub proof fn law_own_caches(
    caches: Vec<CacheRow>,
    user: Id,
    subscribed: Vec<Id>,
    r: Vec<usize>,
    k: usize,
    a: int,
    b: int,
)
    requires
        call_ensures(get, (&caches, user, &subscribed), r),
        k < caches@.len(),
    ensures
        r@.contains(k) <==> caches@[k as int].created_by == user
            || subscribed@.contains(caches@[k as int].id),
        0 <= a < b < r@.len() ==> r@[a] < r@[b],
        0 <= a < r@.len() ==> r@[a] < caches@.len(),
{
}

/// A cache is shown to everybody where it is public, and else to its owner, who alone may edit
/// it; it is shown without its private key.
pub proof fn law_shown_caches(
    cache: Option<CacheRow>,
    user: Option<Id>,
    public_key: Option<String>,
    r: WebResult<CacheResponse>,
)
    requires
        call_ensures(get_cache, (cache, user, public_key), r),
    ensures
        ({
            let seen = cache is Some && (cache->0.public || (user is Some && user->0
                == cache->0.created_by));
            &&& r is Ok <==> seen && public_key is Some
            &&& !seen ==> (r matches Err(WebError::NotFound(c, m)) && c == ErrorCode::NOT_FOUND
                && m@ == "Cache"@ + " not found"@)
            &&& seen && public_key is None ==> (r matches Err(WebError::Internal(m))
                && m@ == "Failed to derive public key"@)
        }),
        r matches Ok(c) ==> {
            let x = cache->0;
            &&& c.id == x.id && c.active == x.active && c.priority == x.priority && c.public
                == x.public && c.created_by == x.created_by && c.created_at == x.created_at
                && c.managed == x.managed
            &&& c.name@ == x.name@ && c.display_name@ == x.display_name@ && c.description@
                == x.description@
            &&& c.public_key@ == public_key->0@
            &&& c.can_edit <==> user is Some && user->0 == x.created_by
        },
{
}

/// Keys are handed out where they could be made; a name is free when it is well-formed and
/// nobody has it.
pub proof fn law_cache_keys_and_names(
    key: Option<String>,
    k: WebResult<String>,
    p: WebResult<String>,
    well_formed: bool,
    taken: bool,
    free: bool,
)
    requires
        call_ensures(get_cache_key, (key,), k),
        call_ensures(get_cache_public_key, (key,), p),
        call_ensures(get_cache_name_available, (well_formed, taken), free),
    ensures
        k is Ok <==> key is Some,
        p is Ok <==> key is Some,
        k is Ok ==> k->Ok_0@ == key->0@,
        p is Ok ==> p->Ok_0@ == key->0@,
        k is Err ==> (k matches Err(WebError::Internal(m))
            && m@ == "Failed to generate cache key"@),
        p is Err ==> (p matches Err(WebError::Internal(m)) && m@ == "Failed to derive public key"@),
        free <==> well_formed && !taken,
{
}

/// A cache is created when its names are well-formed, the name is free and a key could be made,
/// in this order. It starts active and unmanaged, private unless the request says otherwise,
/// with the public Nix cache as its read-only upstream.
pub proof fn law_created_caches(
    body: MakeCacheRequest,
    name_valid: bool,
    display_name_error: Option<String>,
    name_taken: bool,
    keys: Option<KeyPair>,
    id: Id,
    upstream_id: Id,
    created_by: Id,
    now: Timestamp,
    r: WebResult<(CacheRow, UpstreamRow)>,
)
    requires
        call_ensures(put, (&body, name_valid, &display_name_error, name_taken, keys, id, upstream_id, created_by, now), r),
    ensures
        r is Ok <==> name_valid && display_name_error is None && !name_taken && keys is Some,
        !name_valid ==> (r matches Err(WebError::BadRequest(c, m)) && c == ErrorCode::INVALID_NAME
            && m@ == "Invalid "@ + "Cache Name"@),
        name_valid && display_name_error is Some
            ==> (r matches Err(WebError::BadRequest(c, m)) && c == ErrorCode::BAD_REQUEST
            && m@ == "Invalid display name: "@ + display_name_error->0@),
        name_valid && display_name_error is None && name_taken
            ==> (r matches Err(WebError::Conflict(c, m)) && c == ErrorCode::ALREADY_EXISTS
            && m@ == "Cache Name"@ + " already exists"@),
        name_valid && display_name_error is None && !name_taken && keys is None
            ==> (r matches Err(WebError::Internal(m)) && m@ == "Failed to generate signing key"@),
        r matches Ok((c, u)) ==> {
            &&& c.id == id && c.created_by == created_by && c.created_at == now && c.active
                && !c.managed && c.priority == body.priority
            &&& c.name@ == body.name@ && c.display_name@ == trimmed(body.display_name@)
                && c.description@ == trimmed(body.description@)
            &&& c.public_key@ == keys->0.public_key@ && c.private_key@ == keys->0.private_key@
            &&& c.public <==> body.public is Some && body.public->0
            &&& u.id == upstream_id && u.cache == id && u.mode is ReadOnly
                && u.upstream_cache is None
            &&& u.display_name@ == "cache.nixos.org"@
            &&& u.url is Some && u.url->0@ == "https://cache.nixos.org"@
            &&& u.public_key is Some && u.public_key->0@
                == "cache.nixos.org-1:6NCHdD59X431o0gWypbMrAURkbJ16ZPMQFGspcDShjY="@
        },
{
}

/// A change is refused for a malformed or taken name and a bad display name; it gives a cache
/// the new names and priority and keeps everything else.
pub proof fn law_changed_caches(
    cache: CacheRow,
    body: PatchCacheRequest,
    name_valid: bool,
    name_taken: bool,
    display_name_error: Option<String>,
    r: WebResult<CacheRow>,
)
    requires
        call_ensures(patch_cache, (cache, body, name_valid, name_taken, &display_name_error), r),
    ensures
        r is Ok <==> (body.name is Some ==> name_valid && !name_taken)
            && (body.display_name is Some ==> display_name_error is None),
        body.name is Some && !name_valid ==> (r matches Err(WebError::BadRequest(c, m))
            && c == ErrorCode::INVALID_NAME && m@ == "Invalid "@ + "Cache Name"@),
        body.name is Some && name_valid && name_taken
            ==> (r matches Err(WebError::Conflict(c, m)) && c == ErrorCode::ALREADY_EXISTS
            && m@ == "Cache Name"@ + " already exists"@),
        (body.name is Some ==> name_valid && !name_taken) && body.display_name is Some
            && display_name_error is Some ==> (r matches Err(WebError::BadRequest(c, m))
            && c == ErrorCode::BAD_REQUEST && m@
            == "Invalid display name: "@ + display_name_error->0@),
        r matches Ok(c) ==> {
            &&& c == (CacheRow {
                name: c.name,
                display_name: c.display_name,
                description: c.description,
                priority: c.priority,
                ..cache
            })
            &&& body.name is Some ==> c.name@ == body.name->0@
            &&& body.name is None ==> c.name@ == cache.name@
            &&& body.display_name is Some ==> c.display_name@ == trimmed(body.display_name->0@)
            &&& body.display_name is None ==> c.display_name@ == cache.display_name@
            &&& body.description is Some ==> c.description@ == trimmed(body.description->0@)
            &&& body.description is None ==> c.description@ == cache.description@
            &&& body.priority is Some ==> c.priority == body.priority->0
            &&& body.priority is None ==> c.priority == cache.priority
        },
{
}

/// Switching a cache on or off, or making it public or private, changes nothing else.
pub proof fn law_cache_switches(
    cache: CacheRow,
    on: (CacheRow, &str),
    off: (CacheRow, &str),
    open_to: (CacheRow, &str),
    shut: (CacheRow, &str),
)
    requires
        call_ensures(post_cache_active, (cache,), on),
        call_ensures(delete_cache_active, (cache,), off),
        call_ensures(post_cache_public, (cache,), open_to),
        call_ensures(delete_cache_public, (cache,), shut),
    ensures
        on.0 == (CacheRow { active: true, ..cache }),
        off.0 == (CacheRow { active: false, ..cache }),
        open_to.0 == (CacheRow { public: true, ..cache }),
        shut.0 == (CacheRow { public: false, ..cache }),
        on.1@ == "Cache enabled"@,
        off.1@ == "Cache disabled"@,
        open_to.1@ == "Cache is now public"@,
        shut.1@ == "Cache is now private"@,
{
}

/// Every new cache reads from `cache.nixos.org`, and only reads.
pub proof fn law_first_upstream(
    id: Id,
    cache: Id,
    u: UpstreamRow,
)
    requires
        call_ensures(default_upstream, (id, cache), u),
    ensures
        u.id == id && u.cache == cache && u.upstream_cache is None,
        u.display_name@ == "cache.nixos.org"@,
        u.mode is ReadOnly,
        u.url is Some && u.url->0@ == "https://cache.nixos.org"@,
        u.public_key is Some && u.public_key->0@
            == "cache.nixos.org-1:6NCHdD59X431o0gWypbMrAURkbJ16ZPMQFGspcDShjY="@,
{
}

} // verus!
