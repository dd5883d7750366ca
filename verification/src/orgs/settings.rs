//! Visibility of an organization and its cache subscriptions.

use crate::error::{ErrorCode, ErrorModel, WebError, WebResult};
use crate::helpers::Id;
use crate::projects::management::{user_can_edit, EditorRoles};
use vstd::prelude::*;

verus! {

/// What an organization may do with a cache.
#[derive(Debug, Clone, Copy, PartialEq, Eq, Structural)]
pub enum CacheSubscriptionMode {
    ReadWrite,
    ReadOnly,
    WriteOnly,
}

#[derive(Debug, Clone, Copy)]
pub struct SubscribeCacheRequest {
    pub mode: Option<CacheSubscriptionMode>,
}

pub struct CacheSubscriptionItem {
    pub id: Id,
    pub name: String,
    pub mode: CacheSubscriptionMode,
}

/// A subscription, as the database holds it; the name of the cache is there when
/// the cache is.
pub struct SubscriptionRow {
    pub cache: Id,
    pub mode: CacheSubscriptionMode,
    pub cache_name: Option<String>,
}

/// Verify that a member with `role` has the Write or Admin role.
pub fn require_write_permission(role: Option<Id>, editors: &EditorRoles) -> (r: WebResult<()>)
    ensures
        match r {
            Ok(_) => role == Some(editors.admin) || role == Some(editors.write),
            Err(e) => {
                &&& role != Some(editors.admin)
                &&& role != Some(editors.write)
                &&& e@ == ErrorModel::forbidden(
                    "You need Write or Admin permissions in this organization to manage cache subscriptions"@,
                )
            },
        },
{
    if !user_can_edit(role, editors) {
        return Err(
            WebError::forbidden(
                "You need Write or Admin permissions in this organization to manage cache subscriptions",
            ),
        );
    }
    Ok(())
}

/// A cache that a request names, as far as access needs it.
#[derive(Debug, Clone, Copy)]
pub struct CacheAccessRow {
    pub id: Id,
    pub public: bool,
    pub created_by: Id,
}

/// A public or owned cache; verifies that the requesting user may subscribe to
/// it.
pub fn load_subscribable_cache(cache: Option<CacheAccessRow>, user: Id) -> (r: WebResult<Id>)
    ensures
        match r {
            Ok(id) => cache matches Some(c) && id == c.id && (c.public || c.created_by == user),
            Err(e) => match cache {
                None => e@ == ErrorModel::not_found("Cache"@),
                Some(c) => !c.public && c.created_by != user && e@ == ErrorModel::forbidden(
                    "You don't have permission to subscribe to this cache. The cache is private and you are not the owner."@,
                ),
            },
        },
{
    match cache {
        None => Err(WebError::not_found("Cache")),
        Some(c) => {
            if !c.public && c.created_by != user {
                return Err(
                    WebError::forbidden(
                        "You don't have permission to subscribe to this cache. The cache is private and you are not the owner.",
                    ),
                );
            }
            Ok(c.id)
        },
    }
}

/// The subscriptions whose cache is still there, in order.
pub open spec fn known_subscriptions(rows: Seq<SubscriptionRow>) -> Seq<CacheSubscriptionItem>
    decreases rows.len(),
{
    if rows.len() == 0 {
        Seq::empty()
    } else {
        let before = known_subscriptions(rows.drop_last());
        match rows.last().cache_name {
            Some(name) => before.push(
                CacheSubscriptionItem { id: rows.last().cache, name, mode: rows.last().mode },
            ),
            None => before,
        }
    }
}

/// The subscriptions of an organization.
pub fn get_organization_subscribe(rows: &Vec<SubscriptionRow>) -> (r: Vec<CacheSubscriptionItem>)
    ensures
        r@ == known_subscriptions(rows@),
{
    let mut out: Vec<CacheSubscriptionItem> = Vec::new();
    let mut i: usize = 0;
    assert(rows@.take(0) =~= Seq::<SubscriptionRow>::empty());
    while i < rows.len()
        invariant
            i <= rows.len(),
            out@ == known_subscriptions(rows@.take(i as int)),
        decreases rows.len() - i,
    {
        proof {
            assert(rows@.take(i as int + 1).drop_last() =~= rows@.take(i as int));
        }
        if let Some(name) = &rows[i].cache_name {
            out.push(
                CacheSubscriptionItem {
                    id: rows[i].cache,
                    name: name.clone(),
                    mode: rows[i].mode,
                },
            );
        }
        i += 1;
    }
    assert(rows@.take(i as int) =~= rows@);
    out
}

/// Why a member may not manage the subscription of a cache.
pub open spec fn subscription_error(
    role: Option<Id>,
    editors: EditorRoles,
    cache: Option<CacheAccessRow>,
    user: Id,
) -> Option<ErrorModel> {
    if role != Some(editors.admin) && role != Some(editors.write) {
        Some(
            ErrorModel::forbidden(
                "You need Write or Admin permissions in this organization to manage cache subscriptions"@,
            ),
        )
    } else if cache is None {
        Some(ErrorModel::not_found("Cache"@))
    } else if !cache->0.public && cache->0.created_by != user {
        Some(
            ErrorModel::forbidden(
                "You don't have permission to subscribe to this cache. The cache is private and you are not the owner."@,
            ),
        )
    } else {
        None
    }
}

fn admit_subscription(
    role: Option<Id>,
    editors: &EditorRoles,
    cache: Option<CacheAccessRow>,
    user: Id,
) -> (r: WebResult<Id>)
    ensures
        match r {
            Ok(id) => subscription_error(role, *editors, cache, user) is None && id == cache->0.id,
            Err(e) => subscription_error(role, *editors, cache, user) == Some(e@),
        },
{
    if let Err(e) = require_write_permission(role, editors) {
        return Err(e);
    }
    load_subscribable_cache(cache, user)
}

/// The subscribed cache and the mode of a new subscription: read and write unless the
/// request says otherwise. A second subscription is refused.
pub fn post_organization_subscribe_cache(
    role: Option<Id>,
    editors: &EditorRoles,
    cache: Option<CacheAccessRow>,
    user: Id,
    already: bool,
    body: Option<SubscribeCacheRequest>,
) -> (r: WebResult<(Id, CacheSubscriptionMode)>)
    ensures
        match r {
            Ok((id, m)) => {
                &&& subscription_error(role, *editors, cache, user) is None
                &&& !already
                &&& id == cache->0.id
                &&& m == match body {
                    Some(SubscribeCacheRequest { mode: Some(x) }) => x,
                    _ => CacheSubscriptionMode::ReadWrite,
                }
            },
            Err(e) => match subscription_error(role, *editors, cache, user) {
                Some(refusal) => e@ == refusal,
                None => already && e@ == ErrorModel::already_exists(
                    "Organization already subscribed to Cache"@,
                ),
            },
        },
{
    let id: Id = match admit_subscription(role, editors, cache, user) {
        Ok(id) => id,
        Err(e) => {
            return Err(e);
        },
    };
    if already {
        return Err(WebError::already_exists("Organization already subscribed to Cache"));
    }
    match body {
        Some(b) => match b.mode {
            Some(m) => Ok((id, m)),
            None => Ok((id, CacheSubscriptionMode::ReadWrite)),
        },
        None => Ok((id, CacheSubscriptionMode::ReadWrite)),
    }
}

/// The cache whose subscription is removed: there has to be one.
pub fn delete_organization_subscribe_cache(
    role: Option<Id>,
    editors: &EditorRoles,
    cache: Option<CacheAccessRow>,
    user: Id,
    subscribed: bool,
) -> (r: WebResult<Id>)
    ensures
        match r {
            Ok(id) => subscription_error(role, *editors, cache, user) is None && subscribed && id
                == cache->0.id,
            Err(e) => match subscription_error(role, *editors, cache, user) {
                Some(refusal) => e@ == refusal,
                None => !subscribed && e@ == ErrorModel::bad_request(
                    "Organization not subscribed to Cache"@,
                ),
            },
        },
{
    match admit_subscription(role, editors, cache, user) {
        Ok(id) => if subscribed {
            Ok(id)
        } else {
            Err(WebError::bad_request("Organization not subscribed to Cache"))
        },
        Err(e) => Err(e),
    }
}

/// `x` is a cached path of an output.
pub open spec fn is_cached(outputs: Seq<Option<Id>>, x: Id) -> bool {
    outputs.contains(Some(x))
}

fn holds(v: &Vec<Id>, x: Id) -> (r: bool)
    ensures
        r == v@.contains(x),
{
    let mut i: usize = 0;
    while i < v.len()
        invariant
            i <= v.len(),
            forall|j: int| 0 <= j < i ==> v@[j] != x,
        decreases v.len() - i,
    {
        if v[i] == x {
            assert(v@.contains(v@[i as int]));
            return true;
        }
        i += 1;
    }
    false
}

/// The cached paths that need a signature placeholder for a new subscription:
/// those of `outputs` that are not in `existing`, each once.
pub fn enqueue_backfill_signatures(outputs: &Vec<Option<Id>>, existing: &Vec<Id>) -> (r: Vec<Id>)
    ensures
        forall|x: Id| #[trigger] r@.contains(x) <==> is_cached(outputs@, x)
            && !existing@.contains(x),
        r@.no_duplicates(),
{
    let mut out: Vec<Id> = Vec::new();
    let mut i: usize = 0;
    while i < outputs.len()
        invariant
            i <= outputs.len(),
            forall|x: Id| #[trigger]
                out@.contains(x) <==> is_cached(outputs@.take(i as int), x)
                    && !existing@.contains(x),
            out@.no_duplicates(),
        decreases outputs.len() - i,
    {
        let ghost before = out@;
        let ghost upto = outputs@.take(i as int);
        let ghost next = outputs@.take(i as int + 1);
        assert(next =~= upto.push(outputs@[i as int]));
        if let Some(x) = outputs[i] {
            if !holds(&out, x) && !holds(existing, x) {
                out.push(x);
            }
        }
        proof {
            assert forall|x: Id| #[trigger] out@.contains(x) <==> is_cached(next, x)
                && !existing@.contains(x) by {
                if before.contains(x) {
                    let k = choose|k: int| 0 <= k < before.len() && before[k] == x;
                    assert(out@[k] == x);
                    let m = choose|m: int| 0 <= m < upto.len() && upto[m] == Some(x);
                    assert(next[m] == Some(x));
                }
                if outputs@[i as int] == Some(x) {
                    assert(next[i as int] == Some(x));
                    if !before.contains(x) && !existing@.contains(x) {
                        assert(out@[before.len() as int] == x);
                    }
                }
                if is_cached(next, x) && outputs@[i as int] != Some(x) {
                    let m = choose|m: int| 0 <= m < next.len() && next[m] == Some(x);
                    assert(upto[m] == Some(x));
                }
                if out@.contains(x) && !before.contains(x) {
                    let k = choose|k: int| 0 <= k < out@.len() && out@[k] == x;
                    if k < before.len() {
                        assert(before[k] == x);
                    }
                }
            }
        }
        i += 1;
    }
    assert(outputs@.take(i as int) =~= outputs@);
    out
}

/// Subscriptions are managed by members with the admin or write role, of caches that are public
/// or that they own. A second subscription is refused, and one that is not there cannot be
/// removed. Without a mode a subscription reads and writes.
pub proof fn law_subscriptions(
    role: Option<Id>,
    editors: EditorRoles,
    cache: Option<CacheAccessRow>,
    user: Id,
    already: bool,
    body: Option<SubscribeCacheRequest>,
    r: WebResult<(Id, CacheSubscriptionMode)>,
    d: WebResult<Id>,
)
    requires
        call_ensures(post_organization_subscribe_cache, (role, &editors, cache, user, already, body), r),
        call_ensures(delete_organization_subscribe_cache, (role, &editors, cache, user, already), d),
    ensures
        ({
            let may = role is Some && (role->0 == editors.admin || role->0 == editors.write);
            let open_to = cache is Some && (cache->0.public || cache->0.created_by == user);
            &&& r is Ok <==> may && open_to && !already
            &&& d is Ok <==> may && open_to && already
            &&& !may ==> (r matches Err(WebError::Forbidden(c, m)) && c == ErrorCode::FORBIDDEN
                && m@ == "You need Write or Admin permissions in this organization to manage cache subscriptions"@)
            &&& !may ==> (d matches Err(WebError::Forbidden(c, m)) && c == ErrorCode::FORBIDDEN
                && m@ == "You need Write or Admin permissions in this organization to manage cache subscriptions"@)
            &&& may && cache is None ==> (r matches Err(WebError::NotFound(c, m))
                && c == ErrorCode::NOT_FOUND && m@ == "Cache"@ + " not found"@)
            &&& may && cache is None ==> (d matches Err(WebError::NotFound(c, m))
                && c == ErrorCode::NOT_FOUND && m@ == "Cache"@ + " not found"@)
            &&& may && cache is Some && !open_to
                ==> (r matches Err(WebError::Forbidden(c, m)) && c == ErrorCode::FORBIDDEN
                && m@ == "You don't have permission to subscribe to this cache. The cache is private and you are not the owner."@)
            &&& may && cache is Some && !open_to
                ==> (d matches Err(WebError::Forbidden(c, m)) && c == ErrorCode::FORBIDDEN
                && m@ == "You don't have permission to subscribe to this cache. The cache is private and you are not the owner."@)
            &&& may && open_to && already ==> (r matches Err(WebError::Conflict(c, m))
                && c == ErrorCode::ALREADY_EXISTS && m@
                == "Organization already subscribed to Cache"@ + " already exists"@)
            &&& may && open_to && !already ==> (d matches Err(WebError::BadRequest(c, m))
                && c == ErrorCode::BAD_REQUEST && m@ == "Organization not subscribed to Cache"@)
        }),
        r matches Ok((id, m)) ==> id == cache->0.id && m == if body is Some
            && body->0.mode is Some {
            body->0.mode->0
        } else {
            CacheSubscriptionMode::ReadWrite
        },
        d is Ok ==> d->Ok_0 == cache->0.id,
{
}

/// A list shows the subscriptions whose cache is still there, in order.
pub proof fn law_listed_subscriptions(
    rows: Vec<SubscriptionRow>,
    more: Vec<SubscriptionRow>,
    x: SubscriptionRow,
    r: Vec<CacheSubscriptionItem>,
    s: Vec<CacheSubscriptionItem>,
)
    requires
        more@ == rows@.push(x),
        call_ensures(get_organization_subscribe, (&rows,), r),
        call_ensures(get_organization_subscribe, (&more,), s),
    ensures
        rows@.len() == 0 ==> r@.len() == 0,
        x.cache_name is None ==> s@ == r@,
        x.cache_name is Some ==> s@.len() == r@.len() + 1 && s@ == r@.push(s@.last())
            && s@.last().id == x.cache && s@.last().mode == x.mode
            && s@.last().name@ == x.cache_name->0@,
{
    assert(more@.drop_last() =~= rows@);
}

/// A new subscription needs a signature for every cached output that has none yet, each once.
pub proof fn law_backfilled_signatures(
    outputs: Vec<Option<Id>>,
    existing: Vec<Id>,
    r: Vec<Id>,
    x: Id,
    i: int,
    j: int,
)
    requires
        call_ensures(enqueue_backfill_signatures, (&outputs, &existing), r),
    ensures
        r@.contains(x) <==> (exists|k: int| 0 <= k < outputs@.len()
            && #[trigger] outputs@[k] == Some(x))
            && !(exists|k: int| 0 <= k < existing@.len() && #[trigger] existing@[k] == x),
        0 <= i < j < r@.len() ==> r@[i] != r@[j],
{
    if outputs@.contains(Some(x)) {
        let k = outputs@.index_of(Some(x));
        assert(outputs@[k] == Some(x));
    }
    if existing@.contains(x) {
        let k = existing@.index_of(x);
        assert(existing@[k] == x);
    }
}

/// Who subscribes an organization to a cache: a member who may write in it, to a cache that is
/// public or their own.
pub proof fn law_who_subscribes(
    role: Option<Id>,
    editors: EditorRoles,
    r: WebResult<()>,
    cache: Option<CacheAccessRow>,
    user: Id,
    c: WebResult<Id>,
)
    requires
        call_ensures(require_write_permission, (role, &editors), r),
        call_ensures(load_subscribable_cache, (cache, user), c),
    ensures
        r is Ok <==> role is Some && (role->0 == editors.admin || role->0 == editors.write),
        r is Err ==> (r matches Err(WebError::Forbidden(c, m)) && c == ErrorCode::FORBIDDEN
            && m@ == "You need Write or Admin permissions in this organization to manage cache subscriptions"@),
        c is Ok <==> cache is Some && (cache->0.public || cache->0.created_by == user),
        c is Ok ==> c->Ok_0 == cache->0.id,
        cache is None ==> (c matches Err(WebError::NotFound(c, m)) && c == ErrorCode::NOT_FOUND
            && m@ == "Cache"@ + " not found"@),
        cache is Some && c is Err ==> (c matches Err(WebError::Forbidden(c, m))
            && c == ErrorCode::FORBIDDEN
            && m@ == "You don't have permission to subscribe to this cache. The cache is private and you are not the owner."@),
{
}

} // verus!
