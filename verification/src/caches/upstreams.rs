//! The upstreams of a cache.

use crate::error::{ErrorCode, ErrorModel, WebError, WebResult};
use crate::helpers::Id;
use crate::orgs::settings::CacheSubscriptionMode;
use crate::text::opt_clone;
use vstd::prelude::*;

verus! {

/// What is to become an upstream.
#[derive(Debug, PartialEq, Eq)]
pub enum AddUpstreamRequest {
    /// An upstream that is another cache of this server (referenced by name).
    Internal {
        cache_name: String,
        shown_name: Option<String>,
        mode: Option<CacheSubscriptionMode>,
    },
    /// An upstream that is an external Nix binary cache. Always ReadOnly.
    External { display_name: String, url: String, public_key: String },
}

/// An upstream, as the database holds it.
#[derive(Debug, PartialEq, Eq)]
pub struct UpstreamRow {
    pub id: Id,
    pub cache: Id,
    pub display_name: String,
    pub mode: CacheSubscriptionMode,
    pub upstream_cache: Option<Id>,
    pub url: Option<String>,
    pub public_key: Option<String>,
}

/// An upstream in the list.
#[derive(Debug, PartialEq, Eq)]
pub struct UpstreamCacheItem {
    pub id: Id,
    pub display_name: String,
    pub mode: CacheSubscriptionMode,
    /// Set for internal upstreams.
    pub upstream_cache_id: Option<Id>,
    /// Set for external upstreams.
    pub url: Option<String>,
    pub public_key: Option<String>,
}

#[derive(Debug, PartialEq, Eq)]
pub struct PatchUpstreamRequest {
    pub display_name: Option<String>,
    pub mode: Option<CacheSubscriptionMode>,
    pub url: Option<String>,
    pub public_key: Option<String>,
}

/// A cache of this server that is to become an upstream.
#[derive(Debug, PartialEq, Eq)]
pub struct UpstreamCache {
    pub id: Id,
    pub display_name: String,
}

/// The entry of an upstream.
pub open spec fn upstream_item(u: UpstreamRow) -> UpstreamCacheItem {
    UpstreamCacheItem {
        id: u.id,
        display_name: u.display_name,
        mode: u.mode,
        upstream_cache_id: u.upstream_cache,
        url: u.url,
        public_key: u.public_key,
    }
}

/// The upstream with an identifier, which has to belong to the cache.
pub fn load_upstream(row: Option<UpstreamRow>, cache: Id) -> (r: WebResult<UpstreamRow>)
    ensures
        match r {
            Ok(u) => row == Some(u) && u.cache == cache,
            Err(e) => (row is None || row->0.cache != cache) && e@ == ErrorModel::not_found(
                "Upstream cache"@,
            ),
        },
{
    match row {
        Some(u) => if u.cache == cache {
            Ok(u)
        } else {
            Err(WebError::not_found("Upstream cache"))
        },
        None => Err(WebError::not_found("Upstream cache")),
    }
}

/// The entries of upstreams.
pub fn get_cache_upstreams(rows: &Vec<UpstreamRow>) -> (r: Vec<UpstreamCacheItem>)
    ensures
        r@ == rows@.map_values(|u: UpstreamRow| upstream_item(u)),
{
    let mut out: Vec<UpstreamCacheItem> = Vec::new();
    let mut i: usize = 0;
    while i < rows.len()
        invariant
            i <= rows.len(),
            out@ == rows@.map_values(|u: UpstreamRow| upstream_item(u)).take(i as int),
        decreases rows.len() - i,
    {
        let u = &rows[i];
        out.push(
            UpstreamCacheItem {
                id: u.id,
                display_name: u.display_name.clone(),
                mode: u.mode,
                upstream_cache_id: u.upstream_cache,
                url: opt_clone(&u.url),
                public_key: opt_clone(&u.public_key),
            },
        );
        i += 1;
    }
    assert(rows@.map_values(|u: UpstreamRow| upstream_item(u)).take(i as int) =~= rows@.map_values(
        |u: UpstreamRow| upstream_item(u),
    ));
    out
}

/// The upstream that a request adds to `cache`. `named` is the cache that an
/// internal upstream names, or why the user cannot have it.
pub fn put_cache_upstream(
    body: AddUpstreamRequest,
    cache: Id,
    named: WebResult<UpstreamCache>,
    id: Id,
) -> (r: WebResult<UpstreamRow>)
    ensures
        match body {
            AddUpstreamRequest::Internal { shown_name, mode, .. } => match named {
                Err(e) => r == Err::<UpstreamRow, WebError>(e),
                Ok(up) => if up.id == cache {
                    r matches Err(e) && e@ == ErrorModel::bad_request(
                        "A cache cannot be its own upstream"@,
                    )
                } else {
                    r == Ok::<UpstreamRow, WebError>(
                        UpstreamRow {
                            id,
                            cache,
                            display_name: match shown_name {
                                Some(n) => n,
                                None => up.display_name,
                            },
                            mode: match mode {
                                Some(m) => m,
                                None => CacheSubscriptionMode::ReadWrite,
                            },
                            upstream_cache: Some(up.id),
                            url: None,
                            public_key: None,
                        },
                    )
                },
            },
            AddUpstreamRequest::External { display_name, url, public_key } => r == Ok::<
                UpstreamRow,
                WebError,
            >(
                UpstreamRow {
                    id,
                    cache,
                    display_name,
                    mode: CacheSubscriptionMode::ReadOnly,
                    upstream_cache: None,
                    url: Some(url),
                    public_key: Some(public_key),
                },
            ),
        },
{
    match body {
        AddUpstreamRequest::Internal { shown_name, mode, .. } => {
            let up = match named {
                Ok(up) => up,
                Err(e) => {
                    return Err(e);
                },
            };
            if up.id == cache {
                return Err(WebError::bad_request("A cache cannot be its own upstream"));
            }
            let upstream_cache = Some(up.id);
            let display_name = match shown_name {
                Some(n) => n,
                None => up.display_name,
            };
            let mode = match mode {
                Some(m) => m,
                None => CacheSubscriptionMode::ReadWrite,
            };
            Ok(UpstreamRow { id, cache, display_name, mode, upstream_cache, url: None, public_key: None })
        },
        AddUpstreamRequest::External { display_name, url, public_key } => Ok(
            UpstreamRow {
                id,
                cache,
                display_name,
                mode: CacheSubscriptionMode::ReadOnly,
                upstream_cache: None,
                url: Some(url),
                public_key: Some(public_key),
            },
        ),
    }
}

/// The upstream after a change.
pub open spec fn patched_upstream(u: UpstreamRow, body: PatchUpstreamRequest, external: bool) -> UpstreamRow {
    UpstreamRow {
        display_name: match body.display_name {
            Some(n) => n,
            None => u.display_name,
        },
        mode: if external {
            CacheSubscriptionMode::ReadOnly
        } else {
            match body.mode {
                Some(m) => m,
                None => u.mode,
            }
        },
        url: if external && body.url is Some {
            body.url
        } else {
            u.url
        },
        public_key: if external && body.public_key is Some {
            body.public_key
        } else {
            u.public_key
        },
        ..u
    }
}

/// The upstream of a cache after a change. An external upstream stays read-only and can
/// change its address and key; an internal one can change its mode.
pub fn patch_cache_upstream(
    found: Option<UpstreamRow>,
    cache: Id,
    body: PatchUpstreamRequest,
    external: bool,
) -> (r: WebResult<UpstreamRow>)
    ensures
        match r {
            Ok(u) => found matches Some(old_row) && old_row.cache == cache && u == patched_upstream(
                old_row,
                body,
                external,
            ),
            Err(e) => (found is None || found->0.cache != cache) && e@ == ErrorModel::not_found(
                "Upstream cache"@,
            ),
        },
{
    let mut u = match load_upstream(found, cache) {
        Ok(u) => u,
        Err(e) => {
            return Err(e);
        },
    };
    if let Some(name) = body.display_name {
        u.display_name = name;
    }
    if external {
        u.mode = CacheSubscriptionMode::ReadOnly;
        if let Some(url) = body.url {
            u.url = Some(url);
        }
        if let Some(key) = body.public_key {
            u.public_key = Some(key);
        }
    } else if let Some(mode) = body.mode {
        u.mode = mode;
    }
    Ok(u)
}

/// No change makes an external upstream writable, and none moves an upstream to
/// another cache.
pub proof fn law_external_upstreams_are_read_only(
    u: UpstreamRow,
    body: PatchUpstreamRequest,
    external: bool,
)
    ensures
        external ==> patched_upstream(u, body, external).mode == CacheSubscriptionMode::ReadOnly,
        patched_upstream(u, body, external).cache == u.cache,
        patched_upstream(u, body, external).upstream_cache == u.upstream_cache,
        !external ==> patched_upstream(u, body, external).url == u.url,
{
}

/// An upstream is found only in its own cache. A list shows every upstream, in order.
pub proof fn law_found_upstreams(
    row: Option<UpstreamRow>,
    cache: Id,
    r: WebResult<UpstreamRow>,
    rows: Vec<UpstreamRow>,
    l: Vec<UpstreamCacheItem>,
    i: int,
)
    requires
        call_ensures(load_upstream, (row, cache), r),
        call_ensures(get_cache_upstreams, (&rows,), l),
    ensures
        r is Ok <==> row is Some && row->0.cache == cache,
        r is Ok ==> r->Ok_0 == row->0,
        r is Err ==> (r matches Err(WebError::NotFound(c, m)) && c == ErrorCode::NOT_FOUND
            && m@ == "Upstream cache"@ + " not found"@),
        l@.len() == rows@.len(),
        0 <= i < rows@.len() ==> l@[i].id == rows@[i].id
            && l@[i].display_name@ == rows@[i].display_name@ && l@[i].mode == rows@[i].mode
            && l@[i].upstream_cache_id == rows@[i].upstream_cache && l@[i].url == rows@[i].url
            && l@[i].public_key == rows@[i].public_key,
{
}

/// An internal upstream is another cache that the user can have; it reads and writes unless the
/// request says otherwise, and goes by the cache's name without one of its own. An external
/// upstream is read-only.
pub proof fn law_added_upstreams(
    body: AddUpstreamRequest,
    cache: Id,
    named: WebResult<UpstreamCache>,
    id: Id,
    r: WebResult<UpstreamRow>,
)
    requires
        call_ensures(put_cache_upstream, (body, cache, named, id), r),
    ensures
        r matches Ok(u) ==> u.id == id && u.cache == cache,
        match body {
            AddUpstreamRequest::Internal { cache_name: _, shown_name, mode } => {
                &&& r is Ok <==> named is Ok && named->Ok_0.id != cache
                &&& named is Err ==> r is Err && r->Err_0@ == named->Err_0@
                &&& named is Ok && named->Ok_0.id == cache
                    ==> (r matches Err(WebError::BadRequest(c, m)) && c == ErrorCode::BAD_REQUEST
                    && m@ == "A cache cannot be its own upstream"@)
                &&& r matches Ok(u) ==> u.upstream_cache == Some(named->Ok_0.id) && u.url is None
                    && u.public_key is None && u.mode == (if mode is Some {
                    mode->0
                } else {
                    CacheSubscriptionMode::ReadWrite
                }) && u.display_name@ == if shown_name is Some {
                    shown_name->0@
                } else {
                    named->Ok_0.display_name@
                }
            },
            AddUpstreamRequest::External { display_name, url, public_key } => {
                &&& r matches Ok(u)
                &&& u.mode is ReadOnly && u.upstream_cache is None
                &&& u.display_name@ == display_name@
                &&& u.url == Some(url) && u.public_key == Some(public_key)
            },
        },
{
}

/// A change renames an upstream. Only an external one gets a new address or key, and stays
/// read-only; only an internal one gets a new mode.
pub proof fn law_changed_upstreams(
    found: Option<UpstreamRow>,
    cache: Id,
    body: PatchUpstreamRequest,
    external: bool,
    r: WebResult<UpstreamRow>,
)
    requires
        call_ensures(patch_cache_upstream, (found, cache, body, external), r),
    ensures
        r is Ok <==> found is Some && found->0.cache == cache,
        r is Err ==> (r matches Err(WebError::NotFound(c, m)) && c == ErrorCode::NOT_FOUND
            && m@ == "Upstream cache"@ + " not found"@),
        r matches Ok(u) ==> {
            let row = found->0;
            &&& u.id == row.id && u.cache == row.cache && u.upstream_cache == row.upstream_cache
            &&& body.display_name is Some ==> u.display_name@ == body.display_name->0@
            &&& body.display_name is None ==> u.display_name@ == row.display_name@
            &&& external ==> u.mode is ReadOnly
            &&& external && body.url is Some ==> u.url == body.url
            &&& external && body.url is None ==> u.url == row.url
            &&& external && body.public_key is Some ==> u.public_key == body.public_key
            &&& external && body.public_key is None ==> u.public_key == row.public_key
            &&& !external ==> u.url == row.url && u.public_key == row.public_key
            &&& !external && body.mode is Some ==> u.mode == body.mode->0
            &&& !external && body.mode is None ==> u.mode == row.mode
        },
{
}

} // verus!
