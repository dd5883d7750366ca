//! Store paths in a cache and what a client is told of them.

use crate::caches::access::CacheContext;
use crate::caches::narinfo::Upstream;
use crate::codec::is_date;
use crate::error::{ErrorCode, ErrorModel, WebError, WebResult};
use crate::helpers::{Id, Timestamp};
use crate::sql::{postgres_statement, statement, SqlValue};
use crate::text::{
    cat, cat3, contains_text, ends_with, has_suffix, occurs, opt_clone, opt_view,     split_whitespace, trim_end_char, trim_start_text, views, without_leading, without_trailing,
    words,
};
use vstd::prelude::*;

verus! {

/// A hash as it is stored, and in its normal form.
pub struct HashText {
    pub raw: String,
    pub normalized: String,
}

/// A cached path, as the database holds it.
pub struct CachedPathRow {
    pub store_path: String,
    /// Whether everything about the path was recorded.
    pub fully_cached: bool,
    pub file_hash: Option<HashText>,
    pub file_size: Option<i64>,
    pub nar_hash: Option<HashText>,
    pub nar_size: Option<i64>,
    pub references: Option<String>,
    pub deriver: Option<String>,
    pub ca: Option<String>,
}

/// The signature that a cache has for a path: none, one that is yet to be
/// computed, or the full token.
pub enum SignatureRow {
    Missing,
    Pending,
    Signed(String),
}

/// What a client is told of a store path.
pub struct NixPathInfo {
    pub store_path: String,
    pub url: String,
    pub compression: &'static str,
    pub file_hash: String,
    pub file_size: u32,
    pub nar_hash: String,
    pub nar_size: u64,
    pub references: Vec<String>,
    pub deriver: Option<String>,
    pub sig: String,
    pub ca: Option<String>,
}

/// The address of the archive whose normal hash is `h`.
pub open spec fn nar_url(h: Seq<char>) -> Seq<char> {
    "nar/"@ + without_leading(h, "sha256:"@) + ".nar.zst"@
}

/// The references of a path: the words of its reference list.
pub open spec fn reference_list(refs: Option<Seq<char>>) -> Seq<Seq<char>> {
    match refs {
        Some(t) => words(t),
        None => words(Seq::empty()),
    }
}

fn url_of(h: &str) -> (r: String)
    ensures
        r@ == nar_url(h@),
{
    proof {
        reveal_strlit("sha256:");
    }
    cat3("nar/", trim_start_text(h, "sha256:"), ".nar.zst")
}

/// The references of a path.
pub fn references_of(refs: &Option<String>) -> (r: Vec<String>)
    ensures
        views(r@) == reference_list(opt_view(*refs)),
{
    match refs {
        Some(t) => split_whitespace(t.as_str()),
        None => {
            let empty = String::new();
            assert(empty@ =~= Seq::<char>::empty());
            split_whitespace(empty.as_str())
        },
    }
}

/// The token of a signature, or why there is none.
fn signature_of(sig: SignatureRow) -> (r: WebResult<String>)
    ensures
        match sig {
            SignatureRow::Signed(t) => r == Ok::<String, WebError>(t),
            SignatureRow::Pending => r matches Err(e) && e@ == ErrorModel::not_found(
                "Signature not yet computed"@,
            ),
            SignatureRow::Missing => r matches Err(e) && e@ == ErrorModel::not_found("Signature"@),
        },
{
    match sig {
        SignatureRow::Signed(t) => Ok(t),
        SignatureRow::Pending => Err(WebError::not_found("Signature not yet computed")),
        SignatureRow::Missing => Err(WebError::not_found("Signature")),
    }
}

/// What is told of a cached path: `file_hash` is the hash of the archive that is
/// shown.
pub open spec fn tells(
    i: NixPathInfo,
    store_path: Seq<char>,
    row: CachedPathRow,
    sig: Seq<char>,
    file_hash: Seq<char>,
) -> bool {
    &&& i.store_path@ == store_path
    &&& i.url@ == nar_url(row.file_hash->0.normalized@)
    &&& i.compression@ == "zstd"@
    &&& i.file_hash@ == file_hash
    &&& i.file_size == row.file_size->0 as u32
    &&& i.nar_hash@ == row.nar_hash->0.normalized@
    &&& i.nar_size == row.nar_size->0 as u64
    &&& views(i.references@) == reference_list(opt_view(row.references))
    &&& i.deriver == row.deriver
    &&& i.sig@ == sig
    &&& i.ca == row.ca
}

/// What the database has on a build output.
pub struct OutputLookup {
    /// The store path of the output.
    pub store_path: String,
    pub derivation_found: bool,
    /// Whether the organization that owns the derivation subscribes to the
    /// cache.
    pub subscribed: bool,
}

/// Why the path of a build output is not told.
pub open spec fn output_error(
    output: OutputLookup,
    row: Option<CachedPathRow>,
    sig: SignatureRow,
) -> Option<ErrorModel> {
    if !output.derivation_found || !output.subscribed {
        Some(ErrorModel::not_found("Path"@))
    } else if row is None {
        Some(ErrorModel::not_found("CachedPath"@))
    } else if sig is Missing {
        Some(ErrorModel::not_found("Signature"@))
    } else if sig is Pending {
        Some(ErrorModel::not_found("Signature not yet computed"@))
    } else if row->0.nar_hash is None {
        Some(ErrorModel::not_found("NarHash not recorded"@))
    } else if row->0.nar_size is None {
        Some(ErrorModel::not_found("NarSize not recorded"@))
    } else if row->0.file_hash is None {
        Some(ErrorModel::not_found("FileHash not recorded"@))
    } else if row->0.file_size is None {
        Some(ErrorModel::not_found("FileSize not recorded"@))
    } else {
        None
    }
}

/// Why a path that is no build output is not told.
pub open spec fn cached_path_error(row: Option<CachedPathRow>, sig: SignatureRow) -> Option<ErrorModel> {
    if row is None || !row->0.fully_cached {
        Some(ErrorModel::not_found("Path"@))
    } else if sig is Missing {
        Some(ErrorModel::not_found("Signature"@))
    } else if sig is Pending {
        Some(ErrorModel::not_found("Signature not yet computed"@))
    } else if row->0.file_hash is None {
        Some(ErrorModel::bad_request("Missing file hash"@))
    } else if row->0.file_size is None {
        Some(ErrorModel::bad_request("Missing file size"@))
    } else if row->0.nar_hash is None {
        Some(ErrorModel::not_found("NarHash not recorded"@))
    } else if row->0.nar_size is None {
        Some(ErrorModel::not_found("NarSize not recorded"@))
    } else {
        None
    }
}

/// What is told of the path of a build output. All metadata comes from the cached
/// path, which the worker wrote when it uploaded the archive.
pub fn get_nar_of_output(output: &OutputLookup, row: &Option<CachedPathRow>, sig: SignatureRow) -> (r:
    WebResult<NixPathInfo>)
    ensures
        match r {
            Ok(i) => {
                &&& output_error(*output, *row, sig) is None
                &&& tells(
                    i,
                    output.store_path@,
                    row->0,
                    sig->Signed_0@,
                    row->0.file_hash->0.normalized@,
                )
            },
            Err(e) => output_error(*output, *row, sig) == Some(e@),
        },
{
    if !output.derivation_found {
        return Err(WebError::not_found("Path"));
    }
    if !output.subscribed {
        return Err(WebError::not_found("Path"));
    }
    let row = match row {
        Some(x) => x,
        None => {
            return Err(WebError::not_found("CachedPath"));
        },
    };
    let sig = match signature_of(sig) {
        Ok(t) => t,
        Err(e) => {
            return Err(e);
        },
    };
    let nar_hash = match &row.nar_hash {
        Some(h) => h.normalized.clone(),
        None => {
            return Err(WebError::not_found("NarHash not recorded"));
        },
    };
    let nar_size: u64 = match row.nar_size {
        Some(n) => n as u64,
        None => {
            return Err(WebError::not_found("NarSize not recorded"));
        },
    };
    let file_hash = match &row.file_hash {
        Some(h) => h.normalized.clone(),
        None => {
            return Err(WebError::not_found("FileHash not recorded"));
        },
    };
    let file_size: u32 = match row.file_size {
        Some(n) => n as u32,
        None => {
            return Err(WebError::not_found("FileSize not recorded"));
        },
    };
    Ok(
        NixPathInfo {
            store_path: output.store_path.clone(),
            url: url_of(file_hash.as_str()),
            compression: "zstd",
            file_hash,
            file_size,
            nar_hash,
            nar_size,
            references: references_of(&row.references),
            deriver: opt_clone(&row.deriver),
            sig,
            ca: opt_clone(&row.ca),
        },
    )
}

/// What is told of a path that is no build output, notably a `.drv` file. Access
/// is gated on the signature: its existence proves that the cache holds the path.
pub fn get_nar_by_cached_path(row: &Option<CachedPathRow>, sig: SignatureRow) -> (r: WebResult<
    NixPathInfo,
>)
    ensures
        match r {
            Ok(i) => {
                &&& cached_path_error(*row, sig) is None
                &&& tells(i, row->0.store_path@, row->0, sig->Signed_0@, row->0.file_hash->0.raw@)
            },
            Err(e) => cached_path_error(*row, sig) == Some(e@),
        },
{
    let row = match row {
        Some(x) => x,
        None => {
            return Err(WebError::not_found("Path"));
        },
    };
    if !row.fully_cached {
        return Err(WebError::not_found("Path"));
    }
    let sig = match signature_of(sig) {
        Ok(t) => t,
        Err(e) => {
            return Err(e);
        },
    };
    let (file_hash, url) = match &row.file_hash {
        Some(h) => (h.raw.clone(), url_of(h.normalized.as_str())),
        None => {
            return Err(WebError::bad_request("Missing file hash"));
        },
    };
    let file_size: u32 = match row.file_size {
        Some(n) => n as u32,
        None => {
            return Err(WebError::bad_request("Missing file size"));
        },
    };
    let nar_hash = match &row.nar_hash {
        Some(h) => h.normalized.clone(),
        None => {
            return Err(WebError::not_found("NarHash not recorded"));
        },
    };
    let nar_size: u64 = match row.nar_size {
        Some(n) => n as u64,
        None => {
            return Err(WebError::not_found("NarSize not recorded"));
        },
    };
    Ok(
        NixPathInfo {
            store_path: row.store_path.clone(),
            url,
            compression: "zstd",
            file_hash,
            file_size,
            nar_hash,
            nar_size,
            references: references_of(&row.references),
            deriver: opt_clone(&row.deriver),
            sig,
            ca: opt_clone(&row.ca),
        },
    )
}

/// What is told of the path with a given hash: that of a build output where
/// there is one, else that of a standalone cached path.
pub fn get_nar_by_hash(
    output: &Option<OutputLookup>,
    row: &Option<CachedPathRow>,
    sig: SignatureRow,
) -> (r: WebResult<NixPathInfo>)
    ensures
        match r {
            Ok(i) => match output {
                Some(o) => output_error(*o, *row, sig) is None && tells(
                    i,
                    o.store_path@,
                    row->0,
                    sig->Signed_0@,
                    row->0.file_hash->0.normalized@,
                ),
                None => cached_path_error(*row, sig) is None && tells(
                    i,
                    row->0.store_path@,
                    row->0,
                    sig->Signed_0@,
                    row->0.file_hash->0.raw@,
                ),
            },
            Err(e) => match output {
                Some(o) => output_error(*o, *row, sig) == Some(e@),
                None => cached_path_error(*row, sig) == Some(e@),
            },
        },
{
    match output {
        Some(o) => get_nar_of_output(o, row, sig),
        None => get_nar_by_cached_path(row, sig),
    }
}

/// A path is told only when the cache has signed it, and a build output only
/// when its organization subscribes to the cache.
pub proof fn law_only_signed_paths_are_told(
    output: OutputLookup,
    row: Option<CachedPathRow>,
    sig: SignatureRow,
)
    ensures
        output_error(output, row, sig) is None ==> sig is Signed && output.subscribed,
        cached_path_error(row, sig) is None ==> sig is Signed,
{
}

// ── Archives ─────────────────────────────────────────────────────────────────

/// The path names an archive.
pub open spec fn names_nar(path: Seq<char>) -> bool {
    ends_with(path, ".nar"@) || occurs(path, ".nar."@)
}

/// Whether a request for an archive is well-formed; `hash_error` says why the
/// path has no hash, if it has none.
pub fn check_nar_path(path: &str, hash_error: Option<&str>) -> (r: WebResult<()>)
    ensures
        match r {
            Ok(_) => hash_error is None && names_nar(path@),
            Err(e) => match hash_error {
                Some(why) => e@ == ErrorModel::bad_request(why@),
                None => !names_nar(path@) && e@ == ErrorModel::not_found("Path"@),
            },
        },
{
    if let Some(why) = hash_error {
        return Err(WebError::bad_request(why));
    }
    if !(has_suffix(path, ".nar") || contains_text(path, ".nar.")) {
        return Err(WebError::not_found("Path"));
    }
    Ok(())
}

/// The form in which file hashes are stored.
pub fn file_hash_key(path_hash: &str) -> (r: String)
    ensures
        r@ == "sha256:"@ + path_hash@,
{
    cat("sha256:", path_hash)
}

/// Resolve the file hash from the URL to the store hash used as the archive
/// storage key. Build outputs come first, then standalone cached paths; falls
/// back to the URL hash for legacy URLs.
pub fn resolve_effective_hash_db(
    by_output: Option<String>,
    by_cached_path: Option<String>,
    path_hash: &str,
) -> (r: String)
    ensures
        r@ == match (by_output, by_cached_path) {
            (Some(h), _) => h@,
            (None, Some(h)) => h@,
            (None, None) => path_hash@,
        },
{
    match by_output {
        Some(h) => h,
        None => match by_cached_path {
            Some(h) => h,
            None => path_hash.to_owned(),
        },
    }
}

/// The address of `path` below `base_url`.
pub fn upstream_url(base_url: &str, path: &str) -> (r: String)
    ensures
        r@ == without_trailing(base_url@, '/') + "/"@ + path@,
{
    cat3(trim_end_char(base_url, '/'), "/", path)
}

/// The address of an archive at an upstream, which has to belong to the cache and to
/// be an external one. `ctx` is the cache that the caller may use, or why not.
pub fn upstream_nar(ctx: WebResult<CacheContext>, upstream: &Option<Upstream>, path: &str) -> (r:
    WebResult<String>)
    ensures
        r is Ok <==> ctx is Ok && upstream is Some && upstream->0.url is Some,
        match r {
            Ok(url) => url@ == without_trailing(upstream->0.url->0@, '/') + "/"@ + path@,
            Err(e) => e@ == if ctx is Err {
                ctx->Err_0@
            } else if upstream is None {
                ErrorModel::not_found("Upstream"@)
            } else {
                ErrorModel::bad_request("Not an external upstream"@)
            },
        },
{
    if let Err(e) = ctx {
        return Err(e);
    }
    match upstream {
        None => Err(WebError::not_found("Upstream")),
        Some(u) => match &u.url {
            None => Err(WebError::bad_request("Not an external upstream")),
            Some(base) => Ok(upstream_url(base.as_str(), path)),
        },
    }
}

/// What an upstream answered to a request for an archive.
pub enum UpstreamReply {
    /// The request failed, for this reason.
    Failed(String),
    /// The upstream refused.
    Refused,
    /// The answer could not be read, for this reason.
    Unreadable(String),
    Body(Vec<u8>),
}

/// The archive that an upstream sent.
pub fn fetch_upstream_nar(reply: UpstreamReply) -> (r: WebResult<Vec<u8>>)
    ensures
        match reply {
            UpstreamReply::Body(b) => r == Ok::<Vec<u8>, WebError>(b),
            UpstreamReply::Failed(why) => r matches Err(e) && e@ == ErrorModel::internal(
                "Upstream request failed: "@ + why@,
            ),
            UpstreamReply::Unreadable(why) => r matches Err(e) && e@ == ErrorModel::internal(
                "Failed to read upstream response: "@ + why@,
            ),
            UpstreamReply::Refused => r matches Err(e) && e@ == ErrorModel::not_found(
                "NAR in upstream"@,
            ),
        },
{
    match reply {
        UpstreamReply::Body(b) => Ok(b),
        UpstreamReply::Failed(why) => Err(
            WebError::internal(cat("Upstream request failed: ", why.as_str()).as_str()),
        ),
        UpstreamReply::Refused => Err(WebError::not_found("NAR in upstream")),
        UpstreamReply::Unreadable(why) => Err(
            WebError::internal(cat("Failed to read upstream response: ", why.as_str()).as_str()),
        ),
    }
}

/// The archive that a path names. The path has to be well-formed, the caller to have
/// access to the cache (`ctx`), and the storage to hold the archive (`read`), in this
/// order.
pub fn nar(
    path: &str,
    hash_error: Option<&str>,
    ctx: WebResult<CacheContext>,
    read: Result<Option<Vec<u8>>, String>,
) -> (r: WebResult<Vec<u8>>)
    ensures
        match r {
            Ok(b) => {
                &&& hash_error is None
                &&& names_nar(path@)
                &&& ctx is Ok
                &&& read == Ok::<Option<Vec<u8>>, String>(Some(b))
            },
            Err(e) => if hash_error is Some {
                e@ == ErrorModel::bad_request(hash_error->0@)
            } else if !names_nar(path@) {
                e@ == ErrorModel::not_found("Path"@)
            } else if ctx is Err {
                e@ == ctx->Err_0@
            } else {
                match read {
                    Ok(Some(_)) => false,
                    Ok(None) => e@ == ErrorModel::not_found("Path"@),
                    Err(why) => e@ == ErrorModel::internal("Failed to read NAR: "@ + why@),
                }
            },
        },
{
    if let Err(e) = check_nar_path(path, hash_error) {
        return Err(e);
    }
    if let Err(e) = ctx {
        return Err(e);
    }
    match read {
        Ok(Some(b)) => Ok(b),
        Ok(None) => Err(WebError::not_found("Path")),
        Err(why) => Err(WebError::internal(cat("Failed to read NAR: ", why.as_str()).as_str())),
    }
}

/// The text of the statement that notes when a derivation was fetched.
pub const FETCHED_SQL: &'static str = "UPDATE cache_derivation SET last_fetched_at = $1 WHERE cache = $2 AND derivation IN ( SELECT derivation FROM derivation_output WHERE hash = $3 AND is_cached = true )";

/// The statement that notes that the derivation of an archive was fetched from a cache.
pub fn cache_derivation_fetch_update(cache: Id, hash: String, now: Timestamp) -> (r:
    sea_orm::Statement)
    requires
        is_date(now),
    ensures
        r == statement(
            FETCHED_SQL@,
            seq![SqlValue::DateTimeUtc(now), SqlValue::Uuid(cache), SqlValue::Text(hash)],
        ),
{
    let ghost h = hash;
    let values: Vec<SqlValue> = vec![
        SqlValue::DateTimeUtc(now),
        SqlValue::Uuid(cache),
        SqlValue::Text(hash),
    ];
    assert(values@ =~= seq![SqlValue::DateTimeUtc(now), SqlValue::Uuid(cache), SqlValue::Text(h)]);
    postgres_statement(FETCHED_SQL, values)
}

// ── Build logs ───────────────────────────────────────────────────────────────

/// The store path of the derivation whose log is asked for.
pub fn log_derivation(drv: &str) -> (r: WebResult<String>)
    ensures
        match r {
            Ok(p) => ends_with(drv@, ".drv"@) && p@ == "/nix/store/"@ + drv@,
            Err(e) => !ends_with(drv@, ".drv"@) && e@ == ErrorModel::not_found("Log"@),
        },
{
    if !has_suffix(drv, ".drv") {
        return Err(WebError::not_found("Log"));
    }
    Ok(cat("/nix/store/", drv))
}

/// The keys under which the log of a build may be stored.
#[derive(Debug, Clone, Copy, PartialEq, Eq, Structural)]
pub struct LogKeys {
    pub build: Id,
    pub log: Option<Id>,
}

/// The key of the log of a derivation. The caller has to have access to the cache
/// (`ctx`), and the derivation to be known, linked to the cache and built; `build` is its
/// latest completed build.
pub fn log(
    ctx: WebResult<CacheContext>,
    drv: &str,
    derivation_found: bool,
    linked: bool,
    build: Option<LogKeys>,
) -> (r: WebResult<Id>)
    ensures
        r is Ok <==> ctx is Ok && ends_with(drv@, ".drv"@) && derivation_found && linked && build
            is Some,
        match r {
            Ok(key) => key == match build->0.log {
                Some(l) => l,
                None => build->0.build,
            },
            Err(e) => e@ == if ctx is Err {
                ctx->Err_0@
            } else {
                ErrorModel::not_found("Log"@)
            },
        },
{
    if let Err(e) = ctx {
        return Err(e);
    }
    if let Err(e) = log_derivation(drv) {
        return Err(e);
    }
    if !derivation_found || !linked {
        return Err(WebError::not_found("Log"));
    }
    match build {
        None => Err(WebError::not_found("Log")),
        Some(b) => match b.log {
            Some(l) => Ok(l),
            None => Ok(b.build),
        },
    }
}

// ── Cleanup ──────────────────────────────────────────────────────────────────

/// An organization that subscribed to a deleted cache.
pub struct OrgCleanup {
    /// Whether it still subscribes to some cache.
    pub subscribed: bool,
    /// The hashes of its cached outputs.
    pub hashes: Vec<String>,
}

/// The archives of the organizations that subscribe to nothing any more.
pub open spec fn orphans(orgs: Seq<OrgCleanup>) -> Seq<Seq<char>>
    decreases orgs.len(),
{
    if orgs.len() == 0 {
        Seq::empty()
    } else if orgs.last().subscribed {
        orphans(orgs.drop_last())
    } else {
        orphans(orgs.drop_last()) + views(orgs.last().hashes@)
    }
}

/// The archives to delete after a cache was: those of organizations that
/// subscribe to nothing any more.
pub fn cleanup_nars_for_orgs(orgs: &Vec<OrgCleanup>) -> (r: Vec<String>)
    ensures
        views(r@) == orphans(orgs@),
{
    let mut out: Vec<String> = Vec::new();
    let mut i: usize = 0;
    assert(orgs@.take(0) =~= Seq::<OrgCleanup>::empty());
    assert(views(out@) =~= Seq::<Seq<char>>::empty());
    while i < orgs.len()
        invariant
            i <= orgs.len(),
            views(out@) == orphans(orgs@.take(i as int)),
        decreases orgs.len() - i,
    {
        let o = &orgs[i];
        let ghost before = views(out@);
        proof {
            assert(orgs@.take(i as int + 1).drop_last() =~= orgs@.take(i as int));
        }
        if !o.subscribed {
            let mut j: usize = 0;
            assert(views(out@) =~= before + views(o.hashes@).take(0));
            while j < o.hashes.len()
                invariant
                    j <= o.hashes.len(),
                    views(out@) == before + views(o.hashes@).take(j as int),
                decreases o.hashes.len() - j,
            {
                let ghost now = views(out@);
                out.push(o.hashes[j].clone());
                proof {
                    assert(views(out@) =~= now.push(o.hashes@[j as int]@));
                    assert(views(o.hashes@).take(j as int + 1) =~= views(o.hashes@).take(
                        j as int,
                    ).push(o.hashes@[j as int]@));
                    assert(views(out@) =~= before + views(o.hashes@).take(j as int + 1));
                }
                j += 1;
            }
            assert(views(o.hashes@).take(j as int) =~= views(o.hashes@));
        }
        i += 1;
    }
    assert(orgs@.take(i as int) =~= orgs@);
    out
}

/// What is told of a build output: it needs a known derivation, a subscribed organization, a
/// cached path and a signature, and every number recorded. The first that lacks is named.
pub proof fn law_told_outputs(
    output: OutputLookup,
    row: Option<CachedPathRow>,
    sig: SignatureRow,
    r: WebResult<NixPathInfo>,
)
    requires
        call_ensures(get_nar_of_output, (&output, &row, sig), r),
    ensures
        r is Ok <==> output.derivation_found && output.subscribed && row is Some && sig is Signed
            && row->0.nar_hash is Some && row->0.nar_size is Some && row->0.file_hash is Some
            && row->0.file_size is Some,
        !output.derivation_found || !output.subscribed
            ==> (r matches Err(WebError::NotFound(c, m)) && c == ErrorCode::NOT_FOUND
            && m@ == "Path"@ + " not found"@),
        output.derivation_found && output.subscribed ==> {
            &&& row is None ==> (r matches Err(WebError::NotFound(c, m))
                && c == ErrorCode::NOT_FOUND && m@ == "CachedPath"@ + " not found"@)
            &&& row is Some && sig is Missing ==> (r matches Err(WebError::NotFound(c, m))
                && c == ErrorCode::NOT_FOUND && m@ == "Signature"@ + " not found"@)
            &&& row is Some && sig is Pending ==> (r matches Err(WebError::NotFound(c, m))
                && c == ErrorCode::NOT_FOUND && m@ == "Signature not yet computed"@ + " not found"@)
            &&& row is Some && sig is Signed && row->0.nar_hash is None
                ==> (r matches Err(WebError::NotFound(c, m)) && c == ErrorCode::NOT_FOUND
                && m@ == "NarHash not recorded"@ + " not found"@)
            &&& row is Some && sig is Signed && row->0.nar_hash is Some && row->0.nar_size is None
                ==> (r matches Err(WebError::NotFound(c, m)) && c == ErrorCode::NOT_FOUND
                    && m@ == "NarSize not recorded"@ + " not found"@)
        },
        r matches Ok(i) ==> {
            &&& i.store_path@ == output.store_path@
            &&& i.file_hash@ == row->0.file_hash->0.normalized@
            &&& i.compression@ == "zstd"@ && i.file_size == row->0.file_size->0 as u32
                && i.nar_hash@
                == row->0.nar_hash->0.normalized@ && i.nar_size == row->0.nar_size->0 as u64
                && i.deriver == row->0.deriver && i.ca == row->0.ca && i.sig@ == sig->Signed_0@
            &&& row->0.references is Some ==> views(i.references@) == words(row->0.references->0@)
        },
{
}

/// What is told of a path that is no build output: it needs to be fully cached and signed, and
/// every number recorded. The first that lacks is named.
pub proof fn law_told_paths(
    row: Option<CachedPathRow>,
    sig: SignatureRow,
    r: WebResult<NixPathInfo>,
)
    requires
        call_ensures(get_nar_by_cached_path, (&row, sig), r),
    ensures
        r is Ok <==> row is Some && row->0.fully_cached && sig is Signed && row->0.nar_hash is Some
            && row->0.nar_size is Some && row->0.file_hash is Some && row->0.file_size is Some,
        row is None || !row->0.fully_cached ==> (r matches Err(WebError::NotFound(c, m))
            && c == ErrorCode::NOT_FOUND && m@ == "Path"@ + " not found"@),
        row is Some && row->0.fully_cached ==> {
            &&& sig is Missing ==> (r matches Err(WebError::NotFound(c, m))
                && c == ErrorCode::NOT_FOUND && m@ == "Signature"@ + " not found"@)
            &&& sig is Pending ==> (r matches Err(WebError::NotFound(c, m))
                && c == ErrorCode::NOT_FOUND && m@ == "Signature not yet computed"@ + " not found"@)
            &&& sig is Signed && row->0.file_hash is None
                ==> (r matches Err(WebError::BadRequest(c, m)) && c == ErrorCode::BAD_REQUEST
                && m@ == "Missing file hash"@)
            &&& sig is Signed && row->0.file_hash is Some && row->0.file_size is None
                ==> (r matches Err(WebError::BadRequest(c, m)) && c == ErrorCode::BAD_REQUEST
                && m@ == "Missing file size"@)
        },
        r matches Ok(i) ==> {
            &&& i.store_path@ == row->0.store_path@
            &&& i.file_hash@ == row->0.file_hash->0.raw@
            &&& i.compression@ == "zstd"@ && i.file_size == row->0.file_size->0 as u32
                && i.nar_hash@
                == row->0.nar_hash->0.normalized@ && i.nar_size == row->0.nar_size->0 as u64
                && i.deriver == row->0.deriver && i.ca == row->0.ca && i.sig@ == sig->Signed_0@
            &&& row->0.references is Some ==> views(i.references@) == words(row->0.references->0@)
        },
{
}

/// A hash is answered by its build output where there is one, and else by the cached path. Its
/// address is `nar/`, the hash without `sha256:`, and `.nar.zst`.
pub proof fn law_paths_by_hash(
    output: Option<OutputLookup>,
    row: Option<CachedPathRow>,
    sig: SignatureRow,
    r: WebResult<NixPathInfo>,
    h: Seq<char>,
    a: WebResult<NixPathInfo>,
    b: WebResult<NixPathInfo>,
    o: OutputLookup,
)
    requires
        call_ensures(get_nar_by_hash, (&output, &row, sig), r),
        call_ensures(get_nar_of_output, (&o, &row, sig), a),
        call_ensures(get_nar_by_cached_path, (&row, sig), b),
        output is Some ==> output->0 == o,
    ensures
        output is Some ==> (r is Ok <==> a is Ok) && (r is Err ==> r->Err_0@ == a->Err_0@)
            && (r is Ok ==> r->Ok_0.store_path@ == a->Ok_0.store_path@
            && r->Ok_0.url@ == a->Ok_0.url@ && r->Ok_0.file_hash@ == a->Ok_0.file_hash@
            && r->Ok_0.nar_hash@ == a->Ok_0.nar_hash@),
        output is None ==> (r is Ok <==> b is Ok) && (r is Err ==> r->Err_0@ == b->Err_0@)
            && (r is Ok ==> r->Ok_0.store_path@ == b->Ok_0.store_path@
            && r->Ok_0.url@ == b->Ok_0.url@ && r->Ok_0.file_hash@ == b->Ok_0.file_hash@
            && r->Ok_0.nar_hash@ == b->Ok_0.nar_hash@),
        r is Ok && row->0.file_hash->0.normalized@ == "sha256:"@ + h
            && (h.len() == 0 || h[0] != 's')
            ==> r->Ok_0.url@ == "nar/"@ + h + ".nar.zst"@,
{
    reveal_strlit("sha256:");
    let t = "sha256:"@ + h;
    assert(t.subrange(0, 7) =~= "sha256:"@);
    assert(crate::text::skip(t, 7) =~= h);
    if h.len() == 0 || h[0] != 's' {
        if crate::text::starts_with(h, "sha256:"@) {
            assert(h.subrange(0, 7)[0] == 's');
        }
        assert(without_leading(h, "sha256:"@) == h);
        assert(without_leading(t, "sha256:"@) == h);
    }
}

/// A request for an archive names one when it ends in `.nar` or has `.nar.` in it. It is
/// answered from the storage, to callers with access to the cache; the checks come in this
/// order.
pub proof fn law_archive_requests(
    path: &str,
    hash_error: Option<&str>,
    ctx: WebResult<CacheContext>,
    read: Result<Option<Vec<u8>>, String>,
    r: WebResult<Vec<u8>>,
)
    requires
        call_ensures(nar, (path, hash_error, ctx, read), r),
    ensures
        ({
            let names = (path@.len() >= 4 && path@.subrange(path@.len() - 4, path@.len() as int)
                == ".nar"@) || (exists|i: int|
                0 <= i && i + 5 <= path@.len() && #[trigger] path@.subrange(i, i + 5) == ".nar."@);
            &&& r is Ok <==> hash_error is None && names && ctx is Ok && read is Ok && read->Ok_0
                is Some
            &&& hash_error is Some ==> (r matches Err(WebError::BadRequest(c, m))
                && c == ErrorCode::BAD_REQUEST && m@ == hash_error->0@)
            &&& hash_error is None && !names ==> (r matches Err(WebError::NotFound(c, m))
                && c == ErrorCode::NOT_FOUND && m@ == "Path"@ + " not found"@)
            &&& hash_error is None && names && ctx is Err ==> r is Err && r->Err_0@ == ctx->Err_0@
            &&& hash_error is None && names && ctx is Ok && read is Err
                ==> (r matches Err(WebError::Internal(m))
                && m@ == "Failed to read NAR: "@ + read->Err_0@)
            &&& hash_error is None && names && ctx is Ok && read is Ok && read->Ok_0 is None
                ==> (r matches Err(WebError::NotFound(c, m)) && c == ErrorCode::NOT_FOUND
                && m@ == "Path"@ + " not found"@)
        }),
        r is Ok ==> r->Ok_0@ == read->Ok_0->0@,
{
    reveal_strlit(".nar");
    reveal_strlit(".nar.");
    if exists|i: int| 0 <= i && i + 5 <= path@.len() && #[trigger] path@.subrange(i, i + 5) == ".nar."@ {
        let i = choose|i: int|
            0 <= i && i + 5 <= path@.len() && #[trigger] path@.subrange(i, i + 5) == ".nar."@;
        assert(path@.subrange(i, i + ".nar."@.len()) == ".nar."@);
    }
    if occurs(path@, ".nar."@) {
        let i = choose|i: int|
            0 <= i && i + ".nar."@.len() <= path@.len() && #[trigger] path@.subrange(
                i,
                i + ".nar."@.len(),
            ) == ".nar."@;
        assert(path@.subrange(i, i + 5) == ".nar."@);
    }
}

/// Where an archive is found: file hashes are stored with `sha256:` before them; the build
/// output comes first, the cached path second, and the hash of the address last. At an upstream
/// it is below its address, with one slash between.
pub proof fn law_archive_keys(
    h: &str,
    key: String,
    by_output: Option<String>,
    by_path: Option<String>,
    found: String,
    base: Seq<char>,
    slashes: nat,
    base_url: &str,
    path: &str,
    url: String,
)
    requires
        call_ensures(file_hash_key, (h,), key),
        call_ensures(resolve_effective_hash_db, (by_output, by_path, h), found),
        call_ensures(upstream_url, (base_url, path), url),
        base_url@ == base + Seq::new(slashes, |i: int| '/'),
        base.len() > 0 ==> base.last() != '/',
    ensures
        key@ == "sha256:"@ + h@,
        by_output is Some ==> found@ == by_output->0@,
        by_output is None && by_path is Some ==> found@ == by_path->0@,
        by_output is None && by_path is None ==> found@ == h@,
        url@ == base + "/"@ + path@,
{
    crate::text::lemma_without_trailing_is(base_url@, '/', base.len() as int);
    assert(base_url@.subrange(0, base.len() as int) =~= base);
}

/// An archive comes from an upstream with an address of its own, to callers with access to the
/// cache; what the upstream answers is handed on, or its failure told.
pub proof fn law_upstream_archives(
    ctx: WebResult<CacheContext>,
    upstream: Option<Upstream>,
    path: &str,
    r: WebResult<String>,
    reply: UpstreamReply,
    f: WebResult<Vec<u8>>,
)
    requires
        call_ensures(upstream_nar, (ctx, &upstream, path), r),
        call_ensures(fetch_upstream_nar, (reply,), f),
    ensures
        r is Ok <==> ctx is Ok && upstream is Some && upstream->0.url is Some,
        ctx is Err ==> r is Err && r->Err_0@ == ctx->Err_0@,
        ctx is Ok && upstream is None ==> (r matches Err(WebError::NotFound(c, m))
            && c == ErrorCode::NOT_FOUND && m@ == "Upstream"@ + " not found"@),
        ctx is Ok && upstream is Some && upstream->0.url is None
            ==> (r matches Err(WebError::BadRequest(c, m)) && c == ErrorCode::BAD_REQUEST
            && m@ == "Not an external upstream"@),
        match reply {
            UpstreamReply::Body(b) => f is Ok && f->Ok_0@ == b@,
            UpstreamReply::Failed(why) => (f matches Err(WebError::Internal(m))
                && m@ == "Upstream request failed: "@ + why@),
            UpstreamReply::Unreadable(why) => (f matches Err(WebError::Internal(m))
                && m@ == "Failed to read upstream response: "@ + why@),
            UpstreamReply::Refused => (f matches Err(WebError::NotFound(c, m))
                && c == ErrorCode::NOT_FOUND && m@ == "NAR in upstream"@ + " not found"@),
        },
{
}

/// The log of a derivation is found for callers with access to the cache, where the derivation
/// is a `.drv` file, known, linked to the cache and built: under the key of its log, or of its
/// build where the log has none.
pub proof fn law_logs_of_derivations(
    ctx: WebResult<CacheContext>,
    drv: &str,
    derivation_found: bool,
    linked: bool,
    build: Option<LogKeys>,
    r: WebResult<Id>,
    p: WebResult<String>,
)
    requires
        call_ensures(log, (ctx, drv, derivation_found, linked, build), r),
        call_ensures(log_derivation, (drv,), p),
    ensures
        ({
            let is_drv = drv@.len() >= 4 && drv@.subrange(drv@.len() - 4, drv@.len() as int)
                == ".drv"@;
            &&& r is Ok <==> ctx is Ok && is_drv && derivation_found && linked && build is Some
            &&& p is Ok <==> is_drv
        }),
        p is Ok ==> p->Ok_0@ == "/nix/store/"@ + drv@,
        p is Err ==> (p matches Err(WebError::NotFound(c, m)) && c == ErrorCode::NOT_FOUND
            && m@ == "Log"@ + " not found"@),
        ctx is Err ==> r is Err && r->Err_0@ == ctx->Err_0@,
        ctx is Ok && r is Err ==> (r matches Err(WebError::NotFound(c, m))
            && c == ErrorCode::NOT_FOUND && m@ == "Log"@ + " not found"@),
        r is Ok && build->0.log is Some ==> r->Ok_0 == build->0.log->0,
        r is Ok && build->0.log is None ==> r->Ok_0 == build->0.build,
{
    reveal_strlit(".drv");
}

/// One more organization adds its archives to those that are deleted with a cache when it
/// subscribes to nothing any more, and nothing otherwise.
pub proof fn law_orphaned_archives(
    orgs: Vec<OrgCleanup>,
    more: Vec<OrgCleanup>,
    o: OrgCleanup,
    r: Vec<String>,
    s: Vec<String>,
)
    requires
        more@ == orgs@.push(o),
        call_ensures(cleanup_nars_for_orgs, (&orgs,), r),
        call_ensures(cleanup_nars_for_orgs, (&more,), s),
    ensures
        orgs@.len() == 0 ==> r@.len() == 0,
        o.subscribed ==> views(s@) == views(r@),
        !o.subscribed ==> views(s@) == views(r@) + views(o.hashes@),
{
    assert(more@.drop_last() =~= orgs@);
    assert(views(r@).len() == r@.len());
}

/// The references of a path are the words of its list, and what is written when it is fetched
/// is the time, for the cache and the hash.
pub proof fn law_references_and_fetches(
    refs: Option<String>,
    r: Vec<String>,
    cache: Id,
    hash: String,
    now: Timestamp,
    s: sea_orm::Statement,
)
    requires
        is_date(now),
        call_ensures(references_of, (&refs,), r),
        call_ensures(cache_derivation_fetch_update, (cache, hash, now), s),
    ensures
        refs is None ==> r@.len() == 0,
        refs is Some ==> views(r@) == words(refs->0@),
        s == statement(
            "UPDATE cache_derivation SET last_fetched_at = $1 WHERE cache = $2 AND derivation IN ( SELECT derivation FROM derivation_output WHERE hash = $3 AND is_cached = true )"@,
            seq![SqlValue::DateTimeUtc(now), SqlValue::Uuid(cache), SqlValue::Text(hash)],
        ),
{
    assert(views(r@).len() == r@.len());
}

} // verus!
