//! Cache metadata: what a cache says of itself and of its store paths.

use crate::caches::access::CacheContext;
use crate::codec::{format_uuid, uuid_text};
use crate::error::{ErrorCode, ErrorModel, WebError, WebResult};
use crate::helpers::Id;
use crate::text::{
    cat, cat4, chomp, ends_with, has_suffix, join, joined, lines, lines_spec, skip, starts_with,
    strip_prefix, trim, trim_end_char, trimmed, views, white, without_trailing,
};
use vstd::prelude::*;

verus! {

/// What a cache says of itself.
#[derive(Debug, PartialEq, Eq)]
pub struct NixCacheInfo {
    pub want_mass_query: bool,
    pub store_dir: String,
    pub priority: i32,
}

/// What a cache says of itself. Clients on a local network get the local priority,
/// where the cache has one other than zero.
pub fn nix_cache_info(priority: i32, local_priority: Option<i32>, client_is_local: bool) -> (r:
    NixCacheInfo)
    ensures
        r.want_mass_query,
        r.store_dir@ == "/nix/store"@,
        r.priority == match local_priority {
            Some(p) if p != 0 && client_is_local => p,
            _ => priority,
        },
{
    let shown: i32 = match local_priority {
        Some(p) => if p != 0 && client_is_local {
            p
        } else {
            priority
        },
        None => priority,
    };
    NixCacheInfo { want_mass_query: true, store_dir: "/nix/store".to_owned(), priority: shown }
}

/// What a cache says of the server that it belongs to.
#[derive(Debug, PartialEq, Eq)]
pub struct GradientCacheInfo {
    pub gradient_version: String,
    pub gradient_url: String,
}

/// What a cache says of the server that it belongs to.
pub fn gradient_cache_info(version: &str, serve_url: &str) -> (r: GradientCacheInfo)
    ensures
        r.gradient_version@ == version@,
        r.gradient_url@ == serve_url@,
{
    GradientCacheInfo { gradient_version: version.to_owned(), gradient_url: serve_url.to_owned() }
}

/// Whether a request for path metadata is well-formed; `hash_error` says why the
/// path has no hash, if it has none.
pub fn check_narinfo_path(path: &str, hash_error: Option<&str>) -> (r: WebResult<()>)
    ensures
        match r {
            Ok(_) => hash_error is None && ends_with(path@, ".narinfo"@),
            Err(e) => match hash_error {
                Some(why) => e@ == ErrorModel::bad_request(why@),
                None => !ends_with(path@, ".narinfo"@) && e@ == ErrorModel::not_found("Path"@),
            },
        },
{
    if let Some(why) = hash_error {
        return Err(WebError::bad_request(why));
    }
    if !has_suffix(path, ".narinfo") {
        return Err(WebError::not_found("Path"));
    }
    Ok(())
}

/// Where the metadata of a path comes from.
#[derive(Debug, PartialEq, Eq)]
pub enum PathAnswer {
    /// From the cache itself.
    Local,
    /// From an upstream, as this text.
    Upstream(String),
}

/// The metadata of a path. The path has to be well-formed and the caller to have access
/// to the cache (`ctx`); what the cache has comes first, an upstream's answer second.
pub fn path(
    name: &str,
    hash_error: Option<&str>,
    ctx: WebResult<CacheContext>,
    local: bool,
    upstream: Option<String>,
) -> (r: WebResult<PathAnswer>)
    ensures
        r is Ok ==> hash_error is None && ends_with(name@, ".narinfo"@) && ctx is Ok,
        match r {
            Ok(PathAnswer::Local) => local,
            Ok(PathAnswer::Upstream(body)) => !local && upstream == Some(body),
            Err(e) => if hash_error is Some {
                e@ == ErrorModel::bad_request(hash_error->0@)
            } else if !ends_with(name@, ".narinfo"@) {
                e@ == ErrorModel::not_found("Path"@)
            } else if ctx is Err {
                e@ == ctx->Err_0@
            } else {
                !local && upstream is None && e@ == ErrorModel::not_found("Path"@)
            },
        },
{
    if let Err(e) = check_narinfo_path(name, hash_error) {
        return Err(e);
    }
    if let Err(e) = ctx {
        return Err(e);
    }
    if local {
        return Ok(PathAnswer::Local);
    }
    match upstream {
        Some(body) => Ok(PathAnswer::Upstream(body)),
        None => Err(WebError::not_found("Path")),
    }
}

// ── Upstreams ────────────────────────────────────────────────────────────────

/// The field that holds the address of the archive.
pub open spec fn url_field() -> Seq<char> {
    "URL: "@
}

/// A line of metadata, with the archive's address led through `upstream`.
pub open spec fn rewritten_line(line: Seq<char>, upstream: Id) -> Seq<char> {
    if starts_with(line, url_field()) {
        "URL: nar/upstream/"@ + uuid_text(upstream) + "/"@ + trimmed(
            skip(line, url_field().len() as int),
        )
    } else {
        line
    }
}

/// Metadata with the archive's address led through `upstream`.
pub open spec fn rewritten(body: Seq<char>, upstream: Id) -> Seq<char> {
    joined(
        Seq::new(lines_spec(body).len(), |i: int| rewritten_line(lines_spec(body)[i], upstream)),
        "\n"@,
    ) + "\n"@
}

/// Rewrites the `URL:` field of metadata, so that the archive is fetched through
/// this server.
pub fn rewrite_narinfo(body: &str, upstream: Id) -> (r: String)
    ensures
        r@ == rewritten(body@, upstream),
{
    let parts = lines(body);
    let mut out: Vec<String> = Vec::new();
    let mut i: usize = 0;
    while i < parts.len()
        invariant
            i <= parts.len(),
            views(parts@) == lines_spec(body@),
            out.len() == i,
            forall|j: int|
                0 <= j < i ==> (#[trigger] out@[j])@ == rewritten_line(
                    lines_spec(body@)[j],
                    upstream,
                ),
        decreases parts.len() - i,
    {
        let line = &parts[i];
        assert(lines_spec(body@)[i as int] == line@);
        match strip_prefix(line.as_str(), "URL: ") {
            Some(nar_path) => {
                let id = format_uuid(upstream);
                out.push(cat4("URL: nar/upstream/", id.as_str(), "/", trim(nar_path)));
            },
            None => {
                out.push(line.clone());
            },
        }
        i += 1;
    }
    assert(lines_spec(body@).len() == parts@.len());
    assert(views(out@) =~= Seq::new(
        lines_spec(body@).len(),
        |i: int| rewritten_line(lines_spec(body@)[i], upstream),
    ));
    let text = join(&out, "\n");
    cat(text.as_str(), "\n")
}

/// Rewriting leaves every line alone but the address.
pub proof fn law_rewriting_keeps_other_lines(body: Seq<char>, upstream: Id)
    requires
        forall|i: int|
            0 <= i < lines_spec(body).len() ==> !starts_with(
                #[trigger] lines_spec(body)[i],
                url_field(),
            ),
    ensures
        rewritten(body, upstream) == joined(lines_spec(body), "\n"@) + "\n"@,
{
    assert(Seq::new(
        lines_spec(body).len(),
        |i: int| rewritten_line(lines_spec(body)[i], upstream),
    ) =~= lines_spec(body));
}

/// The address of the archive, whatever it is, is led through the upstream: `URL: ` and an
/// address become `URL: nar/upstream/`, the upstream's identifier, a slash and the address
/// without the whitespace around it. Every other line stays as it is. Line by line, so for a
/// first line and for what follows it.
pub proof fn law_rewriting_leads_the_address_through(
    line: Seq<char>,
    rest: &str,
    body: &str,
    upstream: Id,
    before: Seq<char>,
    address: Seq<char>,
    after: Seq<char>,
    r: String,
    tail: String,
)
    requires
        call_ensures(rewrite_narinfo, (body, upstream), r),
        call_ensures(rewrite_narinfo, (rest, upstream), tail),
        body@ == line + seq!['\n'] + rest@,
        rest@.len() > 0,
        forall|i: int| 0 <= i < line.len() ==> line[i] != '\n',
        line.len() > 0 ==> line.last() != '\r',
    ensures
        line.len() < 5 || line.subrange(0, 5) != "URL: "@ ==> r@ == line + seq!['\n'] + tail@,
        ({
            &&& line == "URL: "@ + before + address + after
            &&& forall|i: int| 0 <= i < before.len() ==> white(#[trigger] before[i])
            &&& forall|i: int| 0 <= i < after.len() ==> white(#[trigger] after[i])
            &&& address.len() > 0 ==> !white(address[0]) && !white(address.last())
        }) ==> r@ == "URL: nar/upstream/"@ + uuid_text(upstream) + "/"@ + address + seq!['\n']
            + tail@,
{
    reveal_strlit("URL: ");
    reveal_strlit("\n");
    assert("\n"@ =~= seq!['\n']);
    crate::text::law_lines(line, rest@);
    let all = lines_spec(body@);
    let less = lines_spec(rest@);
    assert(less.len() > 0) by {
        crate::text::lemma_position_bounds(rest@, '\n');
    }
    let mapped = Seq::new(all.len(), |i: int| rewritten_line(all[i], upstream));
    let fewer = Seq::new(less.len(), |i: int| rewritten_line(less[i], upstream));
    let first = rewritten_line(line, upstream);
    assert(mapped =~= seq![first] + fewer);
    crate::text::law_joining(first, fewer, "\n"@);
    assert(r@ =~= first + seq!['\n'] + tail@);
    lemma_rewritten_address(line, upstream, before, address, after);
}

/// A text of one line is rewritten as that line, and ends in a line feed.
pub proof fn law_rewriting_of_one_line(
    line: &str,
    upstream: Id,
    before: Seq<char>,
    address: Seq<char>,
    after: Seq<char>,
    r: String,
)
    requires
        call_ensures(rewrite_narinfo, (line, upstream), r),
        line@.len() > 0,
        forall|i: int| 0 <= i < line@.len() ==> line@[i] != '\n',
    ensures
        line@.len() < 5 || line@.subrange(0, 5) != "URL: "@ ==> r@ == line@ + seq!['\n'],
        ({
            &&& line@ == "URL: "@ + before + address + after
            &&& forall|i: int| 0 <= i < before.len() ==> white(#[trigger] before[i])
            &&& forall|i: int| 0 <= i < after.len() ==> white(#[trigger] after[i])
            &&& address.len() > 0 ==> !white(address[0]) && !white(address.last())
        }) ==> r@ == "URL: nar/upstream/"@ + uuid_text(upstream) + "/"@ + address + seq!['\n'],
{
    reveal_strlit("URL: ");
    reveal_strlit("\n");
    assert("\n"@ =~= seq!['\n']);
    crate::text::law_lines(line@, Seq::empty());
    let all = lines_spec(line@);
    let mapped = Seq::new(all.len(), |i: int| rewritten_line(all[i], upstream));
    let first = rewritten_line(line@, upstream);
    assert(mapped =~= seq![first]);
    lemma_rewritten_address(line@, upstream, before, address, after);
}

proof fn lemma_rewritten_address(
    line: Seq<char>,
    upstream: Id,
    before: Seq<char>,
    address: Seq<char>,
    after: Seq<char>,
)
    ensures
        line.len() < 5 || line.subrange(0, 5) != "URL: "@ ==> rewritten_line(line, upstream)
            == line,
        ({
            &&& line == "URL: "@ + before + address + after
            &&& forall|i: int| 0 <= i < before.len() ==> white(#[trigger] before[i])
            &&& forall|i: int| 0 <= i < after.len() ==> white(#[trigger] after[i])
            &&& address.len() > 0 ==> !white(address[0]) && !white(address.last())
        }) ==> rewritten_line(line, upstream) == "URL: nar/upstream/"@ + uuid_text(upstream)
            + "/"@ + address,
{
    reveal_strlit("URL: ");
    if line == "URL: "@ + before + address + after && (forall|i: int|
        0 <= i < before.len() ==> white(#[trigger] before[i])) && (forall|i: int|
        0 <= i < after.len() ==> white(#[trigger] after[i])) && (address.len() > 0 ==> !white(
        address[0],
    ) && !white(address.last())) {
        assert(line.subrange(0, 5) =~= "URL: "@);
        assert(skip(line, 5) =~= before + address + after);
        crate::text::law_trimming(before, address, after);
    }
}

proof fn lemma_lines_of_joined(parts: Seq<Seq<char>>)
    requires
        parts.len() > 0,
        forall|k: int, i: int|
            0 <= k < parts.len() && 0 <= i < parts[k].len() ==> #[trigger] parts[k][i] != '\n',
    ensures
        lines_spec(joined(parts, "\n"@) + "\n"@).len() == parts.len(),
        forall|k: int|
            0 <= k < parts.len() ==> #[trigger] lines_spec(joined(parts, "\n"@) + "\n"@)[k]
                == chomp(parts[k]),
    decreases parts.len(),
{
    reveal_strlit("\n");
    assert("\n"@ =~= seq!['\n']);
    let first = parts[0];
    let rest = parts.drop_first();
    let text = joined(parts, "\n"@) + "\n"@;
    if parts.len() == 1 {
        crate::text::law_lines(first, Seq::empty());
        assert(text =~= first + seq!['\n'] + Seq::<char>::empty());
    } else {
        assert forall|k: int, i: int| 0 <= k < rest.len() && 0 <= i < rest[k].len() implies
            #[trigger] rest[k][i] != '\n' by {
            assert(parts[k + 1][i] != '\n');
        }
        lemma_lines_of_joined(rest);
        let below = joined(rest, "\n"@) + "\n"@;
        crate::text::law_lines(first, below);
        assert(text =~= first + seq!['\n'] + below);
        assert forall|k: int| 0 <= k < parts.len() implies #[trigger] lines_spec(text)[k] == chomp(
            parts[k],
        ) by {
            if k > 0 {
                assert(lines_spec(text)[k] == lines_spec(below)[k - 1]);
                assert(rest[k - 1] == parts[k]);
            }
        }
    }
}

proof fn lemma_lines_hold_no_line_feed(s: Seq<char>)
    ensures
        forall|k: int, i: int|
            0 <= k < lines_spec(s).len() && 0 <= i < lines_spec(s)[k].len()
                ==> #[trigger] lines_spec(s)[k][i] != '\n',
    decreases s.len(),
{
    let p = crate::text::position(s, '\n');
    crate::text::lemma_position_bounds(s, '\n');
    if s.len() > 0 && p < s.len() {
        let rest = skip(s, p + 1);
        lemma_lines_hold_no_line_feed(rest);
        let first = chomp(s.subrange(0, p));
        assert forall|k: int, i: int|
            0 <= k < lines_spec(s).len() && 0 <= i < lines_spec(s)[k].len() implies
            #[trigger] lines_spec(s)[k][i] != '\n' by {
            if k == 0 {
                assert(lines_spec(s)[0] == first);
                assert(first[i] == s[i]);
            } else {
                assert(lines_spec(s)[k] == lines_spec(rest)[k - 1]);
            }
        }
    }
}

proof fn lemma_uuid_text_has_no_line_feed(u: Id)
    ensures
        uuid_text(u).len() == 36,
        forall|i: int| 0 <= i < 36 ==> #[trigger] uuid_text(u)[i] != '\n',
{
    assert forall|i: int| 0 <= i < 36 implies #[trigger] uuid_text(u)[i] != '\n' by {
        assert forall|k: int| 0 <= k < 32 implies 0 <= #[trigger] crate::codec::uuid_nibble(u, k)
            < 16 by {
            let x: u128 = u >> ((4 * (31 - k)) as u128);
            assert(x & 0xf < 16) by (bit_vector);
        }
    }
}

/// No address of a rewritten text goes past the server: each of its lines that begins with
/// `URL: ` goes on with `nar/upstream/`, the upstream's identifier and a slash.
pub proof fn law_no_address_goes_past_the_server(body: &str, upstream: Id, r: String, k: int)
    requires
        call_ensures(rewrite_narinfo, (body, upstream), r),
        0 <= k < lines_spec(r@).len(),
        lines_spec(r@)[k].len() >= 5,
        lines_spec(r@)[k].subrange(0, 5) == "URL: "@,
    ensures
        lines_spec(r@)[k].len() >= 55,
        lines_spec(r@)[k].subrange(0, 18) == "URL: nar/upstream/"@,
        lines_spec(r@)[k].subrange(18, 54) == uuid_text(upstream),
        lines_spec(r@)[k][54] == '/',
{
    reveal_strlit("URL: ");
    reveal_strlit("URL: nar/upstream/");
    reveal_strlit("/");
    reveal_strlit("\n");
    assert("\n"@ =~= seq!['\n']);
    let all = lines_spec(body@);
    let mapped = Seq::new(all.len(), |i: int| rewritten_line(all[i], upstream));
    lemma_lines_hold_no_line_feed(body@);
    lemma_uuid_text_has_no_line_feed(upstream);
    if all.len() == 0 {
        crate::text::law_lines(Seq::empty(), Seq::empty());
        assert(r@ =~= Seq::<char>::empty() + seq!['\n'] + Seq::<char>::empty());
        assert(lines_spec(r@)[0].len() == 0);
    } else {
        assert forall|m: int, i: int| 0 <= m < mapped.len() && 0 <= i < mapped[m].len() implies
            #[trigger] mapped[m][i] != '\n' by {
            let line = all[m];
            assert(mapped[m] == rewritten_line(line, upstream));
            if starts_with(line, "URL: "@) {
                let address = skip(line, 5);
                assert forall|j: int| 0 <= j < address.len() implies address[j] != '\n' by {
                    assert(address[j] == all[m][j + 5]);
                }
                crate::text::lemma_trimmed_is_part(address);
                let (lo, hi) = choose|lo: int, hi: int|
                    0 <= lo <= hi <= address.len() && trimmed(address)
                        == #[trigger] address.subrange(
                        lo,
                        hi,
                    );
                if i >= 55 {
                    assert(mapped[m][i] == trimmed(address)[i - 55]);
                    assert(trimmed(address)[i - 55] == address[lo + i - 55]);
                } else if i == 54 {
                    assert(mapped[m][i] == '/');
                } else if i >= 18 {
                    assert(mapped[m][i] == uuid_text(upstream)[i - 18]);
                } else {
                    assert(mapped[m][i] == "URL: nar/upstream/"@[i]);
                }
            } else {
                assert(mapped[m][i] == all[m][i]);
            }
        }
        lemma_lines_of_joined(mapped);
        let line = all[k];
        let shown = chomp(mapped[k]);
        assert(lines_spec(r@)[k] == shown);
        if starts_with(line, "URL: "@) {
            let lead = "URL: nar/upstream/"@ + uuid_text(upstream) + "/"@;
            let whole = lead + trimmed(skip(line, 5));
            assert(mapped[k] == whole);
            assert(whole[54] == '/');
            assert(shown.subrange(0, 18) =~= "URL: nar/upstream/"@);
            assert(shown.subrange(18, 54) =~= uuid_text(upstream));
        } else {
            assert(shown.subrange(0, 5) =~= line.subrange(0, 5));
        }
    }
}

/// An upstream of a cache.
pub struct Upstream {
    pub id: Id,
    pub url: Option<String>,
    pub public_key: Option<String>,
}

/// What an upstream answered to a request for metadata.
pub enum NarinfoReply {
    /// The request failed, was refused, or its answer could not be read.
    Nothing,
    /// An answer, and whether its signature verified against the public key of
    /// the upstream.
    Text { body: String, verified: bool },
}

/// What to do next.
#[derive(Debug, PartialEq, Eq)]
pub enum SearchAction {
    /// Ask the upstream at this position for this address.
    Ask(usize, String),
    /// Answer with this text.
    Found(String),
    /// No upstream has the path.
    Exhausted,
}

/// Whether an upstream can be asked: it needs an address and a key to verify
/// its answers with.
pub open spec fn can_be_asked(u: Upstream) -> bool {
    u.url is Some && u.public_key is Some
}

/// The address of the metadata of `hash` at an upstream.
pub open spec fn narinfo_url(base: Seq<char>, hash: Seq<char>) -> Seq<char> {
    without_trailing(base, '/') + "/"@ + hash + ".narinfo"@
}

/// The first upstream from position `from` on that can be asked.
pub open spec fn is_next(upstreams: Seq<Upstream>, from: int, k: int) -> bool {
    &&& from <= k < upstreams.len()
    &&& can_be_asked(upstreams[k])
    &&& forall|j: int| from <= j < k ==> !can_be_asked(#[trigger] upstreams[j])
}

/// The next upstream to ask, from position `from` on.
pub fn next_upstream(upstreams: &Vec<Upstream>, from: usize, hash: &str) -> (r: SearchAction)
    ensures
        match r {
            SearchAction::Ask(k, url) => is_next(upstreams@, from as int, k as int) && url@
                == narinfo_url(upstreams@[k as int].url->0@, hash@),
            SearchAction::Found(_) => false,
            SearchAction::Exhausted => forall|j: int|
                from <= j < upstreams@.len() ==> !can_be_asked(#[trigger] upstreams@[j]),
        },
{
    let mut i: usize = from;
    while i < upstreams.len()
        invariant
            from <= i,
            i <= upstreams.len() || i == from,
            forall|j: int| from <= j < i ==> !can_be_asked(#[trigger] upstreams@[j]),
        decreases upstreams.len() - i,
    {
        if let Some(base) = &upstreams[i].url {
            if upstreams[i].public_key.is_some() {
                let url = cat4(trim_end_char(base.as_str(), '/'), "/", hash, ".narinfo");
                return SearchAction::Ask(i, url);
            }
        }
        i += 1;
    }
    SearchAction::Exhausted
}

/// What to do after the upstream at position `asked` has replied. Only metadata
/// whose signature matches the key of the upstream is forwarded; anything else is
/// dropped, and the next upstream is asked.
pub fn fetch_from_upstream(
    upstreams: &Vec<Upstream>,
    asked: usize,
    reply: &NarinfoReply,
    hash: &str,
) -> (r: SearchAction)
    requires
        asked < upstreams@.len(),
    ensures
        match r {
            SearchAction::Found(t) => reply matches NarinfoReply::Text { body, verified: true }
                && t@ == rewritten(body@, upstreams@[asked as int].id),
            SearchAction::Ask(k, url) => !(reply matches NarinfoReply::Text { verified: true, .. })
                && is_next(upstreams@, asked + 1, k as int) && url@ == narinfo_url(
                upstreams@[k as int].url->0@,
                hash@,
            ),
            SearchAction::Exhausted => !(reply matches NarinfoReply::Text { verified: true, .. })
                && forall|j: int|
                asked < j < upstreams@.len() ==> !can_be_asked(#[trigger] upstreams@[j]),
        },
{
    match reply {
        NarinfoReply::Text { body, verified } => {
            if *verified {
                return SearchAction::Found(rewrite_narinfo(body.as_str(), upstreams[asked].id));
            }
        },
        NarinfoReply::Nothing => {},
    }
    let count: usize = upstreams.len();
    assert(asked < count);
    next_upstream(upstreams, asked + 1, hash)
}

/// What a cache says of itself: that it wants mass queries, that it is a cache of `/nix/store`,
/// and its priority, which for local clients is the local one where that is not zero.
pub proof fn law_cache_info(
    priority: i32,
    local: Option<i32>,
    is_local: bool,
    r: NixCacheInfo,
    version: &str,
    url: &str,
    g: GradientCacheInfo,
)
    requires
        call_ensures(nix_cache_info, (priority, local, is_local), r),
        call_ensures(gradient_cache_info, (version, url), g),
    ensures
        r.want_mass_query,
        r.store_dir@ == "/nix/store"@,
        is_local && local is Some && local->0 != 0 ==> r.priority == local->0,
        !(is_local && local is Some && local->0 != 0) ==> r.priority == priority,
        g.gradient_version@ == version@ && g.gradient_url@ == url@,
{
}

/// The metadata of a path comes from the cache where that has it, and else from an upstream.
/// The name has to have a hash and to end in `.narinfo`, and the caller access to the cache.
pub proof fn law_metadata_requests(
    name: &str,
    hash_error: Option<&str>,
    ctx: WebResult<CacheContext>,
    local: bool,
    upstream: Option<String>,
    r: WebResult<PathAnswer>,
)
    requires
        call_ensures(path, (name, hash_error, ctx, local, upstream), r),
    ensures
        ({
            let named = name@.len() >= 8 && name@.subrange(name@.len() - 8, name@.len() as int)
                == ".narinfo"@;
            &&& r is Ok <==> hash_error is None && named && ctx is Ok && (local || upstream is Some)
            &&& hash_error is Some ==> (r matches Err(WebError::BadRequest(c, m))
                && c == ErrorCode::BAD_REQUEST && m@ == hash_error->0@)
            &&& hash_error is None && !named ==> (r matches Err(WebError::NotFound(c, m))
                && c == ErrorCode::NOT_FOUND && m@ == "Path"@ + " not found"@)
            &&& hash_error is None && named && ctx is Err ==> r is Err && r->Err_0@ == ctx->Err_0@
            &&& hash_error is None && named && ctx is Ok && !local && upstream is None
                ==> (r matches Err(WebError::NotFound(c, m)) && c == ErrorCode::NOT_FOUND
                && m@ == "Path"@ + " not found"@)
        }),
        r is Ok && local ==> r->Ok_0 is Local,
        r is Ok && !local ==> (r->Ok_0 matches PathAnswer::Upstream(b) && b@ == upstream->0@),
{
    reveal_strlit(".narinfo");
}

/// The search asks the upstreams in order, those with an address and a key, each for the hash
/// and `.narinfo`. An answer whose signature is good ends it, led through the upstream that
/// gave it; any other answer moves on to the next, until there is none.
pub proof fn law_upstream_search(
    upstreams: Vec<Upstream>,
    asked: usize,
    reply: NarinfoReply,
    hash: &str,
    r: SearchAction,
    body: &str,
    text: String,
    n: SearchAction,
    from: usize,
)
    requires
        asked < upstreams@.len(),
        call_ensures(fetch_from_upstream, (&upstreams, asked, &reply, hash), r),
        call_ensures(next_upstream, (&upstreams, from, hash), n),
        call_ensures(rewrite_narinfo, (body, upstreams@[asked as int].id), text),
        from == asked + 1,
    ensures
        (reply matches NarinfoReply::Text { body: b, verified: true } && b@ == body@)
            ==> (r matches SearchAction::Found(t) && t@ == text@),
        r is Found ==> (reply matches NarinfoReply::Text { verified: true, .. }),
        !(reply matches NarinfoReply::Text { verified: true, .. }) ==> match n {
            SearchAction::Ask(k, url) => r matches SearchAction::Ask(j, u) && j == k && u@ == url@,
            SearchAction::Exhausted => r is Exhausted,
            SearchAction::Found(_) => false,
        },
        n matches SearchAction::Ask(k, url) ==> {
            &&& from <= k < upstreams@.len()
            &&& upstreams@[k as int].url is Some && upstreams@[k as int].public_key is Some
            &&& forall|j: int| from <= j < k ==> (#[trigger] upstreams@[j]).url is None
                || upstreams@[j].public_key is None
            &&& url@ == without_trailing(upstreams@[k as int].url->0@, '/') + "/"@ + hash@
                + ".narinfo"@
        },
        n is Exhausted ==> forall|j: int|
            from <= j < upstreams@.len() ==> (#[trigger] upstreams@[j]).url is None
                || upstreams@[j].public_key is None,
{
    assert forall|j: int| 0 <= j < upstreams@.len() implies (can_be_asked(#[trigger] upstreams@[j])
        <==> upstreams@[j].url is Some && upstreams@[j].public_key is Some) by {}
    match (n, r) {
        (SearchAction::Ask(k, _), SearchAction::Ask(j, _)) => {
            assert(can_be_asked(upstreams@[k as int]));
            assert(can_be_asked(upstreams@[j as int]));
        },
        (SearchAction::Ask(k, _), _) => {
            assert(can_be_asked(upstreams@[k as int]));
        },
        (_, SearchAction::Ask(j, _)) => {
            assert(can_be_asked(upstreams@[j as int]));
        },
        _ => {},
    }
}

} // verus!
