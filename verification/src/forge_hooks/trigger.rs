//! Which projects and triggers a forge event reaches, and what comes of them.

use crate::forge_hooks::events::{ParsedPullRequestEvent, ParsedPushEvent, ParsedReleaseEvent};
use crate::forge_hooks::glob::{glob_filter, glob_match, glob_matches};
use crate::forge_hooks::response::{
    QueuedEvaluation, QueuedModel, SkippedModel, SkippedProject, WebhookTriggerOutcome,
};
use crate::helpers::{Id, Timestamp};
use crate::projects::triggers::TriggerRow;
use crate::text::{
    cat4, contains, ends_with, opt_view, position, same, skip, split_once,
    starts_with, strip_prefix, strip_suffix, trim, trimmed, trimmed_end, views, white,
};
use vstd::prelude::*;

verus! {

// ── Repository addresses ─────────────────────────────────────────────────────

/// `s` without one trailing slash.
pub open spec fn without_slash(s: Seq<char>) -> Seq<char> {
    if ends_with(s, "/"@) {
        s.subrange(0, s.len() - "/"@.len())
    } else {
        s
    }
}

/// `s` without one trailing `.git`.
pub open spec fn without_dot_git(s: Seq<char>) -> Seq<char> {
    if ends_with(s, ".git"@) {
        s.subrange(0, s.len() - ".git"@.len())
    } else {
        s
    }
}

/// `git@host:path` as `https://host/path`; anything else as it is.
pub open spec fn https_form(s: Seq<char>) -> Seq<char> {
    let rest = skip(s, "git@"@.len() as int);
    let colon = position(rest, ':');
    if starts_with(s, "git@"@) && colon < rest.len() {
        "https://"@ + rest.subrange(0, colon) + "/"@ + skip(rest, colon + 1)
    } else {
        s
    }
}

/// The canonical form of a repository address.
pub open spec fn canonical_url(url: Seq<char>) -> Seq<char> {
    https_form(without_dot_git(without_slash(trimmed(url))))
}

/// Canonical form for matching the repository of a project against the URLs
/// reported by a forge webhook. Drops a single trailing slash, strips a trailing
/// `.git`, and rewrites `git@host:owner/repo` SSH URLs to the
/// `https://host/owner/repo` shape so the two webhook variants and the
/// user-stored project URL collapse to one identity.
pub fn normalize_repo_url(url: &str) -> (r: String)
    ensures
        r@ == canonical_url(url@),
{
    let t = trim(url);
    let s = match strip_suffix(t, "/") {
        Some(x) => x,
        None => t,
    };
    let s = match strip_suffix(s, ".git") {
        Some(x) => x,
        None => s,
    };
    match strip_prefix(s, "git@") {
        Some(rest) => match split_once(rest, ':') {
            Some((host, path)) => cat4("https://", host, "/", path),
            None => s.to_owned(),
        },
        None => s.to_owned(),
    }
}

proof fn lemma_trimmed_is_self(s: Seq<char>)
    requires
        s.len() > 0,
        !white(s[0]),
        !white(s.last()),
    ensures
        trimmed(s) == s,
{
    crate::text::lemma_trimmed_start_is(s, 0);
    assert(skip(s, 0) =~= s);
    crate::text::lemma_trimmed_end_is(s, s.len() as int);
    assert(s.subrange(0, s.len() as int) =~= s);
}

/// An address in canonical form: no whitespace around it, no trailing slash or
/// `.git`, and not in SSH shorthand.
pub open spec fn is_canonical(u: Seq<char>) -> bool {
    &&& u.len() > 0
    &&& !white(u[0])
    &&& !white(u.last())
    &&& !ends_with(u, "/"@)
    &&& !ends_with(u, ".git"@)
    &&& !starts_with(u, "git@"@)
}

/// The variants of an address collapse to one identity: with or without a
/// trailing `.git`, with or without a trailing slash.
pub proof fn law_url_variants_collapse(u: Seq<char>)
    requires
        is_canonical(u),
    ensures
        canonical_url(u) == u,
        canonical_url(u + ".git"@) == u,
        canonical_url(u + "/"@) == u,
{
    reveal_strlit(".git");
    reveal_strlit("/");
    reveal_strlit("git@");
    lemma_trimmed_is_self(u);
    let g = u + ".git"@;
    assert(g.last() == 't');
    lemma_trimmed_is_self(g);
    assert(g.subrange(g.len() - 4, g.len() as int) =~= ".git"@);
    assert(g.subrange(0, g.len() - 4) =~= u);
    assert(g.subrange(g.len() - 1, g.len() as int)[0] == 't');
    let s = u + "/"@;
    assert(s.last() == '/');
    lemma_trimmed_is_self(s);
    assert(s.subrange(s.len() - 1, s.len() as int) =~= "/"@);
    assert(s.subrange(0, s.len() - 1) =~= u);
}

/// Whitespace around an address does not matter.
pub proof fn law_url_whitespace_is_ignored(a: Seq<char>, b: Seq<char>)
    requires
        trimmed(a) == trimmed(b),
    ensures
        canonical_url(a) == canonical_url(b),
{
}

/// The SSH shorthand for a repository.
pub open spec fn ssh_url(host: Seq<char>, path: Seq<char>) -> Seq<char> {
    "git@"@ + host + ":"@ + path
}

/// The HTTPS address of a repository.
pub open spec fn web_url(host: Seq<char>, path: Seq<char>) -> Seq<char> {
    "https://"@ + host + "/"@ + path
}

/// A path without the whitespace, the slash and the `.git` that may trail it.
pub open spec fn bare_path(path: Seq<char>) -> Seq<char> {
    without_dot_git(without_slash(trimmed_end(path)))
}

proof fn lemma_trimmed_end_append(a: Seq<char>, p: Seq<char>)
    requires
        trimmed_end(p).len() > 0,
    ensures
        trimmed_end(a + p) == a + trimmed_end(p),
    decreases p.len(),
{
    assert((a + p).last() == p.last());
    if white(p.last()) {
        assert((a + p).drop_last() =~= a + p.drop_last());
        lemma_trimmed_end_append(a, p.drop_last());
    }
}

/// What trails an address trails its path.
proof fn lemma_bare_path(prefix: Seq<char>, path: Seq<char>)
    requires
        prefix.len() > 0,
        !white(prefix[0]),
        prefix.last() == ':' || prefix.last() == '/',
        trimmed_end(path).len() > 0,
    ensures
        without_dot_git(without_slash(trimmed(prefix + path))) == prefix + bare_path(path),
{
    reveal_strlit("/");
    reveal_strlit(".git");
    let whole = prefix + path;
    assert(whole[0] == prefix[0]);
    crate::text::lemma_trimmed_start_is(whole, 0);
    assert(skip(whole, 0) =~= whole);
    lemma_trimmed_end_append(prefix, path);
    let t = trimmed_end(path);
    let v = prefix + t;
    assert(trimmed(whole) == v);
    assert(v.subrange(v.len() - 1, v.len() as int)[0] == t.last());
    assert(t.subrange(t.len() - 1, t.len() as int)[0] == t.last());
    if t.last() == '/' {
        assert(v.subrange(v.len() - 1, v.len() as int) =~= "/"@);
        assert(t.subrange(t.len() - 1, t.len() as int) =~= "/"@);
        assert(v.subrange(0, v.len() - 1) =~= prefix + t.subrange(0, t.len() - 1));
    }
    let u = without_slash(t);
    let w = prefix + u;
    assert(without_slash(v) == w);
    if ends_with(u, ".git"@) {
        assert(w.subrange(w.len() - 4, w.len() as int) =~= u.subrange(u.len() - 4, u.len() as int));
        assert(w.subrange(0, w.len() - 4) =~= prefix + u.subrange(0, u.len() - 4));
    } else if ends_with(w, ".git"@) {
        let tail = w.subrange(w.len() - 4, w.len() as int);
        if u.len() >= 4 {
            assert(tail =~= u.subrange(u.len() - 4, u.len() as int));
        } else {
            assert(tail[3 - u.len()] == prefix.last());
            assert(tail[0] == '.' && tail[1] == 'g' && tail[2] == 'i' && tail[3] == 't');
        }
    }
}

proof fn lemma_https_form_of_ssh(host: Seq<char>, path: Seq<char>)
    requires
        position(host, ':') == host.len(),
    ensures
        https_form(ssh_url(host, path)) == web_url(host, path),
{
    reveal_strlit("git@");
    reveal_strlit(":");
    let s = ssh_url(host, path);
    assert(s.subrange(0, 4) =~= "git@"@);
    let rest = skip(s, 4);
    assert(rest =~= host + ":"@ + path);
    crate::text::lemma_position_bounds(host, ':');
    assert forall|j: int| 0 <= j < host.len() implies rest[j] != ':' by {
        assert(rest[j] == host[j]);
    }
    assert(rest[host.len() as int] == ':');
    crate::text::lemma_position_is(rest, ':', host.len() as int);
    assert(rest.subrange(0, host.len() as int) =~= host);
    assert(skip(rest, host.len() as int + 1) =~= path);
}

/// The SSH shorthand and the HTTPS address of one repository have one identity, whatever
/// the host and the path, with or without a `.git` or a slash behind it. The host holds no
/// colon, and the path is not blank.
pub proof fn law_ssh_and_https_collapse(host: Seq<char>, path: Seq<char>)
    requires
        position(host, ':') == host.len(),
        trimmed_end(path).len() > 0,
    ensures
        canonical_url(ssh_url(host, path)) == web_url(host, bare_path(path)),
        canonical_url(web_url(host, path)) == web_url(host, bare_path(path)),
{
    reveal_strlit("git@");
    reveal_strlit(":");
    reveal_strlit("/");
    reveal_strlit("https://");
    let ssh = "git@"@ + host + ":"@;
    assert(ssh[0] == 'g');
    lemma_bare_path(ssh, path);
    lemma_https_form_of_ssh(host, bare_path(path));
    let web = "https://"@ + host + "/"@;
    assert(web[0] == 'h');
    lemma_bare_path(web, path);
    let u = web_url(host, bare_path(path));
    assert(u.subrange(0, 4)[0] == 'h');
}

/// A path with nothing behind it that is dropped.
pub open spec fn is_bare(path: Seq<char>) -> bool {
    path.len() > 0 && !white(path.last()) && !ends_with(path, "/"@) && !ends_with(path, ".git"@)
}

proof fn lemma_bare_variants(path: Seq<char>)
    requires
        is_bare(path),
    ensures
        bare_path(path) == path,
        bare_path(path + ".git"@) == path,
        bare_path(path + "/"@) == path,
        bare_path(path + ".git"@ + "/"@) == path,
{
    reveal_strlit(".git");
    reveal_strlit("/");
    let g = path + ".git"@;
    assert(g.last() == 't');
    assert(g.subrange(g.len() - 1, g.len() as int)[0] == 't');
    assert(g.subrange(g.len() - 4, g.len() as int) =~= ".git"@);
    assert(g.subrange(0, g.len() - 4) =~= path);
    let s = path + "/"@;
    assert(s.last() == '/');
    assert(s.subrange(s.len() - 1, s.len() as int) =~= "/"@);
    assert(s.subrange(0, s.len() - 1) =~= path);
    let gs = g + "/"@;
    assert(gs.last() == '/');
    assert(gs.subrange(gs.len() - 1, gs.len() as int) =~= "/"@);
    assert(gs.subrange(0, gs.len() - 1) =~= g);
}

/// All ways to write the address of a repository collapse to one identity: SSH or HTTPS,
/// with or without a trailing `.git`, with or without a trailing slash.
pub proof fn law_repository_variants_collapse(host: Seq<char>, path: Seq<char>)
    requires
        position(host, ':') == host.len(),
        is_bare(path),
    ensures
        canonical_url(ssh_url(host, path)) == web_url(host, path),
        canonical_url(ssh_url(host, path + ".git"@)) == web_url(host, path),
        canonical_url(ssh_url(host, path + "/"@)) == web_url(host, path),
        canonical_url(ssh_url(host, path + ".git"@ + "/"@)) == web_url(host, path),
        canonical_url(web_url(host, path)) == web_url(host, path),
        canonical_url(web_url(host, path + ".git"@)) == web_url(host, path),
        canonical_url(web_url(host, path + "/"@)) == web_url(host, path),
        canonical_url(web_url(host, path + ".git"@ + "/"@)) == web_url(host, path),
{
    reveal_strlit(".git");
    reveal_strlit("/");
    lemma_bare_variants(path);
    assert((path + ".git"@).last() == 't');
    assert((path + "/"@).last() == '/');
    assert((path + ".git"@ + "/"@).last() == '/');
    law_ssh_and_https_collapse(host, path);
    law_ssh_and_https_collapse(host, path + ".git"@);
    law_ssh_and_https_collapse(host, path + "/"@);
    law_ssh_and_https_collapse(host, path + ".git"@ + "/"@);
}

/// Some address in `repos` and some address in `urls` are the same repository.
pub open spec fn shares_repository(repos: Seq<Seq<char>>, urls: Seq<Seq<char>>) -> bool {
    exists|i: int, j: int|
        0 <= i < repos.len() && 0 <= j < urls.len() && canonical_url(#[trigger] repos[i])
            == canonical_url(#[trigger] urls[j])
}

/// Whether some address in `repos` and some address in `urls` are the same
/// repository.
pub fn repositories_match(repos: &Vec<String>, urls: &Vec<String>) -> (r: bool)
    ensures
        r == shares_repository(views(repos@), views(urls@)),
{
    let ghost rs = views(repos@);
    let ghost us = views(urls@);
    let mut hooked: Vec<String> = Vec::new();
    let mut k: usize = 0;
    while k < urls.len()
        invariant
            k <= urls.len(),
            us == views(urls@),
            hooked.len() == k,
            forall|j: int| 0 <= j < k ==> #[trigger] views(hooked@)[j] == canonical_url(us[j]),
        decreases urls.len() - k,
    {
        let ghost before = views(hooked@);
        hooked.push(normalize_repo_url(urls[k].as_str()));
        assert(views(hooked@) =~= before.push(canonical_url(us[k as int])));
        k += 1;
    }
    let mut i: usize = 0;
    while i < repos.len()
        invariant
            i <= repos.len(),
            rs == views(repos@),
            us == views(urls@),
            hooked.len() == us.len(),
            forall|j: int|
                0 <= j < us.len() ==> #[trigger] views(hooked@)[j] == canonical_url(us[j]),
            forall|a: int, j: int|
                0 <= a < i && 0 <= j < us.len() ==> canonical_url(#[trigger] rs[a])
                    != canonical_url(
                    #[trigger] us[j],
                ),
        decreases repos.len() - i,
    {
        let c = normalize_repo_url(repos[i].as_str());
        assert(rs[i as int] == repos@[i as int]@);
        if contains(&hooked, c.as_str()) {
            proof {
                let j = choose|j: int| 0 <= j < views(hooked@).len() && views(hooked@)[j] == c@;
                assert(canonical_url(rs[i as int]) == canonical_url(us[j]));
            }
            return true;
        }
        proof {
            assert forall|j: int| 0 <= j < us.len() implies canonical_url(rs[i as int])
                != canonical_url(#[trigger] us[j]) by {
                assert(views(hooked@)[j] == canonical_url(us[j]));
                assert(views(hooked@).contains(views(hooked@)[j]));
            }
        }
        i += 1;
    }
    false
}

/// An organization that carries a GitHub App installation.
pub struct OrgCandidate {
    /// The repository addresses of its projects; `None` when they could not be
    /// loaded.
    pub repositories: Option<Vec<String>>,
    /// Its inbound GitHub integration, where it has one.
    pub integration: Option<Id>,
}

impl OrgCandidate {
    /// The organization owns a project at one of `urls`.
    pub open spec fn owns(self, urls: Seq<Seq<char>>) -> bool {
        self.repositories matches Some(repos) && shares_repository(views(repos@), urls)
    }
}

/// The integrations of the candidates that own a project at one of `urls`.
pub open spec fn target_ids(candidates: Seq<OrgCandidate>, urls: Seq<Seq<char>>) -> Seq<Id>
    decreases candidates.len(),
{
    if candidates.len() == 0 {
        Seq::empty()
    } else {
        let before = target_ids(candidates.drop_last(), urls);
        let c = candidates.last();
        match c.integration {
            Some(id) if c.owns(urls) => before.push(id),
            _ => before,
        }
    }
}

/// Resolve a GitHub App webhook to the set of inbound GitHub integrations whose
/// organization owns a project matching one of the webhook's `repository_urls`.
///
/// A single installation can serve several organizations; the repository gate
/// is what makes the correct subset fire.
pub fn resolve_github_app_targets(
    candidates: &Vec<OrgCandidate>,
    repository_urls: &Vec<String>,
) -> (r: Vec<Id>)
    ensures
        r@ == target_ids(candidates@, views(repository_urls@)),
{
    let mut out: Vec<Id> = Vec::new();
    let mut i: usize = 0;
    proof {
        assert(candidates@.take(0) =~= Seq::<OrgCandidate>::empty());
    }
    while i < candidates.len()
        invariant
            i <= candidates.len(),
            out@ == target_ids(candidates@.take(i as int), views(repository_urls@)),
        decreases candidates.len() - i,
    {
        let c = &candidates[i];
        let owns = match &c.repositories {
            Some(repos) => repositories_match(repos, repository_urls),
            None => false,
        };
        proof {
            assert(candidates@.take(i as int + 1).drop_last() =~= candidates@.take(i as int));
            assert(candidates@.take(i as int + 1).last() == candidates@[i as int]);
        }
        if owns {
            if let Some(id) = c.integration {
                out.push(id);
            }
        }
        i += 1;
    }
    proof {
        assert(candidates@.take(i as int) =~= candidates@);
    }
    out
}

/// An organization that does not own a project at one of the reported addresses
/// never adds a target: appending it changes nothing.
pub proof fn law_unrelated_org_is_no_target(
    candidates: Seq<OrgCandidate>,
    c: OrgCandidate,
    urls: Seq<Seq<char>>,
)
    requires
        !c.owns(urls),
    ensures
        target_ids(candidates.push(c), urls) == target_ids(candidates, urls),
{
    assert(candidates.push(c).drop_last() =~= candidates);
}

/// Every organization that owns a project at one of the reported addresses is a target, with
/// its integration; and nothing else is.
pub proof fn law_owning_orgs_are_the_targets(
    candidates: Vec<OrgCandidate>,
    urls: Vec<String>,
    r: Vec<Id>,
    id: Id,
)
    requires
        call_ensures(resolve_github_app_targets, (&candidates, &urls), r),
    ensures
        r@.contains(id) <==> exists|c: int|
            {
                &&& 0 <= c < candidates@.len()
                &&& (#[trigger] candidates@[c]).integration == Some(id)
                &&& candidates@[c].repositories matches Some(repos)
                &&& exists|i: int, j: int|
                    0 <= i < repos@.len() && 0 <= j < urls@.len() && canonical_url(
                        #[trigger] repos@[i]@,
                    ) == canonical_url(#[trigger] urls@[j]@)
            },
{
    lemma_target_ids(candidates@, views(urls@), id);
    assert forall|c: int| 0 <= c < candidates@.len() implies (#[trigger] candidates@[c]).owns(
        views(urls@),
    ) == (candidates@[c].repositories matches Some(repos) && exists|i: int, j: int|
        0 <= i < repos@.len() && 0 <= j < urls@.len() && canonical_url(#[trigger] repos@[i]@)
            == canonical_url(#[trigger] urls@[j]@)) by {
        if let Some(repos) = candidates@[c].repositories {
            lemma_shares_repository(repos@, urls@);
        }
    }
}

proof fn lemma_shares_repository(repos: Seq<String>, urls: Seq<String>)
    ensures
        shares_repository(views(repos), views(urls)) <==> exists|i: int, j: int|
            0 <= i < repos.len() && 0 <= j < urls.len() && canonical_url(#[trigger] repos[i]@)
                == canonical_url(#[trigger] urls[j]@),
{
    let rs = views(repos);
    let us = views(urls);
    if shares_repository(rs, us) {
        let (i, j) = choose|i: int, j: int|
            0 <= i < rs.len() && 0 <= j < us.len() && canonical_url(#[trigger] rs[i])
                == canonical_url(#[trigger] us[j]);
        assert(canonical_url(repos[i]@) == canonical_url(urls[j]@));
    }
    if exists|i: int, j: int|
        0 <= i < repos.len() && 0 <= j < urls.len() && canonical_url(#[trigger] repos[i]@)
            == canonical_url(#[trigger] urls[j]@) {
        let (i, j) = choose|i: int, j: int|
            0 <= i < repos.len() && 0 <= j < urls.len() && canonical_url(#[trigger] repos[i]@)
                == canonical_url(#[trigger] urls[j]@);
        assert(canonical_url(rs[i]) == canonical_url(us[j]));
    }
}

proof fn lemma_target_ids(candidates: Seq<OrgCandidate>, urls: Seq<Seq<char>>, id: Id)
    ensures
        target_ids(candidates, urls).contains(id) <==> exists|c: int|
            0 <= c < candidates.len() && (#[trigger] candidates[c]).integration == Some(id)
                && candidates[c].owns(urls),
    decreases candidates.len(),
{
    if candidates.len() > 0 {
        let less = candidates.drop_last();
        let before = target_ids(less, urls);
        let last = candidates.last();
        let n = candidates.len() - 1;
        lemma_target_ids(less, urls, id);
        if target_ids(candidates, urls).contains(id) {
            if before.contains(id) {
                let c = choose|c: int|
                    0 <= c < less.len() && (#[trigger] less[c]).integration == Some(id)
                        && less[c].owns(urls);
                assert(candidates[c] == less[c]);
            } else {
                let k = target_ids(candidates, urls).index_of(id);
                assert(k == before.len());
                assert(candidates[n] == last);
            }
        }
        if exists|c: int|
            0 <= c < candidates.len() && (#[trigger] candidates[c]).integration == Some(id)
                && candidates[c].owns(urls) {
            let c = choose|c: int|
                0 <= c < candidates.len() && (#[trigger] candidates[c]).integration == Some(id)
                    && candidates[c].owns(urls);
            if c < n {
                assert(less[c] == candidates[c]);
                let k = before.index_of(id);
                assert(target_ids(candidates, urls)[k] == id);
            } else {
                assert(target_ids(candidates, urls)[before.len() as int] == id);
            }
        }
    }
}

// ── Filters ──────────────────────────────────────────────────────────────────

/// The configuration of a trigger, as far as forge events read it.
pub enum TriggerConfig {
    ReporterPush { branches: Vec<String>, tags: Vec<String>, releases_only: bool },
    ReporterPullRequest { branches: Vec<String>, actions: Vec<String>, require_approval: bool },
    /// A trigger that no forge event fires.
    Other,
}

/// What a push is to.
#[derive(Clone, Copy)]
pub enum PushRefKind<'a> {
    Branch(&'a str),
    Tag(&'a str),
}

/// What a filter says of a trigger.
#[derive(Debug, Clone, Copy, PartialEq, Eq, Structural)]
pub enum FilterResult {
    /// Proceed to fire (push / release).
    Fire,
    /// Pull-request trigger matched; whether the approval gate engages depends
    /// on the pull request being from a fork.
    FirePr { require_approval: bool },
    /// The filter did not match: reported as skipped with reason "filter".
    SkipFilter,
    /// This trigger does not apply at all: silently ignored.
    Skip,
}

/// The verdict on a push.
pub open spec fn push_verdict(cfg: TriggerConfig, ref_kind: PushRefKind) -> FilterResult {
    match cfg {
        TriggerConfig::ReporterPush { branches, tags, releases_only } => {
            let matches = match ref_kind {
                PushRefKind::Branch(name) => glob_filter(views(branches@), name@),
                PushRefKind::Tag(name) => glob_filter(views(tags@), name@),
            };
            if releases_only {
                FilterResult::Skip
            } else if matches {
                FilterResult::Fire
            } else {
                FilterResult::SkipFilter
            }
        },
        _ => FilterResult::Skip,
    }
}

/// The verdict on a pull-request event.
pub open spec fn pr_verdict(
    cfg: TriggerConfig,
    branch: Option<Seq<char>>,
    action: Seq<char>,
) -> FilterResult {
    match cfg {
        TriggerConfig::ReporterPullRequest { branches, actions, require_approval } => {
            let on_branch = match branch {
                Some(b) => glob_filter(views(branches@), b),
                None => branches@.len() == 0,
            };
            if views(actions@).contains(action) && on_branch {
                FilterResult::FirePr { require_approval }
            } else {
                FilterResult::SkipFilter
            }
        },
        _ => FilterResult::Skip,
    }
}

/// The verdict on a release.
pub open spec fn release_verdict(cfg: TriggerConfig, tag: Option<Seq<char>>) -> FilterResult {
    match cfg {
        TriggerConfig::ReporterPush { branches, tags, releases_only } => {
            let matches = match tag {
                Some(t) => glob_filter(views(tags@), t),
                None => tags@.len() == 0,
            };
            if !releases_only {
                FilterResult::Skip
            } else if matches {
                FilterResult::Fire
            } else {
                FilterResult::SkipFilter
            }
        },
        _ => FilterResult::Skip,
    }
}

/// The view of an optional text.
pub open spec fn opt_str(s: Option<&str>) -> Option<Seq<char>> {
    match s {
        Some(t) => Some(t@),
        None => None,
    }
}

/// Whether a push fires a trigger.
pub fn filter_push(cfg: &TriggerConfig, ref_kind: PushRefKind) -> (r: FilterResult)
    ensures
        r == push_verdict(*cfg, ref_kind),
{
    match cfg {
        TriggerConfig::ReporterPush { branches, tags, releases_only } => {
            if *releases_only {
                return FilterResult::Skip;
            }
            let matches = match ref_kind {
                PushRefKind::Branch(name) => glob_matches(branches.as_slice(), name),
                PushRefKind::Tag(name) => glob_matches(tags.as_slice(), name),
            };
            if matches {
                FilterResult::Fire
            } else {
                FilterResult::SkipFilter
            }
        },
        _ => FilterResult::Skip,
    }
}

/// Whether a pull-request event fires a trigger.
pub fn filter_pull_request(cfg: &TriggerConfig, branch: Option<&str>, action: &str) -> (r:
    FilterResult)
    ensures
        r == pr_verdict(*cfg, opt_str(branch), action@),
{
    match cfg {
        TriggerConfig::ReporterPullRequest { branches, actions, require_approval } => {
            if !contains(actions, action) {
                return FilterResult::SkipFilter;
            }
            let matches = match branch {
                Some(b) => glob_matches(branches.as_slice(), b),
                None => branches.len() == 0,
            };
            if !matches {
                return FilterResult::SkipFilter;
            }
            FilterResult::FirePr { require_approval: *require_approval }
        },
        _ => FilterResult::Skip,
    }
}

/// Whether a release fires a trigger.
pub fn filter_release(cfg: &TriggerConfig, tag: Option<&str>) -> (r: FilterResult)
    ensures
        r == release_verdict(*cfg, opt_str(tag)),
{
    match cfg {
        TriggerConfig::ReporterPush { branches: _, tags, releases_only } => {
            if !*releases_only {
                return FilterResult::Skip;
            }
            let matches = match tag {
                Some(t) => glob_matches(tags.as_slice(), t),
                None => tags.len() == 0,
            };
            if matches {
                FilterResult::Fire
            } else {
                FilterResult::SkipFilter
            }
        },
        _ => FilterResult::Skip,
    }
}

/// No trigger answers to both a push and a release: a push trigger is either
/// for releases only, or for none of them.
pub proof fn law_push_and_release_are_disjoint(
    cfg: TriggerConfig,
    ref_kind: PushRefKind,
    tag: Option<Seq<char>>,
)
    ensures
        push_verdict(cfg, ref_kind) is Skip || release_verdict(cfg, tag) is Skip,
{
}

proof fn lemma_some_glob_matches(globs: Seq<String>, t: Seq<char>)
    ensures
        glob_filter(views(globs), t) <==> globs.len() == 0 || exists|i: int|
            0 <= i < globs.len() && glob_match(#[trigger] globs[i]@, t),
{
    let vs = views(globs);
    if exists|i: int| 0 <= i < vs.len() && glob_match(#[trigger] vs[i], t) {
        let i = choose|i: int| 0 <= i < vs.len() && glob_match(#[trigger] vs[i], t);
        assert(glob_match(globs[i]@, t));
    }
    if exists|i: int| 0 <= i < globs.len() && glob_match(#[trigger] globs[i]@, t) {
        let i = choose|i: int| 0 <= i < globs.len() && glob_match(#[trigger] globs[i]@, t);
        assert(glob_match(vs[i], t));
    }
}

proof fn lemma_among_views(items: Seq<String>, t: Seq<char>)
    ensures
        views(items).contains(t) <==> exists|k: int|
            0 <= k < items.len() && #[trigger] items[k]@ == t,
{
    let vs = views(items);
    if vs.contains(t) {
        let k = vs.index_of(t);
        assert(items[k]@ == t);
    }
    if exists|k: int| 0 <= k < items.len() && #[trigger] items[k]@ == t {
        let k = choose|k: int| 0 <= k < items.len() && #[trigger] items[k]@ == t;
        assert(vs[k] == t);
    }
}

/// A push trigger fires on the branches that one of its branch globs matches and on the tags
/// that one of its tag globs matches, on all of them where it has no such glob. A trigger for
/// releases only, or for anything else, does not answer to a push.
pub proof fn law_push_filter(cfg: TriggerConfig, ref_kind: PushRefKind, r: FilterResult)
    requires
        call_ensures(filter_push, (&cfg, ref_kind), r),
    ensures
        match cfg {
            TriggerConfig::ReporterPush { branches, tags, releases_only: false } => {
                let matches = match ref_kind {
                    PushRefKind::Branch(b) => branches@.len() == 0 || exists|i: int|
                        0 <= i < branches@.len() && glob_match(#[trigger] branches@[i]@, b@),
                    PushRefKind::Tag(t) => tags@.len() == 0 || exists|i: int|
                        0 <= i < tags@.len() && glob_match(#[trigger] tags@[i]@, t@),
                };
                if matches {
                    r == FilterResult::Fire
                } else {
                    r == FilterResult::SkipFilter
                }
            },
            _ => r == FilterResult::Skip,
        },
{
    if let TriggerConfig::ReporterPush { branches, tags, .. } = cfg {
        match ref_kind {
            PushRefKind::Branch(b) => lemma_some_glob_matches(branches@, b@),
            PushRefKind::Tag(t) => lemma_some_glob_matches(tags@, t@),
        }
    }
}

/// A pull-request trigger fires on the listed actions, and on the branches that one of its
/// globs matches: on every branch where it has none, and on an unknown branch only there.
/// Otherwise the project is reported as skipped by the filter.
pub proof fn law_pull_request_filter(
    cfg: TriggerConfig,
    branch: Option<&str>,
    action: &str,
    r: FilterResult,
)
    requires
        call_ensures(filter_pull_request, (&cfg, branch, action), r),
    ensures
        match cfg {
            TriggerConfig::ReporterPullRequest { branches, actions, require_approval } => {
                let listed = exists|k: int|
                    0 <= k < actions@.len() && #[trigger] actions@[k]@ == action@;
                let on_branch = branches@.len() == 0 || (branch is Some && exists|i: int|
                    0 <= i < branches@.len() && glob_match(#[trigger] branches@[i]@, branch->0@));
                if listed && on_branch {
                    r == (FilterResult::FirePr { require_approval })
                } else {
                    r == FilterResult::SkipFilter
                }
            },
            _ => r == FilterResult::Skip,
        },
{
    if let TriggerConfig::ReporterPullRequest { branches, actions, .. } = cfg {
        lemma_among_views(actions@, action@);
        if let Some(b) = branch {
            lemma_some_glob_matches(branches@, b@);
        }
    }
}

/// A release trigger fires on the tags that one of its tag globs matches: on every tag where it
/// has none, and on an unknown tag only there. A trigger that is not for releases only does not
/// answer to a release.
pub proof fn law_release_filter(cfg: TriggerConfig, tag: Option<&str>, r: FilterResult)
    requires
        call_ensures(filter_release, (&cfg, tag), r),
    ensures
        match cfg {
            TriggerConfig::ReporterPush { branches, tags, releases_only: true } => {
                if tags@.len() == 0 || (tag is Some && exists|i: int|
                    0 <= i < tags@.len() && glob_match(#[trigger] tags@[i]@, tag->0@)) {
                    r == FilterResult::Fire
                } else {
                    r == FilterResult::SkipFilter
                }
            },
            _ => r == FilterResult::Skip,
        },
{
    if let TriggerConfig::ReporterPush { tags, .. } = cfg {
        if let Some(t) = tag {
            lemma_some_glob_matches(tags@, t@);
        }
    }
}

/// A pull-request trigger with one branch pattern and no star in it fires on that branch and on
/// no other; a star at its end stands for every branch that begins with what is before it.
pub proof fn law_pull_request_branch_is_named(
    branches: Vec<String>,
    actions: Vec<String>,
    require_approval: bool,
    branch: &str,
    action: &str,
    r: FilterResult,
    p: Seq<char>,
)
    requires
        branches@.len() == 1,
        forall|i: int| 0 <= i < p.len() ==> p[i] != '*',
        call_ensures(
            filter_pull_request,
            (
                &(TriggerConfig::ReporterPullRequest { branches, actions, require_approval }),
                Some(branch),
                action,
            ),
            r,
        ),
    ensures
        branches@[0]@ == p && r is FirePr ==> branch@ == p,
        branches@[0]@ == p.push('*') && r is FirePr ==> branch@.len() >= p.len()
            && branch@.subrange(0, p.len() as int) == p,
        branches@[0]@ == p && branch@ != p ==> r is SkipFilter,
{
    let cfg = TriggerConfig::ReporterPullRequest { branches, actions, require_approval };
    law_pull_request_filter(cfg, Some(branch), action, r);
    crate::forge_hooks::glob::law_glob_literal(p, branch@);
    crate::forge_hooks::glob::law_glob_prefix(p, branch@);
}

// ── Approval gate ────────────────────────────────────────────────────────────

/// Pull-request metadata used by the approval gate.
pub struct PullRequestApprovalContext {
    pub pr_number: Option<u64>,
    pub pr_author: Option<String>,
    pub is_fork: Option<bool>,
}

/// The pull request that an evaluation waits for.
#[derive(Debug, PartialEq, Eq)]
pub struct ApprovalInfo {
    pub pr_number: u64,
    pub pr_author: String,
}

/// Resolves whether a pull-request fire should be gated on maintainer approval.
///
/// Fail-closed: returns `Some(ApprovalInfo)` whenever the pull request is (or
/// might be) from a fork. Same-repo pull requests (`is_fork == Some(false)`)
/// need no approval.
pub fn decide_pr_gate(ctx: Option<&PullRequestApprovalContext>) -> (r: Option<ApprovalInfo>)
    ensures
        match ctx {
            None => r is None,
            Some(c) => if c.is_fork == Some(false) {
                r is None
            } else {
                r matches Some(info) && info.pr_number == (match c.pr_number {
                    Some(n) => n,
                    None => 0,
                }) && info.pr_author@ == (match c.pr_author {
                    Some(a) => a@,
                    None => Seq::empty(),
                })
            },
        },
{
    match ctx {
        None => None,
        Some(c) => {
            if let Some(false) = c.is_fork {
                return None;
            }
            let pr_number: u64 = match c.pr_number {
                Some(n) => n,
                None => 0,
            };
            let pr_author = match &c.pr_author {
                Some(a) => a.clone(),
                None => String::new(),
            };
            Some(ApprovalInfo { pr_number, pr_author })
        },
    }
}

/// What to do about one trigger.
#[derive(Debug, PartialEq, Eq)]
pub enum TriggerPlan {
    /// Nothing.
    Ignore,
    /// Report the project as skipped by the filter.
    Filtered,
    /// Queue an evaluation, parked until `gate` is approved where there is one.
    Fire { gate: Option<ApprovalInfo> },
}

/// `r` is what to do about a trigger on which the filter said `verdict`; `ctx` is
/// there for a pull-request event.
pub open spec fn is_plan(
    r: TriggerPlan,
    verdict: FilterResult,
    ctx: Option<&PullRequestApprovalContext>,
) -> bool {
    &&& r is Ignore <==> verdict is Skip
    &&& r is Filtered <==> verdict is SkipFilter
    &&& r is Fire <==> verdict is Fire || verdict is FirePr
    &&& r matches TriggerPlan::Fire { gate } ==> {
        &&& gate is Some <==> verdict == (FilterResult::FirePr { require_approval: true }) && ctx
            is Some && ctx->0.is_fork != Some(false)
        &&& gate matches Some(info) ==> {
            &&& info.pr_number == (match ctx->0.pr_number {
                Some(n) => n,
                None => 0,
            })
            &&& info.pr_author@ == (match ctx->0.pr_author {
                Some(a) => a@,
                None => Seq::empty(),
            })
        }
    }
}

/// What to do about a trigger on which the filter said `verdict`; `ctx` is there
/// for a pull-request event.
pub fn plan_trigger(verdict: FilterResult, ctx: Option<&PullRequestApprovalContext>) -> (r:
    TriggerPlan)
    ensures
        is_plan(r, verdict, ctx),
{
    match verdict {
        FilterResult::Skip => TriggerPlan::Ignore,
        FilterResult::SkipFilter => TriggerPlan::Filtered,
        FilterResult::Fire => TriggerPlan::Fire { gate: None },
        FilterResult::FirePr { require_approval } => {
            if require_approval {
                TriggerPlan::Fire { gate: decide_pr_gate(ctx) }
            } else {
                TriggerPlan::Fire { gate: None }
            }
        },
    }
}

/// Where a trigger requires approval, a pull request that is, or might be, from a fork
/// never runs without it.
pub proof fn law_forks_wait_for_approval(
    r: TriggerPlan,
    cfg: TriggerConfig,
    branch: Option<Seq<char>>,
    action: Seq<char>,
    ctx: &PullRequestApprovalContext,
)
    requires
        cfg matches TriggerConfig::ReporterPullRequest { require_approval: true, .. },
        ctx.is_fork != Some(false),
        is_plan(r, pr_verdict(cfg, branch, action), Some(ctx)),
    ensures
        r matches TriggerPlan::Fire { gate } ==> gate is Some,
{
}

/// The verdict on the push `event`.
pub open spec fn push_event_verdict(cfg: TriggerConfig, event: ParsedPushEvent) -> FilterResult {
    match cfg {
        TriggerConfig::ReporterPush { branches, tags, releases_only } => if releases_only {
            FilterResult::Skip
        } else if glob_filter(
            views(
                if event.is_tag {
                    tags@
                } else {
                    branches@
                },
            ),
            event.ref_name@,
        ) {
            FilterResult::Fire
        } else {
            FilterResult::SkipFilter
        },
        _ => FilterResult::Skip,
    }
}

/// What a push does about each active trigger of an integration, by its
/// configuration; a configuration that could not be read is `None`.
pub fn trigger_push_for_integration(
    configs: &Vec<Option<TriggerConfig>>,
    event: &ParsedPushEvent,
) -> (r: Vec<TriggerPlan>)
    ensures
        r@.len() == configs@.len(),
        forall|i: int|
            0 <= i < r@.len() ==> match configs@[i] {
                Some(cfg) => is_plan(#[trigger] r@[i], push_event_verdict(cfg, *event), None),
                None => r@[i] is Ignore,
            },
{
    let ref_kind = if event.is_tag {
        PushRefKind::Tag(event.ref_name.as_str())
    } else {
        PushRefKind::Branch(event.ref_name.as_str())
    };
    let mut out: Vec<TriggerPlan> = Vec::new();
    let mut i: usize = 0;
    while i < configs.len()
        invariant
            i <= configs.len(),
            out@.len() == i,
            ref_kind == (if event.is_tag {
                PushRefKind::Tag(ref_kind->Tag_0)
            } else {
                PushRefKind::Branch(ref_kind->Branch_0)
            }),
            event.is_tag ==> ref_kind->Tag_0@ == event.ref_name@,
            !event.is_tag ==> ref_kind->Branch_0@ == event.ref_name@,
            forall|j: int|
                0 <= j < i ==> match configs@[j] {
                    Some(cfg) => is_plan(#[trigger] out@[j], push_event_verdict(cfg, *event), None),
                    None => out@[j] is Ignore,
                },
        decreases configs.len() - i,
    {
        let plan = match &configs[i] {
            Some(cfg) => plan_trigger(filter_push(cfg, ref_kind), None),
            None => TriggerPlan::Ignore,
        };
        out.push(plan);
        i += 1;
    }
    out
}

/// What is known of a pull request for its approval. A payload that does not tell
/// leaves it open.
pub fn approval_context_from(
    pr_number: Option<u64>,
    pr_author: Option<String>,
    is_fork: Option<bool>,
) -> (r: PullRequestApprovalContext)
    ensures
        r == (PullRequestApprovalContext { pr_number, pr_author, is_fork }),
{
    PullRequestApprovalContext { pr_number, pr_author, is_fork }
}

/// What a pull-request event does about each active trigger of an integration, by its
/// configuration; a configuration that could not be read is `None`.
pub fn trigger_pr_for_integration(
    configs: &Vec<Option<TriggerConfig>>,
    event: &ParsedPullRequestEvent,
    approval: &PullRequestApprovalContext,
) -> (r: Vec<TriggerPlan>)
    ensures
        r@.len() == configs@.len(),
        forall|i: int|
            0 <= i < r@.len() ==> match configs@[i] {
                Some(cfg) => is_plan(
                    #[trigger] r@[i],
                    pr_verdict(cfg, opt_view(event.branch), event.action@),
                    Some(approval),
                ),
                None => r@[i] is Ignore,
            },
{
    let branch = match &event.branch {
        Some(b) => Some(b.as_str()),
        None => None,
    };
    assert(opt_str(branch) == opt_view(event.branch));
    let mut out: Vec<TriggerPlan> = Vec::new();
    let mut i: usize = 0;
    while i < configs.len()
        invariant
            i <= configs.len(),
            out@.len() == i,
            opt_str(branch) == opt_view(event.branch),
            forall|j: int|
                0 <= j < i ==> match configs@[j] {
                    Some(cfg) => is_plan(
                        #[trigger] out@[j],
                        pr_verdict(cfg, opt_view(event.branch), event.action@),
                        Some(approval),
                    ),
                    None => out@[j] is Ignore,
                },
        decreases configs.len() - i,
    {
        let plan = match &configs[i] {
            Some(cfg) => plan_trigger(
                filter_pull_request(cfg, branch, event.action.as_str()),
                Some(approval),
            ),
            None => TriggerPlan::Ignore,
        };
        out.push(plan);
        i += 1;
    }
    out
}

/// What a release does about each active trigger of an integration, by its
/// configuration; a configuration that could not be read is `None`.
pub fn trigger_release_for_integration(
    configs: &Vec<Option<TriggerConfig>>,
    event: &ParsedReleaseEvent,
) -> (r: Vec<TriggerPlan>)
    ensures
        r@.len() == configs@.len(),
        forall|i: int|
            0 <= i < r@.len() ==> match configs@[i] {
                Some(cfg) => is_plan(
                    #[trigger] r@[i],
                    release_verdict(cfg, opt_view(event.tag)),
                    None,
                ),
                None => r@[i] is Ignore,
            },
{
    let tag = match &event.tag {
        Some(t) => Some(t.as_str()),
        None => None,
    };
    assert(opt_str(tag) == opt_view(event.tag));
    let mut out: Vec<TriggerPlan> = Vec::new();
    let mut i: usize = 0;
    while i < configs.len()
        invariant
            i <= configs.len(),
            out@.len() == i,
            opt_str(tag) == opt_view(event.tag),
            forall|j: int|
                0 <= j < i ==> match configs@[j] {
                    Some(cfg) => is_plan(
                        #[trigger] out@[j],
                        release_verdict(cfg, opt_view(event.tag)),
                        None,
                    ),
                    None => out@[j] is Ignore,
                },
        decreases configs.len() - i,
    {
        let plan = match &configs[i] {
            Some(cfg) => plan_trigger(filter_release(cfg, tag), None),
            None => TriggerPlan::Ignore,
        };
        out.push(plan);
        i += 1;
    }
    out
}

/// What a push comes to for the trigger at `i`: an evaluation that waits for nobody where a
/// glob for its kind of ref matches, a report that the filter refused it where none does, and
/// nothing where the trigger is for something else.
pub proof fn law_push_reaches_matching_triggers(
    configs: Vec<Option<TriggerConfig>>,
    event: ParsedPushEvent,
    r: Vec<TriggerPlan>,
    i: int,
)
    requires
        call_ensures(trigger_push_for_integration, (&configs, &event), r),
        0 <= i < configs@.len(),
    ensures
        r@.len() == configs@.len(),
        match configs@[i] {
            Some(TriggerConfig::ReporterPush { branches, tags, releases_only: false }) => {
                let matches = if event.is_tag {
                    tags@.len() == 0 || exists|k: int|
                        0 <= k < tags@.len() && glob_match(#[trigger] tags@[k]@, event.ref_name@)
                } else {
                    branches@.len() == 0 || exists|k: int|
                        0 <= k < branches@.len() && glob_match(
                            #[trigger] branches@[k]@,
                            event.ref_name@,
                        )
                };
                if matches {
                    r@[i] == (TriggerPlan::Fire { gate: None })
                } else {
                    r@[i] == TriggerPlan::Filtered
                }
            },
            _ => r@[i] == TriggerPlan::Ignore,
        },
{
    if let Some(cfg) = configs@[i] {
        assert(is_plan(r@[i], push_event_verdict(cfg, event), None));
        if let TriggerConfig::ReporterPush { branches, tags, .. } = cfg {
            lemma_some_glob_matches(tags@, event.ref_name@);
            lemma_some_glob_matches(branches@, event.ref_name@);
        }
    } else {
        assert(r@[i] is Ignore);
    }
}

/// What a pull-request event comes to for the trigger at `i`: an evaluation where the action is
/// listed and a glob matches the branch, a report that the filter refused it otherwise, nothing
/// where the trigger is for something else. The evaluation waits for the pull request's
/// approval where the trigger asks for one, unless the pull request is known to be no fork.
pub proof fn law_pull_request_reaches_matching_triggers(
    configs: Vec<Option<TriggerConfig>>,
    event: ParsedPullRequestEvent,
    approval: PullRequestApprovalContext,
    r: Vec<TriggerPlan>,
    i: int,
)
    requires
        call_ensures(trigger_pr_for_integration, (&configs, &event, &approval), r),
        0 <= i < configs@.len(),
    ensures
        r@.len() == configs@.len(),
        match configs@[i] {
            Some(
                TriggerConfig::ReporterPullRequest { branches, actions, require_approval },
            ) => {
                let listed = exists|k: int|
                    0 <= k < actions@.len() && #[trigger] actions@[k]@ == event.action@;
                let on_branch = branches@.len() == 0 || (event.branch is Some && exists|k: int|
                    0 <= k < branches@.len() && glob_match(
                        #[trigger] branches@[k]@,
                        event.branch->0@,
                    ));
                if !(listed && on_branch) {
                    r@[i] == TriggerPlan::Filtered
                } else if require_approval && approval.is_fork != Some(false) {
                    &&& r@[i] matches TriggerPlan::Fire { gate: Some(info) }
                    &&& approval.pr_number is Some ==> info.pr_number == approval.pr_number->0
                    &&& approval.pr_number is None ==> info.pr_number == 0
                    &&& approval.pr_author is Some ==> info.pr_author@ == approval.pr_author->0@
                    &&& approval.pr_author is None ==> info.pr_author@.len() == 0
                } else {
                    r@[i] == (TriggerPlan::Fire { gate: None })
                }
            },
            _ => r@[i] == TriggerPlan::Ignore,
        },
{
    if let Some(cfg) = configs@[i] {
        assert(is_plan(
            r@[i],
            pr_verdict(cfg, opt_view(event.branch), event.action@),
            Some(&approval),
        ));
        if let TriggerConfig::ReporterPullRequest { branches, actions, .. } = cfg {
            lemma_among_views(actions@, event.action@);
            if let Some(b) = event.branch {
                lemma_some_glob_matches(branches@, b@);
            }
        }
    } else {
        assert(r@[i] is Ignore);
    }
}

/// What a release comes to for the trigger at `i`: an evaluation that waits for nobody where a
/// tag glob matches, a report that the filter refused it where none does, and nothing where the
/// trigger is not for releases.
pub proof fn law_release_reaches_matching_triggers(
    configs: Vec<Option<TriggerConfig>>,
    event: ParsedReleaseEvent,
    r: Vec<TriggerPlan>,
    i: int,
)
    requires
        call_ensures(trigger_release_for_integration, (&configs, &event), r),
        0 <= i < configs@.len(),
    ensures
        r@.len() == configs@.len(),
        match configs@[i] {
            Some(TriggerConfig::ReporterPush { branches, tags, releases_only: true }) => {
                if tags@.len() == 0 || (event.tag is Some && exists|k: int|
                    0 <= k < tags@.len() && glob_match(#[trigger] tags@[k]@, event.tag->0@)) {
                    r@[i] == (TriggerPlan::Fire { gate: None })
                } else {
                    r@[i] == TriggerPlan::Filtered
                }
            },
            _ => r@[i] == TriggerPlan::Ignore,
        },
{
    if let Some(cfg) = configs@[i] {
        assert(is_plan(r@[i], release_verdict(cfg, opt_view(event.tag)), None));
        if let TriggerConfig::ReporterPush { tags, .. } = cfg {
            if let Some(t) = event.tag {
                lemma_some_glob_matches(tags@, t@);
            }
        }
    } else {
        assert(r@[i] is Ignore);
    }
}

// ── Fan-out ──────────────────────────────────────────────────────────────────

/// What queueing an evaluation came to.
pub enum ApplyReport {
    Created { evaluation_id: Id },
    SkippedSameCommit,
    SkippedConcurrency,
    Failed,
}

/// What became of one trigger of the fan-out.
pub enum TriggerReport {
    /// Its configuration could not be read, it does not apply, or its project is
    /// gone.
    Ignored,
    /// The filter refused it; name and organization of its project, as far as
    /// they could be found.
    Filtered { project_id: Id, project_name: Option<String>, organization: Option<String> },
    /// Queueing an evaluation was tried.
    Applied { project_id: Id, name: String, organization: Option<String>, result: ApplyReport },
}

/// What became of a trigger that was dealt with as planned. `name` is the name of
/// its project, which is gone where there is none; `result` is what queueing an
/// evaluation came to, where that was planned.
pub fn trigger_report(
    plan: &TriggerPlan,
    project_id: Id,
    name: Option<String>,
    organization: Option<String>,
    result: ApplyReport,
) -> (r: TriggerReport)
    ensures
        r == match (plan, name) {
            (TriggerPlan::Ignore, _) => TriggerReport::Ignored,
            (TriggerPlan::Filtered, _) => TriggerReport::Filtered {
                project_id,
                project_name: name,
                organization,
            },
            (TriggerPlan::Fire { .. }, None) => TriggerReport::Ignored,
            (TriggerPlan::Fire { .. }, Some(n)) => TriggerReport::Applied {
                project_id,
                name: n,
                organization,
                result,
            },
        },
{
    match plan {
        TriggerPlan::Ignore => TriggerReport::Ignored,
        TriggerPlan::Filtered => TriggerReport::Filtered {
            project_id,
            project_name: name,
            organization,
        },
        TriggerPlan::Fire { .. } => match name {
            None => TriggerReport::Ignored,
            Some(n) => TriggerReport::Applied { project_id, name: n, organization, result },
        },
    }
}

/// The row of a trigger after its report. Every trigger that was applied is stamped,
/// whatever came of it (created, skipped or failed); the others keep their stamp.
pub fn touch_trigger_last_fired(trigger: TriggerRow, report: &TriggerReport, now: Timestamp) -> (r:
    TriggerRow)
    ensures
        r == (if report.scans() {
            TriggerRow { last_fired_at: Some(now), updated_at: now, ..trigger }
        } else {
            trigger
        }),
{
    let mut row = trigger;
    if let TriggerReport::Applied { .. } = report {
        row.last_fired_at = Some(now);
        row.updated_at = now;
    }
    row
}

/// The text of an optional string, empty where there is none.
pub open spec fn or_empty(s: Option<Seq<char>>) -> Seq<char> {
    match s {
        Some(t) => t,
        None => Seq::empty(),
    }
}

fn unwrap_or_empty(s: &Option<String>) -> (r: String)
    ensures
        r@ == or_empty(opt_view(*s)),
{
    match s {
        Some(t) => t.clone(),
        None => String::new(),
    }
}

/// Name and organization of a project in a report: both empty when the project
/// is unknown, the organization empty when only that is.
pub open spec fn identity(name: Option<Seq<char>>, org: Option<Seq<char>>) -> (
    Seq<char>,
    Seq<char>,
) {
    match name {
        Some(n) => (n, or_empty(org)),
        None => (Seq::empty(), Seq::empty()),
    }
}

/// Name and organization of a project in a report.
pub fn project_identity(name: &Option<String>, org: &Option<String>) -> (r: (String, String))
    ensures
        (r.0@, r.1@) == identity(opt_view(*name), opt_view(*org)),
{
    match name {
        Some(n) => (n.clone(), unwrap_or_empty(org)),
        None => (String::new(), String::new()),
    }
}

impl TriggerReport {
    /// The report counts a project as scanned.
    pub open spec fn scans(self) -> bool {
        self is Applied
    }

    /// The evaluation that the report queued.
    pub open spec fn queued(self) -> Option<QueuedModel> {
        match self {
            TriggerReport::Applied {
                project_id,
                name,
                organization,
                result: ApplyReport::Created { evaluation_id },
            } => Some(
                QueuedModel {
                    project_id,
                    project_name: name@,
                    organization: or_empty(opt_view(organization)),
                    evaluation_id,
                },
            ),
            _ => None,
        }
    }

    /// The project that the report skipped, and why.
    pub open spec fn skipped(self) -> Option<SkippedModel> {
        match self {
            TriggerReport::Filtered { project_id, project_name, organization } => {
                let (name, org) = identity(opt_view(project_name), opt_view(organization));
                Some(
                    SkippedModel {
                        project_id,
                        project_name: name,
                        organization: org,
                        reason: "filter"@,
                    },
                )
            },
            TriggerReport::Applied { project_id, name, organization, result } => {
                let model = |reason: Seq<char>|
                    Some(
                        SkippedModel {
                            project_id,
                            project_name: name@,
                            organization: or_empty(opt_view(organization)),
                            reason,
                        },
                    );
                match result {
                    ApplyReport::Created { .. } => None,
                    ApplyReport::SkippedSameCommit => model("same_commit"@),
                    ApplyReport::SkippedConcurrency => model("concurrency"@),
                    ApplyReport::Failed => model("error"@),
                }
            },
            TriggerReport::Ignored => None,
        }
    }
}

/// The number of projects that the reports scanned.
pub open spec fn scanned_count(reports: Seq<TriggerReport>) -> nat
    decreases reports.len(),
{
    if reports.len() == 0 {
        0
    } else {
        scanned_count(reports.drop_last()) + if reports.last().scans() {
            1nat
        } else {
            0nat
        }
    }
}

/// The evaluations that the reports queued, in order.
pub open spec fn all_queued(reports: Seq<TriggerReport>) -> Seq<QueuedModel>
    decreases reports.len(),
{
    if reports.len() == 0 {
        Seq::empty()
    } else {
        match reports.last().queued() {
            Some(q) => all_queued(reports.drop_last()).push(q),
            None => all_queued(reports.drop_last()),
        }
    }
}

/// The projects that the reports skipped, in order.
pub open spec fn all_skipped(reports: Seq<TriggerReport>) -> Seq<SkippedModel>
    decreases reports.len(),
{
    if reports.len() == 0 {
        Seq::empty()
    } else {
        match reports.last().skipped() {
            Some(q) => all_skipped(reports.drop_last()).push(q),
            None => all_skipped(reports.drop_last()),
        }
    }
}

fn queue(
    outcome: &mut WebhookTriggerOutcome,
    project_id: Id,
    project_name: &String,
    organization: String,
    evaluation_id: Id,
)
    ensures
        final(outcome).projects_scanned == old(outcome).projects_scanned,
        final(outcome).skipped_models() == old(outcome).skipped_models(),
        final(outcome).queued_models() == old(outcome).queued_models().push(
            QueuedModel {
                project_id,
                project_name: project_name@,
                organization: organization@,
                evaluation_id,
            },
        ),
{
    outcome.queued.push(
        QueuedEvaluation {
            project_id,
            project_name: project_name.clone(),
            organization,
            evaluation_id,
        },
    );
    assert(outcome.queued_models() =~= old(outcome).queued_models().push(
        QueuedModel {
            project_id,
            project_name: project_name@,
            organization: organization@,
            evaluation_id,
        },
    ));
}

fn leave_out(
    outcome: &mut WebhookTriggerOutcome,
    project_id: Id,
    project_name: String,
    organization: String,
    reason: &str,
)
    ensures
        final(outcome).projects_scanned == old(outcome).projects_scanned,
        final(outcome).queued_models() == old(outcome).queued_models(),
        final(outcome).skipped_models() == old(outcome).skipped_models().push(
            SkippedModel {
                project_id,
                project_name: project_name@,
                organization: organization@,
                reason: reason@,
            },
        ),
{
    outcome.skipped.push(
        SkippedProject { project_id, project_name, organization, reason: reason.to_owned() },
    );
    assert(outcome.skipped_models() =~= old(outcome).skipped_models().push(
        SkippedModel {
            project_id,
            project_name: project_name@,
            organization: organization@,
            reason: reason@,
        },
    ));
}

/// Assembles the outcome of a webhook from what became of each trigger.
pub fn fan_out_triggers(reports: &Vec<TriggerReport>) -> (r: WebhookTriggerOutcome)
    ensures
        r.projects_scanned == scanned_count(reports@),
        r.queued_models() == all_queued(reports@),
        r.skipped_models() == all_skipped(reports@),
{
    let mut outcome = WebhookTriggerOutcome::default();
    let mut i: usize = 0;
    proof {
        assert(reports@.take(0) =~= Seq::<TriggerReport>::empty());
    }
    while i < reports.len()
        invariant
            i <= reports.len(),
            outcome.projects_scanned == scanned_count(reports@.take(i as int)),
            outcome.projects_scanned <= i,
            outcome.queued_models() == all_queued(reports@.take(i as int)),
            outcome.skipped_models() == all_skipped(reports@.take(i as int)),
        decreases reports.len() - i,
    {
        proof {
            assert(reports@.take(i as int + 1).drop_last() =~= reports@.take(i as int));
            assert(reports@.take(i as int + 1).last() == reports@[i as int]);
        }
        match &reports[i] {
            TriggerReport::Ignored => {},
            TriggerReport::Filtered { project_id, project_name, organization } => {
                let (name, org) = project_identity(project_name, organization);
                leave_out(&mut outcome, *project_id, name, org, "filter");
            },
            TriggerReport::Applied { project_id, name, organization, result } => {
                outcome.projects_scanned += 1;
                let org = unwrap_or_empty(organization);
                match result {
                    ApplyReport::Created { evaluation_id } => {
                        queue(&mut outcome, *project_id, name, org, *evaluation_id);
                    },
                    ApplyReport::SkippedSameCommit => {
                        leave_out(
                            &mut outcome,
                            *project_id,
                            name.clone(),
                            org,
                            "same_commit",
                        );
                    },
                    ApplyReport::SkippedConcurrency => {
                        leave_out(
                            &mut outcome,
                            *project_id,
                            name.clone(),
                            org,
                            "concurrency",
                        );
                    },
                    ApplyReport::Failed => {
                        leave_out(&mut outcome, *project_id, name.clone(), org, "error");
                    },
                }
            },
        }
        i += 1;
    }
    proof {
        assert(reports@.take(i as int) =~= reports@);
    }
    outcome
}

/// The number of reports that the filter refused.
pub open spec fn filtered_count(reports: Seq<TriggerReport>) -> nat
    decreases reports.len(),
{
    if reports.len() == 0 {
        0
    } else {
        filtered_count(reports.drop_last()) + if reports.last() is Filtered {
            1nat
        } else {
            0nat
        }
    }
}

/// Every scanned project is accounted for: it is queued or skipped, and what is
/// skipped without being scanned was refused by a filter.
pub proof fn law_fan_out_accounts_for_every_project(reports: Seq<TriggerReport>)
    ensures
        all_queued(reports).len() + all_skipped(reports).len() == scanned_count(reports)
            + filtered_count(reports),
    decreases reports.len(),
{
    if reports.len() > 0 {
        law_fan_out_accounts_for_every_project(reports.drop_last());
    }
}

/// What one more report adds to the outcome: nothing where it was ignored; a skipped project
/// with the reason `filter` where the filter refused it; otherwise a scanned project and with
/// it a queued evaluation, or a skipped project with its reason.
pub proof fn law_fan_out_adds_each_report(
    before: Vec<TriggerReport>,
    x: TriggerReport,
    after: Vec<TriggerReport>,
    r: WebhookTriggerOutcome,
    s: WebhookTriggerOutcome,
)
    requires
        after@ == before@.push(x),
        call_ensures(fan_out_triggers, (&before,), r),
        call_ensures(fan_out_triggers, (&after,), s),
    ensures
        match x {
            TriggerReport::Ignored => {
                &&& s.projects_scanned == r.projects_scanned
                &&& s.queued_models() == r.queued_models()
                &&& s.skipped_models() == r.skipped_models()
            },
            TriggerReport::Filtered { project_id, project_name, organization } => {
                let last = s.skipped_models().last();
                &&& s.projects_scanned == r.projects_scanned
                &&& s.queued_models() == r.queued_models()
                &&& s.skipped_models() == r.skipped_models().push(last)
                &&& last.project_id == project_id
                &&& last.reason == "filter"@
                &&& project_name is Some ==> last.project_name == project_name->0@
                &&& project_name is None ==> last.project_name.len() == 0
                    && last.organization.len() == 0
                &&& project_name is Some && organization is Some ==> last.organization
                    == organization->0@
                &&& organization is None ==> last.organization.len() == 0
            },
            TriggerReport::Applied {
                project_id,
                name,
                organization,
                result: ApplyReport::Created { evaluation_id },
            } => {
                let last = s.queued_models().last();
                &&& s.projects_scanned == r.projects_scanned + 1
                &&& s.skipped_models() == r.skipped_models()
                &&& s.queued_models() == r.queued_models().push(last)
                &&& last.project_id == project_id
                &&& last.project_name == name@
                &&& last.evaluation_id == evaluation_id
                &&& organization is Some ==> last.organization == organization->0@
                &&& organization is None ==> last.organization.len() == 0
            },
            TriggerReport::Applied { project_id, name, organization, result } => {
                let last = s.skipped_models().last();
                &&& s.projects_scanned == r.projects_scanned + 1
                &&& s.queued_models() == r.queued_models()
                &&& s.skipped_models() == r.skipped_models().push(last)
                &&& last.project_id == project_id
                &&& last.project_name == name@
                &&& organization is Some ==> last.organization == organization->0@
                &&& organization is None ==> last.organization.len() == 0
                &&& result is SkippedSameCommit ==> last.reason == "same_commit"@
                &&& result is SkippedConcurrency ==> last.reason == "concurrency"@
                &&& result is Failed ==> last.reason == "error"@
            },
        },
{
    assert(after@.drop_last() =~= before@);
}

/// Without a report the outcome is empty.
pub proof fn law_fan_out_of_no_report(none: Vec<TriggerReport>, r: WebhookTriggerOutcome)
    requires
        none@.len() == 0,
        call_ensures(fan_out_triggers, (&none,), r),
    ensures
        r.projects_scanned == 0,
        r.queued@.len() == 0,
        r.skipped@.len() == 0,
{
    assert(r.queued_models().len() == r.queued@.len());
    assert(r.skipped_models().len() == r.skipped@.len());
}

/// What a plan comes to: an ignored trigger, or one whose project is gone before it fires, is
/// reported as ignored; a filtered one as filtered; a fired one with what queueing came to. Only
/// the fired ones are stamped.
pub proof fn law_only_fired_triggers_are_stamped(
    plan: TriggerPlan,
    project_id: Id,
    name: Option<String>,
    organization: Option<String>,
    result: ApplyReport,
    report: TriggerReport,
    trigger: TriggerRow,
    now: Timestamp,
    row: TriggerRow,
)
    requires
        call_ensures(trigger_report, (&plan, project_id, name, organization, result), report),
        call_ensures(touch_trigger_last_fired, (trigger, &report, now), row),
    ensures
        report is Applied <==> plan is Fire && name is Some,
        report is Filtered <==> plan is Filtered,
        report matches TriggerReport::Applied {
            project_id: p,
            name: n,
            organization: o,
            result: res,
        } ==> p == project_id && Some(n) == name && o == organization && res == result,
        report matches TriggerReport::Filtered { project_id: p, project_name: n, organization: o }
            ==> p == project_id && n == name && o == organization,
        plan is Fire && name is Some ==> row.last_fired_at == Some(now) && row.updated_at == now
            && row == (TriggerRow {
            last_fired_at: row.last_fired_at,
            updated_at: row.updated_at,
            ..trigger
        }),
        !(plan is Fire && name is Some) ==> row == trigger,
{
}

// ── Pushes without a configured trigger ──────────────────────────────────────

/// `s` without every `.git` at its end.
pub open spec fn without_dot_gits(s: Seq<char>) -> Seq<char>
    decreases s.len(),
{
    if ends_with(s, ".git"@) && ".git"@.len() > 0 {
        without_dot_gits(s.subrange(0, s.len() - ".git"@.len()))
    } else {
        s
    }
}

fn trim_dot_gits(s: &str) -> (r: &str)
    ensures
        r@ == without_dot_gits(s@),
{
    proof {
        reveal_strlit(".git");
    }
    let mut rest = s;
    loop
        invariant
            ".git"@.len() == 4,
            without_dot_gits(s@) == without_dot_gits(rest@),
        decreases rest@.len(),
    {
        match strip_suffix(rest, ".git") {
            Some(t) => {
                rest = t;
            },
            None => {
                return rest;
            },
        }
    }
}

/// Some of `urls` is `repository`, but for `.git` at the ends.
pub open spec fn names_repository(urls: Seq<Seq<char>>, repository: Seq<char>) -> bool {
    exists|i: int|
        0 <= i < urls.len() && without_dot_gits(#[trigger] urls[i]) == without_dot_gits(repository)
}

/// Whether a push reported at `candidate_urls` concerns the project whose
/// repository is `repository`.
pub fn push_concerns(candidate_urls: &Vec<String>, repository: &str) -> (r: bool)
    ensures
        r == names_repository(views(candidate_urls@), repository@),
{
    let own = trim_dot_gits(repository);
    let mut i: usize = 0;
    while i < candidate_urls.len()
        invariant
            i <= candidate_urls.len(),
            own@ == without_dot_gits(repository@),
            forall|j: int|
                0 <= j < i ==> without_dot_gits(#[trigger] views(candidate_urls@)[j]) != own@,
        decreases candidate_urls.len() - i,
    {
        if same(trim_dot_gits(candidate_urls[i].as_str()), own) {
            assert(without_dot_gits(views(candidate_urls@)[i as int]) == own@);
            return true;
        }
        i += 1;
    }
    false
}

/// A project that a push may start.
pub struct PushProject {
    pub id: Id,
    pub repository: String,
    pub active: bool,
}

/// The active projects at one of `urls`, in order.
pub open spec fn projects_at(projects: Seq<PushProject>, urls: Seq<Seq<char>>) -> Seq<Id>
    decreases projects.len(),
{
    if projects.len() == 0 {
        Seq::empty()
    } else {
        let before = projects_at(projects.drop_last(), urls);
        let p = projects.last();
        if p.active && names_repository(urls, p.repository@) {
            before.push(p.id)
        } else {
            before
        }
    }
}

/// Finds all active projects whose repository URL matches any of
/// `candidate_urls`; an evaluation is queued for each one.
pub fn trigger_for_repo_urls(projects: &Vec<PushProject>, candidate_urls: &Vec<String>) -> (r: Vec<
    Id,
>)
    ensures
        r@ == projects_at(projects@, views(candidate_urls@)),
{
    let mut out: Vec<Id> = Vec::new();
    let mut i: usize = 0;
    proof {
        assert(projects@.take(0) =~= Seq::<PushProject>::empty());
    }
    while i < projects.len()
        invariant
            i <= projects.len(),
            out@ == projects_at(projects@.take(i as int), views(candidate_urls@)),
        decreases projects.len() - i,
    {
        let p = &projects[i];
        proof {
            assert(projects@.take(i as int + 1).drop_last() =~= projects@.take(i as int));
            assert(projects@.take(i as int + 1).last() == projects@[i as int]);
        }
        if p.active && push_concerns(candidate_urls, p.repository.as_str()) {
            out.push(p.id);
        }
        i += 1;
    }
    proof {
        assert(projects@.take(i as int) =~= projects@);
    }
    out
}

/// Exactly the active projects whose repository is one of the addresses, but for `.git` at the
/// ends, are started.
pub proof fn law_push_starts_projects_of_its_repository(
    projects: Vec<PushProject>,
    urls: Vec<String>,
    r: Vec<Id>,
    id: Id,
)
    requires
        call_ensures(trigger_for_repo_urls, (&projects, &urls), r),
    ensures
        r@.contains(id) <==> exists|k: int, j: int|
            {
                &&& 0 <= k < projects@.len()
                &&& 0 <= j < urls@.len()
                &&& (#[trigger] projects@[k]).id == id
                &&& projects@[k].active
                &&& without_dot_gits(#[trigger] urls@[j]@) == without_dot_gits(
                    projects@[k].repository@,
                )
            },
{
    let us = views(urls@);
    lemma_projects_at(projects@, us, id);
    assert forall|k: int| 0 <= k < projects@.len() implies (names_repository(
        us,
        (#[trigger] projects@[k]).repository@,
    ) <==> exists|j: int|
        0 <= j < urls@.len() && without_dot_gits(#[trigger] urls@[j]@) == without_dot_gits(
            projects@[k].repository@,
        )) by {
        let repository = projects@[k].repository@;
        if names_repository(us, repository) {
            let j = choose|j: int|
                0 <= j < us.len() && without_dot_gits(#[trigger] us[j]) == without_dot_gits(
                    repository,
                );
            assert(without_dot_gits(urls@[j]@) == without_dot_gits(repository));
        }
        if exists|j: int|
            0 <= j < urls@.len() && without_dot_gits(#[trigger] urls@[j]@) == without_dot_gits(
                repository,
            ) {
            let j = choose|j: int|
                0 <= j < urls@.len() && without_dot_gits(#[trigger] urls@[j]@)
                    == without_dot_gits(repository);
            assert(without_dot_gits(us[j]) == without_dot_gits(repository));
        }
    }
}

proof fn lemma_projects_at(projects: Seq<PushProject>, urls: Seq<Seq<char>>, id: Id)
    ensures
        projects_at(projects, urls).contains(id) <==> exists|k: int|
            0 <= k < projects.len() && (#[trigger] projects[k]).id == id && projects[k].active
                && names_repository(urls, projects[k].repository@),
    decreases projects.len(),
{
    if projects.len() > 0 {
        let less = projects.drop_last();
        let before = projects_at(less, urls);
        let n = projects.len() - 1;
        lemma_projects_at(less, urls, id);
        if projects_at(projects, urls).contains(id) {
            if before.contains(id) {
                let k = choose|k: int|
                    0 <= k < less.len() && (#[trigger] less[k]).id == id && less[k].active
                        && names_repository(urls, less[k].repository@);
                assert(projects[k] == less[k]);
            } else {
                let k = projects_at(projects, urls).index_of(id);
                assert(k == before.len());
                assert(projects[n] == projects.last());
            }
        }
        if exists|k: int|
            0 <= k < projects.len() && (#[trigger] projects[k]).id == id && projects[k].active
                && names_repository(urls, projects[k].repository@) {
            let k = choose|k: int|
                0 <= k < projects.len() && (#[trigger] projects[k]).id == id && projects[k].active
                    && names_repository(urls, projects[k].repository@);
            if k < n {
                assert(less[k] == projects[k]);
                let m = before.index_of(id);
                assert(projects_at(projects, urls)[m] == id);
            } else {
                assert(projects_at(projects, urls)[before.len() as int] == id);
            }
        }
    }
}

/// A `.git` at the end of an address does not matter; what has none is compared as it is.
pub proof fn law_dot_git_is_ignored(u: Seq<char>)
    ensures
        without_dot_gits(u + ".git"@) == without_dot_gits(u),
        u.len() < 4 || u.subrange(u.len() - 4, u.len() as int) != ".git"@ ==> without_dot_gits(u)
            == u,
{
    reveal_strlit(".git");
    let g = u + ".git"@;
    assert(g.subrange(g.len() - 4, g.len() as int) =~= ".git"@);
    assert(g.subrange(0, g.len() - 4) =~= u);
}

/// A pull request waits for approval unless it is known to come from the same repository; what
/// is not known of it is left empty. A trigger that matched fires, and one that a filter held
/// back is reported.
pub proof fn law_gates(
    ctx: PullRequestApprovalContext,
    r: Option<ApprovalInfo>,
    none: Option<ApprovalInfo>,
    verdict: FilterResult,
    p: TriggerPlan,
    number: Option<u64>,
    author: Option<String>,
    fork: Option<bool>,
    c: PullRequestApprovalContext,
)
    requires
        call_ensures(decide_pr_gate, (Some(&ctx),), r),
        call_ensures(decide_pr_gate, (None,), none),
        call_ensures(plan_trigger, (verdict, Some(&ctx)), p),
        call_ensures(approval_context_from, (number, author, fork), c),
    ensures
        none is None,
        r is None <==> ctx.is_fork is Some && !ctx.is_fork->0,
        r is Some && ctx.pr_number is Some ==> r->0.pr_number == ctx.pr_number->0,
        r is Some && ctx.pr_number is None ==> r->0.pr_number == 0,
        r is Some && ctx.pr_author is Some ==> r->0.pr_author@ == ctx.pr_author->0@,
        r is Some && ctx.pr_author is None ==> r->0.pr_author@.len() == 0,
        verdict is Skip <==> p is Ignore,
        verdict is SkipFilter <==> p is Filtered,
        verdict is Fire ==> (p matches TriggerPlan::Fire { gate: None }),
        (verdict matches FilterResult::FirePr { require_approval: false })
            ==> (p matches TriggerPlan::Fire { gate: None }),
        (verdict matches FilterResult::FirePr { require_approval: true })
            ==> (p matches TriggerPlan::Fire { gate } && (gate is Some <==> r is Some)
            && (gate is Some ==> gate->0.pr_number == r->0.pr_number && gate->0.pr_author@
            == r->0.pr_author@)),
        c.pr_number == number && c.pr_author == author && c.is_fork == fork,
{
}

/// Addresses are matched in their canonical form: two lists share a repository when an address
/// of one and an address of the other have the same. A push concerns a project when one of its
/// addresses is the one of the project, whatever `.git` either ends in.
pub proof fn law_matching_addresses(
    repos: Vec<String>,
    urls: Vec<String>,
    m: bool,
    a: &str,
    b: &str,
    na: String,
    nb: String,
    i: int,
    j: int,
    c: bool,
    repository: &str,
)
    requires
        call_ensures(repositories_match, (&repos, &urls), m),
        0 <= i < repos@.len(),
        0 <= j < urls@.len(),
        a@ == repos@[i]@,
        b@ == urls@[j]@,
        call_ensures(normalize_repo_url, (a,), na),
        call_ensures(normalize_repo_url, (b,), nb),
        call_ensures(push_concerns, (&urls, repository), c),
    ensures
        na@ == nb@ ==> m,
        m ==> exists|x: int, y: int|
            0 <= x < repos@.len() && 0 <= y < urls@.len() && canonical_url((#[trigger] repos@[x])@)
                == canonical_url((#[trigger] urls@[y])@),
        b@ == repository@ || b@ == repository@ + ".git"@ || repository@ == b@ + ".git"@ ==> c,
        c ==> exists|y: int|
            0 <= y < urls@.len() && without_dot_gits((#[trigger] urls@[y])@) == without_dot_gits(
                repository@,
            ),
{
    let rs = views(repos@);
    let us = views(urls@);
    assert(rs[i] == a@ && us[j] == b@);
    if m {
        let (x, y) = choose|x: int, y: int|
            0 <= x < rs.len() && 0 <= y < us.len()
                && canonical_url(#[trigger] rs[x]) == canonical_url(
                #[trigger] us[y],
            );
        assert(rs[x] == repos@[x]@ && us[y] == urls@[y]@);
    }
    if c {
        let y = choose|y: int|
            0 <= y < us.len() && without_dot_gits(#[trigger] us[y])
                == without_dot_gits(repository@);
        assert(us[y] == urls@[y]@);
    }
    law_dot_git_is_ignored(b@);
    law_dot_git_is_ignored(repository@);
    assert(without_dot_gits(us[j]) == without_dot_gits(b@));
}

/// A project is reported by its name and its organization, which is empty where it is not
/// known; without a name there is neither.
pub proof fn law_reported_projects(
    name: Option<String>,
    org: Option<String>,
    r: (String, String),
)
    requires
        call_ensures(project_identity, (&name, &org), r),
    ensures
        r matches (n, o) && (name is Some ==> n@ == name->0@)
            && (name is None ==> n@.len() == 0 && o@.len() == 0)
            && (name is Some && org is Some ==> o@ == org->0@) && (org is None ==> o@.len() == 0),
{
}

} // verus!
