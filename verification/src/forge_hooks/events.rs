//! Forge-agnostic push, pull-request and release events.
//!
//! The payload types hold what a forge reports, as read from the body of its
//! webhook; the `Parsed…` types hold what the triggers need of it.

use crate::codec::{decode_hex, hex_bytes, hex_text};
use crate::text::{opt_view, same, skip, starts_with, strip_prefix, views};
use vstd::prelude::*;

verus! {

// ── Payloads ─────────────────────────────────────────────────────────────────

pub struct GitHubRepository {
    pub clone_url: String,
    pub ssh_url: String,
}

pub struct GiteaRepository {
    pub clone_url: String,
    pub ssh_url: Option<String>,
}

pub struct GitLabProject {
    pub http_url: String,
    pub ssh_url: Option<String>,
}

pub struct GitHubPushPayload {
    pub git_ref: String,
    pub after: String,
    pub repository: GitHubRepository,
}

pub struct GiteaPushPayload {
    pub git_ref: String,
    pub after: String,
    pub repository: GiteaRepository,
}

pub struct GitLabPushPayload {
    pub git_ref: String,
    pub after: String,
    pub project: GitLabProject,
}

pub struct GitHubPRRef {
    pub sha: String,
    pub branch: String,
}

pub struct GitHubPullRequest {
    pub head: GitHubPRRef,
}

pub struct GitHubPullRequestPayload {
    pub action: String,
    pub pull_request: GitHubPullRequest,
    pub repository: GitHubRepository,
}

pub struct GitHubRelease {
    pub tag_name: String,
    pub target_commitish: String,
}

pub struct GitHubReleasePayload {
    pub release: GitHubRelease,
    pub repository: GitHubRepository,
}

pub struct GiteaPRRef {
    pub sha: String,
    pub branch: Option<String>,
    pub name: Option<String>,
}

pub struct GiteaPullRequest {
    pub head: GiteaPRRef,
}

pub struct GiteaPullRequestPayload {
    pub action: String,
    pub pull_request: GiteaPullRequest,
    pub repository: GiteaRepository,
}

pub struct GiteaRelease {
    pub tag_name: String,
    pub target_commitish: Option<String>,
    pub sha: Option<String>,
}

pub struct GiteaReleasePayload {
    pub release: GiteaRelease,
    pub repository: GiteaRepository,
}

pub struct GitLabCommit {
    pub id: String,
}

pub struct GitLabMRAttributes {
    pub action: String,
    pub source_branch: String,
    pub last_commit: GitLabCommit,
}

pub struct GitLabMergeRequestPayload {
    pub object_attributes: GitLabMRAttributes,
    pub project: GitLabProject,
}

pub struct GitLabReleasePayload {
    pub project: GitLabProject,
    pub commit: Option<GitLabCommit>,
    pub tag: Option<String>,
}

// ── Normalised events ────────────────────────────────────────────────────────

/// Push event extracted from any of the supported payload shapes.
#[derive(Debug, PartialEq, Eq)]
pub struct ParsedPushEvent {
    pub commit_hash: Vec<u8>,
    pub repository_urls: Vec<String>,
    pub commit_message: Option<String>,
    pub author_name: Option<String>,
    /// Branch name extracted from `refs/heads/<branch>`, or tag name from
    /// `refs/tags/<tag>`.
    pub ref_name: String,
    /// Whether the ref is a tag (`refs/tags/…`).
    pub is_tag: bool,
}

/// Pull-request event normalised across forges. `commit_hash` is the head SHA.
#[derive(Debug, PartialEq, Eq)]
pub struct ParsedPullRequestEvent {
    pub commit_hash: Vec<u8>,
    pub repository_urls: Vec<String>,
    /// Forge-reported action: "opened", "synchronize", "reopened", "closed", …
    pub action: String,
    /// Head branch name, if available.
    pub branch: Option<String>,
}

/// Release event. `commit_hash` is the SHA the tag points at.
#[derive(Debug, PartialEq, Eq)]
pub struct ParsedReleaseEvent {
    pub commit_hash: Vec<u8>,
    pub repository_urls: Vec<String>,
    /// Tag name, if available.
    pub tag: Option<String>,
}

/// Validated push commit info.
#[derive(Debug, PartialEq, Eq)]
pub struct PushCommit {
    pub hash: Vec<u8>,
    pub ref_name: String,
    pub is_tag: bool,
}

/// What a push says of its commit.
#[verifier::ext_equal]
pub ghost struct PushModel {
    pub hash: Seq<u8>,
    pub ref_name: Seq<char>,
    pub is_tag: bool,
}

impl View for PushCommit {
    type V = PushModel;

    open spec fn view(&self) -> PushModel {
        PushModel { hash: self.hash@, ref_name: self.ref_name@, is_tag: self.is_tag }
    }
}

/// The branch or tag that a ref names, and whether it is a tag.
pub open spec fn ref_target(git_ref: Seq<char>) -> Option<(Seq<char>, bool)> {
    if starts_with(git_ref, "refs/heads/"@) {
        Some((skip(git_ref, "refs/heads/"@.len() as int), false))
    } else if starts_with(git_ref, "refs/tags/"@) {
        Some((skip(git_ref, "refs/tags/"@.len() as int), true))
    } else {
        None
    }
}

/// The commit that a push of `git_ref` to `after` brings. A deleted ref has the
/// all-zero SHA and brings none.
pub open spec fn push_model(git_ref: Seq<char>, after: Seq<char>) -> Option<PushModel> {
    if after == "0000000000000000000000000000000000000000"@ {
        None
    } else {
        match (ref_target(git_ref), hex_bytes(after)) {
            (Some((ref_name, is_tag)), Some(hash)) => Some(PushModel { hash, ref_name, is_tag }),
            _ => None,
        }
    }
}

/// The bytes of a full SHA-1 hash: forty hexadecimal digits.
pub open spec fn sha_bytes(s: Seq<char>) -> Option<Seq<u8>> {
    if s.len() == 40 {
        hex_bytes(s)
    } else {
        None
    }
}

/// One or two addresses of a repository.
pub open spec fn url_pair(first: Seq<char>, second: Option<Seq<char>>) -> Seq<Seq<char>> {
    match second {
        Some(s) => seq![first, s],
        None => seq![first],
    }
}

/// The action name that GitHub uses for a GitLab merge-request action.
pub open spec fn github_action(action: Seq<char>) -> Seq<char> {
    if action == "open"@ {
        "opened"@
    } else if action == "update"@ {
        "synchronize"@
    } else if action == "reopen"@ {
        "reopened"@
    } else if action == "merge"@ {
        "merged"@
    } else if action == "close"@ {
        "closed"@
    } else {
        action
    }
}

/// Validates a push event ref/SHA pair and decodes the commit hash.
///
/// Returns `None` for branch/tag deletions (all-zero SHA) or unparseable hex.
/// Handles both `refs/heads/<branch>` and `refs/tags/<tag>`. `_forge` only names
/// the sender.
pub fn decode_push_commit(git_ref: &str, after: &str, _forge: &str) -> (r: Option<PushCommit>)
    ensures
        match r {
            Some(c) => push_model(git_ref@, after@) == Some(c@),
            None => push_model(git_ref@, after@) is None,
        },
{
    if same(after, "0000000000000000000000000000000000000000") {
        return None;
    }
    let (ref_name, is_tag) = match strip_prefix(git_ref, "refs/heads/") {
        Some(branch) => (branch.to_owned(), false),
        None => match strip_prefix(git_ref, "refs/tags/") {
            Some(tag) => (tag.to_owned(), true),
            None => {
                return None;
            },
        },
    };
    match decode_hex(after) {
        Some(hash) => Some(PushCommit { hash, ref_name, is_tag }),
        None => None,
    }
}

/// Decodes a full SHA-1 hash.
pub fn decode_sha_hex(s: &str) -> (r: Option<Vec<u8>>)
    ensures
        match r {
            Some(v) => sha_bytes(s@) == Some(v@),
            None => sha_bytes(s@) is None,
        },
{
    if s.unicode_len() != 40 {
        return None;
    }
    decode_hex(s)
}

/// Normalise GitLab MR action strings to GitHub vocabulary.
pub fn normalise_gitlab_mr_action(action: &str) -> (r: String)
    ensures
        r@ == github_action(action@),
{
    if same(action, "open") {
        "opened".to_owned()
    } else if same(action, "update") {
        "synchronize".to_owned()
    } else if same(action, "reopen") {
        "reopened".to_owned()
    } else if same(action, "merge") {
        "merged".to_owned()
    } else if same(action, "close") {
        "closed".to_owned()
    } else {
        action.to_owned()
    }
}

fn urls_of(first: &String, second: &Option<String>) -> (r: Vec<String>)
    ensures
        views(r@) == url_pair(first@, opt_view(*second)),
{
    let mut urls: Vec<String> = Vec::new();
    urls.push(first.clone());
    if let Some(s) = second {
        urls.push(s.clone());
    }
    assert(views(urls@) =~= url_pair(first@, opt_view(*second)));
    urls
}

/// The addresses of a Gitea or Forgejo repository.
pub fn gitea_repo_urls(repo: &GiteaRepository) -> (r: Vec<String>)
    ensures
        views(r@) == url_pair(repo.clone_url@, opt_view(repo.ssh_url)),
{
    urls_of(&repo.clone_url, &repo.ssh_url)
}

/// The addresses of a GitLab project.
pub fn gitlab_project_urls(project: &GitLabProject) -> (r: Vec<String>)
    ensures
        views(r@) == url_pair(project.http_url@, opt_view(project.ssh_url)),
{
    urls_of(&project.http_url, &project.ssh_url)
}

/// The addresses of a GitHub repository.
pub fn github_repo_urls(repo: &GitHubRepository) -> (r: Vec<String>)
    ensures
        views(r@) == seq![repo.clone_url@, repo.ssh_url@],
{
    let mut urls: Vec<String> = Vec::new();
    urls.push(repo.clone_url.clone());
    urls.push(repo.ssh_url.clone());
    assert(views(urls@) =~= seq![repo.clone_url@, repo.ssh_url@]);
    urls
}

// ── ParsedPushEvent ──────────────────────────────────────────────────────────

impl ParsedPushEvent {
    /// The event is the push of `m` to a repository at `urls`, and says no more.
    pub open spec fn is_push(self, m: PushModel, urls: Seq<Seq<char>>) -> bool {
        &&& self.commit_hash@ == m.hash
        &&& self.ref_name@ == m.ref_name
        &&& self.is_tag == m.is_tag
        &&& views(self.repository_urls@) == urls
        &&& self.commit_message is None
        &&& self.author_name is None
    }

    fn of(c: PushCommit, repository_urls: Vec<String>) -> (r: ParsedPushEvent)
        ensures
            r.is_push(c@, views(repository_urls@)),
    {
        ParsedPushEvent {
            commit_hash: c.hash,
            repository_urls,
            commit_message: None,
            author_name: None,
            ref_name: c.ref_name,
            is_tag: c.is_tag,
        }
    }

    pub fn from_github(payload: &GitHubPushPayload) -> (r: Option<ParsedPushEvent>)
        ensures
            match push_model(payload.git_ref@, payload.after@) {
                Some(m) => r matches Some(e) && e.is_push(
                    m,
                    seq![payload.repository.clone_url@, payload.repository.ssh_url@],
                ),
                None => r is None,
            },
    {
        match decode_push_commit(payload.git_ref.as_str(), payload.after.as_str(), "github") {
            Some(c) => Some(ParsedPushEvent::of(c, github_repo_urls(&payload.repository))),
            None => None,
        }
    }

    pub fn from_gitea(payload: &GiteaPushPayload) -> (r: Option<ParsedPushEvent>)
        ensures
            match push_model(payload.git_ref@, payload.after@) {
                Some(m) => r matches Some(e) && e.is_push(
                    m,
                    url_pair(payload.repository.clone_url@, opt_view(payload.repository.ssh_url)),
                ),
                None => r is None,
            },
    {
        match decode_push_commit(payload.git_ref.as_str(), payload.after.as_str(), "gitea") {
            Some(c) => Some(ParsedPushEvent::of(c, gitea_repo_urls(&payload.repository))),
            None => None,
        }
    }

    pub fn from_gitlab(payload: &GitLabPushPayload) -> (r: Option<ParsedPushEvent>)
        ensures
            match push_model(payload.git_ref@, payload.after@) {
                Some(m) => r matches Some(e) && e.is_push(
                    m,
                    url_pair(payload.project.http_url@, opt_view(payload.project.ssh_url)),
                ),
                None => r is None,
            },
    {
        match decode_push_commit(payload.git_ref.as_str(), payload.after.as_str(), "gitlab") {
            Some(c) => Some(ParsedPushEvent::of(c, gitlab_project_urls(&payload.project))),
            None => None,
        }
    }
}

// ── ParsedPullRequestEvent ───────────────────────────────────────────────────

/// The first of two optional texts that is there.
pub open spec fn first_of(a: Option<Seq<char>>, b: Option<Seq<char>>) -> Option<Seq<char>> {
    if a is Some {
        a
    } else {
        b
    }
}

impl ParsedPullRequestEvent {
    /// The event reports `action` on `branch`, whose head is the commit `hash`,
    /// in a repository at `urls`.
    pub open spec fn is_pull_request(
        self,
        hash: Seq<u8>,
        urls: Seq<Seq<char>>,
        action: Seq<char>,
        branch: Option<Seq<char>>,
    ) -> bool {
        &&& self.commit_hash@ == hash
        &&& views(self.repository_urls@) == urls
        &&& self.action@ == action
        &&& opt_view(self.branch) == branch
    }

    pub fn from_github(payload: &GitHubPullRequestPayload) -> (r: Option<ParsedPullRequestEvent>)
        ensures
            match sha_bytes(payload.pull_request.head.sha@) {
                Some(hash) => r matches Some(e) && e.is_pull_request(
                    hash,
                    seq![payload.repository.clone_url@, payload.repository.ssh_url@],
                    payload.action@,
                    Some(payload.pull_request.head.branch@),
                ),
                None => r is None,
            },
    {
        match decode_sha_hex(payload.pull_request.head.sha.as_str()) {
            Some(commit_hash) => Some(
                ParsedPullRequestEvent {
                    commit_hash,
                    repository_urls: github_repo_urls(&payload.repository),
                    action: payload.action.clone(),
                    branch: Some(payload.pull_request.head.branch.clone()),
                },
            ),
            None => None,
        }
    }

    pub fn from_gitea(payload: &GiteaPullRequestPayload) -> (r: Option<ParsedPullRequestEvent>)
        ensures
            match sha_bytes(payload.pull_request.head.sha@) {
                Some(hash) => r matches Some(e) && e.is_pull_request(
                    hash,
                    url_pair(payload.repository.clone_url@, opt_view(payload.repository.ssh_url)),
                    payload.action@,
                    first_of(
                        opt_view(payload.pull_request.head.branch),
                        opt_view(payload.pull_request.head.name),
                    ),
                ),
                None => r is None,
            },
    {
        let branch = match &payload.pull_request.head.branch {
            Some(b) => Some(b.clone()),
            None => match &payload.pull_request.head.name {
                Some(n) => Some(n.clone()),
                None => None,
            },
        };
        match decode_sha_hex(payload.pull_request.head.sha.as_str()) {
            Some(commit_hash) => Some(
                ParsedPullRequestEvent {
                    commit_hash,
                    repository_urls: gitea_repo_urls(&payload.repository),
                    action: payload.action.clone(),
                    branch,
                },
            ),
            None => None,
        }
    }

    pub fn from_gitlab(payload: &GitLabMergeRequestPayload) -> (r: Option<ParsedPullRequestEvent>)
        ensures
            match sha_bytes(payload.object_attributes.last_commit.id@) {
                Some(hash) => r matches Some(e) && e.is_pull_request(
                    hash,
                    url_pair(payload.project.http_url@, opt_view(payload.project.ssh_url)),
                    github_action(payload.object_attributes.action@),
                    Some(payload.object_attributes.source_branch@),
                ),
                None => r is None,
            },
    {
        match decode_sha_hex(payload.object_attributes.last_commit.id.as_str()) {
            Some(commit_hash) => Some(
                ParsedPullRequestEvent {
                    commit_hash,
                    repository_urls: gitlab_project_urls(&payload.project),
                    action: normalise_gitlab_mr_action(payload.object_attributes.action.as_str()),
                    branch: Some(payload.object_attributes.source_branch.clone()),
                },
            ),
            None => None,
        }
    }
}

// ── ParsedReleaseEvent ───────────────────────────────────────────────────────

/// The bytes of an optional SHA-1 hash.
pub open spec fn opt_sha(s: Option<Seq<char>>) -> Option<Seq<u8>> {
    match s {
        Some(t) => sha_bytes(t),
        None => None,
    }
}

/// The commit of a Gitea release: its `sha` where that is a hash, else its
/// `target_commitish` where that is one.
pub open spec fn gitea_release_commit(
    sha: Option<Seq<char>>,
    target: Option<Seq<char>>,
) -> Option<Seq<u8>> {
    if opt_sha(sha) is Some {
        opt_sha(sha)
    } else {
        opt_sha(target)
    }
}

fn decode_opt_sha(s: &Option<String>) -> (r: Option<Vec<u8>>)
    ensures
        match r {
            Some(v) => opt_sha(opt_view(*s)) == Some(v@),
            None => opt_sha(opt_view(*s)) is None,
        },
{
    match s {
        Some(t) => decode_sha_hex(t.as_str()),
        None => None,
    }
}

impl ParsedReleaseEvent {
    /// The event releases the commit `hash` as `tag` in a repository at `urls`.
    pub open spec fn is_release(
        self,
        hash: Seq<u8>,
        urls: Seq<Seq<char>>,
        tag: Option<Seq<char>>,
    ) -> bool {
        &&& self.commit_hash@ == hash
        &&& views(self.repository_urls@) == urls
        &&& opt_view(self.tag) == tag
    }

    pub fn from_github(payload: &GitHubReleasePayload) -> (r: Option<ParsedReleaseEvent>)
        ensures
            match sha_bytes(payload.release.target_commitish@) {
                Some(hash) => r matches Some(e) && e.is_release(
                    hash,
                    seq![payload.repository.clone_url@, payload.repository.ssh_url@],
                    Some(payload.release.tag_name@),
                ),
                None => r is None,
            },
    {
        match decode_sha_hex(payload.release.target_commitish.as_str()) {
            Some(commit_hash) => Some(
                ParsedReleaseEvent {
                    commit_hash,
                    repository_urls: github_repo_urls(&payload.repository),
                    tag: Some(payload.release.tag_name.clone()),
                },
            ),
            None => None,
        }
    }

    pub fn from_gitea(payload: &GiteaReleasePayload) -> (r: Option<ParsedReleaseEvent>)
        ensures
            match gitea_release_commit(
                opt_view(payload.release.sha),
                opt_view(payload.release.target_commitish),
            ) {
                Some(hash) => r matches Some(e) && e.is_release(
                    hash,
                    url_pair(payload.repository.clone_url@, opt_view(payload.repository.ssh_url)),
                    Some(payload.release.tag_name@),
                ),
                None => r is None,
            },
    {
        let commit = match decode_opt_sha(&payload.release.sha) {
            Some(h) => Some(h),
            None => decode_opt_sha(&payload.release.target_commitish),
        };
        match commit {
            Some(commit_hash) => Some(
                ParsedReleaseEvent {
                    commit_hash,
                    repository_urls: gitea_repo_urls(&payload.repository),
                    tag: Some(payload.release.tag_name.clone()),
                },
            ),
            None => None,
        }
    }

    pub fn from_gitlab(payload: &GitLabReleasePayload) -> (r: Option<ParsedReleaseEvent>)
        ensures
            match payload.commit {
                Some(c) => match sha_bytes(c.id@) {
                    Some(hash) => r matches Some(e) && e.is_release(
                        hash,
                        url_pair(payload.project.http_url@, opt_view(payload.project.ssh_url)),
                        opt_view(payload.tag),
                    ),
                    None => r is None,
                },
                None => r is None,
            },
    {
        let tag = match &payload.tag {
            Some(t) => Some(t.clone()),
            None => None,
        };
        match &payload.commit {
            Some(c) => match decode_sha_hex(c.id.as_str()) {
                Some(commit_hash) => Some(
                    ParsedReleaseEvent {
                        commit_hash,
                        repository_urls: gitlab_project_urls(&payload.project),
                        tag,
                    },
                ),
                None => None,
            },
            None => None,
        }
    }
}

/// A deleted branch or tag brings no commit, whatever the ref.
pub proof fn law_deletion_is_no_push(git_ref: Seq<char>)
    ensures
        push_model(git_ref, "0000000000000000000000000000000000000000"@) is None,
{
}

/// The commit of a pull request or a release always has twenty bytes.
pub proof fn law_sha_has_twenty_bytes(s: Seq<char>)
    requires
        sha_bytes(s) is Some,
    ensures
        sha_bytes(s)->0.len() == 20,
{
}

/// Normalising an action twice is normalising it once.
pub proof fn law_action_normalisation_is_idempotent(action: Seq<char>)
    ensures
        github_action(github_action(action)) == github_action(action),
{
    reveal_strlit("open");
    reveal_strlit("update");
    reveal_strlit("reopen");
    reveal_strlit("merge");
    reveal_strlit("close");
    reveal_strlit("opened");
    reveal_strlit("synchronize");
    reveal_strlit("reopened");
    reveal_strlit("merged");
    reveal_strlit("closed");
    assert("opened"@.len() == 6 && "reopen"@.len() == 6 && "update"@.len() == 6);
    assert("opened"@[0] == 'o' && "reopen"@[0] == 'r' && "update"@[0] == 'u');
    assert("merged"@[0] == 'm' && "closed"@[0] == 'c');
}

/// The actions of GitLab merge requests go by the names that GitHub has for them; any other
/// action keeps its name.
pub proof fn law_gitlab_actions(action: &str, r: String)
    requires
        call_ensures(normalise_gitlab_mr_action, (action,), r),
    ensures
        action@ == "open"@ ==> r@ == "opened"@,
        action@ == "update"@ ==> r@ == "synchronize"@,
        action@ == "reopen"@ ==> r@ == "reopened"@,
        action@ == "merge"@ ==> r@ == "merged"@,
        action@ == "close"@ ==> r@ == "closed"@,
        action@ != "open"@ && action@ != "update"@ && action@ != "reopen"@ && action@ != "merge"@
            && action@ != "close"@ ==> r@ == action@,
{
    reveal_strlit("open");
    reveal_strlit("update");
    reveal_strlit("reopen");
    reveal_strlit("merge");
    reveal_strlit("close");
    assert("open"@.len() == 4 && "update"@.len() == 6 && "reopen"@.len() == 6);
    assert("update"@[0] == 'u' && "reopen"@[0] == 'r');
    assert("merge"@.len() == 5 && "close"@.len() == 5);
    assert("merge"@[0] == 'm' && "close"@[0] == 'c');
}

/// A full SHA-1 hash in hexadecimal is read back; a text of another length, or with a character
/// that is no hexadecimal digit, is no hash.
pub proof fn law_sha_is_read_back(s: &str, hash: Seq<u8>, r: Option<Vec<u8>>, i: int)
    requires
        call_ensures(decode_sha_hex, (s,), r),
    ensures
        s@ == hex_text(hash) && hash.len() == 20 ==> r is Some && r->0@ == hash,
        s@.len() != 40 ==> r is None,
        0 <= i < s@.len() && !('0' <= s@[i] <= '9' || 'a' <= s@[i] <= 'f' || 'A' <= s@[i] <= 'F')
            ==> r is None,
{
    crate::codec::law_hex_round_trip(hash);
    if 0 <= i < s@.len() && !('0' <= s@[i] <= '9' || 'a' <= s@[i] <= 'f' || 'A' <= s@[i] <= 'F') {
        assert(!crate::codec::is_hex(s@[i]));
    }
}

/// A push of a commit to `refs/heads/` and a name is one to the branch of that name, to
/// `refs/tags/` and a name one to the tag; a push to any other ref, a deletion, and a commit that
/// is not in hexadecimal are none.
pub proof fn law_push_names_its_branch_or_tag(
    git_ref: &str,
    after: &str,
    forge: &str,
    name: Seq<char>,
    hash: Seq<u8>,
    r: Option<PushCommit>,
)
    requires
        call_ensures(decode_push_commit, (git_ref, after, forge), r),
    ensures
        after@ == "0000000000000000000000000000000000000000"@ ==> r is None,
        ({
            let valid = after@ == hex_text(hash) && after@
                != "0000000000000000000000000000000000000000"@;
            &&& valid && git_ref@ == "refs/heads/"@ + name ==> (r matches Some(c) && c.hash@ == hash
                && c.ref_name@ == name && !c.is_tag)
            &&& valid && git_ref@ == "refs/tags/"@ + name ==> (r matches Some(c) && c.hash@ == hash
                && c.ref_name@ == name && c.is_tag)
        }),
        (git_ref@.len() < 11 || git_ref@.subrange(0, 11) != "refs/heads/"@) && (git_ref@.len() < 10
            || git_ref@.subrange(0, 10) != "refs/tags/"@) ==> r is None,
        r matches Some(c) ==> (c.is_tag && git_ref@ == "refs/tags/"@ + c.ref_name@) || (!c.is_tag
            && git_ref@ == "refs/heads/"@ + c.ref_name@),
{
    reveal_strlit("refs/heads/");
    reveal_strlit("refs/tags/");
    crate::codec::law_hex_round_trip(hash);
    let h = "refs/heads/"@ + name;
    assert(h.subrange(0, 11) =~= "refs/heads/"@);
    assert(skip(h, 11) =~= name);
    let t = "refs/tags/"@ + name;
    assert(t.subrange(0, 10) =~= "refs/tags/"@);
    assert(skip(t, 10) =~= name);
    assert(t[5] == 't');
    if starts_with(t, "refs/heads/"@) {
        assert(t.subrange(0, 11)[5] == 't');
    }
    if let Some(c) = r {
        if starts_with(git_ref@, "refs/heads/"@) {
            assert(git_ref@ =~= "refs/heads/"@ + skip(git_ref@, 11));
        } else {
            assert(git_ref@ =~= "refs/tags/"@ + skip(git_ref@, 10));
        }
    }
}

/// A GitHub push is that of the commit and ref in its payload, at the addresses of its repository.
pub proof fn law_github_push(
    payload: GitHubPushPayload,
    git_ref: &str,
    after: &str,
    commit: Option<PushCommit>,
    r: Option<ParsedPushEvent>,
)
    requires
        call_ensures(ParsedPushEvent::from_github, (&payload,), r),
        call_ensures(decode_push_commit, (git_ref, after, "github"), commit),
        payload.git_ref@ == git_ref@,
        payload.after@ == after@,
    ensures
        r is Some <==> commit is Some,
        r matches Some(e) ==> {
            &&& e.commit_hash@ == commit->0.hash@
            &&& e.ref_name@ == commit->0.ref_name@
            &&& e.is_tag == commit->0.is_tag
            &&& e.repository_urls@.len() == 2
            &&& e.repository_urls@[0]@ == payload.repository.clone_url@
            &&& e.repository_urls@[1]@ == payload.repository.ssh_url@
            &&& e.commit_message is None
            &&& e.author_name is None
        },
{
    if let Some(e) = r {
        lemma_addresses(e.repository_urls@, seq![payload.repository.clone_url@, payload.repository.ssh_url@]);
    }
}

/// A Gitea push is that of the commit and ref in its payload, at the addresses of its repository.
pub proof fn law_gitea_push(
    payload: GiteaPushPayload,
    git_ref: &str,
    after: &str,
    commit: Option<PushCommit>,
    r: Option<ParsedPushEvent>,
)
    requires
        call_ensures(ParsedPushEvent::from_gitea, (&payload,), r),
        call_ensures(decode_push_commit, (git_ref, after, "gitea"), commit),
        payload.git_ref@ == git_ref@,
        payload.after@ == after@,
    ensures
        r is Some <==> commit is Some,
        r matches Some(e) ==> {
            &&& e.commit_hash@ == commit->0.hash@
            &&& e.ref_name@ == commit->0.ref_name@
            &&& e.is_tag == commit->0.is_tag
            &&& e.repository_urls@.len() == if payload.repository.ssh_url is Some {
                2int
            } else {
                1
            }
            &&& e.repository_urls@[0]@ == payload.repository.clone_url@
            &&& payload.repository.ssh_url is Some
                ==> e.repository_urls@[1]@ == payload.repository.ssh_url->0@
            &&& e.commit_message is None
            &&& e.author_name is None
        },
{
    if let Some(e) = r {
        lemma_addresses(e.repository_urls@, url_pair(payload.repository.clone_url@, opt_view(payload.repository.ssh_url)));
    }
}

/// A GitLab push is that of the commit and ref in its payload, at the addresses of its repository.
pub proof fn law_gitlab_push(
    payload: GitLabPushPayload,
    git_ref: &str,
    after: &str,
    commit: Option<PushCommit>,
    r: Option<ParsedPushEvent>,
)
    requires
        call_ensures(ParsedPushEvent::from_gitlab, (&payload,), r),
        call_ensures(decode_push_commit, (git_ref, after, "gitlab"), commit),
        payload.git_ref@ == git_ref@,
        payload.after@ == after@,
    ensures
        r is Some <==> commit is Some,
        r matches Some(e) ==> {
            &&& e.commit_hash@ == commit->0.hash@
            &&& e.ref_name@ == commit->0.ref_name@
            &&& e.is_tag == commit->0.is_tag
            &&& e.repository_urls@.len() == if payload.project.ssh_url is Some {
                2int
            } else {
                1
            }
            &&& e.repository_urls@[0]@ == payload.project.http_url@
            &&& payload.project.ssh_url is Some ==> e.repository_urls@[1]@
                == payload.project.ssh_url->0@
            &&& e.commit_message is None
            &&& e.author_name is None
        },
{
    if let Some(e) = r {
        lemma_addresses(e.repository_urls@, url_pair(payload.project.http_url@, opt_view(payload.project.ssh_url)));
    }
}

/// A GitHub pull request comes with its head commit, with the action of its payload, on its
/// head branch, at the addresses of its repository. Without a full hash it is no event.
pub proof fn law_github_pull_request(
    payload: GitHubPullRequestPayload,
    sha: &str,
    hash: Option<Vec<u8>>,
    r: Option<ParsedPullRequestEvent>,
)
    requires
        call_ensures(ParsedPullRequestEvent::from_github, (&payload,), r),
        call_ensures(decode_sha_hex, (sha,), hash),
        payload.pull_request.head.sha@ == sha@,
    ensures
        r is Some <==> hash is Some,
        r matches Some(e) ==> {
            &&& e.commit_hash@ == hash->0@
            &&& e.action@ == payload.action@
            &&& e.branch is Some && e.branch->0@ == payload.pull_request.head.branch@
            &&& e.repository_urls@.len() == 2
            &&& e.repository_urls@[0]@ == payload.repository.clone_url@
            &&& e.repository_urls@[1]@ == payload.repository.ssh_url@
        },
{
    if let Some(e) = r {
        lemma_addresses(e.repository_urls@, seq![payload.repository.clone_url@, payload.repository.ssh_url@]);
    }
}

/// A Gitea pull request comes with its head commit, with the action of its payload, on its head
/// branch: `ref`, or the name where that is missing, at the addresses of its repository.
/// Without a full hash it is no event.
pub proof fn law_gitea_pull_request(
    payload: GiteaPullRequestPayload,
    sha: &str,
    hash: Option<Vec<u8>>,
    r: Option<ParsedPullRequestEvent>,
)
    requires
        call_ensures(ParsedPullRequestEvent::from_gitea, (&payload,), r),
        call_ensures(decode_sha_hex, (sha,), hash),
        payload.pull_request.head.sha@ == sha@,
    ensures
        r is Some <==> hash is Some,
        r matches Some(e) ==> {
            &&& e.commit_hash@ == hash->0@
            &&& e.action@ == payload.action@
            &&& payload.pull_request.head.branch is Some ==> e.branch is Some && e.branch->0@
                == payload.pull_request.head.branch->0@
            &&& payload.pull_request.head.branch is None && payload.pull_request.head.name is Some
                ==> e.branch is Some && e.branch->0@ == payload.pull_request.head.name->0@
            &&& payload.pull_request.head.branch is None && payload.pull_request.head.name is None
                ==> e.branch is None
            &&& e.repository_urls@.len() == if payload.repository.ssh_url is Some {
                2int
            } else {
                1
            }
            &&& e.repository_urls@[0]@ == payload.repository.clone_url@
            &&& payload.repository.ssh_url is Some
                ==> e.repository_urls@[1]@ == payload.repository.ssh_url->0@
        },
{
    if let Some(e) = r {
        lemma_addresses(e.repository_urls@, url_pair(payload.repository.clone_url@, opt_view(payload.repository.ssh_url)));
    }
}

/// A GitLab merge request comes with its head commit, with its action under the name that
/// GitHub has for it, on its source branch, at the addresses of its repository. Without a full
/// hash it is no event.
pub proof fn law_gitlab_pull_request(
    payload: GitLabMergeRequestPayload,
    sha: &str,
    action: &str,
    named: String,
    hash: Option<Vec<u8>>,
    r: Option<ParsedPullRequestEvent>,
)
    requires
        call_ensures(ParsedPullRequestEvent::from_gitlab, (&payload,), r),
        call_ensures(decode_sha_hex, (sha,), hash),
        payload.object_attributes.last_commit.id@ == sha@,
        call_ensures(normalise_gitlab_mr_action, (action,), named),
        payload.object_attributes.action@ == action@,
    ensures
        r is Some <==> hash is Some,
        r matches Some(e) ==> {
            &&& e.commit_hash@ == hash->0@
            &&& e.action@ == named@
            &&& e.branch is Some && e.branch->0@ == payload.object_attributes.source_branch@
            &&& e.repository_urls@.len() == if payload.project.ssh_url is Some {
                2int
            } else {
                1
            }
            &&& e.repository_urls@[0]@ == payload.project.http_url@
            &&& payload.project.ssh_url is Some ==> e.repository_urls@[1]@
                == payload.project.ssh_url->0@
        },
{
    if let Some(e) = r {
        lemma_addresses(e.repository_urls@, url_pair(payload.project.http_url@, opt_view(payload.project.ssh_url)));
    }
}

/// A GitHub release is of the commit that it targets, under its tag, at the addresses of its
/// repository. A target that is no full hash makes no event.
pub proof fn law_github_release(
    payload: GitHubReleasePayload,
    sha: &str,
    hash: Option<Vec<u8>>,
    r: Option<ParsedReleaseEvent>,
)
    requires
        call_ensures(ParsedReleaseEvent::from_github, (&payload,), r),
        call_ensures(decode_sha_hex, (sha,), hash),
        payload.release.target_commitish@ == sha@,
    ensures
        r is Some <==> hash is Some,
        r matches Some(e) ==> {
            &&& e.commit_hash@ == hash->0@
            &&& e.tag is Some && e.tag->0@ == payload.release.tag_name@
            &&& e.repository_urls@.len() == 2
            &&& e.repository_urls@[0]@ == payload.repository.clone_url@
            &&& e.repository_urls@[1]@ == payload.repository.ssh_url@
        },
{
    if let Some(e) = r {
        lemma_addresses(e.repository_urls@, seq![payload.repository.clone_url@, payload.repository.ssh_url@]);
    }
}

/// A Gitea release is of the commit in its `sha`, or in its target where that is no full hash,
/// under its tag, at the addresses of its repository. Where neither is one there is no event.
pub proof fn law_gitea_release(
    payload: GiteaReleasePayload,
    sha: &str,
    target: &str,
    hash: Option<Vec<u8>>,
    other: Option<Vec<u8>>,
    r: Option<ParsedReleaseEvent>,
)
    requires
        call_ensures(ParsedReleaseEvent::from_gitea, (&payload,), r),
        call_ensures(decode_sha_hex, (sha,), hash),
        call_ensures(decode_sha_hex, (target,), other),
        payload.release.sha matches Some(x) ==> x@ == sha@,
        payload.release.target_commitish matches Some(x) ==> x@ == target@,
        payload.release.sha is None ==> hash is None,
        payload.release.target_commitish is None ==> other is None,
    ensures
        r is Some <==> hash is Some || other is Some,
        r matches Some(e) ==> {
            &&& hash is Some ==> e.commit_hash@ == hash->0@
            &&& hash is None ==> e.commit_hash@ == other->0@
            &&& e.tag is Some && e.tag->0@ == payload.release.tag_name@
            &&& e.repository_urls@.len() == if payload.repository.ssh_url is Some {
                2int
            } else {
                1
            }
            &&& e.repository_urls@[0]@ == payload.repository.clone_url@
            &&& payload.repository.ssh_url is Some
                ==> e.repository_urls@[1]@ == payload.repository.ssh_url->0@
        },
{
    if let Some(e) = r {
        lemma_addresses(e.repository_urls@, url_pair(payload.repository.clone_url@, opt_view(payload.repository.ssh_url)));
    }
}

/// A GitLab release is of its commit, under its tag where it has one, at the addresses of its
/// project. Without a full hash it is no event.
pub proof fn law_gitlab_release(
    payload: GitLabReleasePayload,
    sha: &str,
    hash: Option<Vec<u8>>,
    r: Option<ParsedReleaseEvent>,
)
    requires
        call_ensures(ParsedReleaseEvent::from_gitlab, (&payload,), r),
        call_ensures(decode_sha_hex, (sha,), hash),
        payload.commit matches Some(c) ==> c.id@ == sha@,
    ensures
        r is Some <==> payload.commit is Some && hash is Some,
        r matches Some(e) ==> {
            &&& e.commit_hash@ == hash->0@
            &&& payload.tag is Some ==> e.tag is Some && e.tag->0@ == payload.tag->0@
            &&& payload.tag is None ==> e.tag is None
            &&& e.repository_urls@.len() == if payload.project.ssh_url is Some {
                2int
            } else {
                1
            }
            &&& e.repository_urls@[0]@ == payload.project.http_url@
            &&& payload.project.ssh_url is Some ==> e.repository_urls@[1]@
                == payload.project.ssh_url->0@
        },
{
    if let Some(e) = r {
        lemma_addresses(e.repository_urls@, url_pair(payload.project.http_url@, opt_view(payload.project.ssh_url)));
    }
}

proof fn lemma_addresses(urls: Seq<String>, texts: Seq<Seq<char>>)
    requires
        views(urls) == texts,
    ensures
        urls.len() == texts.len(),
        forall|i: int| 0 <= i < urls.len() ==> (#[trigger] urls[i])@ == texts[i],
{
    assert forall|i: int| 0 <= i < urls.len() implies (#[trigger] urls[i])@ == texts[i] by {
        assert(views(urls)[i] == urls[i]@);
    }
}

/// The addresses of a repository: the one to clone from, and the one for SSH where there is
/// one.
pub proof fn law_repository_addresses(
    g: GiteaRepository,
    p: GitLabProject,
    h: GitHubRepository,
    a: Vec<String>,
    b: Vec<String>,
    c: Vec<String>,
)
    requires
        call_ensures(gitea_repo_urls, (&g,), a),
        call_ensures(gitlab_project_urls, (&p,), b),
        call_ensures(github_repo_urls, (&h,), c),
    ensures
        g.ssh_url is Some ==> a@.len() == 2 && a@[1]@ == g.ssh_url->0@,
        g.ssh_url is None ==> a@.len() == 1,
        a@.len() > 0 && a@[0]@ == g.clone_url@,
        p.ssh_url is Some ==> b@.len() == 2 && b@[1]@ == p.ssh_url->0@,
        p.ssh_url is None ==> b@.len() == 1,
        b@.len() > 0 && b@[0]@ == p.http_url@,
        c@.len() == 2 && c@[0]@ == h.clone_url@ && c@[1]@ == h.ssh_url@,
{
    let va = views(a@);
    let vb = views(b@);
    let vc = views(c@);
    assert(va.len() == a@.len() && vb.len() == b@.len() && vc.len() == c@.len());
    assert(va[0] == a@[0]@ && vb[0] == b@[0]@ && vc[0] == c@[0]@ && vc[1] == c@[1]@);
    if g.ssh_url is Some {
        assert(va[1] == a@[1]@);
    }
    if p.ssh_url is Some {
        assert(vb[1] == b@[1]@);
    }
}

} // verus!
