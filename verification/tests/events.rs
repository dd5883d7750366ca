use gradient_web::forge_hooks::events::{
    decode_push_commit, decode_sha_hex, gitea_repo_urls, normalise_gitlab_mr_action, GitHubPRRef,
    GitHubPullRequest, GitHubPullRequestPayload, GitHubPushPayload, GitHubRelease,
    GitHubReleasePayload, GitHubRepository, GitLabCommit, GitLabMRAttributes,
    GitLabMergeRequestPayload, GitLabProject, GitLabPushPayload, GitLabReleasePayload, GiteaPRRef,
    GiteaPullRequest, GiteaPullRequestPayload, GiteaPushPayload, GiteaRelease, GiteaReleasePayload,
    GiteaRepository, ParsedPullRequestEvent, ParsedPushEvent, ParsedReleaseEvent,
};
use serde_json::Value;

const VALID_SHA: &str = "abcdef0123456789abcdef0123456789abcdef01";
const ZERO_SHA: &str = "0000000000000000000000000000000000000000";

fn parse(body: &str) -> Value {
    serde_json::from_str(body).unwrap()
}

fn text(v: &Value) -> String {
    v.as_str().unwrap().to_string()
}

fn maybe(v: &Value) -> Option<String> {
    v.as_str().map(str::to_string)
}

fn github_repository(v: &Value) -> GitHubRepository {
    GitHubRepository { clone_url: text(&v["clone_url"]), ssh_url: text(&v["ssh_url"]) }
}

fn gitea_repository(v: &Value) -> GiteaRepository {
    GiteaRepository { clone_url: text(&v["clone_url"]), ssh_url: maybe(&v["ssh_url"]) }
}

fn gitlab_project(v: &Value) -> GitLabProject {
    GitLabProject { http_url: text(&v["http_url"]), ssh_url: maybe(&v["ssh_url"]) }
}

fn github_pull_request(body: &str) -> GitHubPullRequestPayload {
    let v = parse(body);
    let head = &v["pull_request"]["head"];
    GitHubPullRequestPayload {
        action: text(&v["action"]),
        pull_request: GitHubPullRequest {
            head: GitHubPRRef { sha: text(&head["sha"]), branch: text(&head["ref"]) },
        },
        repository: github_repository(&v["repository"]),
    }
}

fn gitea_pull_request(body: &str) -> GiteaPullRequestPayload {
    let v = parse(body);
    let head = &v["pull_request"]["head"];
    GiteaPullRequestPayload {
        action: text(&v["action"]),
        pull_request: GiteaPullRequest {
            head: GiteaPRRef {
                sha: text(&head["sha"]),
                branch: maybe(&head["ref"]),
                name: maybe(&head["name"]),
            },
        },
        repository: gitea_repository(&v["repository"]),
    }
}

fn gitlab_merge_request(body: &str) -> GitLabMergeRequestPayload {
    let v = parse(body);
    let attributes = &v["object_attributes"];
    GitLabMergeRequestPayload {
        object_attributes: GitLabMRAttributes {
            action: text(&attributes["action"]),
            source_branch: text(&attributes["source_branch"]),
            last_commit: GitLabCommit { id: text(&attributes["last_commit"]["id"]) },
        },
        project: gitlab_project(&v["project"]),
    }
}

fn github_release(body: &str) -> GitHubReleasePayload {
    let v = parse(body);
    GitHubReleasePayload {
        release: GitHubRelease {
            tag_name: text(&v["release"]["tag_name"]),
            target_commitish: text(&v["release"]["target_commitish"]),
        },
        repository: github_repository(&v["repository"]),
    }
}

fn gitea_release(body: &str) -> GiteaReleasePayload {
    let v = parse(body);
    GiteaReleasePayload {
        release: GiteaRelease {
            tag_name: text(&v["release"]["tag_name"]),
            target_commitish: maybe(&v["release"]["target_commitish"]),
            sha: maybe(&v["release"]["sha"]),
        },
        repository: gitea_repository(&v["repository"]),
    }
}

fn gitlab_release(body: &str) -> GitLabReleasePayload {
    let v = parse(body);
    GitLabReleasePayload {
        project: gitlab_project(&v["project"]),
        commit: maybe(&v["commit"]["id"]).map(|id| GitLabCommit { id }),
        tag: maybe(&v["tag"]),
    }
}

// ── push helpers ─────────────────────────────────────────────────────────────

#[test]
fn decode_push_commit_accepts_branch_ref() {
    let out = decode_push_commit("refs/heads/main", VALID_SHA, "github").unwrap();
    assert_eq!(out.hash, hex::decode(VALID_SHA).unwrap());
    assert_eq!(out.ref_name, "main");
    assert!(!out.is_tag);
}

#[test]
fn decode_push_commit_accepts_tag_ref() {
    let out = decode_push_commit("refs/tags/v1.0.0", VALID_SHA, "github").unwrap();
    assert_eq!(out.hash, hex::decode(VALID_SHA).unwrap());
    assert_eq!(out.ref_name, "v1.0.0");
    assert!(out.is_tag);
}

#[test]
fn decode_push_commit_rejects_zero_sha_branch_deletion() {
    assert!(decode_push_commit("refs/heads/main", ZERO_SHA, "github").is_none());
}

#[test]
fn decode_push_commit_rejects_invalid_hex() {
    assert!(decode_push_commit("refs/heads/main", "not-hex-at-all", "github").is_none());
}

#[test]
fn decode_push_commit_rejects_empty_ref() {
    assert!(decode_push_commit("", VALID_SHA, "github").is_none());
}

#[test]
fn sha_is_forty_hexadecimal_digits() {
    assert_eq!(decode_sha_hex(VALID_SHA).unwrap().len(), 20);
    assert!(decode_sha_hex("abcdef").is_none());
    assert!(decode_sha_hex("zzcdef0123456789abcdef0123456789abcdef01").is_none());
}

#[test]
fn push_events_carry_commit_and_addresses() {
    let github = ParsedPushEvent::from_github(&GitHubPushPayload {
        git_ref: "refs/heads/main".to_string(),
        after: VALID_SHA.to_string(),
        repository: GitHubRepository { clone_url: "c".to_string(), ssh_url: "s".to_string() },
    })
    .unwrap();
    assert_eq!(github.commit_hash, hex::decode(VALID_SHA).unwrap());
    assert_eq!(github.repository_urls, vec!["c".to_string(), "s".to_string()]);
    assert_eq!(github.ref_name, "main");

    let gitea = ParsedPushEvent::from_gitea(&GiteaPushPayload {
        git_ref: "refs/tags/v1".to_string(),
        after: VALID_SHA.to_string(),
        repository: GiteaRepository { clone_url: "c".to_string(), ssh_url: None },
    })
    .unwrap();
    assert_eq!(gitea.repository_urls, vec!["c".to_string()]);
    assert!(gitea.is_tag);

    let gitlab = ParsedPushEvent::from_gitlab(&GitLabPushPayload {
        git_ref: "refs/heads/main".to_string(),
        after: ZERO_SHA.to_string(),
        project: GitLabProject { http_url: "c".to_string(), ssh_url: None },
    });
    assert!(gitlab.is_none());
}

// ── GitHub PR ────────────────────────────────────────────────────────────────

#[test]
fn parse_github_pr_opened_event() {
    let body = format!(
        r#"{{
            "action": "opened",
            "pull_request": {{
                "head": {{
                    "sha": "{VALID_SHA}",
                    "ref": "feature-x"
                }}
            }},
            "repository": {{
                "clone_url": "https://github.com/org/repo.git",
                "ssh_url": "git@github.com:org/repo.git"
            }}
        }}"#
    );
    let ev = ParsedPullRequestEvent::from_github(&github_pull_request(&body)).unwrap();
    assert_eq!(ev.action, "opened");
    assert_eq!(ev.branch, Some("feature-x".to_string()));
    assert_eq!(ev.commit_hash, hex::decode(VALID_SHA).unwrap());
    assert_eq!(ev.repository_urls.len(), 2);
}

#[test]
fn parse_github_pr_invalid_sha_returns_none() {
    let body = r#"{
        "action": "opened",
        "pull_request": { "head": { "sha": "not-a-sha", "ref": "feature-x" } },
        "repository": { "clone_url": "https://github.com/org/repo.git", "ssh_url": "git@github.com:org/repo.git" }
    }"#;
    assert!(ParsedPullRequestEvent::from_github(&github_pull_request(body)).is_none());
}

// ── Gitea PR ─────────────────────────────────────────────────────────────────

#[test]
fn parse_gitea_pr_opened_event() {
    let body = format!(
        r#"{{
            "action": "opened",
            "pull_request": {{
                "head": {{
                    "sha": "{VALID_SHA}",
                    "ref": "feature-y",
                    "name": "feature-y"
                }}
            }},
            "repository": {{
                "clone_url": "https://gitea.example.com/org/repo.git",
                "ssh_url": "git@gitea.example.com:org/repo.git"
            }}
        }}"#
    );
    let ev = ParsedPullRequestEvent::from_gitea(&gitea_pull_request(&body)).unwrap();
    assert_eq!(ev.action, "opened");
    assert_eq!(ev.branch, Some("feature-y".to_string()));
    assert_eq!(ev.commit_hash, hex::decode(VALID_SHA).unwrap());
}

#[test]
fn parse_gitea_pr_falls_back_to_name_field_for_branch() {
    let body = format!(
        r#"{{
            "action": "synchronize",
            "pull_request": {{
                "head": {{
                    "sha": "{VALID_SHA}",
                    "name": "fallback-branch"
                }}
            }},
            "repository": {{
                "clone_url": "https://gitea.example.com/org/repo.git"
            }}
        }}"#
    );
    let ev = ParsedPullRequestEvent::from_gitea(&gitea_pull_request(&body)).unwrap();
    assert_eq!(ev.branch, Some("fallback-branch".to_string()));
}

// ── GitLab MR ────────────────────────────────────────────────────────────────

#[test]
fn parse_gitlab_mr_open_normalised_to_opened() {
    let body = format!(
        r#"{{
            "object_attributes": {{
                "action": "open",
                "source_branch": "feature-z",
                "last_commit": {{ "id": "{VALID_SHA}" }}
            }},
            "project": {{
                "http_url": "https://gitlab.example.com/org/repo.git",
                "ssh_url": "git@gitlab.example.com:org/repo.git"
            }}
        }}"#
    );
    let ev = ParsedPullRequestEvent::from_gitlab(&gitlab_merge_request(&body)).unwrap();
    assert_eq!(ev.action, "opened");
    assert_eq!(ev.branch, Some("feature-z".to_string()));
    assert_eq!(ev.commit_hash, hex::decode(VALID_SHA).unwrap());
}

#[test]
fn normalise_gitlab_mr_action_maps_all_variants() {
    assert_eq!(normalise_gitlab_mr_action("open"), "opened");
    assert_eq!(normalise_gitlab_mr_action("update"), "synchronize");
    assert_eq!(normalise_gitlab_mr_action("reopen"), "reopened");
    assert_eq!(normalise_gitlab_mr_action("merge"), "merged");
    assert_eq!(normalise_gitlab_mr_action("close"), "closed");
    assert_eq!(normalise_gitlab_mr_action("unknown"), "unknown");
}

#[test]
fn normalised_actions_stay_as_they_are() {
    for action in ["open", "update", "reopen", "merge", "close", "other"] {
        let once = normalise_gitlab_mr_action(action);
        assert_eq!(normalise_gitlab_mr_action(&once), once);
    }
}

// ── GitHub release ───────────────────────────────────────────────────────────

#[test]
fn parse_github_release_with_sha_target_commitish() {
    let body = format!(
        r#"{{
            "action": "published",
            "release": {{
                "tag_name": "v1.2.3",
                "target_commitish": "{VALID_SHA}"
            }},
            "repository": {{
                "clone_url": "https://github.com/org/repo.git",
                "ssh_url": "git@github.com:org/repo.git"
            }}
        }}"#
    );
    let ev = ParsedReleaseEvent::from_github(&github_release(&body)).unwrap();
    assert_eq!(ev.tag, Some("v1.2.3".to_string()));
    assert_eq!(ev.commit_hash, hex::decode(VALID_SHA).unwrap());
}

#[test]
fn parse_github_release_with_branch_target_commitish_returns_none() {
    let body = r#"{
        "action": "published",
        "release": {
            "tag_name": "v1.2.3",
            "target_commitish": "main"
        },
        "repository": {
            "clone_url": "https://github.com/org/repo.git",
            "ssh_url": "git@github.com:org/repo.git"
        }
    }"#;
    assert!(ParsedReleaseEvent::from_github(&github_release(body)).is_none());
}

// ── Gitea release ────────────────────────────────────────────────────────────

#[test]
fn parse_gitea_release_with_sha_field() {
    let body = format!(
        r#"{{
            "action": "published",
            "release": {{
                "tag_name": "v2.0.0",
                "sha": "{VALID_SHA}",
                "target_commitish": "main"
            }},
            "repository": {{
                "clone_url": "https://gitea.example.com/org/repo.git"
            }}
        }}"#
    );
    let ev = ParsedReleaseEvent::from_gitea(&gitea_release(&body)).unwrap();
    assert_eq!(ev.tag, Some("v2.0.0".to_string()));
    assert_eq!(ev.commit_hash, hex::decode(VALID_SHA).unwrap());
}

#[test]
fn parse_gitea_release_falls_back_to_target_commitish_sha() {
    let body = format!(
        r#"{{
            "action": "published",
            "release": {{
                "tag_name": "v2.1.0",
                "target_commitish": "{VALID_SHA}"
            }},
            "repository": {{
                "clone_url": "https://gitea.example.com/org/repo.git"
            }}
        }}"#
    );
    let ev = ParsedReleaseEvent::from_gitea(&gitea_release(&body)).unwrap();
    assert_eq!(ev.commit_hash, hex::decode(VALID_SHA).unwrap());
}

#[test]
fn parse_gitea_release_returns_none_when_no_sha_available() {
    let body = r#"{
        "action": "published",
        "release": {
            "tag_name": "v2.2.0",
            "target_commitish": "main"
        },
        "repository": {
            "clone_url": "https://gitea.example.com/org/repo.git"
        }
    }"#;
    assert!(ParsedReleaseEvent::from_gitea(&gitea_release(body)).is_none());
}

// ── GitLab release ───────────────────────────────────────────────────────────

#[test]
fn parse_gitlab_release_event() {
    let body = format!(
        r#"{{
            "action": "create",
            "project": {{
                "http_url": "https://gitlab.example.com/org/repo.git",
                "ssh_url": "git@gitlab.example.com:org/repo.git"
            }},
            "commit": {{ "id": "{VALID_SHA}" }},
            "tag": "v3.0.0"
        }}"#
    );
    let ev = ParsedReleaseEvent::from_gitlab(&gitlab_release(&body)).unwrap();
    assert_eq!(ev.tag, Some("v3.0.0".to_string()));
    assert_eq!(ev.commit_hash, hex::decode(VALID_SHA).unwrap());
}

#[test]
fn parse_gitlab_release_without_commit_returns_none() {
    let body = r#"{
        "action": "create",
        "project": {
            "http_url": "https://gitlab.example.com/org/repo.git"
        },
        "tag": "v3.1.0"
    }"#;
    assert!(ParsedReleaseEvent::from_gitlab(&gitlab_release(body)).is_none());
}

#[test]
fn gitea_repository_has_both_addresses() {
    let repo = GiteaRepository { clone_url: "c".to_string(), ssh_url: Some("s".to_string()) };
    assert_eq!(gitea_repo_urls(&repo), vec!["c".to_string(), "s".to_string()]);
}
