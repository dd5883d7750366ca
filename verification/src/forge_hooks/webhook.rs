//! Admission and dispatch of incoming webhooks.

use crate::codec::{ct_equal, encode_hex, hex_text, random_bytes};
use crate::error::{ErrorCode, ErrorModel, WebError, WebResult};
use crate::forge_hooks::response::{WebhookResponse, WebhookTriggerOutcome};
use crate::text::{cat, cat3, same};
use vstd::prelude::*;
use vstd::string::StringSliceAdditionalSpecFns;

verus! {

/// The forges that Gradient talks to.
#[derive(Debug, Clone, Copy, PartialEq, Eq, Structural)]
pub enum ForgeType {
    Gitea,
    Forgejo,
    GitLab,
    GitHub,
}

impl ForgeType {
    /// The name of the forge in paths and requests.
    pub open spec fn segment(self) -> Seq<char> {
        match self {
            ForgeType::Gitea => "gitea"@,
            ForgeType::Forgejo => "forgejo"@,
            ForgeType::GitLab => "gitlab"@,
            ForgeType::GitHub => "github"@,
        }
    }

    /// The name of the forge.
    pub fn as_str(self) -> (r: &'static str)
        ensures
            r@ == self.segment(),
    {
        match self {
            ForgeType::Gitea => "gitea",
            ForgeType::Forgejo => "forgejo",
            ForgeType::GitLab => "gitlab",
            ForgeType::GitHub => "github",
        }
    }

    /// The forge that a path segment names.
    pub fn from_path_segment(s: &str) -> (r: Option<ForgeType>)
        ensures
            match r {
                Some(f) => s@ == f.segment(),
                None => forall|f: ForgeType| #![trigger f.segment()] s@ != f.segment(),
            },
    {
        if same(s, "gitea") {
            Some(ForgeType::Gitea)
        } else if same(s, "forgejo") {
            Some(ForgeType::Forgejo)
        } else if same(s, "gitlab") {
            Some(ForgeType::GitLab)
        } else if same(s, "github") {
            Some(ForgeType::GitHub)
        } else {
            None
        }
    }
}

/// No two forges share a path segment.
pub proof fn law_segments_are_distinct(a: ForgeType, b: ForgeType)
    requires
        a.segment() == b.segment(),
    ensures
        a == b,
{
    reveal_strlit("gitea");
    reveal_strlit("forgejo");
    reveal_strlit("gitlab");
    reveal_strlit("github");
    assert("gitea"@.len() == 5 && "forgejo"@.len() == 7);
    assert("gitlab"@.len() == 6 && "github"@.len() == 6);
    assert("gitlab"@[3] == 'l' && "github"@[3] == 'h');
}

// ── Headers ──────────────────────────────────────────────────────────────────

/// A request header, as far as it can be read as text.
pub enum HeaderField {
    Absent,
    /// There, but not visible ASCII.
    Unreadable,
    Text(String),
}

impl HeaderField {
    /// The text of the header, empty when there is none.
    pub open spec fn text(self) -> Seq<char> {
        match self {
            HeaderField::Text(s) => s@,
            _ => Seq::empty(),
        }
    }

    /// The text of the header, empty when there is none.
    pub fn as_text(&self) -> (r: String)
        ensures
            r@ == self.text(),
    {
        match self {
            HeaderField::Text(s) => s.clone(),
            _ => String::new(),
        }
    }
}

/// The headers that the forges use.
pub struct ForgeHeaders {
    /// `X-Gitea-Event`
    pub gitea_event: HeaderField,
    /// `X-Gogs-Event`
    pub gogs_event: HeaderField,
    /// `X-Gitlab-Event`
    pub gitlab_event: HeaderField,
    /// `X-Gitea-Signature`
    pub gitea_signature: HeaderField,
    /// `X-Gitlab-Token`
    pub gitlab_token: HeaderField,
    /// `X-Hub-Signature-256`
    pub hub_signature: HeaderField,
}

// ── Event type detection ─────────────────────────────────────────────────────

#[derive(Debug, PartialEq, Eq)]
pub enum ForgeEvent {
    Push,
    PullRequest,
    Release,
    Comment,
    Unknown(String),
}

impl ForgeHeaders {
    /// The event name of a Gitea or Forgejo request: `X-Gitea-Event` where that
    /// header is there, else `X-Gogs-Event`.
    pub open spec fn gitea_event_name(self) -> Seq<char> {
        if self.gitea_event is Absent {
            self.gogs_event.text()
        } else {
            self.gitea_event.text()
        }
    }
}

/// What a [`ForgeEvent`] says.
pub ghost enum EventModel {
    Push,
    PullRequest,
    Release,
    Comment,
    Unknown(Seq<char>),
}

impl View for ForgeEvent {
    type V = EventModel;

    open spec fn view(&self) -> EventModel {
        match self {
            ForgeEvent::Push => EventModel::Push,
            ForgeEvent::PullRequest => EventModel::PullRequest,
            ForgeEvent::Release => EventModel::Release,
            ForgeEvent::Comment => EventModel::Comment,
            ForgeEvent::Unknown(name) => EventModel::Unknown(name@),
        }
    }
}

/// The event that a request reports.
pub open spec fn event_of(forge: ForgeType, headers: ForgeHeaders) -> EventModel {
    match forge {
        ForgeType::Gitea | ForgeType::Forgejo => {
            let n = headers.gitea_event_name();
            if n == "push"@ {
                EventModel::Push
            } else if n == "pull_request"@ {
                EventModel::PullRequest
            } else if n == "release"@ {
                EventModel::Release
            } else if n == "issue_comment"@ || n == "pull_request_comment"@ {
                EventModel::Comment
            } else {
                EventModel::Unknown(n)
            }
        },
        ForgeType::GitLab => {
            let n = headers.gitlab_event.text();
            if n == "Push Hook"@ || n == "Tag Push Hook"@ {
                EventModel::Push
            } else if n == "Merge Request Hook"@ {
                EventModel::PullRequest
            } else if n == "Release Hook"@ {
                EventModel::Release
            } else if n == "Note Hook"@ {
                EventModel::Comment
            } else {
                EventModel::Unknown(n)
            }
        },
        ForgeType::GitHub => EventModel::Unknown("github"@),
    }
}

/// The event that a request reports.
pub fn forge_event_type(forge: ForgeType, headers: &ForgeHeaders) -> (r: ForgeEvent)
    ensures
        r@ == event_of(forge, *headers),
{
    match forge {
        ForgeType::Gitea | ForgeType::Forgejo => {
            let event = match &headers.gitea_event {
                HeaderField::Absent => headers.gogs_event.as_text(),
                _ => headers.gitea_event.as_text(),
            };
            let e = event.as_str();
            if same(e, "push") {
                ForgeEvent::Push
            } else if same(e, "pull_request") {
                ForgeEvent::PullRequest
            } else if same(e, "release") {
                ForgeEvent::Release
            } else if same(e, "issue_comment") || same(e, "pull_request_comment") {
                ForgeEvent::Comment
            } else {
                ForgeEvent::Unknown(event)
            }
        },
        ForgeType::GitLab => {
            let event = headers.gitlab_event.as_text();
            let e = event.as_str();
            if same(e, "Push Hook") || same(e, "Tag Push Hook") {
                ForgeEvent::Push
            } else if same(e, "Merge Request Hook") {
                ForgeEvent::PullRequest
            } else if same(e, "Release Hook") {
                ForgeEvent::Release
            } else if same(e, "Note Hook") {
                ForgeEvent::Comment
            } else {
                ForgeEvent::Unknown(event)
            }
        },
        ForgeType::GitHub => ForgeEvent::Unknown("github".to_owned()),
    }
}

/// The events of the GitHub App that something is done about.
#[derive(Debug, Clone, Copy, PartialEq, Eq, Structural)]
pub enum GitHubAppEvent {
    Push,
    PullRequest,
    Release,
    Installation,
    CheckRun,
    IssueComment,
    Other,
}

/// The event that the `X-GitHub-Event` header names.
pub open spec fn github_app_event_spec(event: Seq<char>) -> GitHubAppEvent {
    if event == "push"@ {
        GitHubAppEvent::Push
    } else if event == "pull_request"@ {
        GitHubAppEvent::PullRequest
    } else if event == "release"@ {
        GitHubAppEvent::Release
    } else if event == "installation"@ || event == "installation_repositories"@ {
        GitHubAppEvent::Installation
    } else if event == "check_run"@ {
        GitHubAppEvent::CheckRun
    } else if event == "issue_comment"@ {
        GitHubAppEvent::IssueComment
    } else {
        GitHubAppEvent::Other
    }
}

/// The event that the `X-GitHub-Event` header names.
pub fn github_app_event(event: &str) -> (r: GitHubAppEvent)
    ensures
        r == github_app_event_spec(event@),
{
    if same(event, "push") {
        GitHubAppEvent::Push
    } else if same(event, "pull_request") {
        GitHubAppEvent::PullRequest
    } else if same(event, "release") {
        GitHubAppEvent::Release
    } else if same(event, "installation") || same(event, "installation_repositories") {
        GitHubAppEvent::Installation
    } else if same(event, "check_run") {
        GitHubAppEvent::CheckRun
    } else if same(event, "issue_comment") {
        GitHubAppEvent::IssueComment
    } else {
        GitHubAppEvent::Other
    }
}

// ── Signatures ───────────────────────────────────────────────────────────────

impl ForgeHeaders {
    /// The header that a forge signs its requests with.
    pub open spec fn signature(self, forge: ForgeType) -> Seq<char> {
        match forge {
            ForgeType::Gitea | ForgeType::Forgejo => self.gitea_signature.text(),
            ForgeType::GitLab => self.gitlab_token.text(),
            ForgeType::GitHub => self.hub_signature.text(),
        }
    }

    /// The header that a forge signs its requests with, empty when it is
    /// missing.
    pub fn signature_text(&self, forge: ForgeType) -> (r: String)
        ensures
            r@ == self.signature(forge),
    {
        match forge {
            ForgeType::Gitea | ForgeType::Forgejo => self.gitea_signature.as_text(),
            ForgeType::GitLab => self.gitlab_token.as_text(),
            ForgeType::GitHub => self.hub_signature.as_text(),
        }
    }
}

/// Whether two texts agree, compared in constant time.
pub(crate) fn ct_same(a: &str, b: &str) -> (r: bool)
    ensures
        r == (a@ == b@),
{
    proof {
        vstd::utf8::encode_utf8_decode_utf8(a@);
        vstd::utf8::encode_utf8_decode_utf8(b@);
    }
    ct_equal(a.as_bytes(), b.as_bytes())
}

/// A request is signed with `secret`. GitLab sends the secret itself; for the others
/// `hmac_matches` says whether the HMAC of the body under `secret` is the one in the
/// signature header.
pub open spec fn is_signed(
    forge: ForgeType,
    secret: Seq<char>,
    headers: ForgeHeaders,
    hmac_matches: bool,
) -> bool {
    if forge is GitLab {
        headers.gitlab_token.text() == secret
    } else {
        hmac_matches
    }
}

/// Whether a request is signed with `secret`. GitLab sends the secret itself;
/// for the others `hmac_matches` says whether the HMAC of the body under
/// `secret` is the one in the signature header.
pub fn verify_forge_signature(
    forge: ForgeType,
    secret: &str,
    headers: &ForgeHeaders,
    hmac_matches: bool,
) -> (r: bool)
    ensures
        r == is_signed(forge, secret@, *headers, hmac_matches),
{
    match forge {
        ForgeType::GitLab => ct_same(headers.gitlab_token.as_text().as_str(), secret),
        _ => hmac_matches,
    }
}

// ── Steps ────────────────────────────────────────────────────────────────────

/// A payload that is parsed, and whose triggers are fired.
#[derive(Debug, Clone, Copy, PartialEq, Eq, Structural)]
pub enum PayloadKind {
    GiteaPush,
    GiteaPullRequest,
    GiteaRelease,
    GitLabPush,
    GitLabMergeRequest,
    GitLabRelease,
    GitHubPush,
    GitHubPullRequest,
    GitHubRelease,
}

/// What is done about a webhook that was let in.
#[derive(Debug, Clone, Copy, PartialEq, Eq, Structural)]
pub enum WebhookStep {
    /// Parse the payload and fire the triggers that it matches.
    Dispatch(PayloadKind),
    /// Look for a command in a comment.
    Comment(ForgeType),
    /// Store or clear an installation of the GitHub App.
    Installation,
    /// Look for an approval click.
    CheckRun,
    /// Nothing but an answer.
    Answer,
}

/// A webhook that was let in. Nothing outside this module makes one, so that every step
/// comes from a request that passed admission.
#[derive(Debug, PartialEq, Eq)]
pub struct AdmittedWebhook {
    step: WebhookStep,
    name: String,
}

/// What an [`AdmittedWebhook`] says.
pub ghost struct AdmittedModel {
    pub step: WebhookStep,
    /// The event that the answer names.
    pub name: Seq<char>,
}

impl View for AdmittedWebhook {
    type V = AdmittedModel;

    closed spec fn view(&self) -> AdmittedModel {
        AdmittedModel { step: self.step, name: self.name@ }
    }
}

impl AdmittedWebhook {
    /// What is done about the webhook.
    pub fn step(&self) -> (r: WebhookStep)
        ensures
            r == self@.step,
    {
        self.step
    }
}

/// The step that a request takes: none, where it was refused.
pub open spec fn step_after(admitted: WebResult<AdmittedWebhook>) -> Option<WebhookStep> {
    match admitted {
        Ok(a) => Some(a@.step),
        Err(_) => None,
    }
}

/// The step that a request takes: none, where it was refused.
pub fn next_step(admitted: &WebResult<AdmittedWebhook>) -> (r: Option<WebhookStep>)
    ensures
        r == step_after(*admitted),
{
    match admitted {
        Ok(a) => Some(a.step()),
        Err(_) => None,
    }
}

// ── Admission ────────────────────────────────────────────────────────────────

/// Why a GitHub App webhook is refused: the App has to be configured, its secret
/// readable and the signature good, in this order.
pub open spec fn app_refusal(configured: bool, secret_loaded: bool, signature_matches: bool) -> Option<
    ErrorModel,
> {
    if !configured {
        Some(ErrorModel::service_unavailable("github app integration not configured"@))
    } else if !secret_loaded {
        Some(ErrorModel::internal("webhook secret unavailable"@))
    } else if !signature_matches {
        Some(ErrorModel::unauthorized("invalid webhook signature"@))
    } else {
        None
    }
}

/// What is done about an event of the GitHub App.
pub open spec fn app_step(event: Seq<char>) -> WebhookStep {
    match github_app_event_spec(event) {
        GitHubAppEvent::Push => WebhookStep::Dispatch(PayloadKind::GitHubPush),
        GitHubAppEvent::PullRequest => WebhookStep::Dispatch(PayloadKind::GitHubPullRequest),
        GitHubAppEvent::Release => WebhookStep::Dispatch(PayloadKind::GitHubRelease),
        GitHubAppEvent::Installation => WebhookStep::Installation,
        GitHubAppEvent::CheckRun => WebhookStep::CheckRun,
        GitHubAppEvent::IssueComment => WebhookStep::Comment(ForgeType::GitHub),
        GitHubAppEvent::Other => WebhookStep::Answer,
    }
}

/// The step that a GitHub App webhook takes, if any.
pub open spec fn app_webhook_takes(
    configured: bool,
    secret_loaded: bool,
    signature_matches: bool,
    event: Seq<char>,
) -> Option<WebhookStep> {
    if app_refusal(configured, secret_loaded, signature_matches) is Some {
        None
    } else {
        Some(app_step(event))
    }
}

/// Lets a GitHub App webhook in, or refuses it. `event` is the event that its header
/// names.
pub fn github_app_webhook_step(
    configured: bool,
    secret_loaded: bool,
    signature_matches: bool,
    event: &str,
) -> (r: WebResult<AdmittedWebhook>)
    ensures
        r is Ok <==> configured && secret_loaded && signature_matches,
        match r {
            Ok(a) => a@ == (AdmittedModel { step: app_step(event@), name: event@ }),
            Err(e) => app_refusal(configured, secret_loaded, signature_matches) == Some(e@),
        },
        step_after(r) == app_webhook_takes(configured, secret_loaded, signature_matches, event@),
{
    if !configured {
        return Err(WebError::service_unavailable("github app integration not configured"));
    }
    if !secret_loaded {
        return Err(WebError::internal("webhook secret unavailable"));
    }
    if !signature_matches {
        return Err(WebError::unauthorized("invalid webhook signature"));
    }
    let step = match github_app_event(event) {
        GitHubAppEvent::Push => WebhookStep::Dispatch(PayloadKind::GitHubPush),
        GitHubAppEvent::PullRequest => WebhookStep::Dispatch(PayloadKind::GitHubPullRequest),
        GitHubAppEvent::Release => WebhookStep::Dispatch(PayloadKind::GitHubRelease),
        GitHubAppEvent::Installation => WebhookStep::Installation,
        GitHubAppEvent::CheckRun => WebhookStep::CheckRun,
        GitHubAppEvent::IssueComment => WebhookStep::Comment(ForgeType::GitHub),
        GitHubAppEvent::Other => WebhookStep::Answer,
    };
    Ok(AdmittedWebhook { step, name: event.to_owned() })
}

/// The forge that a per-integration route names. GitHub has its own route.
pub open spec fn route_forge(forge: Seq<char>) -> Option<ForgeType> {
    if forge == ForgeType::Gitea.segment() {
        Some(ForgeType::Gitea)
    } else if forge == ForgeType::Forgejo.segment() {
        Some(ForgeType::Forgejo)
    } else if forge == ForgeType::GitLab.segment() {
        Some(ForgeType::GitLab)
    } else {
        None
    }
}

/// The forge of a per-integration webhook. GitHub has its own route.
pub fn forge_of_route(forge: &str) -> (r: WebResult<ForgeType>)
    ensures
        match r {
            Ok(f) => route_forge(forge@) == Some(f),
            Err(e) => route_forge(forge@) is None
                && e@ == if forge@ == ForgeType::GitHub.segment() {
                ErrorModel::bad_request("unsupported forge"@)
            } else {
                ErrorModel::not_found_msg("integration not found"@)
            },
        },
{
    match ForgeType::from_path_segment(forge) {
        None => {
            proof {
                assert(forge@ != ForgeType::GitHub.segment());
                assert(forge@ != ForgeType::Gitea.segment());
                assert(forge@ != ForgeType::Forgejo.segment());
                assert(forge@ != ForgeType::GitLab.segment());
            }
            Err(WebError::not_found_msg("integration not found"))
        },
        Some(f) => {
            proof {
                if forge@ == ForgeType::GitHub.segment() {
                    law_segments_are_distinct(f, ForgeType::GitHub);
                }
                if forge@ == ForgeType::Gitea.segment() {
                    law_segments_are_distinct(f, ForgeType::Gitea);
                }
                if forge@ == ForgeType::Forgejo.segment() {
                    law_segments_are_distinct(f, ForgeType::Forgejo);
                }
                if forge@ == ForgeType::GitLab.segment() {
                    law_segments_are_distinct(f, ForgeType::GitLab);
                }
            }
            match f {
                ForgeType::GitHub => Err(WebError::bad_request("unsupported forge")),
                _ => Ok(f),
            }
        },
    }
}

/// The result of a lookup that the webhook routes make.
#[derive(Debug, Clone, Copy, PartialEq, Eq, Structural)]
pub enum Lookup {
    /// The database failed.
    Failed,
    Missing,
    Found,
}

/// The webhook secret of an integration.
#[derive(Debug, Clone, Copy, PartialEq, Eq)]
pub enum WebhookSecret<'a> {
    /// The integration has none.
    Missing,
    /// It could not be decrypted.
    Unreadable,
    Plain(&'a str),
}

/// Why a per-integration webhook is refused. The checks come in this order: the forge,
/// the organization, the integration, its secret, the decryption of the secret and the
/// signature. A sender cannot tell a missing organization from a missing integration or
/// secret.
pub open spec fn forge_refusal(
    forge: Seq<char>,
    organization: Lookup,
    integration: Lookup,
    secret: WebhookSecret,
    headers: ForgeHeaders,
    hmac_matches: bool,
) -> Option<ErrorModel> {
    if route_forge(forge) is None {
        if forge == ForgeType::GitHub.segment() {
            Some(ErrorModel::bad_request("unsupported forge"@))
        } else {
            Some(ErrorModel::not_found_msg("integration not found"@))
        }
    } else if organization is Failed {
        Some(ErrorModel::internal("internal error"@))
    } else if organization is Missing {
        Some(ErrorModel::not_found_msg("integration not found"@))
    } else if integration is Failed {
        Some(ErrorModel::internal("internal error"@))
    } else if integration is Missing || secret is Missing {
        Some(ErrorModel::not_found_msg("integration not found"@))
    } else if secret is Unreadable {
        Some(ErrorModel::internal("internal error"@))
    } else if !is_signed(route_forge(forge)->0, secret->Plain_0@, headers, hmac_matches) {
        Some(ErrorModel::unauthorized("invalid webhook signature"@))
    } else {
        None
    }
}

/// What is done about an event of a per-integration route.
pub open spec fn forge_step(forge: ForgeType, event: EventModel) -> WebhookStep {
    match event {
        EventModel::Push => WebhookStep::Dispatch(
            if forge is GitLab {
                PayloadKind::GitLabPush
            } else {
                PayloadKind::GiteaPush
            },
        ),
        EventModel::PullRequest => WebhookStep::Dispatch(
            if forge is GitLab {
                PayloadKind::GitLabMergeRequest
            } else {
                PayloadKind::GiteaPullRequest
            },
        ),
        EventModel::Release => WebhookStep::Dispatch(
            if forge is GitLab {
                PayloadKind::GitLabRelease
            } else {
                PayloadKind::GiteaRelease
            },
        ),
        EventModel::Comment => WebhookStep::Comment(forge),
        EventModel::Unknown(_) => WebhookStep::Answer,
    }
}

/// The event that the answer names.
pub open spec fn forge_event_name(event: EventModel) -> Seq<char> {
    match event {
        EventModel::Push => "push"@,
        EventModel::PullRequest => "pull_request"@,
        EventModel::Release => "release"@,
        EventModel::Comment => "comment"@,
        EventModel::Unknown(name) => name,
    }
}

/// The step that a per-integration webhook takes, if any.
pub open spec fn forge_webhook_takes(
    forge: Seq<char>,
    organization: Lookup,
    integration: Lookup,
    secret: WebhookSecret,
    headers: ForgeHeaders,
    hmac_matches: bool,
) -> Option<WebhookStep> {
    if forge_refusal(forge, organization, integration, secret, headers, hmac_matches) is Some {
        None
    } else {
        let f = route_forge(forge)->0;
        Some(forge_step(f, event_of(f, headers)))
    }
}

/// Lets a per-integration webhook in, or refuses it.
pub fn forge_webhook_step(
    forge: &str,
    organization: Lookup,
    integration: Lookup,
    secret: WebhookSecret,
    headers: &ForgeHeaders,
    hmac_matches: bool,
) -> (r: WebResult<AdmittedWebhook>)
    ensures
        r is Ok <==> {
            &&& route_forge(forge@) matches Some(f)
            &&& organization is Found
            &&& integration is Found
            &&& secret matches WebhookSecret::Plain(s)
            &&& is_signed(f, s@, *headers, hmac_matches)
        },
        match r {
            Ok(a) => {
                let f = route_forge(forge@)->0;
                a@ == (AdmittedModel {
                    step: forge_step(f, event_of(f, *headers)),
                    name: forge_event_name(event_of(f, *headers)),
                })
            },
            Err(e) => forge_refusal(
                forge@,
                organization,
                integration,
                secret,
                *headers,
                hmac_matches,
            ) == Some(e@),
        },
        step_after(r) == forge_webhook_takes(
            forge@,
            organization,
            integration,
            secret,
            *headers,
            hmac_matches,
        ),
{
    let f = match forge_of_route(forge) {
        Ok(f) => f,
        Err(e) => {
            return Err(e);
        },
    };
    match organization {
        Lookup::Failed => {
            return Err(WebError::internal("internal error"));
        },
        Lookup::Missing => {
            return Err(WebError::not_found_msg("integration not found"));
        },
        Lookup::Found => {},
    }
    match integration {
        Lookup::Failed => {
            return Err(WebError::internal("internal error"));
        },
        Lookup::Missing => {
            return Err(WebError::not_found_msg("integration not found"));
        },
        Lookup::Found => {},
    }
    let plain = match secret {
        WebhookSecret::Missing => {
            return Err(WebError::not_found_msg("integration not found"));
        },
        WebhookSecret::Unreadable => {
            return Err(WebError::internal("internal error"));
        },
        WebhookSecret::Plain(s) => s,
    };
    if !verify_forge_signature(f, plain, headers, hmac_matches) {
        return Err(WebError::unauthorized("invalid webhook signature"));
    }
    let gitlab = match f {
        ForgeType::GitLab => true,
        _ => false,
    };
    let (step, name) = match forge_event_type(f, headers) {
        ForgeEvent::Push => (
            WebhookStep::Dispatch(
                if gitlab {
                    PayloadKind::GitLabPush
                } else {
                    PayloadKind::GiteaPush
                },
            ),
            "push".to_owned(),
        ),
        ForgeEvent::PullRequest => (
            WebhookStep::Dispatch(
                if gitlab {
                    PayloadKind::GitLabMergeRequest
                } else {
                    PayloadKind::GiteaPullRequest
                },
            ),
            "pull_request".to_owned(),
        ),
        ForgeEvent::Release => (
            WebhookStep::Dispatch(
                if gitlab {
                    PayloadKind::GitLabRelease
                } else {
                    PayloadKind::GiteaRelease
                },
            ),
            "release".to_owned(),
        ),
        ForgeEvent::Comment => (WebhookStep::Comment(f), "comment".to_owned()),
        ForgeEvent::Unknown(name) => (WebhookStep::Answer, name),
    };
    Ok(AdmittedWebhook { step, name })
}

// ── Answers ──────────────────────────────────────────────────────────────────

/// What a push, pull-request or release event came to: the addresses it
/// reported and the outcome of its triggers, or nothing when its payload could
/// not be read.
pub struct Dispatched {
    pub repository_urls: Vec<String>,
    pub outcome: WebhookTriggerOutcome,
}

/// `r` answers the event `name` that came to `d`.
pub open spec fn answers(
    r: WebResult<WebhookResponse>,
    name: Seq<char>,
    d: Option<Dispatched>,
) -> bool {
    match d {
        Some(x) => r matches Ok(w) && {
            &&& w.event@ == name
            &&& w.repository_urls == x.repository_urls
            &&& w.projects_scanned == x.outcome.projects_scanned
            &&& w.queued == x.outcome.queued
            &&& w.skipped == x.outcome.skipped
        },
        None => r matches Err(e) && e@ == ErrorModel::bad_request("malformed webhook payload"@),
    }
}

/// `r` answers the event `name`, which triggers nothing.
pub open spec fn answers_empty(r: WebResult<WebhookResponse>, name: Seq<char>) -> bool {
    r matches Ok(w) && {
        &&& w.event@ == name
        &&& w.repository_urls@.len() == 0
        &&& w.projects_scanned == 0
        &&& w.queued@.len() == 0
        &&& w.skipped@.len() == 0
    }
}

/// `r` answers a webhook that was let in; `d` is what its dispatch came to, where it
/// has one.
pub open spec fn answers_admitted(
    r: WebResult<WebhookResponse>,
    a: AdmittedModel,
    d: Option<Dispatched>,
) -> bool {
    if a.step is Dispatch {
        answers(r, a.name, d)
    } else {
        answers_empty(r, a.name)
    }
}

/// The answer to a webhook. A refused one is answered by its refusal, whatever
/// `dispatched` holds; of the others, `dispatched` is what the dispatch step came to.
pub fn webhook_answer(admitted: WebResult<AdmittedWebhook>, dispatched: Option<Dispatched>) -> (r:
    WebResult<WebhookResponse>)
    ensures
        match admitted {
            Ok(a) => answers_admitted(r, a@, dispatched),
            Err(e) => r matches Err(x) && x@ == e@,
        },
{
    match admitted {
        Err(e) => Err(e),
        Ok(a) => match a.step {
            WebhookStep::Dispatch(_) => match dispatched {
                Some(d) => Ok(
                    WebhookResponse::triggered(a.name.as_str(), d.repository_urls, d.outcome),
                ),
                None => Err(WebError::bad_request("malformed webhook payload")),
            },
            _ => Ok(WebhookResponse::empty(a.name.as_str())),
        },
    }
}

/// The answer to a GitHub App webhook: its refusal, or what the event came to.
/// `dispatched` is what the dispatch of an admitted push, pull-request or release event
/// came to.
pub fn github_app_webhook(
    configured: bool,
    secret_loaded: bool,
    signature_matches: bool,
    event: &str,
    dispatched: Option<Dispatched>,
) -> (r: WebResult<WebhookResponse>)
    ensures
        match app_refusal(configured, secret_loaded, signature_matches) {
            Some(refusal) => r matches Err(e) && e@ == refusal,
            None => answers_admitted(
                r,
                AdmittedModel { step: app_step(event@), name: event@ },
                dispatched,
            ),
        },
{
    let admitted = github_app_webhook_step(configured, secret_loaded, signature_matches, event);
    webhook_answer(admitted, dispatched)
}

/// The answer to a per-integration webhook: its refusal, or what the event came to.
/// `dispatched` is what the dispatch of an admitted push, pull-request or release event
/// came to.
pub fn forge_webhook(
    forge: &str,
    organization: Lookup,
    integration: Lookup,
    secret: WebhookSecret,
    headers: &ForgeHeaders,
    hmac_matches: bool,
    dispatched: Option<Dispatched>,
) -> (r: WebResult<WebhookResponse>)
    ensures
        match forge_refusal(
            forge@,
            organization,
            integration,
            secret,
            *headers,
            hmac_matches,
        ) {
            Some(refusal) => r matches Err(e) && e@ == refusal,
            None => {
                let f = route_forge(forge@)->0;
                answers_admitted(
                    r,
                    AdmittedModel {
                        step: forge_step(f, event_of(f, *headers)),
                        name: forge_event_name(event_of(f, *headers)),
                    },
                    dispatched,
                )
            },
        },
{
    let admitted = forge_webhook_step(
        forge,
        organization,
        integration,
        secret,
        headers,
        hmac_matches,
    );
    webhook_answer(admitted, dispatched)
}

/// A per-integration webhook whose signature is bad is answered with status 401, and
/// takes no step: nothing is parsed and nothing is triggered, whatever event its headers
/// name.
pub proof fn law_unsigned_webhook_takes_no_step(
    forge: Seq<char>,
    secret: &str,
    headers: ForgeHeaders,
    hmac_matches: bool,
)
    requires
        route_forge(forge) matches Some(f) && !is_signed(f, secret@, headers, hmac_matches),
    ensures
        ({
            let plain = WebhookSecret::Plain(secret);
            let refusal = forge_refusal(
                forge,
                Lookup::Found,
                Lookup::Found,
                plain,
                headers,
                hmac_matches,
            );
            &&& refusal == Some(ErrorModel::unauthorized("invalid webhook signature"@))
            &&& refusal->0.kind.http_status() == 401
            &&& forge_webhook_takes(
                forge,
                Lookup::Found,
                Lookup::Found,
                plain,
                headers,
                hmac_matches,
            ) is None
        }),
{
}

/// A refused per-integration webhook takes no step.
pub proof fn law_refused_webhook_takes_no_step(
    forge: Seq<char>,
    organization: Lookup,
    integration: Lookup,
    secret: WebhookSecret,
    headers: ForgeHeaders,
    hmac_matches: bool,
)
    requires
        forge_refusal(forge, organization, integration, secret, headers, hmac_matches) is Some,
    ensures
        forge_webhook_takes(
            forge,
            organization,
            integration,
            secret,
            headers,
            hmac_matches,
        ) is None,
{
}

/// A GitHub App webhook that is not signed, or that the server cannot check, takes no
/// step, whatever event its header names.
pub proof fn law_unsigned_app_webhook_takes_no_step(
    configured: bool,
    secret_loaded: bool,
    signature_matches: bool,
    event: Seq<char>,
)
    requires
        !(configured && secret_loaded && signature_matches),
    ensures
        app_refusal(configured, secret_loaded, signature_matches) is Some,
        app_webhook_takes(configured, secret_loaded, signature_matches, event) is None,
{
}

proof fn lemma_forge_names()
    ensures
        "gitea"@ != "gitlab"@,
        "forgejo"@ != "gitlab"@,
        "gitea"@ != "forgejo"@,
        "github"@ != "gitea"@,
        "github"@ != "forgejo"@,
        "github"@ != "gitlab"@,
{
    reveal_strlit("gitea");
    reveal_strlit("forgejo");
    reveal_strlit("gitlab");
    reveal_strlit("github");
    assert("gitea"@.len() == 5 && "forgejo"@.len() == 7);
    assert("gitlab"@.len() == 6 && "github"@.len() == 6);
    assert("gitlab"@[3] == 'l' && "github"@[3] == 'h');
}

proof fn lemma_event_names()
    ensures
        "push"@.len() == 4,
        "pull_request"@.len() == 12,
        "release"@.len() == 7,
        "issue_comment"@.len() == 13,
        "pull_request_comment"@.len() == 20,
        "installation"@.len() == 12,
        "installation"@[0] == 'i',
        "pull_request"@[0] == 'p',
        "installation_repositories"@.len() == 25,
        "check_run"@.len() == 9,
        "Push Hook"@.len() == 9,
        "Push Hook"@[0] == 'P',
        "Tag Push Hook"@.len() == 13,
        "Merge Request Hook"@.len() == 18,
        "Release Hook"@.len() == 12,
        "Note Hook"@.len() == 9,
        "Note Hook"@[0] == 'N',
{
    reveal_strlit("push");
    reveal_strlit("pull_request");
    reveal_strlit("release");
    reveal_strlit("issue_comment");
    reveal_strlit("pull_request_comment");
    reveal_strlit("installation");
    reveal_strlit("installation_repositories");
    reveal_strlit("check_run");
    reveal_strlit("Push Hook");
    reveal_strlit("Tag Push Hook");
    reveal_strlit("Merge Request Hook");
    reveal_strlit("Release Hook");
    reveal_strlit("Note Hook");
}

/// The path segments of the forges and what they name: `gitea`, `forgejo`, `gitlab` and
/// `github`, and nothing else.
pub proof fn law_forge_segments(s: &str, r: Option<ForgeType>)
    requires
        call_ensures(ForgeType::from_path_segment, (s,), r),
    ensures
        s@ == "gitea"@ <==> r == Some(ForgeType::Gitea),
        s@ == "forgejo"@ <==> r == Some(ForgeType::Forgejo),
        s@ == "gitlab"@ <==> r == Some(ForgeType::GitLab),
        s@ == "github"@ <==> r == Some(ForgeType::GitHub),
{
    lemma_forge_names();
    assert(ForgeType::Gitea.segment() == "gitea"@);
    assert(ForgeType::Forgejo.segment() == "forgejo"@);
    assert(ForgeType::GitLab.segment() == "gitlab"@);
    assert(ForgeType::GitHub.segment() == "github"@);
}

/// A per-integration webhook is let in when its forge is Gitea, Forgejo or GitLab, organization
/// and integration are there, and the integration's secret is readable and signs the request:
/// GitLab sends it, the others send an HMAC under it. Nothing else takes a step.
pub proof fn law_forge_webhook_admission(
    forge: &str,
    organization: Lookup,
    integration: Lookup,
    secret: WebhookSecret,
    headers: ForgeHeaders,
    hmac_matches: bool,
    admitted: WebResult<AdmittedWebhook>,
    step: Option<WebhookStep>,
)
    requires
        call_ensures(
            forge_webhook_step,
            (forge, organization, integration, secret, &headers, hmac_matches),
            admitted,
        ),
        call_ensures(next_step, (&admitted,), step),
    ensures
        step is Some <==> admitted is Ok,
        step is Some <==> {
            &&& organization is Found
            &&& integration is Found
            &&& secret matches WebhookSecret::Plain(s)
            &&& ({
                ||| (forge@ == "gitea"@ || forge@ == "forgejo"@) && hmac_matches
                ||| forge@ == "gitlab"@ && (headers.gitlab_token matches HeaderField::Text(t)
                    && t@ == s@)
                ||| forge@ == "gitlab"@ && !(headers.gitlab_token is Text) && s@.len() == 0
            })
        },
{
    lemma_forge_names();
    if let WebhookSecret::Plain(s) = secret {
        if s@.len() == 0 {
            assert(s@ =~= Seq::<char>::empty());
        }
    }
}

/// A refused per-integration webhook is told why. The checks come in this order: an unknown
/// forge, a missing organization, integration or secret all read `integration not found`; GitHub
/// is unsupported; a database failure or an unreadable secret is an internal error; what is left
/// is a bad signature.
pub proof fn law_forge_webhook_refusals(
    forge: &str,
    organization: Lookup,
    integration: Lookup,
    secret: WebhookSecret,
    headers: ForgeHeaders,
    hmac_matches: bool,
    r: WebResult<AdmittedWebhook>,
)
    requires
        call_ensures(
            forge_webhook_step,
            (forge, organization, integration, secret, &headers, hmac_matches),
            r,
        ),
    ensures
        ({
            let known = forge@ == "gitea"@ || forge@ == "forgejo"@ || forge@ == "gitlab"@;
            let absent = r matches Err(WebError::NotFound(ErrorCode::NOT_FOUND, m)) && m@
                == "integration not found"@;
            let broken = r matches Err(WebError::Internal(m)) && m@ == "internal error"@;
            &&& forge@ == "github"@ ==> (r matches Err(
                WebError::BadRequest(ErrorCode::BAD_REQUEST, m),
            ) && m@ == "unsupported forge"@)
            &&& !known && forge@ != "github"@ ==> absent
            &&& known && organization is Failed ==> broken
            &&& known && organization is Missing ==> absent
            &&& known && organization is Found ==> {
                &&& integration is Failed ==> broken
                &&& integration is Missing ==> absent
                &&& integration is Found && secret is Missing ==> absent
                &&& integration is Found && secret is Unreadable ==> broken
                &&& integration is Found && secret is Plain && r is Err ==> (r matches Err(
                    WebError::Unauthorized(ErrorCode::UNAUTHORIZED, m),
                ) && m@ == "invalid webhook signature"@)
            }
        }),
{
    lemma_forge_names();
}

/// What an admitted Gitea or Forgejo webhook comes to, by the name in its `X-Gitea-Event`
/// header, or in `X-Gogs-Event` where that is absent.
pub proof fn law_gitea_webhook_steps(
    forge: &str,
    secret: &str,
    headers: ForgeHeaders,
    name: Seq<char>,
    admitted: WebResult<AdmittedWebhook>,
    step: Option<WebhookStep>,
)
    requires
        forge@ == "gitea"@ || forge@ == "forgejo"@,
        (headers.gitea_event matches HeaderField::Text(t) && t@ == name)
            || (headers.gitea_event is Absent && (headers.gogs_event matches HeaderField::Text(t)
            && t@ == name)),
        call_ensures(
            forge_webhook_step,
            (
                forge,
                Lookup::Found,
                Lookup::Found,
                WebhookSecret::Plain(secret),
                &headers,
                true,
            ),
            admitted,
        ),
        call_ensures(next_step, (&admitted,), step),
    ensures
        name == "push"@ ==> step == Some(WebhookStep::Dispatch(PayloadKind::GiteaPush)),
        name == "pull_request"@ ==> step == Some(
            WebhookStep::Dispatch(PayloadKind::GiteaPullRequest),
        ),
        name == "release"@ ==> step == Some(WebhookStep::Dispatch(PayloadKind::GiteaRelease)),
        name == "issue_comment"@ || name == "pull_request_comment"@ ==> step == Some(
            WebhookStep::Comment(
                if forge@ == "gitea"@ {
                    ForgeType::Gitea
                } else {
                    ForgeType::Forgejo
                },
            ),
        ),
        name != "push"@ && name != "pull_request"@ && name != "release"@ && name
            != "issue_comment"@ && name != "pull_request_comment"@ ==> step == Some(
            WebhookStep::Answer,
        ),
{
    lemma_forge_names();
    lemma_event_names();
}

/// What an admitted GitLab webhook comes to, by the name in its `X-Gitlab-Event` header.
pub proof fn law_gitlab_webhook_steps(
    forge: &str,
    secret: &str,
    headers: ForgeHeaders,
    hmac_matches: bool,
    name: Seq<char>,
    admitted: WebResult<AdmittedWebhook>,
    step: Option<WebhookStep>,
)
    requires
        forge@ == "gitlab"@,
        headers.gitlab_event matches HeaderField::Text(t) && t@ == name,
        headers.gitlab_token matches HeaderField::Text(t) && t@ == secret@,
        call_ensures(
            forge_webhook_step,
            (
                forge,
                Lookup::Found,
                Lookup::Found,
                WebhookSecret::Plain(secret),
                &headers,
                hmac_matches,
            ),
            admitted,
        ),
        call_ensures(next_step, (&admitted,), step),
    ensures
        name == "Push Hook"@ || name == "Tag Push Hook"@ ==> step == Some(
            WebhookStep::Dispatch(PayloadKind::GitLabPush),
        ),
        name == "Merge Request Hook"@ ==> step == Some(
            WebhookStep::Dispatch(PayloadKind::GitLabMergeRequest),
        ),
        name == "Release Hook"@ ==> step == Some(
            WebhookStep::Dispatch(PayloadKind::GitLabRelease),
        ),
        name == "Note Hook"@ ==> step == Some(WebhookStep::Comment(ForgeType::GitLab)),
        name != "Push Hook"@ && name != "Tag Push Hook"@ && name != "Merge Request Hook"@ && name
            != "Release Hook"@ && name != "Note Hook"@ ==> step == Some(WebhookStep::Answer),
{
    lemma_forge_names();
    lemma_event_names();
}

/// What an admitted webhook of the GitHub App comes to, by the name in its `X-GitHub-Event`
/// header; a webhook is admitted when the App is configured, its secret readable and the
/// signature good.
pub proof fn law_app_webhook_steps(
    configured: bool,
    secret_loaded: bool,
    signature_matches: bool,
    event: &str,
    admitted: WebResult<AdmittedWebhook>,
    step: Option<WebhookStep>,
)
    requires
        call_ensures(
            github_app_webhook_step,
            (configured, secret_loaded, signature_matches, event),
            admitted,
        ),
        call_ensures(next_step, (&admitted,), step),
    ensures
        step is Some <==> configured && secret_loaded && signature_matches,
        !configured ==> (admitted matches Err(
            WebError::ServiceUnavailable(ErrorCode::SERVICE_UNAVAILABLE, m),
        ) && m@ == "github app integration not configured"@),
        configured && !secret_loaded ==> (admitted matches Err(WebError::Internal(m)) && m@
            == "webhook secret unavailable"@),
        configured && secret_loaded && !signature_matches ==> (admitted matches Err(
            WebError::Unauthorized(ErrorCode::UNAUTHORIZED, m),
        ) && m@ == "invalid webhook signature"@),
        step matches Some(x) ==> {
            &&& event@ == "push"@ ==> x == WebhookStep::Dispatch(PayloadKind::GitHubPush)
            &&& event@ == "pull_request"@ ==> x == WebhookStep::Dispatch(
                PayloadKind::GitHubPullRequest,
            )
            &&& event@ == "release"@ ==> x == WebhookStep::Dispatch(PayloadKind::GitHubRelease)
            &&& event@ == "installation"@ || event@ == "installation_repositories"@ ==> x
                == WebhookStep::Installation
            &&& event@ == "check_run"@ ==> x == WebhookStep::CheckRun
            &&& event@ == "issue_comment"@ ==> x == WebhookStep::Comment(ForgeType::GitHub)
            &&& event@ != "push"@ && event@ != "pull_request"@ && event@ != "release"@ && event@
                != "installation"@ && event@ != "installation_repositories"@ && event@
                != "check_run"@ && event@ != "issue_comment"@ ==> x == WebhookStep::Answer
        },
{
    lemma_event_names();
}

/// The answer to an admitted per-integration webhook names its event, for a dispatched one with
/// the addresses and the outcome of the dispatch, or as malformed where the dispatch came to
/// nothing. Everything else is answered empty.
pub proof fn law_forge_webhook_answers(
    forge: &str,
    organization: Lookup,
    integration: Lookup,
    secret: WebhookSecret,
    headers: ForgeHeaders,
    hmac_matches: bool,
    dispatched: Option<Dispatched>,
    admitted: WebResult<AdmittedWebhook>,
    step: Option<WebhookStep>,
    r: WebResult<WebhookResponse>,
)
    requires
        call_ensures(
            forge_webhook_step,
            (forge, organization, integration, secret, &headers, hmac_matches),
            admitted,
        ),
        call_ensures(next_step, (&admitted,), step),
        call_ensures(
            forge_webhook,
            (forge, organization, integration, secret, &headers, hmac_matches, dispatched),
            r,
        ),
    ensures
        step is None ==> r is Err && admitted is Err && r->Err_0@ == admitted->Err_0@,
        step is Some && !(step->0 is Dispatch) ==> (r matches Ok(w) && w.repository_urls@.len() == 0
            && w.projects_scanned == 0 && w.queued@.len() == 0 && w.skipped@.len() == 0),
        step is Some && step->0 is Dispatch && dispatched is None ==> (r matches Err(
            WebError::BadRequest(ErrorCode::BAD_REQUEST, m),
        ) && m@ == "malformed webhook payload"@),
        step is Some && step->0 is Dispatch && dispatched is Some ==> (r matches Ok(w)
            && w.repository_urls == dispatched->0.repository_urls && w.projects_scanned
            == dispatched->0.outcome.projects_scanned && w.queued == dispatched->0.outcome.queued
            && w.skipped == dispatched->0.outcome.skipped),
        r matches Ok(w) ==> match step {
            Some(WebhookStep::Dispatch(PayloadKind::GiteaPush)) => w.event@ == "push"@,
            Some(WebhookStep::Dispatch(PayloadKind::GitLabPush)) => w.event@ == "push"@,
            Some(WebhookStep::Dispatch(PayloadKind::GiteaPullRequest)) => w.event@
                == "pull_request"@,
            Some(WebhookStep::Dispatch(PayloadKind::GitLabMergeRequest)) => w.event@
                == "pull_request"@,
            Some(WebhookStep::Dispatch(PayloadKind::GiteaRelease)) => w.event@ == "release"@,
            Some(WebhookStep::Dispatch(PayloadKind::GitLabRelease)) => w.event@ == "release"@,
            Some(WebhookStep::Comment(_)) => w.event@ == "comment"@,
            Some(WebhookStep::Answer) => {
                &&& forge@ == "gitlab"@ && headers.gitlab_event is Text ==> w.event@
                    == headers.gitlab_event->Text_0@
                &&& forge@ != "gitlab"@ && headers.gitea_event is Text ==> w.event@
                    == headers.gitea_event->Text_0@
                &&& forge@ != "gitlab"@ && headers.gitea_event is Absent && headers.gogs_event
                    is Text ==> w.event@ == headers.gogs_event->Text_0@
            },
            _ => false,
        },
{
    lemma_forge_names();
    lemma_event_names();
}

/// The answer to a webhook of the GitHub App names the event of its header; only pushes, pull
/// requests and releases carry an outcome.
pub proof fn law_app_webhook_answers(
    event: &str,
    dispatched: Option<Dispatched>,
    r: WebResult<WebhookResponse>,
)
    requires
        call_ensures(github_app_webhook, (true, true, true, event, dispatched), r),
    ensures
        r matches Ok(w) ==> w.event@ == event@,
        ({
            let dispatch = event@ == "push"@ || event@ == "pull_request"@ || event@ == "release"@;
            &&& r is Err <==> dispatch && dispatched is None
            &&& r is Err ==> (r matches Err(WebError::BadRequest(ErrorCode::BAD_REQUEST, m)) && m@
                == "malformed webhook payload"@)
            &&& dispatch && r is Ok ==> r->Ok_0.repository_urls == dispatched->0.repository_urls
                && r->Ok_0.projects_scanned == dispatched->0.outcome.projects_scanned
                && r->Ok_0.queued == dispatched->0.outcome.queued && r->Ok_0.skipped
                == dispatched->0.outcome.skipped
            &&& !dispatch ==> r->Ok_0.projects_scanned == 0 && r->Ok_0.queued@.len() == 0
                && r->Ok_0.skipped@.len() == 0 && r->Ok_0.repository_urls@.len() == 0
        }),
{
    lemma_event_names();
}

// ── Webhook secrets of an organization ───────────────────────────────────────

/// Response for the forge webhook secret endpoint.
#[derive(Debug, PartialEq, Eq)]
pub struct ForgeWebhookSecretResponse {
    pub webhook_url: String,
    pub secret: String,
}

/// Whether a user may manage the webhooks of an organization.
pub fn admit_webhook_secret_change(org_found: bool, can_edit: bool) -> (r: WebResult<()>)
    ensures
        r is Ok <==> org_found && can_edit,
        match r {
            Ok(_) => true,
            Err(e) => e@ == if !org_found {
                ErrorModel::not_found("Organization"@)
            } else {
                ErrorModel::forbidden(
                    "You do not have permission to manage forge webhooks for this organization."@,
                )
            },
        },
{
    if !org_found {
        return Err(WebError::not_found("Organization"));
    }
    if !can_edit {
        return Err(
            WebError::forbidden(
                "You do not have permission to manage forge webhooks for this organization.",
            ),
        );
    }
    Ok(())
}

/// The answer to a request to delete the webhook secret of an organization.
pub fn delete_forge_webhook_secret(org_found: bool, can_edit: bool) -> (r: WebResult<&'static str>)
    ensures
        match r {
            Ok(m) => org_found && can_edit && m@ == "Forge webhook secret deleted."@,
            Err(e) => e@ == if !org_found {
                ErrorModel::not_found("Organization"@)
            } else {
                ErrorModel::forbidden(
                    "You do not have permission to manage forge webhooks for this organization."@,
                )
            } && (!org_found || !can_edit),
        },
{
    match admit_webhook_secret_change(org_found, can_edit) {
        Ok(_) => Ok("Forge webhook secret deleted."),
        Err(e) => Err(e),
    }
}

/// The response that hands out the webhook secret made of the bytes `raw`.
pub fn webhook_secret_response(raw: &Vec<u8>, serve_url: &str, organization: &str) -> (r:
    ForgeWebhookSecretResponse)
    ensures
        r.webhook_url@ == serve_url@ + "/api/v1/hooks/gitea/"@ + organization@,
        r.secret@ == hex_text(raw@),
{
    ForgeWebhookSecretResponse {
        webhook_url: cat3(serve_url, "/api/v1/hooks/gitea/", organization),
        secret: encode_hex(raw.as_slice()),
    }
}

/// Generates a fresh webhook secret for an organization: 32 random bytes in hexadecimal.
pub fn post_forge_webhook_secret(
    org_found: bool,
    can_edit: bool,
    serve_url: &str,
    organization: &str,
) -> (r: WebResult<ForgeWebhookSecretResponse>)
    ensures
        r is Ok <==> org_found && can_edit,
        match r {
            Ok(x) => {
                &&& x.webhook_url@ == serve_url@ + "/api/v1/hooks/gitea/"@ + organization@
                &&& exists|raw: Seq<u8>| raw.len() == 32 && x.secret@ == #[trigger] hex_text(raw)
            },
            Err(e) => e@ == if !org_found {
                ErrorModel::not_found("Organization"@)
            } else {
                ErrorModel::forbidden(
                    "You do not have permission to manage forge webhooks for this organization."@,
                )
            },
        },
{
    if let Err(e) = admit_webhook_secret_change(org_found, can_edit) {
        return Err(e);
    }
    let raw = random_bytes(32);
    let r = webhook_secret_response(&raw, serve_url, organization);
    assert(raw@.len() == 32 && r.secret@ == hex_text(raw@));
    Ok(r)
}

/// What is stored of a fresh webhook secret: its encryption, or why there is none.
pub fn store_webhook_secret(encrypted: Result<String, String>) -> (r: WebResult<String>)
    ensures
        match encrypted {
            Ok(c) => r == Ok::<String, WebError>(c),
            Err(e) => r matches Err(x) && x@ == ErrorModel::internal(
                "Failed to encrypt webhook secret: "@ + e@,
            ),
        },
{
    match encrypted {
        Ok(c) => Ok(c),
        Err(e) => Err(
            WebError::internal(cat("Failed to encrypt webhook secret: ", e.as_str()).as_str()),
        ),
    }
}

/// What the header of a GitHub event names; every other name is of no concern.
pub proof fn law_github_event_names(
    event: &str,
    r: GitHubAppEvent,
)
    requires
        call_ensures(github_app_event, (event,), r),
    ensures
        event@ == "push"@ ==> r is Push,
        event@ == "pull_request"@ ==> r is PullRequest,
        event@ == "release"@ ==> r is Release,
        event@ == "installation"@ ==> r is Installation,
        event@ == "installation_repositories"@ ==> r is Installation,
        event@ == "check_run"@ ==> r is CheckRun,
        event@ == "issue_comment"@ ==> r is IssueComment,
        event@ != "push"@ && event@ != "pull_request"@ && event@ != "release"@
            && event@ != "installation"@ && event@ != "installation_repositories"@
            && event@ != "check_run"@ && event@ != "issue_comment"@ ==> r is Other,
{
    reveal_strlit("push");
    reveal_strlit("pull_request");
    reveal_strlit("release");
    reveal_strlit("installation");
    reveal_strlit("installation_repositories");
    reveal_strlit("check_run");
    reveal_strlit("issue_comment");
    assert("push"@.len() == 4 && "pull_request"@.len() == 12 && "release"@.len() == 7 && "installation"@.len() == 12 && "installation_repositories"@.len() == 25 && "check_run"@.len() == 9 && "issue_comment"@.len() == 13);
    assert("pull_request"@[0] == 'p' && "installation"@[0] == 'i');
}

/// Where each forge puts its signature, and when it is good: GitLab sends the secret itself,
/// the others a code that has to match.
pub proof fn law_signatures(
    forge: ForgeType,
    secret: &str,
    headers: ForgeHeaders,
    hmac_matches: bool,
    r: bool,
    text: String,
    field: HeaderField,
    shown: String,
)
    requires
        call_ensures(verify_forge_signature, (forge, secret, &headers, hmac_matches), r),
        call_ensures(ForgeHeaders::signature_text, (&headers, forge), text),
        field == match forge {
            ForgeType::GitLab => headers.gitlab_token,
            ForgeType::GitHub => headers.hub_signature,
            _ => headers.gitea_signature,
        },
        call_ensures(HeaderField::as_text, (&field,), shown),
    ensures
        text@ == shown@,
        field matches HeaderField::Text(s) ==> shown@ == s@,
        !(field is Text) ==> shown@.len() == 0,
        forge is GitLab ==> (r <==> text@ == secret@),
        !(forge is GitLab) ==> r == hmac_matches,
{
}

/// The forges that a webhook route names; GitHub has a route of its own.
pub proof fn law_webhook_routes(
    forge: &str,
    r: WebResult<ForgeType>,
)
    requires
        call_ensures(forge_of_route, (forge,), r),
    ensures
        forge@ == "gitea"@ <==> (r matches Ok(ForgeType::Gitea)),
        forge@ == "forgejo"@ <==> (r matches Ok(ForgeType::Forgejo)),
        forge@ == "gitlab"@ <==> (r matches Ok(ForgeType::GitLab)),
        forge@ == "github"@ ==> (r matches Err(WebError::BadRequest(c, m))
            && c == ErrorCode::BAD_REQUEST && m@ == "unsupported forge"@),
        forge@ != "gitea"@ && forge@ != "forgejo"@ && forge@ != "gitlab"@ && forge@ != "github"@
            ==> (r matches Err(WebError::NotFound(c, m)) && c == ErrorCode::NOT_FOUND
            && m@ == "integration not found"@),
{
    reveal_strlit("gitea");
    reveal_strlit("forgejo");
    reveal_strlit("gitlab");
    reveal_strlit("github");
    assert("gitea"@.len() == 5 && "forgejo"@.len() == 7 && "gitlab"@.len() == 6 && "github"@.len() == 6);
    assert("gitlab"@[3] == 'l' && "github"@[3] == 'h');
}

/// The webhook secret of an organization is made and deleted by whoever may edit it. It is
/// thirty-two bytes in hexadecimal, is sent with the address that it is for, and is stored
/// encrypted.
pub proof fn law_webhook_secrets(
    org_found: bool,
    can_edit: bool,
    a: WebResult<()>,
    d: WebResult<&'static str>,
    serve_url: &str,
    organization: &str,
    p: WebResult<ForgeWebhookSecretResponse>,
    raw: Vec<u8>,
    x: ForgeWebhookSecretResponse,
    encrypted: Result<String, String>,
    s: WebResult<String>,
)
    requires
        call_ensures(admit_webhook_secret_change, (org_found, can_edit), a),
        call_ensures(delete_forge_webhook_secret, (org_found, can_edit), d),
        call_ensures(post_forge_webhook_secret, (org_found, can_edit, serve_url, organization), p),
        call_ensures(webhook_secret_response, (&raw, serve_url, organization), x),
        call_ensures(store_webhook_secret, (encrypted,), s),
    ensures
        a is Ok <==> org_found && can_edit,
        d is Ok <==> org_found && can_edit,
        p is Ok <==> org_found && can_edit,
        !org_found ==> (a matches Err(WebError::NotFound(c, m)) && c == ErrorCode::NOT_FOUND
            && m@ == "Organization"@ + " not found"@),
        !org_found ==> (d matches Err(WebError::NotFound(c, m)) && c == ErrorCode::NOT_FOUND
            && m@ == "Organization"@ + " not found"@),
        !org_found ==> (p matches Err(WebError::NotFound(c, m)) && c == ErrorCode::NOT_FOUND
            && m@ == "Organization"@ + " not found"@),
        org_found && !can_edit ==> (a matches Err(WebError::Forbidden(c, m))
            && c == ErrorCode::FORBIDDEN
            && m@ == "You do not have permission to manage forge webhooks for this organization."@),
        org_found && !can_edit ==> (d matches Err(WebError::Forbidden(c, m))
            && c == ErrorCode::FORBIDDEN
            && m@ == "You do not have permission to manage forge webhooks for this organization."@),
        org_found && !can_edit ==> (p matches Err(WebError::Forbidden(c, m))
            && c == ErrorCode::FORBIDDEN
            && m@ == "You do not have permission to manage forge webhooks for this organization."@),
        d is Ok ==> d->Ok_0@ == "Forge webhook secret deleted."@,
        p is Ok ==> p->Ok_0.secret@.len() == 64
            && p->Ok_0.webhook_url@ == serve_url@ + "/api/v1/hooks/gitea/"@ + organization@,
        x.webhook_url@ == serve_url@ + "/api/v1/hooks/gitea/"@ + organization@,
        x.secret@ == hex_text(raw@),
        encrypted is Ok ==> s is Ok && s->Ok_0 == encrypted->Ok_0,
        encrypted is Err ==> (s matches Err(WebError::Internal(m))
            && m@ == "Failed to encrypt webhook secret: "@ + encrypted->Err_0@),
{
}

} // verus!
