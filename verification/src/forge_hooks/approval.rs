//! Clearing the approval gate: the GitHub check-run button and the `/ci run`
//! comment, and the installation events of the GitHub App.

use crate::forge_hooks::comment::{comment_command, parse_ci_run_command, CiRunCommand};
use crate::forge_hooks::events::first_of;
use crate::forge_hooks::trigger::{opt_str, resolve_github_app_targets, target_ids, OrgCandidate};
use crate::forge_hooks::webhook::ForgeType;
use crate::helpers::Id;
use crate::rows::holds;
use crate::text::{
    cat, cat3, cat4, opt_clone, opt_view, past_last, position, rsplit_once, same, skip, split_once, views,
};
use vstd::prelude::*;

verus! {

// ── GitHub App installation ──────────────────────────────────────────────────

/// What an installation event asks for.
#[derive(Debug, PartialEq, Eq)]
pub enum InstallationChange {
    /// Forget the installation on every organization that carries it.
    Clear { installation_id: i64 },
    /// Store the installation on the organization named like the account.
    Store { installation_id: i64, organization: String },
}

/// What the installation event `action` asks for.
pub fn handle_github_installation(action: &str, installation_id: i64, account_login: &str) -> (r:
    InstallationChange)
    ensures
        if action@ == "deleted"@ {
            r == (InstallationChange::Clear { installation_id })
        } else {
            r matches InstallationChange::Store { installation_id: i, organization } && i
                == installation_id && organization@ == account_login@
        },
{
    if same(action, "deleted") {
        InstallationChange::Clear { installation_id }
    } else {
        InstallationChange::Store { installation_id, organization: account_login.to_owned() }
    }
}

// ── The check-run button ─────────────────────────────────────────────────────

/// What a `check_run` event says.
pub struct CheckRunPayload {
    pub action: String,
    /// The identifier of the button, where one was pressed.
    pub identifier: Option<String>,
    pub check_id: i64,
    pub full_name: Option<String>,
    pub sender: Option<String>,
}

/// An approval click: who clicked on which check of which repository.
#[derive(Debug, PartialEq, Eq)]
pub struct ApprovalClick {
    pub check_id: i64,
    pub owner: String,
    pub repo: String,
    pub sender: String,
}

/// The two parts of `s` around its first `/`.
pub open spec fn split_first_slash(s: Seq<char>) -> Option<(Seq<char>, Seq<char>)> {
    let p = position(s, '/');
    if p < s.len() {
        Some((s.subrange(0, p), skip(s, p + 1)))
    } else {
        None
    }
}

/// The two parts of `s` around its last `/`.
pub open spec fn split_last_slash(s: Seq<char>) -> Option<(Seq<char>, Seq<char>)> {
    let p = past_last(s, '/');
    if p > 0 {
        Some((s.subrange(0, p - 1), skip(s, p)))
    } else {
        None
    }
}

/// What an [`ApprovalClick`] says.
#[verifier::ext_equal]
pub ghost struct ClickModel {
    pub check_id: i64,
    pub owner: Seq<char>,
    pub repo: Seq<char>,
    pub sender: Seq<char>,
}

impl View for ApprovalClick {
    type V = ClickModel;

    open spec fn view(&self) -> ClickModel {
        ClickModel {
            check_id: self.check_id,
            owner: self.owner@,
            repo: self.repo@,
            sender: self.sender@,
        }
    }
}

/// The approval click that a `check_run` event reports, if it does: the button
/// `approval_action` was pressed by a known sender in a well-named repository.
pub open spec fn click_of(payload: CheckRunPayload, approval_action: Seq<char>) -> Option<ClickModel> {
    if payload.action@ != "requested_action"@ || opt_view(payload.identifier) != Some(
        approval_action,
    ) {
        None
    } else {
        match (payload.sender, payload.full_name) {
            (Some(sender), Some(full_name)) => match split_first_slash(full_name@) {
                Some((owner, repo)) => Some(
                    ClickModel { check_id: payload.check_id, owner, repo, sender: sender@ },
                ),
                None => None,
            },
            _ => None,
        }
    }
}

/// The approval click that a `check_run` event reports, if it does.
pub fn approval_click(payload: &CheckRunPayload, approval_action: &str) -> (r: Option<ApprovalClick>)
    ensures
        match r {
            Some(c) => click_of(*payload, approval_action@) == Some(c@),
            None => click_of(*payload, approval_action@) is None,
        },
{
    if !same(payload.action.as_str(), "requested_action") {
        return None;
    }
    match &payload.identifier {
        None => {
            return None;
        },
        Some(i) => {
            if !same(i.as_str(), approval_action) {
                return None;
            }
        },
    }
    match (&payload.sender, &payload.full_name) {
        (Some(sender), Some(full_name)) => match split_once(full_name.as_str(), '/') {
            Some((owner, repo)) => Some(
                ApprovalClick {
                    check_id: payload.check_id,
                    owner: owner.to_owned(),
                    repo: repo.to_owned(),
                    sender: sender.clone(),
                },
            ),
            None => None,
        },
        _ => None,
    }
}

/// A question to the reporter of a project: whether a sender may write to a repository.
#[derive(Debug, PartialEq, Eq)]
pub struct WriterProbe {
    pub owner: String,
    pub repo: String,
    pub sender: String,
}

/// What a [`WriterProbe`] asks.
#[verifier::ext_equal]
pub ghost struct ProbeModel {
    pub owner: Seq<char>,
    pub repo: Seq<char>,
    pub sender: Seq<char>,
}

impl View for WriterProbe {
    type V = ProbeModel;

    open spec fn view(&self) -> ProbeModel {
        ProbeModel { owner: self.owner@, repo: self.repo@, sender: self.sender@ }
    }
}

/// What a reporter answered, and to what question.
#[derive(Debug, PartialEq, Eq)]
pub struct WriterAnswer {
    pub asked: WriterProbe,
    pub may_write: bool,
}

/// The forge vouches for a sender: the reporter answered that they may write to the
/// repository. Fails closed: without a reporter to ask, without an answer, or with the
/// answer to another question, nobody is trusted.
pub open spec fn is_trusted(
    has_reporter: bool,
    answer: Option<WriterAnswer>,
    about: ProbeModel,
) -> bool {
    &&& has_reporter
    &&& answer matches Some(a)
    &&& a.may_write
    &&& a.asked@ == about
}

/// Whether the forge vouches for a sender.
pub fn sender_is_trusted(
    has_reporter: bool,
    answer: &Option<WriterAnswer>,
    about: &WriterProbe,
) -> (r: bool)
    ensures
        r == is_trusted(has_reporter, *answer, about@),
{
    if !has_reporter {
        return false;
    }
    match answer {
        Some(a) => a.may_write && same(a.asked.owner.as_str(), about.owner.as_str()) && same(
            a.asked.repo.as_str(),
            about.repo.as_str(),
        ) && same(a.asked.sender.as_str(), about.sender.as_str()),
        None => false,
    }
}

/// What a reporter is asked about a click.
pub open spec fn click_probe_of(c: ClickModel) -> ProbeModel {
    ProbeModel { owner: c.owner, repo: c.repo, sender: c.sender }
}

/// What a reporter is asked about a click: whether its sender may write to its
/// repository.
pub fn click_probe(click: &ApprovalClick) -> (r: WriterProbe)
    ensures
        r@ == click_probe_of(click@),
{
    WriterProbe {
        owner: click.owner.clone(),
        repo: click.repo.clone(),
        sender: click.sender.clone(),
    }
}

/// The evaluation to which a clicked check belongs.
#[derive(Debug, PartialEq, Eq)]
pub struct ClickedEvaluation {
    pub evaluation_id: Id,
    /// The check that it was found by.
    pub check_id: i64,
    pub project: Option<Id>,
    /// Whether its project has a reporter that can be asked.
    pub has_reporter: bool,
    /// What that reporter answered; none where it did not.
    pub answer: Option<WriterAnswer>,
}

/// The click releases the evaluation: it belongs to the clicked check and to a project
/// whose reporter vouches for the sender.
pub open spec fn click_releases(click: ClickModel, e: ClickedEvaluation) -> bool {
    &&& e.check_id == click.check_id
    &&& e.project is Some
    &&& is_trusted(e.has_reporter, e.answer, click_probe_of(click))
}

/// Handle a press of the approval button: the evaluation that is released, if one is.
/// Only a sender who may write to the repository releases one.
pub fn handle_github_check_run(
    payload: &CheckRunPayload,
    approval_action: &str,
    clicked: &Option<ClickedEvaluation>,
) -> (r: Option<Id>)
    ensures
        match r {
            Some(id) => {
                &&& click_of(*payload, approval_action@) matches Some(click)
                &&& clicked matches Some(e)
                &&& click_releases(click, *e)
                &&& id == e.evaluation_id
            },
            None => click_of(*payload, approval_action@) is None || clicked is None
                || !click_releases(click_of(*payload, approval_action@)->0, clicked->0),
        },
{
    match (approval_click(payload, approval_action), clicked) {
        (Some(click), Some(e)) => {
            let about = click_probe(&click);
            if e.check_id == click.check_id && e.project.is_some() && sender_is_trusted(
                e.has_reporter,
                &e.answer,
                &about,
            ) {
                Some(e.evaluation_id)
            } else {
                None
            }
        },
        _ => None,
    }
}

/// An approval click by a sender for whom no reporter vouches releases nothing.
pub proof fn law_untrusted_clicks_release_nothing(click: ClickModel, e: ClickedEvaluation)
    requires
        !e.has_reporter || e.answer is None || !e.answer->0.may_write || e.answer->0.asked@
            != click_probe_of(click),
    ensures
        !click_releases(click, e),
{
}

// ── The `/ci run` comment ────────────────────────────────────────────────────

/// A user, as the forges report one.
pub struct CommentSender {
    pub login: Option<String>,
    pub username: Option<String>,
}

/// What a comment event says.
pub struct CommentPayload {
    pub action: Option<String>,
    /// The body of the comment, where there is one.
    pub comment_body: Option<String>,
    /// The number of the issue; the outer `Option` says whether one is there.
    pub issue: Option<Option<u64>>,
    /// The number of the pull request, likewise.
    pub pull_request: Option<Option<u64>>,
    pub sender: Option<CommentSender>,
    pub full_name: Option<String>,
    /// Whether the GitLab attributes of a note are there.
    pub has_attributes: bool,
    pub note: Option<String>,
    pub noteable_type: Option<String>,
    pub user: Option<CommentSender>,
    pub path_with_namespace: Option<String>,
    pub merge_request_iid: Option<u64>,
}

/// A `/ci run` comment: who asks for which wildcard on which pull request.
#[derive(Debug, PartialEq, Eq)]
pub struct CiRunRequest {
    pub command: CiRunCommand,
    pub pr_number: u64,
    pub sender: String,
    /// Owner and name of the repository, as one path.
    pub owner_repo: String,
    pub owner: String,
    pub repo: String,
}

/// What a `/ci run` comment asks.
#[verifier::ext_equal]
pub ghost struct CiRunModel {
    pub wildcard: Option<Seq<char>>,
    pub pr_number: u64,
    pub sender: Seq<char>,
    pub owner_repo: Seq<char>,
    pub owner: Seq<char>,
    pub repo: Seq<char>,
}

impl View for CiRunRequest {
    type V = CiRunModel;

    open spec fn view(&self) -> CiRunModel {
        CiRunModel {
            wildcard: self.command@,
            pr_number: self.pr_number,
            sender: self.sender@,
            owner_repo: self.owner_repo@,
            owner: self.owner@,
            repo: self.repo@,
        }
    }
}

/// The name of a user: `login`, else `username`.
pub open spec fn login_or_username(u: Option<CommentSender>) -> Option<Seq<char>> {
    match u {
        Some(s) => first_of(opt_view(s.login), opt_view(s.username)),
        None => None,
    }
}

/// The name of a user: `username`, else `login`.
pub open spec fn username_or_login(u: Option<CommentSender>) -> Option<Seq<char>> {
    match u {
        Some(s) => first_of(opt_view(s.username), opt_view(s.login)),
        None => None,
    }
}

/// The number of a pull request, or of the issue where there is none.
pub open spec fn comment_number(p: CommentPayload) -> Option<u64> {
    match p.pull_request {
        Some(n) => n,
        None => match p.issue {
            Some(n) => n,
            None => None,
        },
    }
}

/// What a comment says, whatever the forge.
#[derive(Debug, PartialEq, Eq)]
pub struct CommentFacts {
    pub body: String,
    pub pr_number: Option<u64>,
    pub sender: Option<String>,
    pub owner_repo: Option<String>,
}

/// The text of an optional string, empty where there is none.
pub open spec fn text_or_empty(s: Option<String>) -> Seq<char> {
    match s {
        Some(t) => t@,
        None => Seq::empty(),
    }
}

/// The view of [`CommentFacts`].
#[verifier::ext_equal]
pub ghost struct FactsModel {
    pub body: Seq<char>,
    pub pr_number: Option<u64>,
    pub sender: Option<Seq<char>>,
    pub owner_repo: Option<Seq<char>>,
}

impl View for CommentFacts {
    type V = FactsModel;

    open spec fn view(&self) -> FactsModel {
        FactsModel {
            body: self.body@,
            pr_number: self.pr_number,
            sender: opt_view(self.sender),
            owner_repo: opt_view(self.owner_repo),
        }
    }
}

/// What a comment payload says; `None` when it is not a new comment on a pull
/// request.
pub open spec fn facts_of(forge: ForgeType, p: CommentPayload) -> Option<FactsModel> {
    if forge is GitLab {
        if p.has_attributes && opt_view(p.noteable_type) == Some("MergeRequest"@) {
            Some(
                FactsModel {
                    body: text_or_empty(p.note),
                    pr_number: p.merge_request_iid,
                    sender: username_or_login(p.user),
                    owner_repo: opt_view(p.path_with_namespace),
                },
            )
        } else {
            None
        }
    } else {
        if opt_view(p.action) == Some("created"@) {
            Some(
                FactsModel {
                    body: text_or_empty(p.comment_body),
                    pr_number: comment_number(p),
                    sender: login_or_username(p.sender),
                    owner_repo: opt_view(p.full_name),
                },
            )
        } else {
            None
        }
    }
}

fn clone_first(a: &Option<String>, b: &Option<String>) -> (r: Option<String>)
    ensures
        opt_view(r) == first_of(opt_view(*a), opt_view(*b)),
{
    match a {
        Some(x) => Some(x.clone()),
        None => opt_clone(b),
    }
}

fn opt_is(a: &Option<String>, b: &str) -> (r: bool)
    ensures
        r == (opt_view(*a) == Some(b@)),
{
    match a {
        Some(x) => same(x.as_str(), b),
        None => false,
    }
}

fn clone_or_empty(a: &Option<String>) -> (r: String)
    ensures
        r@ == text_or_empty(*a),
{
    match a {
        Some(x) => x.clone(),
        None => String::new(),
    }
}

/// What a comment payload says.
pub fn comment_facts(forge: ForgeType, p: &CommentPayload) -> (r: Option<CommentFacts>)
    ensures
        match r {
            Some(f) => facts_of(forge, *p) == Some(f@),
            None => facts_of(forge, *p) is None,
        },
{
    match forge {
        ForgeType::GitLab => {
            if !p.has_attributes || !opt_is(&p.noteable_type, "MergeRequest") {
                return None;
            }
            let sender = match &p.user {
                Some(u) => clone_first(&u.username, &u.login),
                None => None,
            };
            Some(
                CommentFacts {
                    body: clone_or_empty(&p.note),
                    pr_number: p.merge_request_iid,
                    sender,
                    owner_repo: opt_clone(&p.path_with_namespace),
                },
            )
        },
        _ => {
            if !opt_is(&p.action, "created") {
                return None;
            }
            let pr_number = match p.pull_request {
                Some(n) => n,
                None => match p.issue {
                    Some(n) => n,
                    None => None,
                },
            };
            let sender = match &p.sender {
                Some(u) => clone_first(&u.login, &u.username),
                None => None,
            };
            Some(
                CommentFacts {
                    body: clone_or_empty(&p.comment_body),
                    pr_number,
                    sender,
                    owner_repo: opt_clone(&p.full_name),
                },
            )
        },
    }
}

/// The request that a comment makes, if it makes one: its body is a `/ci run`
/// command, and number, sender and a well-formed repository path are there.
pub open spec fn ci_run_of(f: FactsModel) -> Option<CiRunModel> {
    match (comment_command(f.body), f.pr_number, f.sender, f.owner_repo) {
        (Some(wildcard), Some(pr_number), Some(sender), Some(owner_repo)) => {
            match split_last_slash(owner_repo) {
                Some((owner, repo)) => Some(
                    CiRunModel { wildcard, pr_number, sender, owner_repo, owner, repo },
                ),
                None => None,
            }
        },
        _ => None,
    }
}

/// The request that a comment makes.
pub fn ci_run_request(f: &CommentFacts) -> (r: Option<CiRunRequest>)
    ensures
        match r {
            Some(q) => ci_run_of(f@) == Some(q@),
            None => ci_run_of(f@) is None,
        },
{
    let command = match parse_ci_run_command(f.body.as_str()) {
        Some(c) => c,
        None => {
            return None;
        },
    };
    match (f.pr_number, &f.sender, &f.owner_repo) {
        (Some(pr_number), Some(sender), Some(path)) => match rsplit_once(path.as_str(), '/') {
            Some((owner, repo)) => Some(
                CiRunRequest {
                    command,
                    pr_number,
                    sender: sender.clone(),
                    owner_repo: path.clone(),
                    owner: owner.to_owned(),
                    repo: repo.to_owned(),
                },
            ),
            None => None,
        },
        _ => None,
    }
}

/// The request that a comment event makes, if it makes one.
pub open spec fn comment_request(forge: ForgeType, p: CommentPayload) -> Option<CiRunModel> {
    match facts_of(forge, p) {
        Some(f) => ci_run_of(f),
        None => None,
    }
}

/// The `/ci run` request that a comment event makes, if it makes one.
pub fn ci_run_of_comment(forge: ForgeType, payload: &CommentPayload) -> (r: Option<CiRunRequest>)
    ensures
        match r {
            Some(q) => comment_request(forge, *payload) == Some(q@),
            None => comment_request(forge, *payload) is None,
        },
{
    match comment_facts(forge, payload) {
        Some(f) => ci_run_request(&f),
        None => None,
    }
}

/// The addresses by which a project may name the GitHub repository `owner_repo`.
pub open spec fn github_addresses(owner_repo: Seq<char>) -> Seq<Seq<char>> {
    seq![
        "https://github.com/"@ + owner_repo,
        "https://github.com/"@ + owner_repo + ".git"@,
        "git@github.com:"@ + owner_repo + ".git"@,
    ]
}

/// The addresses by which a project may name the GitHub repository `owner_repo`.
pub fn github_comment_urls(owner_repo: &str) -> (r: Vec<String>)
    ensures
        views(r@) == github_addresses(owner_repo@),
{
    let mut v: Vec<String> = Vec::new();
    v.push(cat("https://github.com/", owner_repo));
    v.push(cat3("https://github.com/", owner_repo, ".git"));
    v.push(cat3("git@github.com:", owner_repo, ".git"));
    assert(views(v@) =~= github_addresses(owner_repo@));
    v
}

/// The integrations that a comment reaches: the one whose route it came by, or those
/// of the organizations under the installation that own the repository. None where
/// there is no installation or no such organization.
pub open spec fn targets_of(
    integration: Option<Id>,
    installation_found: bool,
    candidates: Seq<OrgCandidate>,
    owner_repo: Seq<char>,
) -> Option<Seq<Id>> {
    let targets = target_ids(candidates, github_addresses(owner_repo));
    match integration {
        Some(id) => Some(seq![id]),
        None => if installation_found && targets.len() > 0 {
            Some(targets)
        } else {
            None
        },
    }
}

/// The integrations that a comment reaches.
pub fn comment_targets(
    integration: Option<Id>,
    installation_found: bool,
    candidates: &Vec<OrgCandidate>,
    owner_repo: &str,
) -> (r: Option<Vec<Id>>)
    ensures
        match r {
            Some(ids) => targets_of(integration, installation_found, candidates@, owner_repo@)
                == Some(ids@),
            None => targets_of(integration, installation_found, candidates@, owner_repo@) is None,
        },
{
    if let Some(id) = integration {
        let ids: Vec<Id> = vec![id];
        assert(ids@ =~= seq![id]);
        return Some(ids);
    }
    if !installation_found {
        return None;
    }
    let urls = github_comment_urls(owner_repo);
    let targets = resolve_github_app_targets(candidates, &urls);
    if targets.len() == 0 {
        return None;
    }
    Some(targets)
}

/// What to do about a `/ci run` comment once its wildcard was looked at.
#[derive(Debug, PartialEq, Eq)]
pub enum CiRunAction {
    /// Release the parked evaluations and keep their wildcard.
    Unpark,
    /// Release the parked evaluations with this wildcard.
    UnparkWithWildcard(String),
    /// Answer with this comment, and clear nothing.
    Reject(String),
}

/// What a [`CiRunAction`] says.
pub ghost enum ActionModel {
    Unpark,
    UnparkWithWildcard(Seq<char>),
    Reject(Seq<char>),
}

impl View for CiRunAction {
    type V = ActionModel;

    open spec fn view(&self) -> ActionModel {
        match self {
            CiRunAction::Unpark => ActionModel::Unpark,
            CiRunAction::UnparkWithWildcard(w) => ActionModel::UnparkWithWildcard(w@),
            CiRunAction::Reject(m) => ActionModel::Reject(m@),
        }
    }
}

/// What to do about a command with this wildcard; `wildcard_error` says why it is not
/// one, where it is not.
pub open spec fn action_of(wildcard: Option<Seq<char>>, wildcard_error: Option<Seq<char>>) -> ActionModel {
    match (wildcard, wildcard_error) {
        (None, _) => ActionModel::Unpark,
        (Some(w), None) => ActionModel::UnparkWithWildcard(w),
        (Some(w), Some(e)) => ActionModel::Reject("Could not parse wildcard `"@ + w + "`: "@ + e),
    }
}

/// What to do about `command`; `wildcard_error` says why its wildcard is not
/// one, where it has one that is not.
pub fn ci_run_action(command: &CiRunCommand, wildcard_error: Option<&str>) -> (r: CiRunAction)
    ensures
        r@ == action_of(command@, opt_str(wildcard_error)),
{
    match command {
        CiRunCommand::Plain => CiRunAction::Unpark,
        CiRunCommand::WithWildcard(raw) => match wildcard_error {
            None => CiRunAction::UnparkWithWildcard(raw.clone()),
            Some(e) => CiRunAction::Reject(
                cat4("Could not parse wildcard `", raw.as_str(), "`: ", e),
            ),
        },
    }
}

// ── Releasing parked evaluations ─────────────────────────────────────────────

/// What a reporter is asked about a `/ci run` request.
pub open spec fn request_probe(q: CiRunModel) -> ProbeModel {
    ProbeModel { owner: q.owner, repo: q.repo, sender: q.sender }
}

/// What a reporter is asked about a `/ci run` request: whether its sender may write to
/// its repository.
pub fn writer_probe(request: &CiRunRequest) -> (r: WriterProbe)
    ensures
        r@ == request_probe(request@),
{
    WriterProbe {
        owner: request.owner.clone(),
        repo: request.repo.clone(),
        sender: request.sender.clone(),
    }
}

/// An evaluation that waits for approval.
#[derive(Debug, PartialEq, Eq)]
pub struct ParkedEvaluation {
    pub evaluation_id: Id,
    /// The integration whose projects hold its project.
    pub integration: Id,
    /// The pull request that it waits for.
    pub pr_number: u64,
    /// Whether its project has a reporter that can be asked.
    pub has_reporter: bool,
    /// What that reporter answered; none where it did not.
    pub answer: Option<WriterAnswer>,
}

/// A `/ci run` request that reaches `targets` releases the evaluation: it waits for the
/// pull request, its project belongs to a reached integration, and the reporter of the
/// project vouches for the commenter.
pub open spec fn releases(q: CiRunModel, targets: Seq<Id>, p: ParkedEvaluation) -> bool {
    &&& p.pr_number == q.pr_number
    &&& targets.contains(p.integration)
    &&& is_trusted(p.has_reporter, p.answer, request_probe(q))
}

/// The evaluations that a comment releases, in order.
pub open spec fn released(q: CiRunModel, targets: Seq<Id>, parked: Seq<ParkedEvaluation>) -> Seq<Id>
    decreases parked.len(),
{
    if parked.len() == 0 {
        Seq::empty()
    } else {
        let before = released(q, targets, parked.drop_last());
        if releases(q, targets, parked.last()) {
            before.push(parked.last().evaluation_id)
        } else {
            before
        }
    }
}

/// The evaluations that a request releases: none where its wildcard is rejected.
pub open spec fn step_releases(
    request: CiRunModel,
    targets: Seq<Id>,
    wildcard_error: Option<Seq<char>>,
    parked: Seq<ParkedEvaluation>,
) -> Seq<Id> {
    if action_of(request.wildcard, wildcard_error) is Reject {
        Seq::empty()
    } else {
        released(request, targets, parked)
    }
}

/// What a `/ci run` request does: how the evaluations in the second place are released,
/// or the comment that answers a wildcard that is not one.
pub fn ci_run_step(
    request: &CiRunRequest,
    targets: &Vec<Id>,
    wildcard_error: Option<&str>,
    parked: &Vec<ParkedEvaluation>,
) -> (r: (CiRunAction, Vec<Id>))
    ensures
        r.0@ == action_of(request.command@, opt_str(wildcard_error)),
        r.0 is Reject ==> r.1@.len() == 0,
        !(r.0 is Reject) ==> r.1@ == released(request@, targets@, parked@),
        r.1@ == step_releases(request@, targets@, opt_str(wildcard_error), parked@),
{
    let action = ci_run_action(&request.command, wildcard_error);
    let mut out: Vec<Id> = Vec::new();
    if let CiRunAction::Reject(_) = action {
        assert(out@ =~= Seq::<Id>::empty());
        return (action, out);
    }
    let about = writer_probe(request);
    let mut i: usize = 0;
    assert(parked@.take(0) =~= Seq::<ParkedEvaluation>::empty());
    while i < parked.len()
        invariant
            i <= parked.len(),
            about@ == request_probe(request@),
            out@ == released(request@, targets@, parked@.take(i as int)),
        decreases parked.len() - i,
    {
        proof {
            assert(parked@.take(i as int + 1).drop_last() =~= parked@.take(i as int));
            assert(parked@.take(i as int + 1).last() == parked@[i as int]);
        }
        let p = &parked[i];
        if p.pr_number == request.pr_number && holds(targets, p.integration) && sender_is_trusted(
            p.has_reporter,
            &p.answer,
            &about,
        ) {
            out.push(p.evaluation_id);
        }
        i += 1;
    }
    assert(parked@.take(i as int) =~= parked@);
    (action, out)
}

/// What a comment event comes to: the request that it makes and the integrations that
/// it reaches decide which of the parked evaluations are released, and how.
pub open spec fn comment_releases(
    forge: ForgeType,
    payload: CommentPayload,
    integration: Option<Id>,
    installation_found: bool,
    candidates: Seq<OrgCandidate>,
    wildcard_error: Option<Seq<char>>,
    parked: Seq<ParkedEvaluation>,
) -> Option<(ActionModel, Seq<Id>)> {
    match comment_request(forge, payload) {
        None => None,
        Some(q) => match targets_of(integration, installation_found, candidates, q.owner_repo) {
            None => None,
            Some(targets) => Some(
                (
                    action_of(q.wildcard, wildcard_error),
                    step_releases(q, targets, wildcard_error, parked),
                ),
            ),
        },
    }
}

/// Handle a comment on a pull request. Releases the evaluations that wait for the pull
/// request when the commenter passes the writer probe of their project.
///
/// `integration` is there for per-integration routes; for the route of the GitHub App,
/// the integrations follow from the installation and the repository. `wildcard_error`
/// says why the wildcard of the comment is not one, `parked` are the evaluations that
/// wait for approval, with what their reporters said of the commenter.
pub fn handle_issue_comment(
    forge: ForgeType,
    payload: &CommentPayload,
    integration: Option<Id>,
    installation_found: bool,
    candidates: &Vec<OrgCandidate>,
    wildcard_error: Option<&str>,
    parked: &Vec<ParkedEvaluation>,
) -> (r: Option<(CiRunAction, Vec<Id>)>)
    ensures
        ({
            let outcome = comment_releases(
                forge,
                *payload,
                integration,
                installation_found,
                candidates@,
                opt_str(wildcard_error),
                parked@,
            );
            match r {
                Some((action, ids)) => outcome == Some((action@, ids@)),
                None => outcome is None,
            }
        }),
{
    let request = match ci_run_of_comment(forge, payload) {
        Some(q) => q,
        None => {
            return None;
        },
    };
    match comment_targets(integration, installation_found, candidates, request.owner_repo.as_str()) {
        None => None,
        Some(targets) => Some(ci_run_step(&request, &targets, wildcard_error, parked)),
    }
}

proof fn lemma_released(q: CiRunModel, targets: Seq<Id>, parked: Seq<ParkedEvaluation>, id: Id)
    ensures
        released(q, targets, parked).contains(id) <==> exists|i: int|
            0 <= i < parked.len() && (#[trigger] parked[i]).evaluation_id == id && releases(
                q,
                targets,
                parked[i],
            ),
    decreases parked.len(),
{
    if parked.len() > 0 {
        let rest = parked.drop_last();
        let last = parked.last();
        lemma_released(q, targets, rest, id);
        let before = released(q, targets, rest);
        let now = released(q, targets, parked);
        if now.contains(id) {
            let k = choose|k: int| 0 <= k < now.len() && now[k] == id;
            if k < before.len() {
                assert(before[k] == id);
                let i = choose|i: int|
                    0 <= i < rest.len() && (#[trigger] rest[i]).evaluation_id == id && releases(
                        q,
                        targets,
                        rest[i],
                    );
                assert(parked[i] == rest[i]);
            } else {
                assert(parked[parked.len() - 1].evaluation_id == id);
            }
        }
        if exists|i: int|
            0 <= i < parked.len() && (#[trigger] parked[i]).evaluation_id == id && releases(
                q,
                targets,
                parked[i],
            ) {
            let i = choose|i: int|
                0 <= i < parked.len() && (#[trigger] parked[i]).evaluation_id == id && releases(
                    q,
                    targets,
                    parked[i],
                );
            if i < rest.len() {
                assert(rest[i].evaluation_id == id && releases(q, targets, rest[i]));
                let k = choose|k: int| 0 <= k < before.len() && before[k] == id;
                assert(now[k] == id);
            } else {
                assert(now[before.len() as int] == id);
            }
        }
    }
}

/// A comment releases an evaluation only if it makes a `/ci run` request whose wildcard
/// is one, on the pull request that the evaluation waits for, if it reaches the
/// integration of the evaluation's project, and if the reporter of that project, asked
/// about the commenter and the repository of the comment, answered that they may write.
pub proof fn law_comment_releases_only_vetted_evaluations(
    forge: ForgeType,
    payload: CommentPayload,
    integration: Option<Id>,
    installation_found: bool,
    candidates: Seq<OrgCandidate>,
    wildcard_error: Option<Seq<char>>,
    parked: Seq<ParkedEvaluation>,
    id: Id,
)
    requires
        comment_releases(
            forge,
            payload,
            integration,
            installation_found,
            candidates,
            wildcard_error,
            parked,
        ) matches Some(outcome) && outcome.1.contains(id),
    ensures
        ({
            &&& comment_request(forge, payload) matches Some(q)
            &&& q.wildcard is None || wildcard_error is None
            &&& targets_of(integration, installation_found, candidates, q.owner_repo) matches Some(
                targets,
            )
            &&& exists|i: int|
                0 <= i < parked.len() && (#[trigger] parked[i]).evaluation_id == id
                    && parked[i].pr_number == q.pr_number && targets.contains(parked[i].integration)
                    && parked[i].has_reporter && (parked[i].answer matches Some(a) && a.may_write
                    && a.asked.owner@ == q.owner && a.asked.repo@ == q.repo && a.asked.sender@
                    == q.sender)
        }),
{
    let q = comment_request(forge, payload)->0;
    let targets = targets_of(integration, installation_found, candidates, q.owner_repo)->0;
    lemma_released(q, targets, parked, id);
    let i = choose|i: int|
        0 <= i < parked.len() && (#[trigger] parked[i]).evaluation_id == id && releases(
            q,
            targets,
            parked[i],
        );
    assert(parked[i].evaluation_id == id);
}

/// A comment whose wildcard is not one releases nothing.
pub proof fn law_rejected_wildcard_releases_nothing(
    request: CiRunModel,
    targets: Seq<Id>,
    error: Seq<char>,
    parked: Seq<ParkedEvaluation>,
)
    requires
        request.wildcard is Some,
    ensures
        step_releases(request, targets, Some(error), parked) == Seq::<Id>::empty(),
{
}

/// Where no reporter vouches for the commenter, a comment releases nothing.
pub proof fn law_untrusted_senders_release_nothing(
    request: CiRunModel,
    targets: Seq<Id>,
    wildcard_error: Option<Seq<char>>,
    parked: Seq<ParkedEvaluation>,
)
    requires
        forall|i: int|
            0 <= i < parked.len() ==> !is_trusted(
                (#[trigger] parked[i]).has_reporter,
                parked[i].answer,
                request_probe(request),
            ),
    ensures
        step_releases(request, targets, wildcard_error, parked).len() == 0,
{
    let ids = released(request, targets, parked);
    if ids.len() > 0 {
        assert(ids.contains(ids[0]));
        lemma_released(request, targets, parked, ids[0]);
    }
}

/// An installation that was deleted is forgotten; any other event stores it on the organization
/// named like the account.
pub proof fn law_installation_is_stored_until_deleted(
    action: &str,
    installation_id: i64,
    account_login: &str,
    r: InstallationChange,
)
    requires
        call_ensures(handle_github_installation, (action, installation_id, account_login), r),
    ensures
        action@ == "deleted"@ <==> r == (InstallationChange::Clear { installation_id }),
        action@ != "deleted"@ ==> (r matches InstallationChange::Store {
            installation_id: i,
            organization,
        } && i == installation_id && organization@ == account_login@),
{
}

/// A press of the approval button releases the evaluation of the clicked check exactly when a
/// known sender pressed this button in the repository `owner/repo`, the evaluation has a
/// project, and the reporter of that project said of this sender and repository that they may
/// write.
pub proof fn law_click_by_a_writer_releases(
    payload: CheckRunPayload,
    approval_action: &str,
    clicked: Option<ClickedEvaluation>,
    owner: Seq<char>,
    repo: Seq<char>,
    r: Option<Id>,
)
    requires
        call_ensures(handle_github_check_run, (&payload, approval_action, &clicked), r),
        payload.full_name matches Some(n) && n@ == owner + seq!['/'] + repo,
        forall|i: int| 0 <= i < owner.len() ==> owner[i] != '/',
    ensures
        r is Some ==> clicked is Some && r == Some(clicked->0.evaluation_id),
        r is Some <==> {
            &&& payload.action@ == "requested_action"@
            &&& payload.identifier matches Some(i)
            &&& i@ == approval_action@
            &&& payload.sender matches Some(sender)
            &&& clicked matches Some(e)
            &&& e.check_id == payload.check_id
            &&& e.project is Some
            &&& e.has_reporter
            &&& e.answer matches Some(a)
            &&& a.may_write
            &&& a.asked.owner@ == owner
            &&& a.asked.repo@ == repo
            &&& a.asked.sender@ == sender@
        },
{
    let name = payload.full_name->0@;
    lemma_first_slash(owner, repo);
    assert(split_first_slash(name) == Some((owner, repo)));
    if let (Some(e), Some(sender)) = (clicked, payload.sender) {
        if let Some(a) = e.answer {
            let about = ProbeModel { owner, repo, sender: sender@ };
            assert(a.asked@ == about <==> a.asked.owner@ == owner && a.asked.repo@ == repo
                && a.asked.sender@ == sender@);
        }
    }
}

/// A press of a button in a repository without a name, or with one that has no owner, releases
/// nothing.
pub proof fn law_click_without_repository_releases_nothing(
    payload: CheckRunPayload,
    approval_action: &str,
    clicked: Option<ClickedEvaluation>,
    r: Option<Id>,
)
    requires
        call_ensures(handle_github_check_run, (&payload, approval_action, &clicked), r),
        payload.full_name matches Some(n) ==> forall|i: int| 0 <= i < n@.len() ==> n@[i] != '/',
    ensures
        r is None,
{
    if let Some(n) = payload.full_name {
        crate::text::lemma_position_is(n@, '/', n@.len() as int);
    }
}

proof fn lemma_first_slash(owner: Seq<char>, repo: Seq<char>)
    requires
        forall|i: int| 0 <= i < owner.len() ==> owner[i] != '/',
    ensures
        split_first_slash(owner + seq!['/'] + repo) == Some((owner, repo)),
{
    let s = owner + seq!['/'] + repo;
    let n = owner.len() as int;
    assert forall|j: int| 0 <= j < n implies s[j] != '/' by {
        assert(s[j] == owner[j]);
    }
    assert(s[n] == '/');
    crate::text::lemma_position_is(s, '/', n);
    assert(s.subrange(0, n) =~= owner);
    assert(skip(s, n + 1) =~= repo);
}

proof fn lemma_last_slash(owner: Seq<char>, repo: Seq<char>)
    requires
        forall|i: int| 0 <= i < repo.len() ==> repo[i] != '/',
    ensures
        split_last_slash(owner + seq!['/'] + repo) == Some((owner, repo)),
{
    let s = owner + seq!['/'] + repo;
    let n = owner.len() as int;
    assert forall|j: int| n + 1 <= j < s.len() implies s[j] != '/' by {
        assert(s[j] == repo[j - n - 1]);
    }
    assert(s[n] == '/');
    crate::text::lemma_past_last_is(s, '/', n + 1);
    assert(s.subrange(0, n) =~= owner);
    assert(skip(s, n + 1) =~= repo);
}

/// A GitLab note on a merge request whose text is a command makes the request of its author on
/// that merge request of the project `owner/repo`. The author goes by `username`, and by `login`
/// where there is none.
pub proof fn law_gitlab_note_makes_a_request(
    payload: CommentPayload,
    note: &str,
    command: Option<CiRunCommand>,
    owner: Seq<char>,
    repo: Seq<char>,
    r: Option<CiRunRequest>,
)
    requires
        call_ensures(ci_run_of_comment, (ForgeType::GitLab, &payload), r),
        call_ensures(parse_ci_run_command, (note,), command),
        command is Some,
        payload.has_attributes,
        payload.noteable_type matches Some(t) && t@ == "MergeRequest"@,
        payload.note matches Some(n) && n@ == note@,
        payload.merge_request_iid is Some,
        payload.user matches Some(u) && (u.username is Some || u.login is Some),
        payload.path_with_namespace matches Some(p) && p@ == owner + seq!['/'] + repo,
        forall|i: int| 0 <= i < repo.len() ==> repo[i] != '/',
    ensures
        r matches Some(q) && {
            &&& q.command@ == command->0@
            &&& Some(q.pr_number) == payload.merge_request_iid
            &&& payload.user->0.username is Some ==> q.sender@ == payload.user->0.username->0@
            &&& payload.user->0.username is None ==> q.sender@ == payload.user->0.login->0@
            &&& q.owner_repo@ == owner + seq!['/'] + repo
            &&& q.owner@ == owner
            &&& q.repo@ == repo
        },
{
    lemma_last_slash(owner, repo);
}

/// A GitLab note on anything but a merge request, or without number, author, project or
/// command, makes no request.
pub proof fn law_other_gitlab_notes_make_no_request(
    payload: CommentPayload,
    note: &str,
    command: Option<CiRunCommand>,
    r: Option<CiRunRequest>,
)
    requires
        call_ensures(ci_run_of_comment, (ForgeType::GitLab, &payload), r),
        call_ensures(parse_ci_run_command, (note,), command),
        payload.note matches Some(n) ==> n@ == note@,
        payload.note is None ==> note@.len() == 0,
        ({
            ||| !payload.has_attributes
            ||| payload.noteable_type is None
            ||| payload.noteable_type->0@ != "MergeRequest"@
            ||| command is None
            ||| payload.merge_request_iid is None
            ||| payload.user is None
            ||| payload.user->0.username is None && payload.user->0.login is None
            ||| payload.path_with_namespace is None
            ||| forall|i: int|
                0 <= i < payload.path_with_namespace->0@.len()
                    ==> payload.path_with_namespace->0@[i] != '/'
        }),
    ensures
        r is None,
{
    assert(text_or_empty(payload.note) =~= note@);
    if let Some(p) = payload.path_with_namespace {
        if forall|i: int| 0 <= i < p@.len() ==> p@[i] != '/' {
            crate::text::lemma_past_last_is(p@, '/', 0);
        }
    }
}

/// A new comment on any other forge whose text is a command makes the request of its author on
/// the pull request of `owner/repo`, or on the issue that stands for it. The author goes by
/// `login`, and by `username` where there is none.
pub proof fn law_comment_makes_a_request(
    forge: ForgeType,
    payload: CommentPayload,
    body: &str,
    command: Option<CiRunCommand>,
    owner: Seq<char>,
    repo: Seq<char>,
    r: Option<CiRunRequest>,
)
    requires
        call_ensures(ci_run_of_comment, (forge, &payload), r),
        call_ensures(parse_ci_run_command, (body,), command),
        command is Some,
        !(forge is GitLab),
        payload.action matches Some(a) && a@ == "created"@,
        payload.comment_body matches Some(b) && b@ == body@,
        payload.pull_request matches Some(Some(_)) || (payload.pull_request is None
            && payload.issue matches Some(Some(_))),
        payload.sender matches Some(u) && (u.username is Some || u.login is Some),
        payload.full_name matches Some(p) && p@ == owner + seq!['/'] + repo,
        forall|i: int| 0 <= i < repo.len() ==> repo[i] != '/',
    ensures
        r matches Some(q) && {
            &&& q.command@ == command->0@
            &&& payload.pull_request is Some ==> Some(q.pr_number) == payload.pull_request->0
            &&& payload.pull_request is None ==> Some(q.pr_number) == payload.issue->0
            &&& payload.sender->0.login is Some ==> q.sender@ == payload.sender->0.login->0@
            &&& payload.sender->0.login is None ==> q.sender@ == payload.sender->0.username->0@
            &&& q.owner_repo@ == owner + seq!['/'] + repo
            &&& q.owner@ == owner
            &&& q.repo@ == repo
        },
{
    lemma_last_slash(owner, repo);
}

/// A comment that is not new, or without number, author, repository or command, makes no
/// request.
pub proof fn law_other_comments_make_no_request(
    forge: ForgeType,
    payload: CommentPayload,
    body: &str,
    command: Option<CiRunCommand>,
    r: Option<CiRunRequest>,
)
    requires
        call_ensures(ci_run_of_comment, (forge, &payload), r),
        call_ensures(parse_ci_run_command, (body,), command),
        !(forge is GitLab),
        payload.comment_body matches Some(b) ==> b@ == body@,
        payload.comment_body is None ==> body@.len() == 0,
        ({
            ||| payload.action is None
            ||| payload.action->0@ != "created"@
            ||| command is None
            ||| payload.pull_request == Some(None::<u64>)
            ||| payload.pull_request is None && !(payload.issue matches Some(Some(_)))
            ||| payload.sender is None
            ||| payload.sender->0.username is None && payload.sender->0.login is None
            ||| payload.full_name is None
            ||| forall|i: int|
                0 <= i < payload.full_name->0@.len() ==> payload.full_name->0@[i] != '/'
        }),
    ensures
        r is None,
{
    assert(text_or_empty(payload.comment_body) =~= body@);
    if let Some(p) = payload.full_name {
        if forall|i: int| 0 <= i < p@.len() ==> p@[i] != '/' {
            crate::text::lemma_past_last_is(p@, '/', 0);
        }
    }
}

/// A comment by the route of an integration that makes a request releases every parked
/// evaluation of that integration and of the request's pull request whose reporter said of the
/// commenter and the repository that they may write, and no other: with their own wildcard
/// where the command has none, with that of the command where it is one. Where it is not one,
/// the error is the answer and nothing is released; a comment without request does nothing.
pub proof fn law_request_releases_the_parked_evaluations(
    forge: ForgeType,
    payload: CommentPayload,
    integration: Id,
    installation_found: bool,
    candidates: Vec<OrgCandidate>,
    wildcard_error: Option<&str>,
    parked: Vec<ParkedEvaluation>,
    request: Option<CiRunRequest>,
    r: Option<(CiRunAction, Vec<Id>)>,
    id: Id,
)
    requires
        call_ensures(ci_run_of_comment, (forge, &payload), request),
        call_ensures(
            handle_issue_comment,
            (
                forge,
                &payload,
                Some(integration),
                installation_found,
                &candidates,
                wildcard_error,
                &parked,
            ),
            r,
        ),
    ensures
        match request {
            None => r is None,
            Some(q) => {
                &&& r matches Some((action, released))
                &&& match (q.command, wildcard_error) {
                    (CiRunCommand::Plain, _) => action == CiRunAction::Unpark,
                    (CiRunCommand::WithWildcard(w), None) => {
                        action matches CiRunAction::UnparkWithWildcard(x) && x@ == w@
                    },
                    (CiRunCommand::WithWildcard(w), Some(e)) => {
                        &&& action matches CiRunAction::Reject(m)
                        &&& m@ == "Could not parse wildcard `"@ + w@ + "`: "@ + e@
                        &&& released@.len() == 0
                    },
                }
                &&& q.command is Plain || wildcard_error is None ==> (released@.contains(id)
                    <==> exists|i: int|
                    {
                        &&& 0 <= i < parked@.len()
                        &&& (#[trigger] parked@[i]).evaluation_id == id
                        &&& parked@[i].integration == integration
                        &&& parked@[i].pr_number == q.pr_number
                        &&& parked@[i].has_reporter
                        &&& parked@[i].answer matches Some(a)
                        &&& a.may_write
                        &&& a.asked.owner@ == q.owner@
                        &&& a.asked.repo@ == q.repo@
                        &&& a.asked.sender@ == q.sender@
                    })
            },
        },
{
    if let Some(q) = request {
        let targets = seq![integration];
        assert(targets[0] == integration);
        lemma_release_conditions(q@, targets, parked@, id);
        assert(forall|x: Id| targets.contains(x) <==> x == integration);
    }
}

/// What is released, in terms of what the evaluations and the answers say.
proof fn lemma_release_conditions(
    q: CiRunModel,
    targets: Seq<Id>,
    parked: Seq<ParkedEvaluation>,
    id: Id,
)
    ensures
        released(q, targets, parked).contains(id) <==> exists|i: int|
            {
                &&& 0 <= i < parked.len()
                &&& (#[trigger] parked[i]).evaluation_id == id
                &&& targets.contains(parked[i].integration)
                &&& parked[i].pr_number == q.pr_number
                &&& parked[i].has_reporter
                &&& parked[i].answer matches Some(a)
                &&& a.may_write
                &&& a.asked.owner@ == q.owner
                &&& a.asked.repo@ == q.repo
                &&& a.asked.sender@ == q.sender
            },
{
    lemma_released(q, targets, parked, id);
    assert forall|i: int| 0 <= i < parked.len() implies (releases(q, targets, #[trigger] parked[i])
        <==> {
        &&& targets.contains(parked[i].integration)
        &&& parked[i].pr_number == q.pr_number
        &&& parked[i].has_reporter
        &&& parked[i].answer matches Some(a)
        &&& a.may_write
        &&& a.asked.owner@ == q.owner
        &&& a.asked.repo@ == q.repo
        &&& a.asked.sender@ == q.sender
    }) by {
        if let Some(a) = parked[i].answer {
            assert(a.asked@ == request_probe(q) <==> a.asked.owner@ == q.owner && a.asked.repo@
                == q.repo && a.asked.sender@ == q.sender);
        }
    }
}

/// By the route of the GitHub App a request reaches the integrations of the organizations under
/// the installation that own a project at the comment's repository, and does nothing where there
/// is no installation or no such organization. What it reaches it treats as by the route of an
/// integration.
pub proof fn law_app_request_releases_the_parked_evaluations(
    forge: ForgeType,
    payload: CommentPayload,
    installation_found: bool,
    candidates: Vec<OrgCandidate>,
    urls: Vec<String>,
    targets: Vec<Id>,
    wildcard_error: Option<&str>,
    parked: Vec<ParkedEvaluation>,
    q: CiRunRequest,
    r: Option<(CiRunAction, Vec<Id>)>,
    id: Id,
)
    requires
        call_ensures(ci_run_of_comment, (forge, &payload), Some(q)),
        call_ensures(resolve_github_app_targets, (&candidates, &urls), targets),
        urls@.len() == 3,
        urls@[0]@ == "https://github.com/"@ + q.owner_repo@,
        urls@[1]@ == "https://github.com/"@ + q.owner_repo@ + ".git"@,
        urls@[2]@ == "git@github.com:"@ + q.owner_repo@ + ".git"@,
        call_ensures(
            handle_issue_comment,
            (
                forge,
                &payload,
                None::<Id>,
                installation_found,
                &candidates,
                wildcard_error,
                &parked,
            ),
            r,
        ),
    ensures
        r is Some <==> installation_found && targets@.len() > 0,
        r matches Some((action, released)) ==> if q.command is Plain || wildcard_error is None {
            released@.contains(id) <==> exists|i: int|
                {
                    &&& 0 <= i < parked@.len()
                    &&& (#[trigger] parked@[i]).evaluation_id == id
                    &&& targets@.contains(parked@[i].integration)
                    &&& parked@[i].pr_number == q.pr_number
                    &&& parked@[i].has_reporter
                    &&& parked@[i].answer matches Some(a)
                    &&& a.may_write
                    &&& a.asked.owner@ == q.owner@
                    &&& a.asked.repo@ == q.repo@
                    &&& a.asked.sender@ == q.sender@
                }
        } else {
            action is Reject && released@.len() == 0
        },
{
    assert(views(urls@) =~= github_addresses(q.owner_repo@));
    lemma_release_conditions(q@, targets@, parked@, id);
}

/// A sender is trusted when the forge was asked about the same sender and repository and says
/// that they may write. What is asked is what the click or the request says.
pub proof fn law_who_is_trusted(
    has_reporter: bool,
    answer: Option<WriterAnswer>,
    about: WriterProbe,
    r: bool,
    click: ApprovalClick,
    c: WriterProbe,
    request: CiRunRequest,
    q: WriterProbe,
)
    requires
        call_ensures(sender_is_trusted, (has_reporter, &answer, &about), r),
        call_ensures(click_probe, (&click,), c),
        call_ensures(writer_probe, (&request,), q),
    ensures
        r <==> has_reporter && answer is Some && answer->0.may_write
            && answer->0.asked.owner@ == about.owner@
            && answer->0.asked.repo@ == about.repo@ && answer->0.asked.sender@ == about.sender@,
        c.owner@ == click.owner@ && c.repo@ == click.repo@ && c.sender@ == click.sender@,
        q.owner@ == request.owner@ && q.repo@ == request.repo@ && q.sender@ == request.sender@,
{
    if answer is Some {
        let asked = answer->0.asked;
        if asked.owner@ == about.owner@ && asked.repo@ == about.repo@
            && asked.sender@ == about.sender@ {
            assert(asked@ =~= about@);
        }
    }
    assert(c@.owner == click@.owner && q@.owner == request@.owner);
}

/// A comment reaches its integration where it came in by one, and else the integrations of the
/// organizations behind the app that own the repository, under any of its three addresses on
/// GitHub.
pub proof fn law_whom_comments_reach(
    integration: Option<Id>,
    installation_found: bool,
    candidates: Vec<OrgCandidate>,
    owner_repo: &str,
    r: Option<Vec<Id>>,
    urls: Vec<String>,
)
    requires
        call_ensures(comment_targets, (integration, installation_found, &candidates, owner_repo), r),
        call_ensures(github_comment_urls, (owner_repo,), urls),
    ensures
        urls@.len() == 3,
        urls@[0]@ == "https://github.com/"@ + owner_repo@,
        urls@[1]@ == "https://github.com/"@ + owner_repo@ + ".git"@,
        urls@[2]@ == "git@github.com:"@ + owner_repo@ + ".git"@,
        integration is Some ==> r is Some && r->0@ == seq![integration->0],
        integration is None && !installation_found ==> r is None,
        integration is None && installation_found ==> {
            let targets = target_ids(candidates@, views(urls@));
            &&& r is Some <==> targets.len() > 0
            &&& r is Some ==> r->0@ == targets
        },
{
    let v = views(urls@);
    assert(v.len() == urls@.len());
    assert(v[0] == urls@[0]@ && v[1] == urls@[1]@ && v[2] == urls@[2]@);
}

/// A request without a wildcard releases what is parked, one with a wildcard releases it with
/// that, and one whose wildcard is none is answered with the reason.
pub proof fn law_what_requests_do(
    command: CiRunCommand,
    wildcard_error: Option<&str>,
    r: CiRunAction,
)
    requires
        call_ensures(ci_run_action, (&command, wildcard_error), r),
    ensures
        command@ is None ==> r is Unpark,
        command@ is Some && wildcard_error is None
            ==> (r matches CiRunAction::UnparkWithWildcard(w) && w@ == command@->0),
        command@ is Some && wildcard_error is Some
            ==> (r matches CiRunAction::Reject(m)
            && m@ == "Could not parse wildcard `"@ + command@->0 + "`: "@ + wildcard_error->0@),
{
}

} // verus!
