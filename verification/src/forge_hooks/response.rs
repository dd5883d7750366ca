//! The answer to a forge webhook.

use crate::helpers::Id;
use vstd::prelude::*;

verus! {

/// An evaluation that the webhook queued.
#[derive(Debug, PartialEq, Eq)]
pub struct QueuedEvaluation {
    pub project_id: Id,
    pub project_name: String,
    pub organization: String,
    pub evaluation_id: Id,
}

/// A project that the webhook did not start.
#[derive(Debug, PartialEq, Eq)]
pub struct SkippedProject {
    pub project_id: Id,
    pub project_name: String,
    pub organization: String,
    /// "filter", "same_commit", "concurrency" or "error".
    pub reason: String,
}

/// What a webhook triggered.
#[derive(Debug, PartialEq, Eq)]
pub struct WebhookTriggerOutcome {
    pub projects_scanned: usize,
    pub queued: Vec<QueuedEvaluation>,
    pub skipped: Vec<SkippedProject>,
}

/// The body of the answer to a webhook.
#[derive(Debug, PartialEq, Eq)]
pub struct WebhookResponse {
    pub event: String,
    pub repository_urls: Vec<String>,
    pub projects_scanned: usize,
    pub queued: Vec<QueuedEvaluation>,
    pub skipped: Vec<SkippedProject>,
}

#[verifier::ext_equal]
pub ghost struct QueuedModel {
    pub project_id: Id,
    pub project_name: Seq<char>,
    pub organization: Seq<char>,
    pub evaluation_id: Id,
}

#[verifier::ext_equal]
pub ghost struct SkippedModel {
    pub project_id: Id,
    pub project_name: Seq<char>,
    pub organization: Seq<char>,
    pub reason: Seq<char>,
}

impl View for QueuedEvaluation {
    type V = QueuedModel;

    open spec fn view(&self) -> QueuedModel {
        QueuedModel {
            project_id: self.project_id,
            project_name: self.project_name@,
            organization: self.organization@,
            evaluation_id: self.evaluation_id,
        }
    }
}

impl View for SkippedProject {
    type V = SkippedModel;

    open spec fn view(&self) -> SkippedModel {
        SkippedModel {
            project_id: self.project_id,
            project_name: self.project_name@,
            organization: self.organization@,
            reason: self.reason@,
        }
    }
}

impl WebhookTriggerOutcome {
    pub open spec fn queued_models(self) -> Seq<QueuedModel> {
        Seq::new(self.queued@.len(), |i: int| self.queued@[i]@)
    }

    pub open spec fn skipped_models(self) -> Seq<SkippedModel> {
        Seq::new(self.skipped@.len(), |i: int| self.skipped@[i]@)
    }
}

impl Default for WebhookTriggerOutcome {
    fn default() -> (r: WebhookTriggerOutcome)
        ensures
            r.projects_scanned == 0,
            r.queued@.len() == 0,
            r.skipped@.len() == 0,
            r.queued_models() == Seq::<QueuedModel>::empty(),
            r.skipped_models() == Seq::<SkippedModel>::empty(),
    {
        WebhookTriggerOutcome { projects_scanned: 0, queued: Vec::new(), skipped: Vec::new() }
    }
}

impl WebhookResponse {
    /// The answer to an event that triggers nothing.
    pub fn empty(event: &str) -> (r: WebhookResponse)
        ensures
            r.event@ == event@,
            r.repository_urls@.len() == 0,
            r.projects_scanned == 0,
            r.queued@.len() == 0,
            r.skipped@.len() == 0,
    {
        WebhookResponse {
            event: event.to_owned(),
            repository_urls: Vec::new(),
            projects_scanned: 0,
            queued: Vec::new(),
            skipped: Vec::new(),
        }
    }

    /// The answer to an event in a repository at `repository_urls` that came to
    /// `outcome`.
    pub fn triggered(
        event: &str,
        repository_urls: Vec<String>,
        outcome: WebhookTriggerOutcome,
    ) -> (r: WebhookResponse)
        ensures
            r.event@ == event@,
            r.repository_urls == repository_urls,
            r.projects_scanned == outcome.projects_scanned,
            r.queued == outcome.queued,
            r.skipped == outcome.skipped,
    {
        WebhookResponse {
            event: event.to_owned(),
            repository_urls,
            projects_scanned: outcome.projects_scanned,
            queued: outcome.queued,
            skipped: outcome.skipped,
        }
    }
}

/// An answer to a webhook names the event; it has the addresses and the outcome of what was
/// triggered, and nothing where nothing was.
pub proof fn law_webhook_answers(
    event: &str,
    urls: Vec<String>,
    outcome: WebhookTriggerOutcome,
    e: WebhookResponse,
    t: WebhookResponse,
)
    requires
        call_ensures(WebhookResponse::empty, (event,), e),
        call_ensures(WebhookResponse::triggered, (event, urls, outcome), t),
    ensures
        e.event@ == event@ && t.event@ == event@,
        e.repository_urls@.len() == 0 && e.projects_scanned == 0 && e.queued@.len() == 0
            && e.skipped@.len() == 0,
        t.repository_urls == urls && t.projects_scanned == outcome.projects_scanned
            && t.queued == outcome.queued && t.skipped == outcome.skipped,
{
}

} // verus!
