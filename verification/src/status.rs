//! States of evaluations and builds.

use vstd::prelude::*;

verus! {

#[derive(Debug, Clone, Copy, PartialEq, Eq, Structural)]
pub enum EvaluationStatus {
    Queued,
    Fetching,
    EvaluatingFlake,
    EvaluatingDerivation,
    Building,
    Waiting,
    Completed,
    Failed,
    Aborted,
}

impl EvaluationStatus {
    /// The evaluation is in progress.
    pub open spec fn active(self) -> bool {
        !(self is Completed || self is Failed || self is Aborted)
    }

    /// Whether the evaluation is in progress (Queued, Fetching, EvaluatingFlake,
    /// EvaluatingDerivation, Building, Waiting).
    pub fn is_active(self) -> (r: bool)
        ensures
            r == self.active(),
    {
        match self {
            EvaluationStatus::Completed | EvaluationStatus::Failed | EvaluationStatus::Aborted => false,
            _ => true,
        }
    }
}

#[derive(Debug, Clone, Copy, PartialEq, Eq, Structural)]
pub enum BuildStatus {
    Created,
    Queued,
    Building,
    Completed,
    FailedPermanent,
    FailedTimeout,
    Aborted,
    DependencyFailed,
    Substituted,
}

impl BuildStatus {
    /// The outputs of the build are there.
    pub open spec fn succeeded(self) -> bool {
        self is Completed || self is Substituted
    }

    /// The build itself failed.
    pub open spec fn failed(self) -> bool {
        self is FailedPermanent || self is FailedTimeout
    }

    /// Whether the outputs of the build are there.
    pub fn is_success(self) -> (r: bool)
        ensures
            r == self.succeeded(),
    {
        match self {
            BuildStatus::Completed | BuildStatus::Substituted => true,
            _ => false,
        }
    }

    /// Whether the build itself failed.
    pub fn is_failure(self) -> (r: bool)
        ensures
            r == self.failed(),
    {
        match self {
            BuildStatus::FailedPermanent | BuildStatus::FailedTimeout => true,
            _ => false,
        }
    }
}

/// An evaluation is in progress until it is completed, failed or aborted; a build has succeeded
/// when it is completed or substituted, and failed when it failed for good or ran out of time.
pub proof fn law_statuses(e: EvaluationStatus, b: BuildStatus, active: bool, ok: bool, bad: bool)
    requires
        call_ensures(EvaluationStatus::is_active, (e,), active),
        call_ensures(BuildStatus::is_success, (b,), ok),
        call_ensures(BuildStatus::is_failure, (b,), bad),
    ensures
        active <==> e is Queued || e is Fetching || e is EvaluatingFlake
            || e is EvaluatingDerivation || e is Building || e is Waiting,
        ok <==> b is Completed || b is Substituted,
        bad <==> b is FailedPermanent || b is FailedTimeout,
{
}

} // verus!
