//! Triggers of a project.

use crate::error::{ErrorCode, ErrorModel, WebError, WebResult};
use crate::helpers::{Id, Timestamp};
use crate::projects::actions::DeletedResponse;
use crate::rows::reversed;
use vstd::prelude::*;

verus! {

#[derive(Debug, Clone, Copy, PartialEq, Eq, Structural)]
pub enum TriggerType {
    Polling,
    Time,
    ReporterPush,
    ReporterPullRequest,
}

#[derive(Debug, Clone, Copy, PartialEq, Eq, Structural)]
pub enum ConcurrencyPolicy {
    Skip,
    Cancel,
    /// Reserved.
    Allow,
}

/// A trigger, as the database holds it. A type or a policy that is not known is
/// `None`.
pub struct TriggerRow {
    pub id: Id,
    pub project: Id,
    pub trigger_type: Option<TriggerType>,
    pub concurrency: Option<ConcurrencyPolicy>,
    /// The configuration, as JSON.
    pub config: String,
    pub active: bool,
    pub last_fired_at: Option<Timestamp>,
    pub created_at: Timestamp,
    pub updated_at: Timestamp,
}

pub struct TriggerOut {
    pub id: Id,
    pub project: Id,
    pub trigger_type: TriggerType,
    pub concurrency: ConcurrencyPolicy,
    pub config: String,
    pub active: bool,
    pub last_fired_at: Option<Timestamp>,
    pub created_at: Timestamp,
    pub updated_at: Timestamp,
}

/// A configuration that the request brings: its type and its JSON.
pub struct NewConfig {
    pub trigger_type: TriggerType,
    pub json: String,
    /// Why the configuration is refused, if it is.
    pub error: Option<String>,
}

pub struct CreateBody {
    pub config: NewConfig,
    pub concurrency: ConcurrencyPolicy,
    pub active: bool,
}

pub struct UpdateBody {
    pub config: Option<NewConfig>,
    pub concurrency: Option<ConcurrencyPolicy>,
    pub active: Option<bool>,
}

/// The response on a trigger. A type that is not known shows as polling, a
/// policy that is not known as skip.
pub fn trigger_out(m: TriggerRow) -> (r: TriggerOut)
    ensures
        r == shown_trigger(m),
{
    TriggerOut {
        id: m.id,
        project: m.project,
        trigger_type: match m.trigger_type {
            Some(t) => t,
            None => TriggerType::Polling,
        },
        concurrency: match m.concurrency {
            Some(c) => c,
            None => ConcurrencyPolicy::Skip,
        },
        config: m.config,
        active: m.active,
        last_fired_at: m.last_fired_at,
        created_at: m.created_at,
        updated_at: m.updated_at,
    }
}

/// What is shown of a trigger.
pub open spec fn shown_trigger(m: TriggerRow) -> TriggerOut {
    TriggerOut {
        id: m.id,
        project: m.project,
        trigger_type: match m.trigger_type {
            Some(t) => t,
            None => TriggerType::Polling,
        },
        concurrency: match m.concurrency {
            Some(c) => c,
            None => ConcurrencyPolicy::Skip,
        },
        config: m.config,
        active: m.active,
        last_fired_at: m.last_fired_at,
        created_at: m.created_at,
        updated_at: m.updated_at,
    }
}

/// The triggers of a project.
pub fn list(rows: Vec<TriggerRow>) -> (r: Vec<TriggerOut>)
    ensures
        r@ == rows@.map_values(|m: TriggerRow| shown_trigger(m)),
{
    let ghost whole = rows@;
    let mut rest = reversed(rows);
    let mut out: Vec<TriggerOut> = Vec::new();
    while rest.len() > 0
        invariant
            rest@.len() + out@.len() == whole.len(),
            forall|j: int| 0 <= j < rest@.len() ==> rest@[j] == whole[whole.len() - 1 - j],
            forall|i: int| 0 <= i < out@.len() ==> #[trigger] out@[i] == shown_trigger(whole[i]),
        decreases rest.len(),
    {
        if let Some(row) = rest.pop() {
            out.push(trigger_out(row));
        }
    }
    assert(out@ =~= whole.map_values(|m: TriggerRow| shown_trigger(m)));
    out
}

/// The trigger that a request names.
pub fn read(row: Option<TriggerRow>) -> (r: WebResult<TriggerOut>)
    ensures
        match r {
            Ok(t) => row matches Some(m) && t == shown_trigger(m),
            Err(e) => row is None && e@ == ErrorModel::not_found("Trigger"@),
        },
{
    match row {
        Some(m) => Ok(trigger_out(m)),
        None => Err(WebError::not_found("Trigger")),
    }
}

/// The answer to the deletion of a trigger, which has to be there.
pub fn delete_one(found: bool) -> (r: WebResult<DeletedResponse>)
    ensures
        match r {
            Ok(d) => found && d.deleted,
            Err(e) => !found && e@ == ErrorModel::not_found("Trigger"@),
        },
{
    if !found {
        return Err(WebError::not_found("Trigger"));
    }
    Ok(DeletedResponse { deleted: true })
}

/// The reserved policy is refused.
pub fn reject_allow(concurrency: ConcurrencyPolicy) -> (r: WebResult<()>)
    ensures
        match r {
            Ok(_) => !(concurrency is Allow),
            Err(e) => concurrency is Allow && e@ == ErrorModel::bad_request(
                "concurrency `allow` is reserved"@,
            ),
        },
{
    match concurrency {
        ConcurrencyPolicy::Allow => Err(WebError::bad_request("concurrency `allow` is reserved")),
        _ => Ok(()),
    }
}

/// Why a policy and a configuration are refused; the policy is looked at first.
pub open spec fn trigger_error(
    concurrency: Option<ConcurrencyPolicy>,
    config: Option<NewConfig>,
) -> Option<ErrorModel> {
    if concurrency == Some(ConcurrencyPolicy::Allow) {
        Some(ErrorModel::bad_request("concurrency `allow` is reserved"@))
    } else {
        match config {
            Some(c) => match c.error {
                Some(e) => Some(ErrorModel::bad_request(e@)),
                None => None,
            },
            None => None,
        }
    }
}

/// The trigger that a request creates.
pub fn create(body: CreateBody, id: Id, project: Id, now: Timestamp) -> (r: WebResult<TriggerRow>)
    ensures
        match r {
            Ok(t) => {
                &&& trigger_error(Some(body.concurrency), Some(body.config)) is None
                &&& t == (TriggerRow {
                    id,
                    project,
                    trigger_type: Some(body.config.trigger_type),
                    concurrency: Some(body.concurrency),
                    config: body.config.json,
                    active: body.active,
                    last_fired_at: None,
                    created_at: now,
                    updated_at: now,
                })
            },
            Err(e) => trigger_error(Some(body.concurrency), Some(body.config)) == Some(e@),
        },
{
    match reject_allow(body.concurrency) {
        Ok(_) => {},
        Err(e) => {
            return Err(e);
        },
    }
    if let Some(e) = &body.config.error {
        return Err(WebError::bad_request(e.as_str()));
    }
    Ok(
        TriggerRow {
            id,
            project,
            trigger_type: Some(body.config.trigger_type),
            concurrency: Some(body.concurrency),
            config: body.config.json,
            active: body.active,
            last_fired_at: None,
            created_at: now,
            updated_at: now,
        },
    )
}

/// The trigger after a change; it has to be there.
pub fn update(found: Option<TriggerRow>, body: UpdateBody, now: Timestamp) -> (r: WebResult<TriggerRow>)
    ensures
        match r {
            Ok(t) => {
                &&& found matches Some(row)
                &&& trigger_error(body.concurrency, body.config) is None
                &&& t.id == row.id
                &&& t.project == row.project
                &&& t.last_fired_at == row.last_fired_at
                &&& t.created_at == row.created_at
                &&& t.updated_at == now
                &&& t.trigger_type == (match body.config {
                    Some(c) => Some(c.trigger_type),
                    None => row.trigger_type,
                })
                &&& t.config == (match body.config {
                    Some(c) => c.json,
                    None => row.config,
                })
                &&& t.concurrency == (match body.concurrency {
                    Some(c) => Some(c),
                    None => row.concurrency,
                })
                &&& t.active == (match body.active {
                    Some(a) => a,
                    None => row.active,
                })
            },
            Err(e) => if found is None {
                e@ == ErrorModel::not_found("Trigger"@)
            } else {
                trigger_error(body.concurrency, body.config) == Some(e@)
            },
        },
{
    let row = match found {
        Some(row) => row,
        None => {
            return Err(WebError::not_found("Trigger"));
        },
    };
    if let Some(c) = body.concurrency {
        match reject_allow(c) {
            Ok(_) => {},
            Err(e) => {
                return Err(e);
            },
        }
    }
    if let Some(c) = &body.config {
        if let Some(e) = &c.error {
            return Err(WebError::bad_request(e.as_str()));
        }
    }
    let (trigger_type, config) = match body.config {
        Some(c) => (Some(c.trigger_type), c.json),
        None => (row.trigger_type, row.config),
    };
    Ok(
        TriggerRow {
            id: row.id,
            project: row.project,
            trigger_type,
            concurrency: match body.concurrency {
                Some(c) => Some(c),
                None => row.concurrency,
            },
            config,
            active: match body.active {
                Some(a) => a,
                None => row.active,
            },
            last_fired_at: row.last_fired_at,
            created_at: row.created_at,
            updated_at: now,
        },
    )
}

/// What firing a trigger by hand comes to.
#[derive(Debug, Clone, Copy, PartialEq, Eq, Structural)]
pub enum FireOutcome {
    Created { evaluation_id: Id },
    SkippedSameCommit,
    SkippedConcurrency,
    SkippedAllowReserved,
}

/// The answer to a manual fire.
pub struct FireResponse {
    pub outcome: &'static str,
    pub evaluation_id: Option<Id>,
}

/// Whether a stored trigger can be fired: its type and its policy have to be
/// known.
pub fn check_fire(row: &TriggerRow) -> (r: WebResult<(TriggerType, ConcurrencyPolicy)>)
    ensures
        match r {
            Ok((t, c)) => row.trigger_type == Some(t) && row.concurrency == Some(c),
            Err(e) => if row.trigger_type is None {
                e@ == ErrorModel::internal("invalid trigger_type in row"@)
            } else {
                row.concurrency is None && e@ == ErrorModel::internal("invalid concurrency in row"@)
            },
        },
{
    match row.trigger_type {
        None => Err(WebError::internal("invalid trigger_type in row")),
        Some(t) => match row.concurrency {
            None => Err(WebError::internal("invalid concurrency in row")),
            Some(c) => Ok((t, c)),
        },
    }
}

/// What a manual fire came to.
pub open spec fn fired(r: FireResponse, outcome: FireOutcome) -> bool {
    match outcome {
        FireOutcome::Created { evaluation_id } => r.outcome@ == "Created"@
            && r.evaluation_id == Some(
            evaluation_id,
        ),
        FireOutcome::SkippedSameCommit => r.outcome@ == "SkippedSameCommit"@
            && r.evaluation_id is None,
        FireOutcome::SkippedConcurrency => r.outcome@ == "SkippedConcurrency"@ && r.evaluation_id
            is None,
        FireOutcome::SkippedAllowReserved => r.outcome@ == "SkippedAllowReserved"@
            && r.evaluation_id is None,
    }
}

fn fire_response(outcome: FireOutcome) -> (r: FireResponse)
    ensures
        fired(r, outcome),
{
    match outcome {
        FireOutcome::Created { evaluation_id } => FireResponse {
            outcome: "Created",
            evaluation_id: Some(evaluation_id),
        },
        FireOutcome::SkippedSameCommit => FireResponse {
            outcome: "SkippedSameCommit",
            evaluation_id: None,
        },
        FireOutcome::SkippedConcurrency => FireResponse {
            outcome: "SkippedConcurrency",
            evaluation_id: None,
        },
        FireOutcome::SkippedAllowReserved => FireResponse {
            outcome: "SkippedAllowReserved",
            evaluation_id: None,
        },
    }
}

/// The answer to a manual fire. The trigger has to be there and to be well-formed, the
/// head of the repository has to be found, and an evaluation to be queued: `head` and
/// `applied` say how that went, where it came to it.
pub fn fire_now(
    found: Option<&TriggerRow>,
    head: Result<(), String>,
    applied: Result<FireOutcome, String>,
) -> (r: WebResult<FireResponse>)
    ensures
        r is Ok <==> found is Some && found->0.trigger_type is Some && found->0.concurrency is Some
            && head is Ok && applied is Ok,
        match r {
            Ok(x) => fired(x, applied->Ok_0),
            Err(e) => e@ == if found is None {
                ErrorModel::not_found("Trigger"@)
            } else if found->0.trigger_type is None {
                ErrorModel::internal("invalid trigger_type in row"@)
            } else if found->0.concurrency is None {
                ErrorModel::internal("invalid concurrency in row"@)
            } else if head is Err {
                ErrorModel::internal(head->Err_0@)
            } else {
                ErrorModel::internal(applied->Err_0@)
            },
        },
{
    let row = match found {
        Some(row) => row,
        None => {
            return Err(WebError::not_found("Trigger"));
        },
    };
    if let Err(e) = check_fire(row) {
        return Err(e);
    }
    if let Err(e) = head {
        return Err(WebError::internal(e.as_str()));
    }
    match applied {
        Ok(outcome) => Ok(fire_response(outcome)),
        Err(e) => Err(WebError::internal(e.as_str())),
    }
}

/// No trigger that a request created or changed the policy of has the reserved
/// policy.
pub proof fn law_reserved_policy_is_never_stored(
    concurrency: ConcurrencyPolicy,
    config: Option<NewConfig>,
)
    requires
        trigger_error(Some(concurrency), config) is None,
    ensures
        concurrency != ConcurrencyPolicy::Allow,
{
}

/// What is shown of a trigger: a type that is not known as polling, a policy that is not known
/// as skip, and everything else as it is stored.
pub proof fn law_shown_triggers(
    m: TriggerRow,
    r: TriggerOut,
)
    requires
        call_ensures(trigger_out, (m,), r),
    ensures
        m.trigger_type is Some ==> r.trigger_type == m.trigger_type->0,
        m.trigger_type is None ==> r.trigger_type is Polling,
        m.concurrency is Some ==> r.concurrency == m.concurrency->0,
        m.concurrency is None ==> r.concurrency is Skip,
        r.id == m.id && r.project == m.project && r.active == m.active
            && r.last_fired_at == m.last_fired_at && r.created_at == m.created_at
            && r.updated_at == m.updated_at,
        r.config@ == m.config@,
{
}

/// A list shows every trigger, in order.
pub proof fn law_all_triggers_are_listed(
    rows: Vec<TriggerRow>,
    r: Vec<TriggerOut>,
    i: int,
    one: TriggerOut,
)
    requires
        call_ensures(list, (rows,), r),
        0 <= i < rows@.len(),
        call_ensures(trigger_out, (rows@[i],), one),
    ensures
        r@.len() == rows@.len(),
        r@[i] == one,
{
}

/// A trigger is created as asked for, unless its policy is the reserved one or its
/// configuration is refused; the policy is looked at first.
pub proof fn law_created_triggers(
    body: CreateBody,
    id: Id,
    project: Id,
    now: Timestamp,
    r: WebResult<TriggerRow>,
)
    requires
        call_ensures(create, (body, id, project, now), r),
    ensures
        r is Ok <==> !(body.concurrency is Allow) && body.config.error is None,
        body.concurrency is Allow ==> (r matches Err(WebError::BadRequest(c, m))
            && c == ErrorCode::BAD_REQUEST && m@ == "concurrency `allow` is reserved"@),
        !(body.concurrency is Allow) && body.config.error is Some
            ==> (r matches Err(WebError::BadRequest(c, m)) && c == ErrorCode::BAD_REQUEST
            && m@ == body.config.error->0@),
        r matches Ok(t) ==> {
            &&& t.id == id && t.project == project && t.active == body.active
            &&& t.trigger_type == Some(body.config.trigger_type)
            &&& t.concurrency == Some(body.concurrency)
            &&& t.config@ == body.config.json@
            &&& t.last_fired_at is None
            &&& t.created_at == now && t.updated_at == now
        },
{
}

/// A change keeps what it does not name. It is refused where the trigger is gone, where it asks
/// for the reserved policy, and where its configuration is refused.
pub proof fn law_changed_triggers(
    found: Option<TriggerRow>,
    body: UpdateBody,
    now: Timestamp,
    r: WebResult<TriggerRow>,
)
    requires
        call_ensures(update, (found, body, now), r),
    ensures
        r is Ok <==> found is Some && body.concurrency != Some(ConcurrencyPolicy::Allow)
            && (body.config is Some ==> body.config->0.error is None),
        found is None ==> (r matches Err(WebError::NotFound(c, m)) && c == ErrorCode::NOT_FOUND
            && m@ == "Trigger"@ + " not found"@),
        found is Some && body.concurrency == Some(ConcurrencyPolicy::Allow)
            ==> (r matches Err(WebError::BadRequest(c, m)) && c == ErrorCode::BAD_REQUEST
            && m@ == "concurrency `allow` is reserved"@),
        found is Some && body.concurrency != Some(ConcurrencyPolicy::Allow) && body.config is Some
            && body.config->0.error is Some ==> (r matches Err(WebError::BadRequest(c, m))
            && c == ErrorCode::BAD_REQUEST && m@ == body.config->0.error->0@),
        r matches Ok(t) ==> {
            let row = found->0;
            &&& t.id == row.id && t.project == row.project && t.last_fired_at == row.last_fired_at
                && t.created_at == row.created_at
            &&& t.updated_at == now
            &&& body.config is Some ==> t.trigger_type == Some(body.config->0.trigger_type)
                && t.config@ == body.config->0.json@
            &&& body.config is None ==> t.trigger_type == row.trigger_type && t.config@
                == row.config@
            &&& body.concurrency is Some ==> t.concurrency == body.concurrency
            &&& body.concurrency is None ==> t.concurrency == row.concurrency
            &&& body.active is Some ==> t.active == body.active->0
            &&& body.active is None ==> t.active == row.active
        },
{
}

/// A trigger is fired by hand where it is there, well-formed, the head of the repository is
/// found and an evaluation can be queued; the answer names what came of it.
pub proof fn law_manual_fires(
    found: Option<&TriggerRow>,
    head: Result<(), String>,
    applied: Result<FireOutcome, String>,
    r: WebResult<FireResponse>,
)
    requires
        call_ensures(fire_now, (found, head, applied), r),
    ensures
        r is Ok <==> found is Some && found->0.trigger_type is Some && found->0.concurrency is Some
            && head is Ok && applied is Ok,
        r matches Ok(x) ==> match applied->Ok_0 {
            FireOutcome::Created { evaluation_id } => x.outcome@ == "Created"@ && x.evaluation_id
                == Some(evaluation_id),
            FireOutcome::SkippedSameCommit => x.outcome@ == "SkippedSameCommit"@
                && x.evaluation_id is None,
            FireOutcome::SkippedConcurrency => x.outcome@ == "SkippedConcurrency"@
                && x.evaluation_id is None,
            FireOutcome::SkippedAllowReserved => x.outcome@ == "SkippedAllowReserved"@
                && x.evaluation_id is None,
        },
        found is None ==> (r matches Err(WebError::NotFound(c, m)) && c == ErrorCode::NOT_FOUND
            && m@ == "Trigger"@ + " not found"@),
        found is Some && found->0.trigger_type is None
            ==> (r matches Err(WebError::Internal(m)) && m@ == "invalid trigger_type in row"@),
        found is Some && found->0.trigger_type is Some && found->0.concurrency is None
            ==> (r matches Err(WebError::Internal(m)) && m@ == "invalid concurrency in row"@),
        found is Some && found->0.trigger_type is Some && found->0.concurrency is Some
            && head is Err ==> (r matches Err(WebError::Internal(m)) && m@ == head->Err_0@),
        found is Some && found->0.trigger_type is Some && found->0.concurrency is Some && head is Ok
            && applied is Err ==> (r matches Err(WebError::Internal(m)) && m@ == applied->Err_0@),
{
}

/// Triggers are read and deleted where they are there, take every policy but the reserved one,
/// and fire where their type and policy are known.
pub proof fn law_read_triggers(
    row: Option<TriggerRow>,
    r: WebResult<TriggerOut>,
    found: bool,
    d: WebResult<DeletedResponse>,
    policy: ConcurrencyPolicy,
    a: WebResult<()>,
    t: TriggerRow,
    f: WebResult<(TriggerType, ConcurrencyPolicy)>,
)
    requires
        call_ensures(read, (row,), r),
        call_ensures(delete_one, (found,), d),
        call_ensures(reject_allow, (policy,), a),
        call_ensures(check_fire, (&t,), f),
    ensures
        r is Ok <==> row is Some,
        r is Ok ==> r->Ok_0.id == row->0.id && r->Ok_0.project == row->0.project
            && r->Ok_0.active == row->0.active,
        r is Err ==> (r matches Err(WebError::NotFound(c, m)) && c == ErrorCode::NOT_FOUND
            && m@ == "Trigger"@ + " not found"@),
        d is Ok <==> found,
        d is Ok ==> d->Ok_0.deleted,
        d is Err ==> (d matches Err(WebError::NotFound(c, m)) && c == ErrorCode::NOT_FOUND
            && m@ == "Trigger"@ + " not found"@),
        a is Err <==> policy is Allow,
        a is Err ==> (a matches Err(WebError::BadRequest(c, m)) && c == ErrorCode::BAD_REQUEST
            && m@ == "concurrency `allow` is reserved"@),
        f is Ok <==> t.trigger_type is Some && t.concurrency is Some,
        f matches Ok((x, y)) ==> x == t.trigger_type->0 && y == t.concurrency->0,
        t.trigger_type is None ==> (f matches Err(WebError::Internal(m))
            && m@ == "invalid trigger_type in row"@),
        t.trigger_type is Some && t.concurrency is None
            ==> (f matches Err(WebError::Internal(m)) && m@ == "invalid concurrency in row"@),
{
}

} // verus!
