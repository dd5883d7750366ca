//! Actions of a project: what is sent where when something happens.

use crate::codec::{base64_url_encoded, encode_base64_url, random_bytes};
use crate::error::{ErrorCode, ErrorKind, ErrorModel, WebError, WebResult};
use crate::helpers::{Id, Timestamp};
use crate::json::{
    first_text, first_text_of, is_text_array, is_without, law_taken_members_are_gone, listed_texts,
    text_array, texts_of, without_member, Json,
};
use crate::rows::reversed;
use crate::text::{cat, cat4, opt_view, views};
use vstd::prelude::*;

verus! {

#[derive(Debug, Clone, Copy, PartialEq, Eq, Structural)]
pub enum ActionType {
    SendMail,
    SendWebRequest,
    ForgeStatusReport,
}

/// What an action does. A configuration that is stored holds its token encrypted.
#[derive(Debug, PartialEq, Eq)]
pub enum ActionConfig {
    /// `rest` is what a mail is configured with besides its recipients.
    SendMail { recipients: Vec<String>, rest: Json },
    SendWebRequest { url: String, token: Option<String> },
    ForgeStatusReport { integration_id: Id },
}

impl ActionType {
    /// The name of the type.
    pub open spec fn name(self) -> Seq<char> {
        match self {
            ActionType::SendMail => "send_mail"@,
            ActionType::SendWebRequest => "send_web_request"@,
            ActionType::ForgeStatusReport => "forge_status_report"@,
        }
    }
}

/// The name of an action type.
pub fn action_type_to_str(t: ActionType) -> (r: &'static str)
    ensures
        r@ == t.name(),
{
    match t {
        ActionType::SendMail => "send_mail",
        ActionType::SendWebRequest => "send_web_request",
        ActionType::ForgeStatusReport => "forge_status_report",
    }
}

impl ActionConfig {
    /// The type of the action.
    pub open spec fn kind(self) -> ActionType {
        match self {
            ActionConfig::SendMail { .. } => ActionType::SendMail,
            ActionConfig::SendWebRequest { .. } => ActionType::SendWebRequest,
            ActionConfig::ForgeStatusReport { .. } => ActionType::ForgeStatusReport,
        }
    }

    /// The token of the action.
    pub open spec fn secret(self) -> Option<Seq<char>> {
        match self {
            ActionConfig::SendWebRequest { url, token } => opt_view(token),
            _ => None,
        }
    }

    /// The type of the action.
    pub fn action_type(&self) -> (r: ActionType)
        ensures
            r == self.kind(),
    {
        match self {
            ActionConfig::SendMail { .. } => ActionType::SendMail,
            ActionConfig::SendWebRequest { .. } => ActionType::SendWebRequest,
            ActionConfig::ForgeStatusReport { .. } => ActionType::ForgeStatusReport,
        }
    }
}

/// Both configurations do the same, but for their tokens.
pub open spec fn same_but_token(a: ActionConfig, b: ActionConfig) -> bool {
    match (a, b) {
        (
            ActionConfig::SendMail { recipients: x, rest: p },
            ActionConfig::SendMail { recipients: y, rest: q },
        ) => x == y && p == q,
        (
            ActionConfig::SendWebRequest { url: x, token: _ },
            ActionConfig::SendWebRequest { url: y, token: _ },
        ) => x@ == y@,
        (
            ActionConfig::ForgeStatusReport { integration_id: x },
            ActionConfig::ForgeStatusReport { integration_id: y },
        ) => x == y,
        _ => false,
    }
}

// ── Responses ────────────────────────────────────────────────────────────────

/// An action, as the database holds it.
pub struct ActionRow {
    pub id: Id,
    pub project: Id,
    pub name: String,
    /// The stored type; `None` when it is not one that is known.
    pub action_type: Option<ActionType>,
    pub config: Json,
    pub events: Json,
    pub active: bool,
    pub last_fired_at: Option<Timestamp>,
    pub created_by: Id,
    pub created_at: Timestamp,
    pub updated_at: Timestamp,
}

pub struct ActionResponse {
    pub id: Id,
    pub name: String,
    pub action_type: &'static str,
    pub config: Json,
    pub events: Vec<String>,
    pub active: bool,
    pub last_fired_at: Option<Timestamp>,
    pub created_by: Id,
    pub created_at: Timestamp,
    pub updated_at: Timestamp,
}

pub struct CreateActionResponse {
    pub action: ActionResponse,
    /// The token in plain text, handed out once.
    pub token: Option<String>,
}

/// The type of a stored action; one that is not known counts as mail.
pub open spec fn effective_type(t: Option<ActionType>) -> ActionType {
    match t {
        Some(x) => x,
        None => ActionType::SendMail,
    }
}

/// The type of a stored action.
pub fn stored_type(t: Option<ActionType>) -> (r: ActionType)
    ensures
        r == effective_type(t),
{
    match t {
        Some(x) => x,
        None => ActionType::SendMail,
    }
}

/// `r` is the stored configuration as it is shown: with every member, but that the token of
/// a web request is left out.
pub open spec fn shows_config(r: Json, stored: Json, t: ActionType) -> bool {
    if t is SendWebRequest {
        is_without(r, stored, "token"@)
    } else {
        r == stored
    }
}

/// A stored action is shown with all but its token. Of its events the texts are shown.
pub open spec fn shows_action(r: ActionResponse, m: ActionRow) -> bool {
    &&& r.id == m.id
    &&& r.name == m.name
    &&& r.action_type@ == effective_type(m.action_type).name()
    &&& shows_config(r.config, m.config, effective_type(m.action_type))
    &&& views(r.events@) == texts_of(m.events)
    &&& r.active == m.active
    &&& r.last_fired_at == m.last_fired_at
    &&& r.created_by == m.created_by
    &&& r.created_at == m.created_at
    &&& r.updated_at == m.updated_at
}

/// Render a stored row as a public response, stripping the encrypted token from
/// `send_web_request` configurations so secrets never leak past the call where
/// the plaintext is returned exactly once.
pub fn to_response(m: ActionRow) -> (r: ActionResponse)
    ensures
        shows_action(r, m),
{
    let at = stored_type(m.action_type);
    let config = if at == ActionType::SendWebRequest {
        without_member(m.config, "token")
    } else {
        m.config
    };
    ActionResponse {
        id: m.id,
        name: m.name,
        action_type: action_type_to_str(at),
        config,
        events: listed_texts(&m.events),
        active: m.active,
        last_fired_at: m.last_fired_at,
        created_by: m.created_by,
        created_at: m.created_at,
        updated_at: m.updated_at,
    }
}

/// No response on a stored web request holds its token.
pub proof fn law_responses_hold_no_token(r: ActionResponse, m: ActionRow)
    requires
        shows_action(r, m),
        effective_type(m.action_type) is SendWebRequest,
    ensures
        !r.config.has_member("token"@),
{
    law_taken_members_are_gone(r.config, m.config, "token"@);
}

/// The actions of a project.
pub fn list_actions(rows: Vec<ActionRow>) -> (r: Vec<ActionResponse>)
    ensures
        r@.len() == rows@.len(),
        forall|i: int| 0 <= i < r@.len() ==> shows_action(#[trigger] r@[i], rows@[i]),
{
    let ghost whole = rows@;
    let mut rest = reversed(rows);
    let mut out: Vec<ActionResponse> = Vec::new();
    while rest.len() > 0
        invariant
            rest@.len() + out@.len() == whole.len(),
            forall|j: int| 0 <= j < rest@.len() ==> rest@[j] == whole[whole.len() - 1 - j],
            forall|i: int| 0 <= i < out@.len() ==> shows_action(#[trigger] out@[i], whole[i]),
        decreases rest.len(),
    {
        if let Some(row) = rest.pop() {
            out.push(to_response(row));
        }
    }
    out
}

/// The action that a request names.
pub fn read_action(row: Option<ActionRow>) -> (r: WebResult<ActionResponse>)
    ensures
        match r {
            Ok(a) => row matches Some(m) && shows_action(a, m),
            Err(e) => row is None && e@ == ErrorModel::not_found("Action"@),
        },
{
    match row {
        Some(m) => Ok(to_response(m)),
        None => Err(WebError::not_found("Action")),
    }
}

#[derive(Debug, Clone, Copy, PartialEq, Eq, Structural)]
pub struct DeletedResponse {
    pub deleted: bool,
}

/// The answer to the deletion of an action, which has to be there.
pub fn delete_action(found: bool) -> (r: WebResult<DeletedResponse>)
    ensures
        match r {
            Ok(d) => found && d.deleted,
            Err(e) => !found && e@ == ErrorModel::not_found("Action"@),
        },
{
    if !found {
        return Err(WebError::not_found("Action"));
    }
    Ok(DeletedResponse { deleted: true })
}

// ── Creation ─────────────────────────────────────────────────────────────────

pub struct CreateActionRequest {
    pub name: String,
    pub config: ActionConfig,
    pub events: Vec<String>,
    pub active: bool,
}

/// What was found of the integration that a report is sent to.
#[derive(Debug, Clone, Copy, PartialEq, Eq, Structural)]
pub enum IntegrationLookup {
    Missing,
    /// There, but not for outgoing traffic.
    Inbound,
    Outbound,
}

/// What was found out about a request.
pub struct ActionChecks {
    pub smtp_enabled: bool,
    /// Why the address of a web request is refused, if it is.
    pub url_error: Option<String>,
    pub integration: IntegrationLookup,
    pub name_taken: bool,
}

/// Why the integration of a report is refused.
pub open spec fn integration_error(l: IntegrationLookup) -> Option<ErrorModel> {
    match l {
        IntegrationLookup::Outbound => None,
        IntegrationLookup::Inbound => Some(
            ErrorModel::unprocessable_entity("integration is not an outbound integration"@),
        ),
        IntegrationLookup::Missing => Some(
            ErrorModel::unprocessable_entity("outbound integration not found"@),
        ),
    }
}

/// Why a new action is refused.
pub open spec fn create_error(
    config: ActionConfig,
    events: Seq<String>,
    checks: ActionChecks,
) -> Option<ErrorModel> {
    let by_config = match config {
        ActionConfig::SendMail { recipients, rest: _ } => if !checks.smtp_enabled {
            Some(ErrorModel::unprocessable_entity("SMTP is not configured on this server"@))
        } else if recipients@.len() == 0 {
            Some(ErrorModel::unprocessable_entity("send_mail requires at least one recipient"@))
        } else {
            None
        },
        ActionConfig::ForgeStatusReport { .. } => if events.len() > 0 {
            Some(
                ErrorModel::unprocessable_entity(
                    "forge_status_report actions cannot carry custom events"@,
                ),
            )
        } else {
            integration_error(checks.integration)
        },
        ActionConfig::SendWebRequest { .. } => match checks.url_error {
            Some(e) => Some(ErrorModel::unprocessable_entity(e@)),
            None => None,
        },
    };
    if by_config is Some {
        by_config
    } else if checks.name_taken {
        Some(
            ErrorModel {
                kind: ErrorKind::Conflict,
                code: ErrorCode::ALREADY_EXISTS,
                message: "action with this name already exists"@,
            },
        )
    } else {
        None
    }
}

fn check_integration(l: IntegrationLookup) -> (r: WebResult<()>)
    ensures
        match r {
            Ok(_) => integration_error(l) is None,
            Err(e) => integration_error(l) == Some(e@),
        },
{
    match l {
        IntegrationLookup::Outbound => Ok(()),
        IntegrationLookup::Inbound => Err(
            WebError::unprocessable_entity("integration is not an outbound integration"),
        ),
        IntegrationLookup::Missing => Err(
            WebError::unprocessable_entity("outbound integration not found"),
        ),
    }
}

/// Whether a new action is accepted.
pub fn check_new_action(config: &ActionConfig, events: &Vec<String>, checks: &ActionChecks) -> (r:
    WebResult<()>)
    ensures
        match r {
            Ok(_) => create_error(*config, events@, *checks) is None,
            Err(e) => create_error(*config, events@, *checks) == Some(e@),
        },
{
    match config {
        ActionConfig::SendMail { recipients, rest: _ } => {
            if !checks.smtp_enabled {
                return Err(WebError::unprocessable_entity("SMTP is not configured on this server"));
            }
            if recipients.len() == 0 {
                return Err(
                    WebError::unprocessable_entity("send_mail requires at least one recipient"),
                );
            }
        },
        ActionConfig::ForgeStatusReport { integration_id: _ } => {
            if events.len() > 0 {
                return Err(
                    WebError::unprocessable_entity(
                        "forge_status_report actions cannot carry custom events",
                    ),
                );
            }
            match check_integration(checks.integration) {
                Ok(_) => {},
                Err(e) => {
                    return Err(e);
                },
            }
        },
        ActionConfig::SendWebRequest { url: _, token: _ } => {
            if let Some(e) = &checks.url_error {
                return Err(WebError::unprocessable_entity(e.as_str()));
            }
        },
    }
    if checks.name_taken {
        return Err(
            WebError::Conflict(
                ErrorCode::ALREADY_EXISTS,
                "action with this name already exists".to_owned(),
            ),
        );
    }
    Ok(())
}

/// The token of a configuration that has to be encrypted before it is stored.
pub fn token_to_encrypt(config: &ActionConfig) -> (r: Option<&String>)
    ensures
        match r {
            Some(t) => config.secret() == Some(t@),
            None => config.secret() is None,
        },
{
    match config {
        ActionConfig::SendWebRequest { url: _, token: Some(t) } => Some(t),
        _ => None,
    }
}

/// An action that is to be stored.
pub struct ActionDraft {
    pub id: Id,
    pub project: Id,
    pub name: String,
    pub config: ActionConfig,
    pub events: Vec<String>,
    pub active: bool,
    pub created_by: Id,
    pub created_at: Timestamp,
}

/// A new action and the token that is handed out once.
pub struct NewAction {
    pub draft: ActionDraft,
    pub plaintext_token: Option<String>,
}

/// The action that a request creates in a project. `encrypted` is the encrypted
/// token, or why it could not be encrypted; it matters only where the request
/// is accepted and holds a token.
pub fn create_action(
    body: CreateActionRequest,
    checks: &ActionChecks,
    encrypted: Result<String, String>,
    id: Id,
    project: Id,
    created_by: Id,
    now: Timestamp,
) -> (r: WebResult<NewAction>)
    ensures
        r is Ok <==> create_error(body.config, body.events@, *checks) is None && (
        body.config.secret() is Some ==> encrypted is Ok),
        match r {
            Ok(n) => {
                &&& n.draft == (ActionDraft {
                    id,
                    project,
                    name: body.name,
                    config: n.draft.config,
                    events: body.events,
                    active: body.active,
                    created_by,
                    created_at: now,
                })
                &&& same_but_token(n.draft.config, body.config)
                &&& n.draft.config.kind() == body.config.kind()
                &&& n.draft.config.secret() == if body.config.secret() is Some {
                    Some(encrypted->Ok_0@)
                } else {
                    None
                }
                &&& opt_view(n.plaintext_token) == body.config.secret()
            },
            Err(e) => e@ == match create_error(body.config, body.events@, *checks) {
                Some(refusal) => refusal,
                None => ErrorModel::internal(encrypted->Err_0@),
            },
        },
{
    if let Err(e) = check_new_action(&body.config, &body.events, checks) {
        return Err(e);
    }
    let (config, plaintext_token) = match body.config {
        ActionConfig::SendWebRequest { url, token: Some(plaintext) } => match encrypted {
            Ok(c) => (ActionConfig::SendWebRequest { url, token: Some(c) }, Some(plaintext)),
            Err(e) => {
                return Err(WebError::internal(e.as_str()));
            },
        },
        other => (other, None),
    };
    Ok(
        NewAction {
            draft: ActionDraft {
                id,
                project,
                name: body.name,
                config,
                events: body.events,
                active: body.active,
                created_by,
                created_at: now,
            },
            plaintext_token,
        },
    )
}

/// The row of a new action. `encoded` is its configuration as JSON, or why there is none.
pub fn stored_action(draft: ActionDraft, encoded: Result<Json, String>) -> (r: WebResult<ActionRow>)
    ensures
        match r {
            Ok(row) => {
                &&& encoded == Ok::<Json, String>(row.config)
                &&& is_text_array(row.events, draft.events@)
                &&& row == (ActionRow {
                    id: draft.id,
                    project: draft.project,
                    name: draft.name,
                    action_type: Some(draft.config.kind()),
                    config: row.config,
                    events: row.events,
                    active: draft.active,
                    last_fired_at: None,
                    created_by: draft.created_by,
                    created_at: draft.created_at,
                    updated_at: draft.created_at,
                })
            },
            Err(e) => encoded is Err && e@ == ErrorModel::internal(encoded->Err_0@),
        },
{
    let action_type = draft.config.action_type();
    let config = match encoded {
        Ok(c) => c,
        Err(e) => {
            return Err(WebError::internal(e.as_str()));
        },
    };
    Ok(
        ActionRow {
            id: draft.id,
            project: draft.project,
            name: draft.name,
            action_type: Some(action_type),
            config,
            events: text_array(draft.events),
            active: draft.active,
            last_fired_at: None,
            created_by: draft.created_by,
            created_at: draft.created_at,
            updated_at: draft.created_at,
        },
    )
}

/// The response to a request that created an action: the only one that holds the
/// token in plain text.
pub fn created_response(row: ActionRow, plaintext_token: Option<String>) -> (r: CreateActionResponse)
    ensures
        r.token == plaintext_token,
        shows_action(r.action, row),
{
    CreateActionResponse { action: to_response(row), token: plaintext_token }
}

// ── Changes ──────────────────────────────────────────────────────────────────

pub struct UpdateActionRequest {
    pub name: Option<String>,
    pub config: Option<ActionConfig>,
    pub events: Option<Vec<String>>,
    pub active: Option<bool>,
}

/// Why a new configuration is refused.
pub open spec fn update_config_error(
    config: ActionConfig,
    existing: ActionType,
    checks: ActionChecks,
) -> Option<ErrorModel> {
    if config.kind() != existing {
        Some(ErrorModel::unprocessable_entity("action_type cannot be changed"@))
    } else {
        match config {
            ActionConfig::SendMail { recipients, rest: _ } => if recipients@.len() == 0 {
                Some(
                    ErrorModel::unprocessable_entity("send_mail requires at least one recipient"@),
                )
            } else {
                None
            },
            ActionConfig::SendWebRequest { .. } => match checks.url_error {
                Some(e) => Some(ErrorModel::unprocessable_entity(e@)),
                None => None,
            },
            ActionConfig::ForgeStatusReport { .. } => integration_error(checks.integration),
        }
    }
}

/// Why a change is refused.
pub open spec fn update_error(
    body: UpdateActionRequest,
    existing: ActionType,
    checks: ActionChecks,
) -> Option<ErrorModel> {
    let by_config = match body.config {
        Some(c) => update_config_error(c, existing, checks),
        None => None,
    };
    if by_config is Some {
        by_config
    } else if existing is ForgeStatusReport && (body.events matches Some(evs) && evs@.len() > 0) {
        Some(
            ErrorModel::unprocessable_entity(
                "forge_status_report actions cannot carry custom events"@,
            ),
        )
    } else {
        None
    }
}

/// Whether a change to an action of the type `existing` is accepted.
pub fn check_action_update(
    body: &UpdateActionRequest,
    existing: ActionType,
    checks: &ActionChecks,
) -> (r: WebResult<()>)
    ensures
        match r {
            Ok(_) => update_error(*body, existing, *checks) is None,
            Err(e) => update_error(*body, existing, *checks) == Some(e@),
        },
{
    if let Some(config) = &body.config {
        if config.action_type() != existing {
            return Err(WebError::unprocessable_entity("action_type cannot be changed"));
        }
        match config {
            ActionConfig::SendMail { recipients, rest: _ } => {
                if recipients.len() == 0 {
                    return Err(
                        WebError::unprocessable_entity("send_mail requires at least one recipient"),
                    );
                }
            },
            ActionConfig::SendWebRequest { url: _, token: _ } => {
                if let Some(e) = &checks.url_error {
                    return Err(WebError::unprocessable_entity(e.as_str()));
                }
            },
            ActionConfig::ForgeStatusReport { integration_id: _ } => {
                match check_integration(checks.integration) {
                    Ok(_) => {},
                    Err(e) => {
                        return Err(e);
                    },
                }
            },
        }
    }
    if let Some(events) = &body.events {
        if existing == ActionType::ForgeStatusReport && events.len() > 0 {
            return Err(
                WebError::unprocessable_entity(
                    "forge_status_report actions cannot carry custom events",
                ),
            );
        }
    }
    Ok(())
}

/// The token that a changed configuration is stored with: a new token encrypted,
/// else the one that is stored already.
pub open spec fn updated_secret(
    new: ActionConfig,
    old: ActionConfig,
    encrypted: Result<String, String>,
) -> Option<Seq<char>> {
    if !(new.kind() is SendWebRequest) {
        None
    } else if new.secret() is Some {
        Some(encrypted->Ok_0@)
    } else {
        old.secret()
    }
}

/// A change brings a new token, which has to be encrypted.
pub open spec fn brings_token(body: UpdateActionRequest) -> bool {
    body.config matches Some(c) && c.secret() is Some
}

/// A change of a web request brings no token, so that the stored one has to be read.
pub open spec fn keeps_token(body: UpdateActionRequest) -> bool {
    body.config matches Some(c) && c.kind() is SendWebRequest && c.secret() is None
}

/// A changed action. Where a configuration is there, it is to be stored in place of the
/// one in the row.
pub struct ActionChange {
    pub row: ActionRow,
    pub config: Option<ActionConfig>,
}

/// The events of a changed action: new ones, else those that were stored.
pub open spec fn changes_events(r: Json, stored: Json, new: Option<Vec<String>>) -> bool {
    match new {
        Some(events) => is_text_array(r, events@),
        None => r == stored,
    }
}

/// The action after a change. Where a changed web request brings no token, the stored
/// one is kept: `stored` is the stored configuration, or why it could not be read, and
/// matters only there. `encrypted` is the encrypted token of the request, or why it could
/// not be encrypted; it matters only where the change is accepted and brings a token.
pub fn update_action(
    found: Option<ActionRow>,
    body: UpdateActionRequest,
    checks: &ActionChecks,
    stored: Result<ActionConfig, String>,
    encrypted: Result<String, String>,
    now: Timestamp,
) -> (r: WebResult<ActionChange>)
    ensures
        r is Ok <==> {
            &&& found matches Some(row)
            &&& update_error(body, effective_type(row.action_type), *checks) is None
            &&& keeps_token(body) ==> stored is Ok
            &&& brings_token(body) ==> encrypted is Ok
        },
        match r {
            Ok(a) => {
                let row = found->0;
                &&& a.row == (ActionRow {
                    name: match body.name {
                        Some(n) => n,
                        None => row.name,
                    },
                    events: a.row.events,
                    active: match body.active {
                        Some(x) => x,
                        None => row.active,
                    },
                    updated_at: now,
                    ..row
                })
                &&& changes_events(a.row.events, row.events, body.events)
                &&& match body.config {
                    Some(c) => {
                        &&& a.config matches Some(new)
                        &&& same_but_token(new, c)
                        &&& new.kind() == c.kind()
                        &&& new.secret() == updated_secret(c, stored->Ok_0, encrypted)
                    },
                    None => a.config is None,
                }
            },
            Err(e) => e@ == if found is None {
                ErrorModel::not_found("Action"@)
            } else {
                match update_error(body, effective_type(found->0.action_type), *checks) {
                    Some(refusal) => refusal,
                    None => if keeps_token(body) {
                        ErrorModel::internal(stored->Err_0@)
                    } else {
                        ErrorModel::internal(encrypted->Err_0@)
                    },
                }
            },
        },
{
    let row = match found {
        Some(row) => row,
        None => {
            return Err(WebError::not_found("Action"));
        },
    };
    if let Err(e) = check_action_update(&body, stored_type(row.action_type), checks) {
        return Err(e);
    }
    let config = match body.config {
        Some(new) => match new {
            ActionConfig::SendWebRequest { url, token: None } => match stored {
                Ok(old) => {
                    let token = match old {
                        ActionConfig::SendWebRequest { url: _, token } => token,
                        _ => None,
                    };
                    Some(ActionConfig::SendWebRequest { url, token })
                },
                Err(e) => {
                    return Err(WebError::internal(e.as_str()));
                },
            },
            ActionConfig::SendWebRequest { url, token: Some(_) } => match encrypted {
                Ok(c) => Some(ActionConfig::SendWebRequest { url, token: Some(c) }),
                Err(e) => {
                    return Err(WebError::internal(e.as_str()));
                },
            },
            other => Some(other),
        },
        None => None,
    };
    let mut changed = row;
    if let Some(name) = body.name {
        changed.name = name;
    }
    if let Some(events) = body.events {
        changed.events = text_array(events);
    }
    if let Some(active) = body.active {
        changed.active = active;
    }
    changed.updated_at = now;
    Ok(ActionChange { row: changed, config })
}

/// The row of a changed action. `encoded` is its new configuration as JSON, or why there
/// is none; it matters only where the change brings one.
pub fn changed_action(change: ActionChange, encoded: Result<Json, String>) -> (r: WebResult<ActionRow>)
    ensures
        match change.config {
            None => r == Ok::<ActionRow, WebError>(change.row),
            Some(_) => match encoded {
                Ok(c) => r == Ok::<ActionRow, WebError>(ActionRow { config: c, ..change.row }),
                Err(e) => r matches Err(x) && x@ == ErrorModel::internal(e@),
            },
        },
{
    let mut row = change.row;
    if let Some(_) = change.config {
        match encoded {
            Ok(c) => {
                row.config = c;
            },
            Err(e) => {
                return Err(WebError::internal(e.as_str()));
            },
        }
    }
    Ok(row)
}

/// The type of an action never changes: an accepted change brings only configurations of
/// the type that is stored.
pub proof fn law_action_type_is_kept(
    row: ActionRow,
    body: UpdateActionRequest,
    checks: ActionChecks,
)
    requires
        update_error(body, effective_type(row.action_type), checks) is None,
    ensures
        body.config matches Some(c) ==> c.kind() == effective_type(row.action_type),
{
}

// ── Test fire and tokens ─────────────────────────────────────────────────────

/// What a test fire sends.
pub struct TestPayload {
    /// Always set: nothing has happened.
    pub synthetic: bool,
    pub event: String,
    pub org: String,
    pub project: String,
    pub id: &'static str,
    pub status: &'static str,
    pub time: String,
    pub link: String,
    pub owner: &'static str,
    pub repo: String,
    pub sha: &'static str,
    pub context: &'static str,
}

/// What a test fire of an action sends: the first of its events where that is a text, or
/// that an evaluation was completed; a status report pretends that a build was. `time` is the
/// present time as text.
pub fn test_action(found: Option<&ActionRow>, organization: &str, project: &str, time: String) -> (r:
    WebResult<TestPayload>)
    ensures
        match r {
            Ok(p) => {
                &&& found matches Some(row)
                &&& p.synthetic
                &&& p.event@ == if effective_type(row.action_type) is ForgeStatusReport {
                    "build.completed"@
                } else {
                    match first_text_of(row.events) {
                        Some(event) => event,
                        None => "evaluation.completed"@,
                    }
                }
                &&& p.status@ == if effective_type(row.action_type) is ForgeStatusReport {
                    "success"@
                } else {
                    "ok"@
                }
                &&& p.time == time
                &&& p.org@ == organization@
                &&& p.project@ == project@
                &&& p.repo@ == project@
                &&& p.link@ == "https://gradient.example/projects/"@ + organization@ + "/"@
                    + project@
                &&& p.id@ == "00000000-0000-0000-0000-000000000000"@
                &&& p.owner@ == "gradient-test"@
                &&& p.sha@ == "0000000000000000000000000000000000000000"@
                &&& p.context@ == "gradient/test-fire"@
            },
            Err(e) => found is None && e@ == ErrorModel::not_found("Action"@),
        },
{
    let row = match found {
        Some(row) => row,
        None => {
            return Err(WebError::not_found("Action"));
        },
    };
    let (event, status) = match stored_type(row.action_type) {
        ActionType::ForgeStatusReport => ("build.completed".to_owned(), "success"),
        _ => match first_text(&row.events) {
            Some(event) => (event.clone(), "ok"),
            None => ("evaluation.completed".to_owned(), "ok"),
        },
    };
    Ok(
        TestPayload {
            synthetic: true,
            event,
            org: organization.to_owned(),
            project: project.to_owned(),
            id: "00000000-0000-0000-0000-000000000000",
            status,
            time,
            link: cat4("https://gradient.example/projects/", organization, "/", project),
            owner: "gradient-test",
            repo: project.to_owned(),
            sha: "0000000000000000000000000000000000000000",
            context: "gradient/test-fire",
        },
    )
}

/// Whether an action has a token that can be regenerated.
pub fn check_regenerate_token(action_type: Option<ActionType>) -> (r: WebResult<()>)
    ensures
        match r {
            Ok(_) => action_type == Some(ActionType::SendWebRequest),
            Err(e) => action_type != Some(ActionType::SendWebRequest) && e@
                == ErrorModel::unprocessable_entity(
                "regenerate-token is only valid for send_web_request actions"@,
            ),
        },
{
    match action_type {
        Some(ActionType::SendWebRequest) => Ok(()),
        _ => Err(
            WebError::unprocessable_entity(
                "regenerate-token is only valid for send_web_request actions",
            ),
        ),
    }
}

/// The action token made of the bytes `raw`.
pub fn action_token(raw: &Vec<u8>) -> (r: String)
    requires
        raw@.len() <= 0x1000_0000,
    ensures
        r@ == "gat_"@ + base64_url_encoded(raw@),
{
    cat("gat_", encode_base64_url(raw.as_slice()).as_str())
}

/// The answer to a test fire: nothing, or why it failed.
pub fn test_fired(outcome: Result<(), String>) -> (r: WebResult<()>)
    ensures
        match outcome {
            Ok(_) => r is Ok,
            Err(e) => r matches Err(x) && x@ == ErrorModel::internal("test fire failed: "@ + e@),
        },
{
    match outcome {
        Ok(_) => Ok(()),
        Err(e) => Err(WebError::internal(cat("test fire failed: ", e.as_str()).as_str())),
    }
}

/// A fresh token for an action, which has to be there and to send web requests: 32
/// random bytes.
pub fn regenerate_token(found: Option<&ActionRow>) -> (r: WebResult<String>)
    ensures
        r is Ok <==> found is Some && found->0.action_type == Some(ActionType::SendWebRequest),
        match r {
            Ok(t) => exists|raw: Seq<u8>|
                raw.len() == 32 && t@ == "gat_"@ + #[trigger] base64_url_encoded(raw),
            Err(e) => e@ == if found is None {
                ErrorModel::not_found("Action"@)
            } else {
                ErrorModel::unprocessable_entity(
                    "regenerate-token is only valid for send_web_request actions"@,
                )
            },
        },
{
    let row = match found {
        Some(row) => row,
        None => {
            return Err(WebError::not_found("Action"));
        },
    };
    if let Err(e) = check_regenerate_token(row.action_type) {
        return Err(e);
    }
    let raw = random_bytes(32);
    let t = action_token(&raw);
    assert(raw@.len() == 32 && t@ == "gat_"@ + base64_url_encoded(raw@));
    Ok(t)
}

/// The action with a new token. `encrypted` is the encrypted token, or why it could not
/// be encrypted; `stored` is the stored configuration, or why it could not be read.
pub fn store_token(
    row: ActionRow,
    encrypted: Result<String, String>,
    stored: Result<ActionConfig, String>,
    now: Timestamp,
) -> (r: WebResult<ActionChange>)
    ensures
        r is Ok <==> encrypted is Ok && stored is Ok,
        match r {
            Ok(a) => {
                &&& a.row == (ActionRow { updated_at: now, ..row })
                &&& a.config matches Some(new)
                &&& same_but_token(new, stored->Ok_0)
                &&& new.kind() == stored->Ok_0.kind()
                &&& new.secret() == if stored->Ok_0.kind() is SendWebRequest {
                    Some(encrypted->Ok_0@)
                } else {
                    None
                }
            },
            Err(e) => e@ == if encrypted is Err {
                ErrorModel::internal(encrypted->Err_0@)
            } else {
                ErrorModel::internal(stored->Err_0@)
            },
        },
{
    let encrypted = match encrypted {
        Ok(c) => c,
        Err(e) => {
            return Err(WebError::internal(e.as_str()));
        },
    };
    let config = match stored {
        Ok(ActionConfig::SendWebRequest { url, token: _ }) => ActionConfig::SendWebRequest {
            url,
            token: Some(encrypted),
        },
        Ok(other) => other,
        Err(e) => {
            return Err(WebError::internal(e.as_str()));
        },
    };
    let mut changed = row;
    changed.updated_at = now;
    Ok(ActionChange { row: changed, config: Some(config) })
}

// ── Laws ─────────────────────────────────────────────────────────────────────

/// The names of the action types, and what is stored without a known type counts as mail.
pub proof fn law_action_type_names(
    t: ActionType,
    name: &str,
    stored: Option<ActionType>,
    effective: ActionType,
)
    requires
        call_ensures(action_type_to_str, (t,), name),
        call_ensures(stored_type, (stored,), effective),
    ensures
        t is SendMail ==> name@ == "send_mail"@,
        t is SendWebRequest ==> name@ == "send_web_request"@,
        t is ForgeStatusReport ==> name@ == "forge_status_report"@,
        stored is None ==> effective is SendMail,
        stored is Some ==> effective == stored->0,
{
}

/// What is shown of a stored action: its type by name, and its configuration, from which the
/// token of a web request was taken and nothing else.
pub proof fn law_shown_actions(m: ActionRow, r: ActionResponse)
    requires
        call_ensures(to_response, (m,), r),
    ensures
        r.id == m.id && r.name@ == m.name@ && r.active == m.active && r.last_fired_at
            == m.last_fired_at && r.created_by == m.created_by && r.created_at == m.created_at
            && r.updated_at == m.updated_at,
        m.action_type == Some(ActionType::SendWebRequest) ==> r.action_type@
            == "send_web_request"@ && !r.config.has_member("token"@),
        m.action_type == Some(ActionType::ForgeStatusReport) ==> r.action_type@
            == "forge_status_report"@ && r.config == m.config,
        m.action_type is None || m.action_type == Some(ActionType::SendMail) ==> r.action_type@
            == "send_mail"@ && r.config == m.config,
        m.action_type == Some(ActionType::SendWebRequest) ==> is_without(
            r.config,
            m.config,
            "token"@,
        ),
{
    if m.action_type == Some(ActionType::SendWebRequest) {
        law_taken_members_are_gone(r.config, m.config, "token"@);
    }
}

/// A new action is accepted when nothing speaks against it: a mail needs a server that sends
/// mail and a recipient, a web request a good address, a status report an outbound integration
/// and no events of its own; and the name has to be free.
pub proof fn law_new_actions_are_checked(
    config: ActionConfig,
    events: Vec<String>,
    checks: ActionChecks,
    r: WebResult<()>,
)
    requires
        call_ensures(check_new_action, (&config, &events, &checks), r),
    ensures
        r is Ok <==> !checks.name_taken && match config {
            ActionConfig::SendMail { recipients, .. } => checks.smtp_enabled && recipients@.len()
                > 0,
            ActionConfig::SendWebRequest { .. } => checks.url_error is None,
            ActionConfig::ForgeStatusReport { .. } => events@.len() == 0
                && checks.integration is Outbound,
        },
        match config {
            ActionConfig::SendMail { recipients, .. } => if !checks.smtp_enabled {
                r matches Err(WebError::UnprocessableEntity(c, m))
                    && c == ErrorCode::UNPROCESSABLE_ENTITY
                    && m@ == "SMTP is not configured on this server"@
            } else if recipients@.len() == 0 {
                r matches Err(WebError::UnprocessableEntity(c, m))
                    && c == ErrorCode::UNPROCESSABLE_ENTITY
                    && m@ == "send_mail requires at least one recipient"@
            } else {
                true
            },
            ActionConfig::SendWebRequest { .. } => if checks.url_error is Some {
                r matches Err(WebError::UnprocessableEntity(c, m))
                    && c == ErrorCode::UNPROCESSABLE_ENTITY
                    && m@ == checks.url_error->0@
            } else {
                true
            },
            ActionConfig::ForgeStatusReport { .. } => if events@.len() > 0 {
                r matches Err(WebError::UnprocessableEntity(c, m))
                    && c == ErrorCode::UNPROCESSABLE_ENTITY
                    && m@ == "forge_status_report actions cannot carry custom events"@
            } else if checks.integration is Inbound {
                r matches Err(WebError::UnprocessableEntity(c, m))
                    && c == ErrorCode::UNPROCESSABLE_ENTITY
                    && m@ == "integration is not an outbound integration"@
            } else if checks.integration is Missing {
                r matches Err(WebError::UnprocessableEntity(c, m))
                    && c == ErrorCode::UNPROCESSABLE_ENTITY
                    && m@ == "outbound integration not found"@
            } else {
                true
            },
        },
        checks.name_taken && r is Err && !(r->Err_0 is UnprocessableEntity) ==> (r matches Err(
            WebError::Conflict(c, m),
        ) && c == ErrorCode::ALREADY_EXISTS && m@ == "action with this name already exists"@),
{
}

/// A change is accepted when its configuration is of the stored type and would be accepted for
/// that type, and when no events are put on a status report.
pub proof fn law_action_changes_are_checked(
    body: UpdateActionRequest,
    existing: ActionType,
    checks: ActionChecks,
    r: WebResult<()>,
)
    requires
        call_ensures(check_action_update, (&body, existing, &checks), r),
    ensures
        r is Ok <==> {
            &&& existing is ForgeStatusReport && body.events is Some ==> body.events->0@.len() == 0
            &&& match body.config {
                None => true,
                Some(ActionConfig::SendMail { recipients, .. }) => existing is SendMail
                    && recipients@.len() > 0,
                Some(ActionConfig::SendWebRequest { .. }) => existing is SendWebRequest
                    && checks.url_error is None,
                Some(ActionConfig::ForgeStatusReport { .. }) => existing is ForgeStatusReport
                    && checks.integration is Outbound,
            }
        },
        match body.config {
            None => true,
            Some(c) => if !(c is SendMail && existing is SendMail || c is SendWebRequest
                && existing is SendWebRequest || c is ForgeStatusReport
                && existing is ForgeStatusReport) {
                r matches Err(WebError::UnprocessableEntity(k, m))
                    && k == ErrorCode::UNPROCESSABLE_ENTITY
                    && m@ == "action_type cannot be changed"@
            } else {
                match c {
                    ActionConfig::SendMail { recipients, .. } => recipients@.len() == 0 ==> {
                        r matches Err(WebError::UnprocessableEntity(k, m))
                            && k == ErrorCode::UNPROCESSABLE_ENTITY
                    && m@ == "send_mail requires at least one recipient"@
                    },
                    ActionConfig::SendWebRequest { .. } => checks.url_error is Some ==> {
                        r matches Err(WebError::UnprocessableEntity(k, m))
                            && k == ErrorCode::UNPROCESSABLE_ENTITY
                    && m@ == checks.url_error->0@
                    },
                    ActionConfig::ForgeStatusReport { .. } => {
                        &&& checks.integration is Inbound ==> {
                            r matches Err(WebError::UnprocessableEntity(k, m))
                                && k == ErrorCode::UNPROCESSABLE_ENTITY
                    && m@ == "integration is not an outbound integration"@
                        }
                        &&& checks.integration is Missing ==> {
                            r matches Err(WebError::UnprocessableEntity(k, m))
                                && k == ErrorCode::UNPROCESSABLE_ENTITY
                    && m@ == "outbound integration not found"@
                        }
                    },
                }
            },
        },
{
}

/// A new action is stored as it was asked for, but that its token is stored encrypted; the plain
/// token is handed out once.
pub proof fn law_new_actions_hide_their_token(
    body: CreateActionRequest,
    checks: ActionChecks,
    encrypted: Result<String, String>,
    id: Id,
    project: Id,
    created_by: Id,
    now: Timestamp,
    checked: WebResult<()>,
    r: WebResult<NewAction>,
)
    requires
        call_ensures(check_new_action, (&body.config, &body.events, &checks), checked),
        call_ensures(
            create_action,
            (body, &checks, encrypted, id, project, created_by, now),
            r,
        ),
    ensures
        checked is Err ==> r is Err && r->Err_0@ == checked->Err_0@,
        r matches Ok(n) ==> {
            &&& n.draft.id == id && n.draft.project == project && n.draft.created_by == created_by
                && n.draft.created_at == now && n.draft.active == body.active
            &&& n.draft.name@ == body.name@
            &&& n.draft.events@ == body.events@
        },
        checked is Ok ==> match body.config {
            ActionConfig::SendWebRequest { url, token: Some(plain) } => match encrypted {
                Ok(secret) => r matches Ok(n) && n.plaintext_token is Some
                    && n.plaintext_token->0@ == plain@ && (n.draft.config matches
                    ActionConfig::SendWebRequest { url: u, token: Some(t) } && u@ == url@ && t@
                    == secret@),
                Err(why) => r matches Err(WebError::Internal(m)) && m@ == why@,
            },
            ActionConfig::SendWebRequest { url, token: None } => r matches Ok(n)
                && n.plaintext_token is None && (n.draft.config matches
                ActionConfig::SendWebRequest { url: u, token: None } && u@ == url@),
            ActionConfig::SendMail { recipients, rest } => r matches Ok(n) && n.plaintext_token
                is None && (n.draft.config matches ActionConfig::SendMail {
                recipients: rs,
                rest: j,
            } && rs@ == recipients@ && j == rest),
            ActionConfig::ForgeStatusReport { integration_id } => r matches Ok(n)
                && n.plaintext_token is None && (n.draft.config matches
                ActionConfig::ForgeStatusReport { integration_id: i } && i == integration_id),
        },
{
}

/// A changed web request keeps its stored token unless the change brings a new one, which is
/// stored encrypted. What a change does not name stays as it was.
pub proof fn law_changed_actions_keep_their_token(
    found: Option<ActionRow>,
    body: UpdateActionRequest,
    checks: ActionChecks,
    stored: Result<ActionConfig, String>,
    encrypted: Result<String, String>,
    now: Timestamp,
    r: WebResult<ActionChange>,
)
    requires
        call_ensures(update_action, (found, body, &checks, stored, encrypted, now), r),
    ensures
        found is None ==> (r matches Err(WebError::NotFound(c, m)) && c == ErrorCode::NOT_FOUND
            && m@ == "Action"@ + " not found"@),
        r matches Ok(a) ==> {
            &&& found matches Some(row)
            &&& a.row.id == row.id && a.row.project == row.project && a.row.action_type
                == row.action_type && a.row.config == row.config && a.row.last_fired_at
                == row.last_fired_at && a.row.created_by == row.created_by && a.row.created_at
                == row.created_at
            &&& a.row.updated_at == now
            &&& body.name is Some ==> a.row.name@ == body.name->0@
            &&& body.name is None ==> a.row.name@ == row.name@
            &&& body.active is Some ==> a.row.active == body.active->0
            &&& body.active is None ==> a.row.active == row.active
            &&& body.events is None ==> a.row.events == row.events
            &&& body.events is Some ==> is_text_array(a.row.events, body.events->0@)
            &&& match body.config {
                None => a.config is None,
                Some(ActionConfig::SendMail { recipients, rest }) => a.config matches Some(
                    ActionConfig::SendMail { recipients: rs, rest: j },
                ) && rs@ == recipients@ && j == rest,
                Some(ActionConfig::ForgeStatusReport { integration_id }) => a.config matches Some(
                    ActionConfig::ForgeStatusReport { integration_id: i },
                ) && i == integration_id,
                Some(ActionConfig::SendWebRequest { url, token: Some(_) }) => a.config matches Some(
                    ActionConfig::SendWebRequest { url: u, token: Some(t) },
                ) && u@ == url@ && encrypted is Ok && t@ == encrypted->Ok_0@,
                Some(ActionConfig::SendWebRequest { url, token: None }) => match stored {
                    Ok(ActionConfig::SendWebRequest { url: _, token: Some(old) }) => {
                        a.config matches Some(
                            ActionConfig::SendWebRequest { url: u, token: Some(t) },
                        ) && u@ == url@ && t@ == old@
                    },
                    Ok(_) => a.config matches Some(
                        ActionConfig::SendWebRequest { url: u, token: None },
                    ) && u@ == url@,
                    Err(_) => false,
                },
            }
        },
{
}

/// What a test fire sends: for a status report a build that succeeded, otherwise the action's
/// first event, or a completed evaluation.
pub proof fn law_test_fires(
    found: Option<&ActionRow>,
    organization: &str,
    project: &str,
    time: String,
    r: WebResult<TestPayload>,
)
    requires
        call_ensures(test_action, (found, organization, project, time), r),
    ensures
        r is Ok <==> found is Some,
        r is Err ==> (r matches Err(WebError::NotFound(c, m)) && c == ErrorCode::NOT_FOUND && m@
            == "Action"@ + " not found"@),
        r matches Ok(p) ==> {
            &&& p.synthetic
            &&& found->0.action_type == Some(ActionType::ForgeStatusReport) ==> p.event@
                == "build.completed"@ && p.status@ == "success"@
            &&& found->0.action_type != Some(ActionType::ForgeStatusReport) ==> p.status@ == "ok"@
            &&& found->0.action_type != Some(ActionType::ForgeStatusReport) && first_text_of(
                found->0.events,
            ) is None ==> p.event@ == "evaluation.completed"@
            &&& found->0.action_type != Some(ActionType::ForgeStatusReport) && first_text_of(
                found->0.events,
            ) is Some ==> p.event@ == first_text_of(found->0.events)->0
            &&& p.org@ == organization@ && p.project@ == project@ && p.repo@ == project@
            &&& p.time@ == time@
            &&& p.link@ == "https://gradient.example/projects/"@ + organization@ + "/"@ + project@
            &&& p.id@ == "00000000-0000-0000-0000-000000000000"@
            &&& p.owner@ == "gradient-test"@
            &&& p.sha@ == "0000000000000000000000000000000000000000"@
            &&& p.context@ == "gradient/test-fire"@
        },
{
}

/// Only web requests have a token that can be made anew, and it replaces the stored one.
pub proof fn law_only_web_requests_have_tokens(
    found: Option<&ActionRow>,
    fresh: WebResult<String>,
    row: ActionRow,
    encrypted: Result<String, String>,
    stored: Result<ActionConfig, String>,
    now: Timestamp,
    r: WebResult<ActionChange>,
)
    requires
        call_ensures(regenerate_token, (found,), fresh),
        call_ensures(store_token, (row, encrypted, stored, now), r),
    ensures
        fresh is Ok <==> found is Some && found->0.action_type == Some(ActionType::SendWebRequest),
        fresh is Ok ==> fresh->Ok_0@.len() >= 4 && fresh->Ok_0@.subrange(0, 4) == "gat_"@,
        found is None ==> (fresh matches Err(WebError::NotFound(c, m)) && c
            == ErrorCode::NOT_FOUND && m@ == "Action"@ + " not found"@),
        found is Some && fresh is Err ==> (fresh matches Err(WebError::UnprocessableEntity(c, m))
            && c == ErrorCode::UNPROCESSABLE_ENTITY && m@
            == "regenerate-token is only valid for send_web_request actions"@),
        encrypted is Err ==> (r matches Err(WebError::Internal(m)) && m@ == encrypted->Err_0@),
        encrypted is Ok && stored is Err ==> (r matches Err(WebError::Internal(m)) && m@
            == stored->Err_0@),
        encrypted is Ok && stored is Ok ==> {
            &&& r matches Ok(a)
            &&& a.row == (ActionRow { updated_at: now, ..row })
            &&& match stored->Ok_0 {
                ActionConfig::SendWebRequest { url, token: _ } => a.config matches Some(
                    ActionConfig::SendWebRequest { url: u, token: Some(t) },
                ) && u@ == url@ && t@ == encrypted->Ok_0@,
                ActionConfig::SendMail { recipients, rest } => a.config matches Some(
                    ActionConfig::SendMail { recipients: rs, rest: j },
                ) && rs@ == recipients@ && j == rest,
                ActionConfig::ForgeStatusReport { integration_id } => a.config matches Some(
                    ActionConfig::ForgeStatusReport { integration_id: i },
                ) && i == integration_id,
            }
        },
{
    reveal_strlit("gat_");
    if let Ok(t) = fresh {
        assert(t@.subrange(0, 4) =~= "gat_"@);
    }
}

/// Actions are listed, read and deleted where they are there.
pub proof fn law_read_actions(
    rows: Vec<ActionRow>,
    l: Vec<ActionResponse>,
    i: int,
    row: Option<ActionRow>,
    r: WebResult<ActionResponse>,
    found: bool,
    d: WebResult<DeletedResponse>,
)
    requires
        call_ensures(list_actions, (rows,), l),
        call_ensures(read_action, (row,), r),
        call_ensures(delete_action, (found,), d),
    ensures
        l@.len() == rows@.len(),
        0 <= i < rows@.len() ==> l@[i].id == rows@[i].id && l@[i].name == rows@[i].name
            && l@[i].active == rows@[i].active,
        r is Ok <==> row is Some,
        r is Ok ==> r->Ok_0.id == row->0.id && r->Ok_0.name == row->0.name,
        r is Err ==> (r matches Err(WebError::NotFound(c, m)) && c == ErrorCode::NOT_FOUND
            && m@ == "Action"@ + " not found"@),
        d is Ok <==> found,
        d is Ok ==> d->Ok_0.deleted,
        d is Err ==> (d matches Err(WebError::NotFound(c, m)) && c == ErrorCode::NOT_FOUND
            && m@ == "Action"@ + " not found"@),
{
    if 0 <= i < rows@.len() {
        assert(shows_action(l@[i], rows@[i]));
    }
}

/// Tokens of actions: web requests alone have one to encrypt or to make anew, it begins with
/// `gat_`, and the answer to its making holds it.
pub proof fn law_action_tokens(
    config: ActionConfig,
    t: Option<&String>,
    kind: Option<ActionType>,
    c: WebResult<()>,
    raw: Vec<u8>,
    made: String,
    row: ActionRow,
    plain: Option<String>,
    shown: CreateActionResponse,
    outcome: Result<(), String>,
    f: WebResult<()>,
)
    requires
        raw@.len() <= 0x1000_0000,
        call_ensures(token_to_encrypt, (&config,), t),
        call_ensures(check_regenerate_token, (kind,), c),
        call_ensures(action_token, (&raw,), made),
        call_ensures(created_response, (row, plain), shown),
        call_ensures(test_fired, (outcome,), f),
    ensures
        t is Some <==> (config matches ActionConfig::SendWebRequest { token: Some(_), .. }),
        t is Some ==> (config matches ActionConfig::SendWebRequest { token: Some(x), .. }
            && t->0@ == x@),
        c is Ok <==> kind is Some && kind->0 is SendWebRequest,
        c is Err ==> (c matches Err(WebError::UnprocessableEntity(c, m))
            && c == ErrorCode::UNPROCESSABLE_ENTITY
            && m@ == "regenerate-token is only valid for send_web_request actions"@),
        made@ == "gat_"@ + base64_url_encoded(raw@),
        shown.token == plain && shown.action.id == row.id,
        outcome is Ok <==> f is Ok,
        f is Err ==> (f matches Err(WebError::Internal(m))
            && m@ == "test fire failed: "@ + outcome->Err_0@),
{
}

/// The row of an action is its draft, with its configuration as it was encoded and never fired;
/// the row of a changed one is the change, with its configuration where it brings one.
pub proof fn law_rows_of_actions(
    draft: ActionDraft,
    encoded: Result<Json, String>,
    r: WebResult<ActionRow>,
    change: ActionChange,
    c: WebResult<ActionRow>,
)
    requires
        call_ensures(stored_action, (draft, encoded), r),
        call_ensures(changed_action, (change, encoded), c),
    ensures
        r is Ok <==> encoded is Ok,
        r is Err ==> (r matches Err(WebError::Internal(m)) && m@ == encoded->Err_0@),
        r matches Ok(a) ==> {
            &&& a.id == draft.id && a.project == draft.project && a.name == draft.name && a.active
                == draft.active && a.created_by == draft.created_by
            &&& a.created_at == draft.created_at && a.updated_at == draft.created_at
                && a.last_fired_at is None && a.config == encoded->Ok_0
            &&& a.action_type is Some
            &&& draft.config is SendMail <==> a.action_type->0 is SendMail
            &&& draft.config is SendWebRequest <==> a.action_type->0 is SendWebRequest
            &&& draft.config is ForgeStatusReport <==> a.action_type->0 is ForgeStatusReport
        },
        change.config is None ==> c is Ok && c->Ok_0 == change.row,
        change.config is Some && encoded is Ok ==> c is Ok && c->Ok_0.config == encoded->Ok_0
            && (ActionRow { config: change.row.config, ..c->Ok_0 }) == change.row,
        change.config is Some && encoded is Err
            ==> (c matches Err(WebError::Internal(m)) && m@ == encoded->Err_0@),
{
}

} // verus!
