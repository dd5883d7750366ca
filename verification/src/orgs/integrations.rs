//! Integrations of an organization with forges.

use crate::error::{ErrorCode, ErrorModel, WebError, WebResult};
use crate::forge_hooks::webhook::ForgeType;
use crate::helpers::{Id, Timestamp};
use crate::projects::integrations::IntegrationKind;
use crate::rows::reversed;
use crate::text::{cat, cat3, opt_view, same, trim, trimmed};
use vstd::prelude::*;

verus! {

/// An integration, as the database holds it. Secret and token are encrypted.
pub struct IntegrationRow {
    pub id: Id,
    pub organization: Id,
    pub name: String,
    pub display_name: String,
    /// The number of its kind.
    pub kind: i16,
    /// The forge; `None` when the stored number is not one that is known.
    pub forge_type: Option<ForgeType>,
    pub endpoint_url: Option<String>,
    pub secret: Option<String>,
    pub access_token: Option<String>,
    pub created_by: Id,
    pub created_at: Timestamp,
}

pub struct IntegrationResponse {
    pub id: Id,
    pub organization: Id,
    pub name: String,
    pub display_name: String,
    pub kind: &'static str,
    pub forge_type: &'static str,
    pub endpoint_url: Option<String>,
    pub has_secret: bool,
    pub has_access_token: bool,
    pub created_by: Id,
    pub created_at: Timestamp,
}

pub struct CreateIntegrationRequest {
    pub name: String,
    /// Defaults to `name` when omitted.
    pub display_name: Option<String>,
    /// `"inbound"` or `"outbound"`.
    pub kind: String,
    /// `"gitea"`, `"forgejo"`, `"gitlab"`, or `"github"`.
    pub forge_type: String,
    pub secret: Option<String>,
    pub endpoint_url: Option<String>,
    pub access_token: Option<String>,
}

pub struct PatchIntegrationRequest {
    pub name: Option<String>,
    pub display_name: Option<String>,
    pub forge_type: Option<String>,
    pub endpoint_url: Option<String>,
    /// When present, replaces the stored secret. Empty string clears it.
    pub secret: Option<String>,
    /// When present, replaces the stored access token. Empty string clears it.
    pub access_token: Option<String>,
}

// ── Names ────────────────────────────────────────────────────────────────────

/// The error for a kind that there is not.
pub open spec fn kind_error(s: Seq<char>) -> ErrorModel {
    ErrorModel::bad_request(
        "Invalid integration kind '"@ + s + "': expected 'inbound' or 'outbound'."@,
    )
}

/// The error for a forge that there is not.
pub open spec fn forge_error(s: Seq<char>) -> ErrorModel {
    ErrorModel::bad_request(
        "Invalid forge type '"@ + s
            + "': expected 'gitea', 'forgejo', 'gitlab', or 'github'."@,
    )
}

/// The kind that `s` names.
pub open spec fn kind_of(s: Seq<char>) -> Option<IntegrationKind> {
    if s == "inbound"@ {
        Some(IntegrationKind::Inbound)
    } else if s == "outbound"@ {
        Some(IntegrationKind::Outbound)
    } else {
        None
    }
}

/// The forge that `s` names.
pub open spec fn forge_of(s: Seq<char>) -> Option<ForgeType> {
    if s == "gitea"@ {
        Some(ForgeType::Gitea)
    } else if s == "forgejo"@ {
        Some(ForgeType::Forgejo)
    } else if s == "gitlab"@ {
        Some(ForgeType::GitLab)
    } else if s == "github"@ {
        Some(ForgeType::GitHub)
    } else {
        None
    }
}

/// The kind that `s` names.
pub fn parse_kind(s: &str) -> (r: WebResult<IntegrationKind>)
    ensures
        match r {
            Ok(k) => kind_of(s@) == Some(k),
            Err(e) => kind_of(s@) is None && e@ == kind_error(s@),
        },
{
    if same(s, "inbound") {
        Ok(IntegrationKind::Inbound)
    } else if same(s, "outbound") {
        Ok(IntegrationKind::Outbound)
    } else {
        Err(
            WebError::bad_request(
                cat3(
                    "Invalid integration kind '",
                    s,
                    "': expected 'inbound' or 'outbound'.",
                ).as_str(),
            ),
        )
    }
}

/// The forge that `s` names.
pub fn parse_forge(s: &str) -> (r: WebResult<ForgeType>)
    ensures
        match r {
            Ok(f) => forge_of(s@) == Some(f),
            Err(e) => forge_of(s@) is None && e@ == forge_error(s@),
        },
{
    proof {
        assert(forall|f: ForgeType| forge_of(#[trigger] f.segment()) is Some);
    }
    match ForgeType::from_path_segment(s) {
        Some(f) => {
            proof {
                crate::forge_hooks::webhook::law_segments_are_distinct(f, forge_of(s@)->0);
            }
            Ok(f)
        },
        None => {
            proof {
                assert(s@ != ForgeType::Gitea.segment());
                assert(s@ != ForgeType::Forgejo.segment());
                assert(s@ != ForgeType::GitLab.segment());
                assert(s@ != ForgeType::GitHub.segment());
            }
            Err(
                WebError::bad_request(
                    cat3(
                        "Invalid forge type '",
                        s,
                        "': expected 'gitea', 'forgejo', 'gitlab', or 'github'.",
                    ).as_str(),
                ),
            )
        },
    }
}

/// The name of the kind with the number `k`.
pub open spec fn kind_name(k: i16) -> Seq<char> {
    if k == 0 {
        "inbound"@
    } else if k == 1 {
        "outbound"@
    } else {
        "unknown"@
    }
}

/// The name of the kind with the number `k`.
pub fn kind_to_str(k: i16) -> (r: &'static str)
    ensures
        r@ == kind_name(k),
{
    if k == 0 {
        "inbound"
    } else if k == 1 {
        "outbound"
    } else {
        "unknown"
    }
}

/// The name of a stored forge.
pub open spec fn forge_name(f: Option<ForgeType>) -> Seq<char> {
    match f {
        Some(x) => x.segment(),
        None => "unknown"@,
    }
}

/// The name of a stored forge.
pub fn forge_to_str(f: Option<ForgeType>) -> (r: &'static str)
    ensures
        r@ == forge_name(f),
{
    match f {
        Some(x) => x.as_str(),
        None => "unknown",
    }
}

/// An integration is shown without its secrets.
pub open spec fn shows_integration(r: IntegrationResponse, m: IntegrationRow) -> bool {
    &&& r.id == m.id
    &&& r.organization == m.organization
    &&& r.name == m.name
    &&& r.display_name == m.display_name
    &&& r.kind@ == kind_name(m.kind)
    &&& r.forge_type@ == forge_name(m.forge_type)
    &&& r.endpoint_url == m.endpoint_url
    &&& r.has_secret == (m.secret is Some)
    &&& r.has_access_token == (m.access_token is Some)
    &&& r.created_by == m.created_by
    &&& r.created_at == m.created_at
}

/// The response on an integration: whether it has a secret and a token, and
/// neither of them.
pub fn integration_response(m: IntegrationRow) -> (r: IntegrationResponse)
    ensures
        shows_integration(r, m),
{
    IntegrationResponse {
        id: m.id,
        organization: m.organization,
        name: m.name,
        display_name: m.display_name,
        kind: kind_to_str(m.kind),
        forge_type: forge_to_str(m.forge_type),
        endpoint_url: m.endpoint_url,
        has_secret: m.secret.is_some(),
        has_access_token: m.access_token.is_some(),
        created_by: m.created_by,
        created_at: m.created_at,
    }
}

/// The integrations of an organization.
pub fn get_integrations(rows: Vec<IntegrationRow>) -> (r: Vec<IntegrationResponse>)
    ensures
        r@.len() == rows@.len(),
        forall|i: int| 0 <= i < r@.len() ==> shows_integration(#[trigger] r@[i], rows@[i]),
{
    let ghost whole = rows@;
    let mut rest = reversed(rows);
    let mut out: Vec<IntegrationResponse> = Vec::new();
    while rest.len() > 0
        invariant
            rest@.len() + out@.len() == whole.len(),
            forall|j: int| 0 <= j < rest@.len() ==> rest@[j] == whole[whole.len() - 1 - j],
            forall|i: int| 0 <= i < out@.len() ==> shows_integration(#[trigger] out@[i], whole[i]),
        decreases rest.len(),
    {
        if let Some(row) = rest.pop() {
            out.push(integration_response(row));
        }
    }
    out
}

// ── Fields ───────────────────────────────────────────────────────────────────

/// A text that is there and not empty.
pub open spec fn non_empty(s: Option<Seq<char>>) -> Option<Seq<char>> {
    match s {
        Some(t) => if t.len() > 0 {
            Some(t)
        } else {
            None
        },
        None => None,
    }
}

/// A text that is there, trimmed, and not empty then.
pub open spec fn non_empty_trimmed(s: Option<Seq<char>>) -> Option<Seq<char>> {
    match s {
        Some(t) => non_empty(Some(trimmed(t))),
        None => None,
    }
}

/// The text of a field that has to be encrypted before it is stored: an empty
/// one counts as missing.
pub fn secret_to_encrypt(field: &Option<String>) -> (r: Option<&String>)
    ensures
        match r {
            Some(s) => non_empty(opt_view(*field)) == Some(s@),
            None => non_empty(opt_view(*field)) is None,
        },
{
    match field {
        Some(s) => if s.as_str().unicode_len() > 0 {
            Some(s)
        } else {
            None
        },
        None => None,
    }
}

fn trimmed_or_none(field: &Option<String>) -> (r: Option<String>)
    ensures
        opt_view(r) == non_empty_trimmed(opt_view(*field)),
{
    match field {
        Some(s) => {
            let t = trim(s.as_str());
            if t.unicode_len() > 0 {
                Some(t.to_owned())
            } else {
                None
            }
        },
        None => None,
    }
}

// ── Creation ─────────────────────────────────────────────────────────────────

/// The error for the name that the GitHub App integration has.
pub open spec fn reserved_name_error(reserved: Seq<char>) -> ErrorModel {
    ErrorModel::bad_request(
        "Integration name '"@ + reserved
            + "' is reserved for the auto-managed GitHub App row."@,
    )
}

fn reserved_name(reserved: &str) -> (r: WebError)
    ensures
        r@ == reserved_name_error(reserved@),
{
    WebError::bad_request(
        cat3(
            "Integration name '",
            reserved,
            "' is reserved for the auto-managed GitHub App row.",
        ).as_str(),
    )
}

/// Why a new integration is refused before anything is looked up.
pub open spec fn create_integration_error(
    body: CreateIntegrationRequest,
    name_valid: bool,
    reserved: Seq<char>,
) -> Option<ErrorModel> {
    if !name_valid {
        Some(ErrorModel::invalid_name("Integration Name"@))
    } else if body.name@ == reserved {
        Some(reserved_name_error(reserved))
    } else if kind_of(body.kind@) is None {
        Some(kind_error(body.kind@))
    } else if forge_of(body.forge_type@) is None {
        Some(forge_error(body.forge_type@))
    } else if forge_of(body.forge_type@) == Some(ForgeType::GitHub) {
        Some(
            ErrorModel::bad_request(
                "GitHub integrations are managed through the server-wide GitHub App; enable the App on the organization instead of creating an integration row."@,
            ),
        )
    } else {
        None
    }
}

/// The kind and the forge of a new integration. `reserved` is the name that the
/// GitHub App integration has.
pub fn check_new_integration(body: &CreateIntegrationRequest, name_valid: bool, reserved: &str) -> (r:
    WebResult<(IntegrationKind, ForgeType)>)
    ensures
        match r {
            Ok((k, f)) => {
                &&& create_integration_error(*body, name_valid, reserved@) is None
                &&& kind_of(body.kind@) == Some(k)
                &&& forge_of(body.forge_type@) == Some(f)
            },
            Err(e) => create_integration_error(*body, name_valid, reserved@) == Some(e@),
        },
{
    if !name_valid {
        return Err(WebError::invalid_name("Integration Name"));
    }
    if same(body.name.as_str(), reserved) {
        return Err(reserved_name(reserved));
    }
    let kind = match parse_kind(body.kind.as_str()) {
        Ok(k) => k,
        Err(e) => {
            return Err(e);
        },
    };
    let forge = match parse_forge(body.forge_type.as_str()) {
        Ok(f) => f,
        Err(e) => {
            return Err(e);
        },
    };
    match forge {
        ForgeType::GitHub => {
            return Err(
                WebError::bad_request(
                    "GitHub integrations are managed through the server-wide GitHub App; enable the App on the organization instead of creating an integration row.",
                ),
            );
        },
        _ => {},
    }
    Ok((kind, forge))
}

/// The result of encrypting a field: the outcome for a field that is to be
/// encrypted, or nothing to store.
pub open spec fn stored_secret(
    field: Option<Seq<char>>,
    encrypted: Result<String, String>,
) -> Option<Seq<char>> {
    if non_empty(field) is Some {
        Some(encrypted->Ok_0@)
    } else {
        None
    }
}

/// Encrypting a field failed.
pub open spec fn encryption_failed(field: Option<Seq<char>>, encrypted: Result<String, String>) -> bool {
    non_empty(field) is Some && encrypted is Err
}

/// The integration that a request creates. `reserved` is the name that the GitHub App
/// integration has. `secret` and `token` are the encrypted secret and token, or why they
/// could not be encrypted; they matter only where the request holds one.
pub fn put_integration(
    body: &CreateIntegrationRequest,
    name_valid: bool,
    reserved: &str,
    name_taken: bool,
    secret: Result<String, String>,
    token: Result<String, String>,
    id: Id,
    organization: Id,
    created_by: Id,
    now: Timestamp,
) -> (r: WebResult<IntegrationRow>)
    ensures
        r is Ok <==> create_integration_error(*body, name_valid, reserved@) is None && !name_taken
            && !encryption_failed(opt_view(body.secret), secret) && !encryption_failed(
            opt_view(body.access_token),
            token,
        ),
        match r {
            Ok(m) => {
                &&& m.id == id
                &&& m.organization == organization
                &&& m.name == body.name
                &&& m.display_name@ == (match non_empty_trimmed(opt_view(body.display_name)) {
                    Some(d) => d,
                    None => body.name@,
                })
                &&& m.kind == kind_of(body.kind@)->0.number()
                &&& m.forge_type == forge_of(body.forge_type@)
                &&& opt_view(m.secret) == stored_secret(opt_view(body.secret), secret)
                &&& opt_view(m.access_token) == stored_secret(opt_view(body.access_token), token)
                &&& opt_view(m.endpoint_url) == non_empty_trimmed(opt_view(body.endpoint_url))
                &&& m.created_by == created_by
                &&& m.created_at == now
            },
            Err(e) => e@ == if create_integration_error(*body, name_valid, reserved@) is Some {
                create_integration_error(*body, name_valid, reserved@)->0
            } else if name_taken {
                ErrorModel::already_exists("Integration Name"@)
            } else if encryption_failed(opt_view(body.secret), secret) {
                ErrorModel::internal("Failed to encrypt secret: "@ + secret->Err_0@)
            } else {
                ErrorModel::internal("Failed to encrypt token: "@ + token->Err_0@)
            },
        },
{
    let (kind, forge) = match check_new_integration(body, name_valid, reserved) {
        Ok(x) => x,
        Err(e) => {
            return Err(e);
        },
    };
    if name_taken {
        return Err(WebError::already_exists("Integration Name"));
    }
    let encrypted_secret = match secret_to_encrypt(&body.secret) {
        Some(_) => match secret {
            Ok(s) => Some(s),
            Err(e) => {
                return Err(
                    WebError::internal(cat("Failed to encrypt secret: ", e.as_str()).as_str()),
                );
            },
        },
        None => None,
    };
    let encrypted_token = match secret_to_encrypt(&body.access_token) {
        Some(_) => match token {
            Ok(s) => Some(s),
            Err(e) => {
                return Err(
                    WebError::internal(cat("Failed to encrypt token: ", e.as_str()).as_str()),
                );
            },
        },
        None => None,
    };
    let display_name = match trimmed_or_none(&body.display_name) {
        Some(d) => d,
        None => body.name.clone(),
    };
    Ok(
        IntegrationRow {
            id,
            organization,
            name: body.name.clone(),
            display_name,
            kind: kind.as_i16(),
            forge_type: Some(forge),
            endpoint_url: trimmed_or_none(&body.endpoint_url),
            secret: encrypted_secret,
            access_token: encrypted_token,
            created_by,
            created_at: now,
        },
    )
}

// ── Changes ──────────────────────────────────────────────────────────────────

/// What is done to an integration.
#[derive(Debug, Clone, Copy, PartialEq, Eq, Structural)]
pub enum IntegrationChange {
    Edit,
    Delete,
}

/// Whether an integration can be changed: the rows of the GitHub App are managed
/// automatically.
pub fn check_integration_mutable(forge: Option<ForgeType>, change: IntegrationChange) -> (r: WebResult<
    (),
>)
    ensures
        match r {
            Ok(_) => forge != Some(ForgeType::GitHub),
            Err(e) => forge == Some(ForgeType::GitHub) && e@ == ErrorModel::bad_request(
                match change {
                    IntegrationChange::Edit => "GitHub App integrations are managed automatically and cannot be edited."@,
                    IntegrationChange::Delete => "GitHub App integrations are managed automatically and cannot be deleted."@,
                },
            ),
        },
{
    match forge {
        Some(ForgeType::GitHub) => Err(
            match change {
                IntegrationChange::Edit => WebError::bad_request(
                    "GitHub App integrations are managed automatically and cannot be edited.",
                ),
                IntegrationChange::Delete => WebError::bad_request(
                    "GitHub App integrations are managed automatically and cannot be deleted.",
                ),
            },
        ),
        _ => Ok(()),
    }
}

/// The integration that is to be deleted. Those of the GitHub App stay.
pub fn delete_integration(row: IntegrationRow) -> (r: WebResult<IntegrationRow>)
    ensures
        match r {
            Ok(m) => m == row && row.forge_type != Some(ForgeType::GitHub),
            Err(e) => row.forge_type == Some(ForgeType::GitHub) && e@ == ErrorModel::bad_request(
                "GitHub App integrations are managed automatically and cannot be deleted."@,
            ),
        },
{
    match check_integration_mutable(row.forge_type, IntegrationChange::Delete) {
        Ok(_) => Ok(row),
        Err(e) => Err(e),
    }
}

/// What was found out about a change.
pub struct IntegrationPatchChecks {
    pub name_valid: bool,
    pub name_taken: bool,
    /// The encrypted secret, or why it could not be encrypted.
    pub secret: Result<String, String>,
    /// The encrypted token, or why it could not be encrypted.
    pub token: Result<String, String>,
}

/// Why a change is refused: the first field that is.
pub open spec fn patch_integration_error(
    forge: Option<ForgeType>,
    body: PatchIntegrationRequest,
    checks: IntegrationPatchChecks,
    reserved: Seq<char>,
) -> Option<ErrorModel> {
    if forge == Some(ForgeType::GitHub) {
        Some(
            ErrorModel::bad_request(
                "GitHub App integrations are managed automatically and cannot be edited."@,
            ),
        )
    } else if body.name is Some && !checks.name_valid {
        Some(ErrorModel::invalid_name("Integration Name"@))
    } else if opt_view(body.name) == Some(reserved) {
        Some(reserved_name_error(reserved))
    } else if body.name is Some && checks.name_taken {
        Some(ErrorModel::already_exists("Integration Name"@))
    } else if body.display_name is Some && trimmed(body.display_name->0@).len() == 0 {
        Some(ErrorModel::bad_request("display_name cannot be empty"@))
    } else if body.forge_type is Some && forge_of(body.forge_type->0@) is None {
        Some(forge_error(body.forge_type->0@))
    } else if body.forge_type is Some && forge_of(body.forge_type->0@) == Some(ForgeType::GitHub) {
        Some(
            ErrorModel::bad_request(
                "GitHub integrations are managed through the server-wide GitHub App; enable the App on the organization instead of switching forge_type to github."@,
            ),
        )
    } else if encryption_failed(opt_view(body.secret), checks.secret) {
        Some(ErrorModel::internal("Failed to encrypt secret: "@ + checks.secret->Err_0@))
    } else if encryption_failed(opt_view(body.access_token), checks.token) {
        Some(ErrorModel::internal("Failed to encrypt token: "@ + checks.token->Err_0@))
    } else {
        None
    }
}

fn patched_secret(
    field: &Option<String>,
    stored: Option<String>,
    encrypted: &Result<String, String>,
    failure: &str,
) -> (r: WebResult<Option<String>>)
    ensures
        match r {
            Ok(s) => {
                &&& !encryption_failed(opt_view(*field), *encrypted)
                &&& opt_view(s) == if field is Some {
                    stored_secret(opt_view(*field), *encrypted)
                } else {
                    opt_view(stored)
                }
            },
            Err(e) => encryption_failed(opt_view(*field), *encrypted) && e@ == ErrorModel::internal(
                failure@ + encrypted->Err_0@,
            ),
        },
{
    match field {
        None => Ok(stored),
        Some(_) => match secret_to_encrypt(field) {
            None => Ok(None),
            Some(_) => match encrypted {
                Ok(s) => Ok(Some(s.clone())),
                Err(e) => Err(WebError::internal(cat(failure, e.as_str()).as_str())),
            },
        },
    }
}

/// The integration after a change. `reserved` is the name that the GitHub App
/// integration has. An empty secret or token clears the stored one.
pub fn patch_integration(
    row: IntegrationRow,
    body: &PatchIntegrationRequest,
    checks: &IntegrationPatchChecks,
    reserved: &str,
) -> (r: WebResult<IntegrationRow>)
    ensures
        match r {
            Ok(m) => {
                &&& patch_integration_error(row.forge_type, *body, *checks, reserved@) is None
                &&& m.id == row.id
                &&& m.organization == row.organization
                &&& m.kind == row.kind
                &&& m.created_by == row.created_by
                &&& m.created_at == row.created_at
                &&& m.name@ == (match body.name {
                    Some(n) => n@,
                    None => row.name@,
                })
                &&& m.display_name@ == (match body.display_name {
                    Some(d) => trimmed(d@),
                    None => row.display_name@,
                })
                &&& m.forge_type == (match body.forge_type {
                    Some(f) => forge_of(f@),
                    None => row.forge_type,
                })
                &&& opt_view(m.endpoint_url) == (if body.endpoint_url is Some {
                    non_empty_trimmed(opt_view(body.endpoint_url))
                } else {
                    opt_view(row.endpoint_url)
                })
                &&& opt_view(m.secret) == (if body.secret is Some {
                    stored_secret(opt_view(body.secret), checks.secret)
                } else {
                    opt_view(row.secret)
                })
                &&& opt_view(m.access_token) == (if body.access_token is Some {
                    stored_secret(opt_view(body.access_token), checks.token)
                } else {
                    opt_view(row.access_token)
                })
            },
            Err(e) => patch_integration_error(row.forge_type, *body, *checks, reserved@)
                == Some(e@),
        },
{
    match check_integration_mutable(row.forge_type, IntegrationChange::Edit) {
        Ok(_) => {},
        Err(e) => {
            return Err(e);
        },
    }
    if let Some(name) = &body.name {
        if !checks.name_valid {
            return Err(WebError::invalid_name("Integration Name"));
        }
        if same(name.as_str(), reserved) {
            return Err(reserved_name(reserved));
        }
        if checks.name_taken {
            return Err(WebError::already_exists("Integration Name"));
        }
    }
    let display_name = match &body.display_name {
        Some(d) => {
            let t = trim(d.as_str());
            if t.unicode_len() == 0 {
                return Err(WebError::bad_request("display_name cannot be empty"));
            }
            t.to_owned()
        },
        None => row.display_name,
    };
    let forge_type = match &body.forge_type {
        Some(f) => match parse_forge(f.as_str()) {
            Err(e) => {
                return Err(e);
            },
            Ok(ForgeType::GitHub) => {
                return Err(
                    WebError::bad_request(
                        "GitHub integrations are managed through the server-wide GitHub App; enable the App on the organization instead of switching forge_type to github.",
                    ),
                );
            },
            Ok(x) => Some(x),
        },
        None => row.forge_type,
    };
    let endpoint_url = match &body.endpoint_url {
        Some(_) => trimmed_or_none(&body.endpoint_url),
        None => row.endpoint_url,
    };
    let secret = match patched_secret(
        &body.secret,
        row.secret,
        &checks.secret,
        "Failed to encrypt secret: ",
    ) {
        Ok(s) => s,
        Err(e) => {
            return Err(e);
        },
    };
    let access_token = match patched_secret(
        &body.access_token,
        row.access_token,
        &checks.token,
        "Failed to encrypt token: ",
    ) {
        Ok(s) => s,
        Err(e) => {
            return Err(e);
        },
    };
    Ok(
        IntegrationRow {
            id: row.id,
            organization: row.organization,
            name: match &body.name {
                Some(n) => n.clone(),
                None => row.name,
            },
            display_name,
            kind: row.kind,
            forge_type,
            endpoint_url,
            secret,
            access_token,
            created_by: row.created_by,
            created_at: row.created_at,
        },
    )
}

/// Requests neither create GitHub integrations nor turn others into one: they
/// belong to the GitHub App.
pub proof fn law_github_integrations_belong_to_the_app(
    create: CreateIntegrationRequest,
    patch: PatchIntegrationRequest,
    checks: IntegrationPatchChecks,
    name_valid: bool,
    reserved: Seq<char>,
    forge: Option<ForgeType>,
)
    ensures
        create_integration_error(create, name_valid, reserved) is None ==> forge_of(
            create.forge_type@,
        ) != Some(ForgeType::GitHub),
        patch_integration_error(forge, patch, checks, reserved) is None ==> forge != Some(
            ForgeType::GitHub,
        ) && (patch.forge_type is Some ==> forge_of(patch.forge_type->0@) != Some(
            ForgeType::GitHub,
        )),
{
}

proof fn lemma_names()
    ensures
        "inbound"@.len() == 7,
        "outbound"@.len() == 8,
        "gitea"@.len() == 5,
        "forgejo"@.len() == 7,
        "gitlab"@.len() == 6,
        "gitlab"@[3] == 'l',
        "github"@.len() == 6,
        "github"@[3] == 'h',
{
    reveal_strlit("inbound");
    reveal_strlit("outbound");
    reveal_strlit("gitea");
    reveal_strlit("forgejo");
    reveal_strlit("gitlab");
    reveal_strlit("github");
}

/// The kinds and forges go by their names, in both directions; a stored number or forge that is
/// not known shows as `unknown`.
pub proof fn law_names_of_kinds_and_forges(
    s: &str,
    kind: WebResult<IntegrationKind>,
    forge: WebResult<ForgeType>,
    k: i16,
    kname: &str,
    f: Option<ForgeType>,
    fname: &str,
)
    requires
        call_ensures(parse_kind, (s,), kind),
        call_ensures(parse_forge, (s,), forge),
        call_ensures(kind_to_str, (k,), kname),
        call_ensures(forge_to_str, (f,), fname),
    ensures
        s@ == "inbound"@ <==> kind == Ok::<IntegrationKind, WebError>(IntegrationKind::Inbound),
        s@ == "outbound"@ <==> kind == Ok::<IntegrationKind, WebError>(IntegrationKind::Outbound),
        kind is Err ==> (kind matches Err(WebError::BadRequest(c, m)) && c == ErrorCode::BAD_REQUEST
            && m@ == "Invalid integration kind '"@ + s@ + "': expected 'inbound' or 'outbound'."@),
        s@ == "gitea"@ <==> forge == Ok::<ForgeType, WebError>(ForgeType::Gitea),
        s@ == "forgejo"@ <==> forge == Ok::<ForgeType, WebError>(ForgeType::Forgejo),
        s@ == "gitlab"@ <==> forge == Ok::<ForgeType, WebError>(ForgeType::GitLab),
        s@ == "github"@ <==> forge == Ok::<ForgeType, WebError>(ForgeType::GitHub),
        forge is Err ==> (forge matches Err(WebError::BadRequest(c, m))
            && c == ErrorCode::BAD_REQUEST && m@
            == "Invalid forge type '"@ + s@
            + "': expected 'gitea', 'forgejo', 'gitlab', or 'github'."@),
        k == 0 ==> kname@ == "inbound"@,
        k == 1 ==> kname@ == "outbound"@,
        k != 0 && k != 1 ==> kname@ == "unknown"@,
        f is None ==> fname@ == "unknown"@,
        f == Some(ForgeType::Gitea) ==> fname@ == "gitea"@,
        f == Some(ForgeType::Forgejo) ==> fname@ == "forgejo"@,
        f == Some(ForgeType::GitLab) ==> fname@ == "gitlab"@,
        f == Some(ForgeType::GitHub) ==> fname@ == "github"@,
{
    lemma_names();
}

/// What is shown of an integration: whether it has a secret and a token, and neither of them.
pub proof fn law_shown_integrations(
    m: IntegrationRow,
    r: IntegrationResponse,
)
    requires
        call_ensures(integration_response, (m,), r),
    ensures
        r.has_secret <==> m.secret is Some,
        r.has_access_token <==> m.access_token is Some,
        r.id == m.id && r.organization == m.organization && r.created_by == m.created_by
            && r.created_at == m.created_at,
        r.name@ == m.name@ && r.display_name@ == m.display_name@
            && r.endpoint_url == m.endpoint_url,
        m.kind == 0 ==> r.kind@ == "inbound"@,
        m.kind == 1 ==> r.kind@ == "outbound"@,
        m.forge_type is None ==> r.forge_type@ == "unknown"@,
        m.forge_type == Some(ForgeType::Gitea) ==> r.forge_type@ == "gitea"@,
        m.forge_type == Some(ForgeType::Forgejo) ==> r.forge_type@ == "forgejo"@,
        m.forge_type == Some(ForgeType::GitLab) ==> r.forge_type@ == "gitlab"@,
        m.forge_type == Some(ForgeType::GitHub) ==> r.forge_type@ == "github"@,
{
}

/// An integration is created under a good, free name that is not the reserved one, for a kind
/// and a forge that there are; those of GitHub belong to the App. The checks come in this
/// order.
pub proof fn law_new_integrations_are_checked(
    body: CreateIntegrationRequest,
    name_valid: bool,
    reserved: &str,
    r: WebResult<(IntegrationKind, ForgeType)>,
)
    requires
        call_ensures(check_new_integration, (&body, name_valid, reserved), r),
    ensures
        r is Ok <==> name_valid && body.name@ != reserved@
            && (body.kind@ == "inbound"@ || body.kind@
            == "outbound"@) && (body.forge_type@ == "gitea"@ || body.forge_type@ == "forgejo"@
            || body.forge_type@ == "gitlab"@),
        r matches Ok((k, f)) ==> (k is Inbound <==> body.kind@ == "inbound"@) && (f is Gitea
            <==> body.forge_type@ == "gitea"@) && (f is Forgejo <==> body.forge_type@
            == "forgejo"@) && (f is GitLab <==> body.forge_type@ == "gitlab"@),
        !name_valid ==> (r matches Err(WebError::BadRequest(c, m)) && c == ErrorCode::INVALID_NAME
            && m@ == "Invalid "@ + "Integration Name"@),
        name_valid && body.name@ == reserved@
            ==> (r matches Err(WebError::BadRequest(c, m)) && c == ErrorCode::BAD_REQUEST
            && m@ == "Integration name '"@ + reserved@
            + "' is reserved for the auto-managed GitHub App row."@),
        name_valid && body.name@ != reserved@ && body.kind@ != "inbound"@
            && body.kind@ != "outbound"@ ==> (r matches Err(WebError::BadRequest(c, m))
            && c == ErrorCode::BAD_REQUEST && m@
            == "Invalid integration kind '"@ + body.kind@
            + "': expected 'inbound' or 'outbound'."@),
        name_valid && body.name@ != reserved@
            && (body.kind@ == "inbound"@ || body.kind@ == "outbound"@)
            && body.forge_type@ == "github"@ ==> (r matches Err(WebError::BadRequest(c, m))
            && c == ErrorCode::BAD_REQUEST && m@
            == "GitHub integrations are managed through the server-wide GitHub App; enable the App on the organization instead of creating an integration row."@),
{
    lemma_names();
}

/// A new integration is stored with its secret and token encrypted; an empty one counts as
/// missing, an empty address too, and without a display name it goes by its name.
pub proof fn law_new_integrations(
    body: CreateIntegrationRequest,
    name_valid: bool,
    reserved: &str,
    name_taken: bool,
    secret: Result<String, String>,
    token: Result<String, String>,
    id: Id,
    organization: Id,
    created_by: Id,
    now: Timestamp,
    checked: WebResult<(IntegrationKind, ForgeType)>,
    r: WebResult<IntegrationRow>,
)
    requires
        call_ensures(check_new_integration, (&body, name_valid, reserved), checked),
        call_ensures(put_integration, (&body, name_valid, reserved, name_taken, secret, token, id, organization, created_by, now), r),
    ensures
        checked is Err ==> r is Err && r->Err_0@ == checked->Err_0@,
        checked is Ok && name_taken ==> (r matches Err(WebError::Conflict(c, m))
            && c == ErrorCode::ALREADY_EXISTS && m@ == "Integration Name"@ + " already exists"@),
        ({
            let has_secret = body.secret is Some && body.secret->0@.len() > 0;
            let has_token = body.access_token is Some && body.access_token->0@.len() > 0;
            &&& checked is Ok && !name_taken ==> (r is Ok <==> (has_secret ==> secret is Ok) && (
            has_token ==> token is Ok))
            &&& checked is Ok && !name_taken && has_secret && secret is Err
                ==> (r matches Err(WebError::Internal(m))
                && m@ == "Failed to encrypt secret: "@ + secret->Err_0@)
            &&& checked is Ok && !name_taken && (has_secret ==> secret is Ok) && has_token
                && token is Err ==> (r matches Err(WebError::Internal(m))
                    && m@ == "Failed to encrypt token: "@ + token->Err_0@)
            &&& r matches Ok(m) ==> {
                &&& m.id == id && m.organization == organization && m.created_by == created_by
                    && m.created_at == now
                &&& m.name@ == body.name@
                &&& m.kind == if body.kind@ == "inbound"@ {
                    0i16
                } else {
                    1i16
                }
                &&& checked is Ok && m.forge_type == Some(checked->Ok_0.1)
                &&& m.secret is Some <==> has_secret
                &&& has_secret ==> m.secret->0@ == secret->Ok_0@
                &&& m.access_token is Some <==> has_token
                &&& has_token ==> m.access_token->0@ == token->Ok_0@
                &&& body.display_name is None ==> m.display_name@ == body.name@
                &&& body.display_name is Some && trimmed(body.display_name->0@).len() == 0
                    ==> m.display_name@ == body.name@
                &&& body.display_name is Some && trimmed(body.display_name->0@).len() > 0
                    ==> m.display_name@ == trimmed(body.display_name->0@)
                &&& m.endpoint_url is Some <==> body.endpoint_url is Some && trimmed(
                    body.endpoint_url->0@,
                ).len() > 0
                &&& m.endpoint_url is Some ==> m.endpoint_url->0@ == trimmed(body.endpoint_url->0@)
            }
        }),
{
    lemma_names();
}

/// The integrations of the GitHub App can neither be edited nor deleted; every other one can be
/// deleted.
pub proof fn law_app_integrations_stay(
    row: IntegrationRow,
    forge: Option<ForgeType>,
    edit: WebResult<()>,
    delete: WebResult<()>,
    r: WebResult<IntegrationRow>,
)
    requires
        call_ensures(check_integration_mutable, (forge, IntegrationChange::Edit), edit),
        call_ensures(check_integration_mutable, (forge, IntegrationChange::Delete), delete),
        call_ensures(delete_integration, (row,), r),
    ensures
        edit is Ok <==> forge != Some(ForgeType::GitHub),
        delete is Ok <==> forge != Some(ForgeType::GitHub),
        r is Ok <==> row.forge_type != Some(ForgeType::GitHub),
        r is Ok ==> r->Ok_0 == row,
        edit is Err ==> (edit matches Err(WebError::BadRequest(c, m)) && c == ErrorCode::BAD_REQUEST
            && m@ == "GitHub App integrations are managed automatically and cannot be edited."@),
        delete is Err ==> (delete matches Err(WebError::BadRequest(c, m))
            && c == ErrorCode::BAD_REQUEST && m@
            == "GitHub App integrations are managed automatically and cannot be deleted."@),
        r is Err ==> (r matches Err(WebError::BadRequest(c, m)) && c == ErrorCode::BAD_REQUEST
            && m@ == "GitHub App integrations are managed automatically and cannot be deleted."@),
{
}

/// A change is refused for the GitHub App's integrations, a malformed, reserved or taken name,
/// an empty display name, a forge that there is not or that is GitHub, and a secret or token
/// that cannot be encrypted.
pub proof fn law_integration_changes_are_checked(
    row: IntegrationRow,
    body: PatchIntegrationRequest,
    checks: IntegrationPatchChecks,
    reserved: &str,
    r: WebResult<IntegrationRow>,
)
    requires
        call_ensures(patch_integration, (row, &body, &checks, reserved), r),
    ensures
        r is Ok <==> {
            &&& row.forge_type != Some(ForgeType::GitHub)
            &&& body.name is Some ==> checks.name_valid && body.name->0@ != reserved@
                && !checks.name_taken
            &&& body.display_name is Some ==> trimmed(body.display_name->0@).len() > 0
            &&& body.forge_type is Some ==> body.forge_type->0@ == "gitea"@
                || body.forge_type->0@ == "forgejo"@ || body.forge_type->0@ == "gitlab"@
            &&& body.secret is Some && body.secret->0@.len() > 0 ==> checks.secret is Ok
            &&& body.access_token is Some && body.access_token->0@.len() > 0 ==> checks.token is Ok
        },
        row.forge_type == Some(ForgeType::GitHub)
            ==> (r matches Err(WebError::BadRequest(c, m)) && c == ErrorCode::BAD_REQUEST
            && m@ == "GitHub App integrations are managed automatically and cannot be edited."@),
        row.forge_type != Some(ForgeType::GitHub) && body.name is Some && !checks.name_valid
            ==> (r matches Err(WebError::BadRequest(c, m)) && c == ErrorCode::INVALID_NAME
            && m@ == "Invalid "@ + "Integration Name"@),
        row.forge_type != Some(ForgeType::GitHub) && body.name is Some && checks.name_valid
            && body.name->0@ == reserved@ ==> (r matches Err(WebError::BadRequest(c, m))
            && c == ErrorCode::BAD_REQUEST && m@
            == "Integration name '"@ + reserved@
            + "' is reserved for the auto-managed GitHub App row."@),
        row.forge_type != Some(ForgeType::GitHub) && body.name is Some && checks.name_valid
            && body.name->0@ != reserved@ && checks.name_taken
            ==> (r matches Err(WebError::Conflict(c, m)) && c == ErrorCode::ALREADY_EXISTS
            && m@ == "Integration Name"@ + " already exists"@),
        row.forge_type != Some(ForgeType::GitHub) && body.name is None && body.display_name is Some
            && trimmed(body.display_name->0@).len() == 0
            ==> (r matches Err(WebError::BadRequest(c, m)) && c == ErrorCode::BAD_REQUEST
            && m@ == "display_name cannot be empty"@),
        row.forge_type != Some(ForgeType::GitHub) && body.name is None && body.display_name is None
            && body.forge_type is Some && body.forge_type->0@ == "github"@
            ==> (r matches Err(WebError::BadRequest(c, m)) && c == ErrorCode::BAD_REQUEST
            && m@ == "GitHub integrations are managed through the server-wide GitHub App; enable the App on the organization instead of switching forge_type to github."@),
{
    lemma_names();
}

/// A changed integration has the new fields and keeps the others. An empty secret or token
/// clears the stored one, a new one replaces it encrypted, and without one the stored one
/// stays.
pub proof fn law_changed_integrations(
    row: IntegrationRow,
    body: PatchIntegrationRequest,
    checks: IntegrationPatchChecks,
    reserved: &str,
    forge: WebResult<ForgeType>,
    fname: &str,
    r: WebResult<IntegrationRow>,
)
    requires
        call_ensures(patch_integration, (row, &body, &checks, reserved), r),
        call_ensures(parse_forge, (fname,), forge),
        body.forge_type is Some ==> body.forge_type->0@ == fname@,
        r is Ok,
    ensures
        ({
            let m = r->Ok_0;
            &&& m.id == row.id && m.organization == row.organization && m.kind == row.kind
                && m.created_by == row.created_by && m.created_at == row.created_at
            &&& body.name is Some ==> m.name@ == body.name->0@
            &&& body.name is None ==> m.name@ == row.name@
            &&& body.display_name is Some ==> m.display_name@ == trimmed(body.display_name->0@)
            &&& body.display_name is None ==> m.display_name@ == row.display_name@
            &&& body.forge_type is Some ==> forge is Ok && m.forge_type == Some(forge->Ok_0)
            &&& body.forge_type is None ==> m.forge_type == row.forge_type
            &&& body.endpoint_url is None ==> opt_view(m.endpoint_url) == opt_view(row.endpoint_url)
            &&& body.endpoint_url is Some && trimmed(body.endpoint_url->0@).len() == 0
                ==> m.endpoint_url is None
            &&& body.endpoint_url is Some && trimmed(body.endpoint_url->0@).len() > 0
                ==> m.endpoint_url is Some && m.endpoint_url->0@ == trimmed(body.endpoint_url->0@)
            &&& body.secret is None ==> opt_view(m.secret) == opt_view(row.secret)
            &&& body.secret is Some && body.secret->0@.len() == 0 ==> m.secret is None
            &&& body.secret is Some && body.secret->0@.len() > 0 ==> m.secret is Some
                && m.secret->0@ == checks.secret->Ok_0@
            &&& body.access_token is None ==> opt_view(m.access_token) == opt_view(row.access_token)
            &&& body.access_token is Some && body.access_token->0@.len() == 0 ==> m.access_token
                is None
            &&& body.access_token is Some && body.access_token->0@.len() > 0 ==> m.access_token
                is Some && m.access_token->0@ == checks.token->Ok_0@
        }),
{
    lemma_names();
}

/// All integrations are listed, in order, each as it is shown alone; an empty secret counts as
/// none.
pub proof fn law_listed_integrations(
    rows: Vec<IntegrationRow>,
    r: Vec<IntegrationResponse>,
    i: int,
    one: IntegrationResponse,
    field: Option<String>,
    s: Option<&String>,
)
    requires
        0 <= i < rows@.len(),
        call_ensures(get_integrations, (rows,), r),
        call_ensures(integration_response, (rows@[i],), one),
        call_ensures(secret_to_encrypt, (&field,), s),
    ensures
        r@.len() == rows@.len(),
        r@[i].id == one.id && r@[i].organization == one.organization && r@[i].name == one.name
            && r@[i].display_name == one.display_name,
        r@[i].kind@ == one.kind@ && r@[i].forge_type@ == one.forge_type@
            && r@[i].endpoint_url == one.endpoint_url,
        r@[i].has_secret == one.has_secret && r@[i].has_access_token == one.has_access_token
            && r@[i].created_by == one.created_by && r@[i].created_at == one.created_at,
        s is Some <==> field is Some && field->0@.len() > 0,
        s is Some ==> s->0@ == field->0@,
{
}

} // verus!
