//! Build servers of an organization.

use crate::error::{ErrorCode, ErrorModel, WebError, WebResult};
use crate::helpers::{Id, Timestamp};
use crate::text::{cat, opt_view};
use vstd::prelude::*;

verus! {

#[derive(Debug, PartialEq, Eq)]
pub struct MakeServerRequest {
    pub name: String,
    pub display_name: String,
    pub host: String,
    pub port: i32,
    pub username: String,
    pub architectures: Vec<String>,
    pub features: Vec<String>,
}

#[derive(Debug, PartialEq, Eq)]
pub struct PatchServerRequest {
    pub name: Option<String>,
    pub display_name: Option<String>,
    pub host: Option<String>,
    pub port: Option<i32>,
    pub username: Option<String>,
    pub architectures: Option<Vec<String>>,
    pub features: Option<Vec<String>>,
}

/// A server, as the database holds it.
#[derive(Debug, PartialEq, Eq)]
pub struct ServerRow {
    pub id: Id,
    pub name: String,
    pub display_name: String,
    pub organization: Id,
    pub active: bool,
    pub host: String,
    pub port: i32,
    pub username: String,
    pub last_connection_at: Timestamp,
    pub created_by: Id,
    pub created_at: Timestamp,
    pub managed: bool,
}

/// Why a request on a server failed: the status of the answer and its message.
#[derive(Debug, PartialEq, Eq)]
pub struct ServerFailure {
    pub status: u16,
    pub message: String,
}

/// A failure as a mathematical value.
pub ghost struct FailureModel {
    pub status: u16,
    pub message: Seq<char>,
}

impl View for ServerFailure {
    type V = FailureModel;

    open spec fn view(&self) -> FailureModel {
        FailureModel { status: self.status, message: self.message@ }
    }
}

impl ServerFailure {
    pub fn new(status: u16, message: &str) -> (r: ServerFailure)
        ensures
            r@ == (FailureModel { status, message: message@ }),
    {
        ServerFailure { status, message: message.to_owned() }
    }
}

/// A failure with this status and message.
pub open spec fn failure(status: u16, message: Seq<char>) -> FailureModel {
    FailureModel { status, message }
}

// ── Lookup ───────────────────────────────────────────────────────────────────

/// Why a server was not found: there is none of that name, or the database failed.
pub open spec fn lookup_failure(found: Result<Option<ServerRow>, String>) -> Option<FailureModel> {
    match found {
        Ok(Some(_)) => None,
        Ok(None) => Some(failure(404, "Server not found"@)),
        Err(e) => Some(failure(500, "Database error: "@ + e@)),
    }
}

/// The server that a request names.
pub fn get_server(found: Result<Option<ServerRow>, String>) -> (r: Result<ServerRow, ServerFailure>)
    ensures
        match r {
            Ok(s) => found == Ok::<Option<ServerRow>, String>(Some(s)),
            Err(f) => lookup_failure(found) == Some(f@),
        },
{
    match found {
        Ok(Some(s)) => Ok(s),
        Ok(None) => Err(ServerFailure::new(404, "Server not found")),
        Err(e) => Err(ServerFailure::new(500, cat("Database error: ", e.as_str()).as_str())),
    }
}

// ── Architectures ────────────────────────────────────────────────────────────

/// The architectures among names of which each has been looked up: a name that
/// means none is skipped.
pub open spec fn known(parsed: Seq<Option<i16>>) -> Seq<i16>
    decreases parsed.len(),
{
    if parsed.len() == 0 {
        Seq::empty()
    } else {
        match parsed.last() {
            Some(a) => known(parsed.drop_last()).push(a),
            None => known(parsed.drop_last()),
        }
    }
}

/// The architectures among names that have been looked up.
pub fn known_architectures(parsed: &Vec<Option<i16>>) -> (r: Vec<i16>)
    ensures
        r@ == known(parsed@),
{
    let mut out: Vec<i16> = Vec::new();
    let mut i: usize = 0;
    assert(parsed@.take(0) =~= Seq::<Option<i16>>::empty());
    while i < parsed.len()
        invariant
            i <= parsed.len(),
            out@ == known(parsed@.take(i as int)),
        decreases parsed.len() - i,
    {
        assert(parsed@.take(i as int + 1).drop_last() =~= parsed@.take(i as int));
        if let Some(a) = parsed[i] {
            out.push(a);
        }
        i += 1;
    }
    assert(parsed@.take(i as int) =~= parsed@);
    out
}

proof fn lemma_known(parsed: Seq<Option<i16>>)
    ensures
        known(parsed).len() == 0 <==> forall|i: int|
            0 <= i < parsed.len() ==> (#[trigger] parsed[i]) is None,
        forall|a: i16| #[trigger] known(parsed).contains(a) ==> parsed.contains(Some(a)),
    decreases parsed.len(),
{
    if parsed.len() > 0 {
        let rest = parsed.drop_last();
        lemma_known(rest);
        assert forall|i: int| 0 <= i < rest.len() implies #[trigger] parsed[i] == rest[i] by {}
        if parsed.last() is None {
            assert(known(parsed) == known(rest));
            assert forall|i: int| 0 <= i < parsed.len() && known(rest).len() == 0 implies (
            #[trigger] parsed[i]) is None by {
                if i < rest.len() {
                    assert(rest[i] is None);
                }
            }
            if known(rest).len() > 0 {
                let i = choose|i: int| 0 <= i < rest.len() && !((#[trigger] rest[i]) is None);
                assert(parsed[i] is Some);
            }
            assert forall|a: i16| #[trigger] known(parsed).contains(a) implies parsed.contains(
                Some(a),
            ) by {
                let i = choose|i: int| 0 <= i < rest.len() && rest[i] == Some(a);
                assert(rest.contains(Some(a)));
                assert(parsed[i] == Some(a));
            }
        } else {
            let x = parsed.last()->0;
            assert(known(parsed) == known(rest).push(x));
            assert(parsed[parsed.len() - 1] is Some);
            assert forall|a: i16| #[trigger] known(parsed).contains(a) implies parsed.contains(
                Some(a),
            ) by {
                let k = choose|k: int| 0 <= k < known(parsed).len() && known(parsed)[k] == a;
                if k < known(rest).len() {
                    assert(known(rest)[k] == a);
                    assert(known(rest).contains(a));
                    let i = choose|i: int| 0 <= i < rest.len() && rest[i] == Some(a);
                    assert(parsed[i] == Some(a));
                } else {
                    assert(parsed[parsed.len() - 1] == Some(a));
                }
            }
        }
    }
}

/// A request with architectures is refused exactly when none of their names means
/// one, and nothing that was not asked for is recorded.
pub proof fn law_architectures_come_from_the_request(parsed: Seq<Option<i16>>)
    ensures
        known(parsed).len() == 0 <==> forall|i: int|
            0 <= i < parsed.len() ==> (#[trigger] parsed[i]) is None,
        forall|a: i16| #[trigger] known(parsed).contains(a) ==> parsed.contains(Some(a)),
{
    lemma_known(parsed);
}

// ── Creation ─────────────────────────────────────────────────────────────────

/// Why the names of a request are refused; `display_name_error` is what the validator
/// said of the display name.
pub open spec fn names_error(
    name_valid: bool,
    display_name_error: Option<Seq<char>>,
) -> Option<ErrorModel> {
    if !name_valid {
        Some(ErrorModel::invalid_name("Server Name"@))
    } else {
        match display_name_error {
            Some(why) => Some(ErrorModel::bad_request("Invalid display name: "@ + why)),
            None => None,
        }
    }
}

/// Whether the names of a request for a new server are well-formed.
pub fn check_new_server(name_valid: bool, display_name_error: &Option<String>) -> (r: WebResult<()>)
    ensures
        match r {
            Ok(_) => names_error(name_valid, opt_view(*display_name_error)) is None,
            Err(e) => names_error(name_valid, opt_view(*display_name_error)) == Some(e@),
        },
{
    if !name_valid {
        return Err(WebError::invalid_name("Server Name"));
    }
    if let Some(why) = display_name_error {
        return Err(WebError::bad_request(cat("Invalid display name: ", why.as_str()).as_str()));
    }
    Ok(())
}

/// The server that a request creates in `organization`, and its
/// architectures. `never` is the time that stands for no connection yet, `parsed`
/// the outcome of looking up the architectures of the request.
pub fn put(
    body: &MakeServerRequest,
    name_valid: bool,
    display_name_error: &Option<String>,
    organization: Option<Id>,
    name_taken: bool,
    parsed: &Vec<Option<i16>>,
    id: Id,
    created_by: Id,
    never: Timestamp,
    now: Timestamp,
) -> (r: WebResult<(ServerRow, Vec<i16>)>)
    ensures
        r is Ok <==> names_error(name_valid, opt_view(*display_name_error)) is None && organization
            is Some && !name_taken && known(parsed@).len() > 0,
        match r {
            Ok((s, architectures)) => {
                &&& s == (ServerRow {
                    id,
                    name: body.name,
                    display_name: body.display_name,
                    organization: organization->0,
                    active: true,
                    host: body.host,
                    port: body.port,
                    username: body.username,
                    last_connection_at: never,
                    created_by,
                    created_at: now,
                    managed: false,
                })
                &&& architectures@ == known(parsed@)
            },
            Err(e) => e@ == if names_error(name_valid, opt_view(*display_name_error)) is Some {
                names_error(name_valid, opt_view(*display_name_error))->0
            } else if organization is None {
                ErrorModel::not_found("Organization"@)
            } else if name_taken {
                ErrorModel::already_exists("Server Name"@)
            } else {
                ErrorModel::bad_request("Invalid Architectures"@)
            },
        },
{
    if let Err(e) = check_new_server(name_valid, display_name_error) {
        return Err(e);
    }
    let organization: Id = match organization {
        Some(o) => o,
        None => {
            return Err(WebError::not_found("Organization"));
        },
    };
    if name_taken {
        return Err(WebError::already_exists("Server Name"));
    }
    let architectures = known_architectures(parsed);
    if architectures.len() == 0 {
        return Err(WebError::bad_request("Invalid Architectures"));
    }
    Ok(
        (
            ServerRow {
                id,
                name: body.name.clone(),
                display_name: body.display_name.clone(),
                organization,
                active: true,
                host: body.host.clone(),
                port: body.port,
                username: body.username.clone(),
                last_connection_at: never,
                created_by,
                created_at: now,
                managed: false,
            },
            architectures,
        ),
    )
}

// ── Changes ──────────────────────────────────────────────────────────────────

/// What is known of the values in a change.
pub struct PatchChecks {
    pub name_valid: bool,
    /// Whether the organization has a server of the new name, or why the database
    /// could not say.
    pub name_taken: Result<bool, String>,
    pub display_name_error: Option<String>,
    /// The outcome of looking up the architectures of the request.
    pub parsed: Vec<Option<i16>>,
}

/// What a change writes: architectures and features are added first, and the
/// server is updated last.
#[derive(Debug, PartialEq, Eq)]
pub struct ServerChange {
    pub server: ServerRow,
    pub architectures: Option<Vec<i16>>,
    pub features: Option<Vec<String>>,
}

/// Why a change is refused.
pub open spec fn patch_server_failure(
    found: Result<Option<ServerRow>, String>,
    body: PatchServerRequest,
    checks: PatchChecks,
) -> Option<FailureModel> {
    if lookup_failure(found) is Some {
        lookup_failure(found)
    } else if found->Ok_0->0.managed {
        Some(
            failure(
                403,
                "Cannot modify state-managed server. This server is managed by configuration and cannot be edited through the API."@,
            ),
        )
    } else if body.name is Some && !checks.name_valid {
        Some(failure(400, "Invalid Server Name"@))
    } else if body.name is Some && checks.name_taken is Err {
        Some(failure(500, "Database error: "@ + checks.name_taken->Err_0@))
    } else if body.name is Some && checks.name_taken->Ok_0 {
        Some(failure(409, "Server Name already exists"@))
    } else if body.display_name is Some && checks.display_name_error is Some {
        Some(failure(400, "Invalid display name: "@ + checks.display_name_error->0@))
    } else if body.architectures is Some && known(checks.parsed@).len() == 0 {
        Some(failure(400, "Invalid Architectures"@))
    } else {
        None
    }
}

/// The new value, where there is one, or the old.
pub open spec fn or_old<T>(new: Option<T>, old_value: T) -> T {
    match new {
        Some(v) => v,
        None => old_value,
    }
}

/// The server after a change.
pub open spec fn patched_server(s: ServerRow, body: PatchServerRequest) -> ServerRow {
    ServerRow {
        name: or_old(body.name, s.name),
        display_name: or_old(body.display_name, s.display_name),
        host: or_old(body.host, s.host),
        port: or_old(body.port, s.port),
        username: or_old(body.username, s.username),
        ..s
    }
}

/// What a change writes. State-managed servers cannot be changed.
pub fn patch_server(
    found: Result<Option<ServerRow>, String>,
    body: PatchServerRequest,
    checks: PatchChecks,
) -> (r: Result<ServerChange, ServerFailure>)
    ensures
        match r {
            Ok(c) => {
                &&& patch_server_failure(found, body, checks) is None
                &&& c.server == patched_server(found->Ok_0->0, body)
                &&& c.architectures is Some == body.architectures is Some
                &&& c.architectures matches Some(a) ==> a@ == known(checks.parsed@)
                &&& c.features == body.features
            },
            Err(f) => patch_server_failure(found, body, checks) == Some(f@),
        },
{
    let mut s = match get_server(found) {
        Ok(s) => s,
        Err(f) => {
            return Err(f);
        },
    };
    if s.managed {
        return Err(
            ServerFailure::new(
                403,
                "Cannot modify state-managed server. This server is managed by configuration and cannot be edited through the API.",
            ),
        );
    }
    if let Some(name) = body.name {
        if !checks.name_valid {
            return Err(ServerFailure::new(400, "Invalid Server Name"));
        }
        match checks.name_taken {
            Err(e) => {
                return Err(ServerFailure::new(500, cat("Database error: ", e.as_str()).as_str()));
            },
            Ok(taken) => {
                if taken {
                    return Err(ServerFailure::new(409, "Server Name already exists"));
                }
            },
        }
        s.name = name;
    }
    if let Some(display_name) = body.display_name {
        if let Some(e) = &checks.display_name_error {
            return Err(ServerFailure::new(400, cat("Invalid display name: ", e.as_str()).as_str()));
        }
        s.display_name = display_name;
    }
    if let Some(host) = body.host {
        s.host = host;
    }
    if let Some(port) = body.port {
        s.port = port;
    }
    if let Some(username) = body.username {
        s.username = username;
    }
    let architectures = match body.architectures {
        Some(_) => {
            let known_ones = known_architectures(&checks.parsed);
            if known_ones.len() == 0 {
                return Err(ServerFailure::new(400, "Invalid Architectures"));
            }
            Some(known_ones)
        },
        None => None,
    };
    Ok(ServerChange { server: s, architectures, features: body.features })
}

/// A change keeps whose server it is, whether it is active, and who made it when.
pub proof fn law_change_keeps_identity(s: ServerRow, body: PatchServerRequest)
    ensures
        ({
            let t = patched_server(s, body);
            &&& t.id == s.id
            &&& t.organization == s.organization
            &&& t.active == s.active
            &&& t.last_connection_at == s.last_connection_at
            &&& t.created_by == s.created_by
            &&& t.created_at == s.created_at
            &&& t.managed == s.managed
        }),
{
}

/// A change that names nothing writes the server back as it was.
pub proof fn law_empty_change_keeps_the_server(s: ServerRow, body: PatchServerRequest)
    requires
        body.name is None,
        body.display_name is None,
        body.host is None,
        body.port is None,
        body.username is None,
    ensures
        patched_server(s, body) == s,
{
}

/// The answer once the database has written something, or has failed to: `what`
/// says what was not done.
fn written(outcome: Result<(), String>, what: &str, done: &'static str) -> (r: Result<
    &'static str,
    ServerFailure,
>)
    ensures
        match r {
            Ok(m) => outcome is Ok && m@ == done@,
            Err(f) => outcome matches Err(e) && f@ == failure(500, what@ + e@),
        },
{
    match outcome {
        Ok(_) => Ok(done),
        Err(e) => Err(ServerFailure::new(500, cat(what, e.as_str()).as_str())),
    }
}

/// The answer to a change, once its architectures and the server were written:
/// `inserted` is the outcome of adding the architectures, where there were any.
pub fn patched_response(inserted: Result<(), String>, updated: Result<(), String>) -> (r: Result<
    &'static str,
    ServerFailure,
>)
    ensures
        match r {
            Ok(m) => inserted is Ok && updated is Ok && m@ == "Server updated"@,
            Err(f) => f@ == match inserted {
                Err(e) => failure(500, "Failed to insert server architectures: "@ + e@),
                Ok(_) => failure(500, "Failed to update server: "@ + updated->Err_0@),
            } && (inserted is Err || updated is Err),
        },
{
    match written(inserted, "Failed to insert server architectures: ", "") {
        Ok(_) => written(updated, "Failed to update server: ", "Server updated"),
        Err(f) => Err(f),
    }
}

/// Whether a server may be deleted: state-managed ones may not.
pub fn delete_server(found: Result<Option<ServerRow>, String>) -> (r: Result<ServerRow, ServerFailure>)
    ensures
        match r {
            Ok(s) => found == Ok::<Option<ServerRow>, String>(Some(s)) && !s.managed,
            Err(f) => f@ == match lookup_failure(found) {
                Some(g) => g,
                None => failure(
                    403,
                    "Cannot delete state-managed server. This server is managed by configuration and cannot be deleted through the API."@,
                ),
            } && (lookup_failure(found) is Some || found->Ok_0->0.managed),
        },
{
    match get_server(found) {
        Err(f) => Err(f),
        Ok(s) => {
            if s.managed {
                return Err(
                    ServerFailure::new(
                        403,
                        "Cannot delete state-managed server. This server is managed by configuration and cannot be deleted through the API.",
                    ),
                );
            }
            Ok(s)
        },
    }
}

/// The answer once a server was deleted, or could not be.
pub fn deleted_response(outcome: Result<(), String>) -> (r: Result<&'static str, ServerFailure>)
    ensures
        match r {
            Ok(m) => outcome is Ok && m@ == "Server deleted"@,
            Err(f) => outcome matches Err(e) && f@
                == failure(500, "Failed to delete server: "@ + e@),
        },
{
    written(outcome, "Failed to delete server: ", "Server deleted")
}

/// `r` is a server after its active state was set. State-managed servers follow their
/// configuration.
pub open spec fn is_switched(
    r: Result<ServerRow, ServerFailure>,
    found: Result<Option<ServerRow>, String>,
    active: bool,
) -> bool {
    match r {
        Ok(s) => lookup_failure(found) is None && !found->Ok_0->0.managed && s == (ServerRow {
            active,
            ..found->Ok_0->0
        }),
        Err(f) => f@ == match lookup_failure(found) {
            Some(g) => g,
            None => failure(
                403,
                "Cannot modify state-managed server activation. This server's active state is managed by configuration."@,
            ),
        } && (lookup_failure(found) is Some || found->Ok_0->0.managed),
    }
}

fn set_server_active(found: Result<Option<ServerRow>, String>, active: bool) -> (r: Result<
    ServerRow,
    ServerFailure,
>)
    ensures
        is_switched(r, found, active),
{
    match get_server(found) {
        Err(f) => Err(f),
        Ok(server) => {
            let mut s = server;
            if s.managed {
                return Err(
                    ServerFailure::new(
                        403,
                        "Cannot modify state-managed server activation. This server's active state is managed by configuration.",
                    ),
                );
            }
            s.active = active;
            Ok(s)
        },
    }
}

/// The server after it was enabled.
pub fn post_server_active(found: Result<Option<ServerRow>, String>) -> (r: Result<
    ServerRow,
    ServerFailure,
>)
    ensures
        is_switched(r, found, true),
{
    set_server_active(found, true)
}

/// The server after it was disabled.
pub fn delete_server_active(found: Result<Option<ServerRow>, String>) -> (r: Result<
    ServerRow,
    ServerFailure,
>)
    ensures
        is_switched(r, found, false),
{
    set_server_active(found, false)
}

/// The answer once the active state was written, or could not be.
pub fn activation_response(outcome: Result<(), String>, active: bool) -> (r: Result<
    &'static str,
    ServerFailure,
>)
    ensures
        match r {
            Ok(m) => outcome is Ok && m@ == (if active {
                "Server enabled"@
            } else {
                "Server disabled"@
            }),
            Err(f) => outcome matches Err(e) && f@ == failure(
                500,
                (if active {
                    "Failed to enable server: "@
                } else {
                    "Failed to disable server: "@
                }) + e@,
            ),
        },
{
    if active {
        written(outcome, "Failed to enable server: ", "Server enabled")
    } else {
        written(outcome, "Failed to disable server: ", "Server disabled")
    }
}

// ── Connection ───────────────────────────────────────────────────────────────

/// The answer to a connection test: `keys` says whether the key of the organization
/// could be decrypted, `connection` how connecting went.
pub fn post_server_check_connection(
    found: Result<Option<ServerRow>, String>,
    keys: Result<(), String>,
    connection: Result<(), String>,
) -> (r: Result<&'static str, ServerFailure>)
    ensures
        match r {
            Ok(m) => lookup_failure(found) is None && keys is Ok && connection is Ok && m@
                == "server connection established"@,
            Err(f) => f@ == if lookup_failure(found) is Some {
                lookup_failure(found)->0
            } else if keys is Err {
                failure(500, "Failed to decrypt SSH private key: "@ + keys->Err_0@)
            } else {
                failure(504, "server connection failed with error: "@ + connection->Err_0@)
            } && (lookup_failure(found) is Some || keys is Err || connection is Err),
        },
{
    if let Err(f) = get_server(found) {
        return Err(f);
    }
    if let Err(e) = keys {
        return Err(
            ServerFailure::new(500, cat("Failed to decrypt SSH private key: ", e.as_str()).as_str()),
        );
    }
    match connection {
        Ok(_) => Ok("server connection established"),
        Err(e) => Err(
            ServerFailure::new(504, cat("server connection failed with error: ", e.as_str()).as_str()),
        ),
    }
}

/// The server after a connection test succeeded.
pub fn connected(server: ServerRow, now: Timestamp) -> (r: ServerRow)
    ensures
        r == (ServerRow { last_connection_at: now, ..server }),
{
    let mut s = server;
    s.last_connection_at = now;
    s
}

/// A server is looked up, deleted, or switched on or off where there is one, and to be deleted
/// or switched it must not be managed by configuration. Failures are told with their status.
pub proof fn law_servers_found_and_switched(
    found: Result<Option<ServerRow>, String>,
    g: Result<ServerRow, ServerFailure>,
    d: Result<ServerRow, ServerFailure>,
    on: Result<ServerRow, ServerFailure>,
    off: Result<ServerRow, ServerFailure>,
)
    requires
        call_ensures(get_server, (found,), g),
        call_ensures(delete_server, (found,), d),
        call_ensures(post_server_active, (found,), on),
        call_ensures(delete_server_active, (found,), off),
    ensures
        (found matches Ok(None)) ==> (g matches Err(f) && f.status == 404
            && f.message@ == "Server not found"@),
        found is Err ==> (g matches Err(f) && f.status == 500
            && f.message@ == "Database error: "@ + found->Err_0@),
        (found matches Ok(None)) ==> (d matches Err(f) && f.status == 404
            && f.message@ == "Server not found"@),
        found is Err ==> (d matches Err(f) && f.status == 500
            && f.message@ == "Database error: "@ + found->Err_0@),
        (found matches Ok(None)) ==> (on matches Err(f) && f.status == 404
            && f.message@ == "Server not found"@),
        found is Err ==> (on matches Err(f) && f.status == 500
            && f.message@ == "Database error: "@ + found->Err_0@),
        (found matches Ok(None)) ==> (off matches Err(f) && f.status == 404
            && f.message@ == "Server not found"@),
        found is Err ==> (off matches Err(f) && f.status == 500
            && f.message@ == "Database error: "@ + found->Err_0@),
        found matches Ok(Some(s)) ==> {
            &&& g is Ok && g->Ok_0 == s
            &&& s.managed ==> (d matches Err(f) && f.status == 403
                && f.message@ == "Cannot delete state-managed server. This server is managed by configuration and cannot be deleted through the API."@)
            &&& s.managed ==> (on matches Err(f) && f.status == 403
                && f.message@ == "Cannot modify state-managed server activation. This server's active state is managed by configuration."@)
            &&& s.managed ==> (off matches Err(f) && f.status == 403
                && f.message@ == "Cannot modify state-managed server activation. This server's active state is managed by configuration."@)
            &&& !s.managed ==> d is Ok && on is Ok && off is Ok
            &&& !s.managed ==> d->Ok_0 == s && on->Ok_0.active && !off->Ok_0.active
            &&& !s.managed ==> (ServerRow { active: s.active, ..on->Ok_0 }) == s && (ServerRow {
                active: s.active,
                ..off->Ok_0
            }) == s
        },
{
}

/// One more architecture is kept when it is known, and skipped otherwise.
pub proof fn law_known_architectures(
    parsed: Vec<Option<i16>>,
    more: Vec<Option<i16>>,
    x: Option<i16>,
    r: Vec<i16>,
    s: Vec<i16>,
)
    requires
        more@ == parsed@.push(x),
        call_ensures(known_architectures, (&parsed,), r),
        call_ensures(known_architectures, (&more,), s),
    ensures
        parsed@.len() == 0 ==> r@.len() == 0,
        x is Some ==> s@ == r@.push(x->0),
        x is None ==> s@ == r@,
{
    assert(more@.drop_last() =~= parsed@);
}

/// A new server takes a valid name, a good display name, a known organization, a free name and
/// one known architecture at least; the first that lacks is named. It is active and not
/// managed, and has what the request says.
pub proof fn law_new_servers(
    body: MakeServerRequest,
    name_valid: bool,
    display_name_error: Option<String>,
    organization: Option<Id>,
    name_taken: bool,
    parsed: Vec<Option<i16>>,
    id: Id,
    created_by: Id,
    never: Timestamp,
    now: Timestamp,
    r: WebResult<(ServerRow, Vec<i16>)>,
    arch: Vec<i16>,
)
    requires
        call_ensures(put, (&body, name_valid, &display_name_error, organization, name_taken, &parsed, id, created_by, never, now), r),
        call_ensures(known_architectures, (&parsed,), arch),
    ensures
        r is Ok <==> name_valid && display_name_error is None && organization is Some && !name_taken
            && arch@.len() > 0,
        !name_valid ==> (r matches Err(WebError::BadRequest(c, m)) && c == ErrorCode::INVALID_NAME
            && m@ == "Invalid "@ + "Server Name"@),
        name_valid && display_name_error is Some
            ==> (r matches Err(WebError::BadRequest(c, m)) && c == ErrorCode::BAD_REQUEST
            && m@ == "Invalid display name: "@ + display_name_error->0@),
        name_valid && display_name_error is None && organization is None
            ==> (r matches Err(WebError::NotFound(c, m)) && c == ErrorCode::NOT_FOUND
            && m@ == "Organization"@ + " not found"@),
        name_valid && display_name_error is None && organization is Some && name_taken
            ==> (r matches Err(WebError::Conflict(c, m)) && c == ErrorCode::ALREADY_EXISTS
            && m@ == "Server Name"@ + " already exists"@),
        name_valid && display_name_error is None && organization is Some && !name_taken
            && arch@.len() == 0 ==> (r matches Err(WebError::BadRequest(c, m))
            && c == ErrorCode::BAD_REQUEST && m@ == "Invalid Architectures"@),
        r matches Ok((s, a)) ==> {
            &&& a@ == arch@
            &&& s.id == id && s.organization == organization->0 && s.created_by == created_by
                && s.created_at == now && s.last_connection_at == never && s.active && !s.managed
            &&& s.name == body.name && s.display_name == body.display_name && s.host == body.host
                && s.port == body.port && s.username == body.username
        },
{
}

/// A change of a server takes a known server that configuration does not manage, and good
/// values where it gives them; the first that lacks is told. What is given replaces what was
/// there, and everything else stays.
pub proof fn law_changed_servers(
    found: Result<Option<ServerRow>, String>,
    body: PatchServerRequest,
    checks: PatchChecks,
    r: Result<ServerChange, ServerFailure>,
    arch: Vec<i16>,
)
    requires
        call_ensures(patch_server, (found, body, checks), r),
        call_ensures(known_architectures, (&checks.parsed,), arch),
    ensures
        (found matches Ok(None)) ==> (r matches Err(f) && f.status == 404
            && f.message@ == "Server not found"@),
        found is Err ==> (r matches Err(f) && f.status == 500
            && f.message@ == "Database error: "@ + found->Err_0@),
        found matches Ok(Some(s)) ==> {
            let free = body.name is Some ==> checks.name_valid && checks.name_taken is Ok
                && !checks.name_taken->Ok_0;
            let shown = body.display_name is Some ==> checks.display_name_error is None;
            let runs = body.architectures is Some ==> arch@.len() > 0;
            &&& r is Ok <==> !s.managed && free && shown && runs
            &&& s.managed ==> (r matches Err(f) && f.status == 403
                && f.message@ == "Cannot modify state-managed server. This server is managed by configuration and cannot be edited through the API."@)
            &&& !s.managed && body.name is Some && !checks.name_valid
                ==> (r matches Err(f) && f.status == 400 && f.message@ == "Invalid Server Name"@)
            &&& !s.managed && body.name is Some && checks.name_valid && checks.name_taken is Err
                ==> (r matches Err(f) && f.status == 500
                && f.message@ == "Database error: "@ + checks.name_taken->Err_0@)
            &&& !s.managed && body.name is Some && checks.name_valid && checks.name_taken is Ok
                && !free
                ==> (r matches Err(f) && f.status == 409
                    && f.message@ == "Server Name already exists"@)
            &&& !s.managed && free && !shown ==> (r matches Err(f) && f.status == 400
                && f.message@ == "Invalid display name: "@ + checks.display_name_error->0@)
            &&& !s.managed && free && shown && !runs
                ==> (r matches Err(f) && f.status == 400 && f.message@ == "Invalid Architectures"@)
            &&& r matches Ok(c) ==> {
                &&& c.server.name == (if body.name is Some { body.name->0 } else { s.name })
                &&& c.server.display_name
                    == (if body.display_name is Some { body.display_name->0 } else { s.display_name })
                &&& c.server.host == (if body.host is Some { body.host->0 } else { s.host })
                &&& c.server.port == (if body.port is Some { body.port->0 } else { s.port })
                &&& c.server.username
                    == (if body.username is Some { body.username->0 } else { s.username })
                &&& c.server.id == s.id && c.server.organization == s.organization
                    && c.server.active
                    == s.active && c.server.last_connection_at == s.last_connection_at
                    && c.server.created_by == s.created_by && c.server.created_at == s.created_at
                    && c.server.managed == s.managed
                &&& c.architectures is Some <==> body.architectures is Some
                &&& c.architectures is Some ==> c.architectures->0@ == arch@
                &&& c.features == body.features
            }
        },
{
}

/// What is answered once a server was written: that it was done, or what went wrong first.
pub proof fn law_server_answers(
    inserted: Result<(), String>,
    updated: Result<(), String>,
    p: Result<&'static str, ServerFailure>,
    d: Result<&'static str, ServerFailure>,
    active: bool,
    a: Result<&'static str, ServerFailure>,
)
    requires
        call_ensures(patched_response, (inserted, updated), p),
        call_ensures(deleted_response, (updated,), d),
        call_ensures(activation_response, (updated, active), a),
    ensures
        inserted is Ok && updated is Ok ==> (p matches Ok(m) && m@ == "Server updated"@),
        inserted is Err ==> (p matches Err(f) && f.status == 500
            && f.message@ == "Failed to insert server architectures: "@ + inserted->Err_0@),
        inserted is Ok && updated is Err ==> (p matches Err(f) && f.status == 500
            && f.message@ == "Failed to update server: "@ + updated->Err_0@),
        updated is Ok ==> (d matches Ok(m) && m@ == "Server deleted"@),
        updated is Err ==> (d matches Err(f) && f.status == 500
            && f.message@ == "Failed to delete server: "@ + updated->Err_0@),
        updated is Ok && active ==> (a matches Ok(m) && m@ == "Server enabled"@),
        updated is Ok && !active ==> (a matches Ok(m) && m@ == "Server disabled"@),
        updated is Err && active ==> (a matches Err(f) && f.status == 500
            && f.message@ == "Failed to enable server: "@ + updated->Err_0@),
        updated is Err && !active ==> (a matches Err(f) && f.status == 500
            && f.message@ == "Failed to disable server: "@ + updated->Err_0@),
{
}

/// A connection is checked for a known server whose key can be read, and noted with its time
/// when it was established.
pub proof fn law_server_connections(
    found: Result<Option<ServerRow>, String>,
    keys: Result<(), String>,
    connection: Result<(), String>,
    r: Result<&'static str, ServerFailure>,
    s: ServerRow,
    now: Timestamp,
    t: ServerRow,
)
    requires
        call_ensures(post_server_check_connection, (found, keys, connection), r),
        call_ensures(connected, (s, now), t),
    ensures
        (found matches Ok(None)) ==> (r matches Err(f) && f.status == 404
            && f.message@ == "Server not found"@),
        found is Err ==> (r matches Err(f) && f.status == 500
            && f.message@ == "Database error: "@ + found->Err_0@),
        (found matches Ok(Some(_))) && keys is Err
            ==> (r matches Err(f) && f.status == 500
            && f.message@ == "Failed to decrypt SSH private key: "@ + keys->Err_0@),
        (found matches Ok(Some(_))) && keys is Ok && connection is Err
            ==> (r matches Err(f) && f.status == 504
            && f.message@ == "server connection failed with error: "@ + connection->Err_0@),
        (found matches Ok(Some(_))) && keys is Ok && connection is Ok
            ==> (r matches Ok(m) && m@ == "server connection established"@),
        t.last_connection_at == now,
        (ServerRow { last_connection_at: s.last_connection_at, ..t }) == s,
{
}

} // verus!
