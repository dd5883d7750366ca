//! Workers that an organization registered.

use crate::codec::{
    base64_char, base64_decoded, base64_encoded, decode_base64, encode_base64, encode_hex, format_uuid, hex_text,
    is_random_uuid, parse_uuid, random_bytes, random_uuid, sha256, sha256_digest, uuid_parsed, uuid_text,
    uuid_version,
};
use crate::error::{ErrorCode, ErrorModel, WebError, WebResult};
use crate::helpers::{Id, Timestamp};
use crate::text::{cat3, opt_clone, same, trim, trimmed};
use vstd::prelude::*;
use vstd::string::StringSliceAdditionalSpecFns;
use vstd::utf8::encode_utf8;

verus! {

pub struct RegisterWorkerRequest {
    pub worker_id: String,
    /// WebSocket URL where the worker listens for incoming server connections.
    pub url: Option<String>,
    /// Human-readable display name for this worker.
    pub display_name: String,
    /// Pre-generated token: 48 bytes in base64. When provided the server stores
    /// its hash and does not return the token in the response.
    pub token: Option<String>,
}

pub struct RegisterWorkerResponse {
    pub peer_id: Id,
    /// Only present when the server made the token.
    pub token: Option<String>,
}

pub struct PatchWorkerRequest {
    /// When present, update the active flag.
    pub active: Option<bool>,
    /// When present, update the display name. Empty string clears the name.
    pub display_name: Option<String>,
}

/// A connected worker. `C` is what workers say of their capabilities.
pub struct WorkerInfo<C> {
    pub id: String,
    pub capabilities: C,
    pub architectures: Vec<String>,
    pub system_features: Vec<String>,
    pub max_concurrent_builds: u32,
    pub assigned_job_count: usize,
    pub draining: bool,
}

pub struct WorkerLiveInfo<C> {
    pub capabilities: C,
    pub architectures: Vec<String>,
    pub system_features: Vec<String>,
    pub max_concurrent_builds: u32,
    pub assigned_job_count: usize,
    pub draining: bool,
}

/// A registration, as the database holds it.
pub struct RegistrationRow {
    pub id: Id,
    pub peer_id: Id,
    pub worker_id: String,
    /// The SHA-256 digest of the token in hexadecimal.
    pub token_hash: String,
    pub managed: bool,
    pub url: Option<String>,
    pub display_name: String,
    pub active: bool,
    pub created_by: Option<Id>,
    pub created_at: Timestamp,
}

pub struct OrgWorkerEntry<C> {
    pub worker_id: String,
    pub display_name: String,
    pub registered_at: Timestamp,
    pub active: bool,
    pub url: Option<String>,
    /// User who registered this worker.
    pub created_by: Option<Id>,
    /// Present when the worker is currently connected to this server.
    pub live: Option<WorkerLiveInfo<C>>,
}

// ── Registration ─────────────────────────────────────────────────────────────

/// The worker that `s` names, if it is a random UUID.
pub open spec fn worker_uuid(s: Seq<char>) -> Option<u128> {
    match uuid_parsed(s) {
        Some(u) => if uuid_version(u) == 4 {
            Some(u)
        } else {
            None
        },
        None => None,
    }
}

/// The canonical text of the worker identifier `s`, or that it is none.
pub fn check_worker_id(s: &str) -> (r: WebResult<String>)
    ensures
        match r {
            Ok(t) => worker_uuid(s@) matches Some(u) && t@ == uuid_text(u),
            Err(e) => worker_uuid(s@) is None && e@ == ErrorModel::bad_request(
                "worker_id must be a valid UUID v4"@,
            ),
        },
{
    worker_id_of(parse_uuid(s))
}

/// The canonical text of a worker identifier that reads as `parsed`, or that it
/// is none: it has to be a UUID of version 4.
pub fn worker_id_of(parsed: Option<u128>) -> (r: WebResult<String>)
    ensures
        match r {
            Ok(t) => parsed matches Some(u) && uuid_version(u) == 4 && t@ == uuid_text(u),
            Err(e) => {
                &&& parsed is None || uuid_version(parsed->0) != 4
                &&& e@ == ErrorModel::bad_request("worker_id must be a valid UUID v4"@)
            },
        },
{
    match parsed {
        Some(u) => if is_random_uuid(u) {
            Ok(format_uuid(u))
        } else {
            Err(WebError::bad_request("worker_id must be a valid UUID v4"))
        },
        None => Err(WebError::bad_request("worker_id must be a valid UUID v4")),
    }
}

/// Whether a token that decodes to `decoded` is accepted: it has to be base64 of
/// exactly 48 bytes.
pub fn check_decoded_token(decoded: &Option<Vec<u8>>) -> (r: WebResult<()>)
    ensures
        match r {
            Ok(_) => decoded matches Some(b) && b@.len() == 48,
            Err(e) => match decoded {
                None => e@ == ErrorModel::bad_request("token is not valid base64"@),
                Some(b) => b@.len() != 48 && e@ == ErrorModel::bad_request(
                    "token must be 48 raw bytes encoded as base64 (openssl rand -base64 48)"@,
                ),
            },
        },
{
    match decoded {
        None => Err(WebError::bad_request("token is not valid base64")),
        Some(b) => if b.len() != 48 {
            Err(
                WebError::bad_request(
                    "token must be 48 raw bytes encoded as base64 (openssl rand -base64 48)",
                ),
            )
        } else {
            Ok(())
        },
    }
}

/// Why a token that a request brings is refused.
pub open spec fn token_error(token: Seq<char>) -> Option<ErrorModel> {
    match base64_decoded(token) {
        None => Some(ErrorModel::bad_request("token is not valid base64"@)),
        Some(b) => if b.len() != 48 {
            Some(
                ErrorModel::bad_request(
                    "token must be 48 raw bytes encoded as base64 (openssl rand -base64 48)"@,
                ),
            )
        } else {
            None
        },
    }
}

/// The token that a request brings, trimmed, if it is accepted.
pub fn check_worker_token(provided: &str) -> (r: WebResult<String>)
    ensures
        match r {
            Ok(t) => token_error(trimmed(provided@)) is None && t@ == trimmed(provided@),
            Err(e) => token_error(trimmed(provided@)) == Some(e@),
        },
{
    let t = trim(provided);
    match check_decoded_token(&decode_base64(t)) {
        Ok(_) => Ok(t.to_owned()),
        Err(e) => Err(e),
    }
}

/// A fresh token: 48 random bytes in base64. A request that brings it is
/// accepted.
pub fn generate_worker_token() -> (r: String)
    ensures
        exists|raw: Seq<u8>| raw.len() == 48 && r@ == #[trigger] base64_encoded(raw),
        trimmed(r@) == r@,
        token_error(r@) is None,
{
    let raw = random_bytes(48);
    let t = encode_base64(raw.as_slice());
    proof {
        assert forall|i: int| 0 <= i < t@.len() implies !crate::text::white(#[trigger] t@[i]) by {
            assert(base64_char(t@[i]));
        }
        crate::text::lemma_trimmed_of_unspaced(t@);
    }
    assert(raw@.len() == 48 && t@ == base64_encoded(raw@));
    t
}

/// The digest under which a token is stored.
pub open spec fn token_digest(token: Seq<char>) -> Seq<char> {
    hex_text(sha256(encode_utf8(token)))
}

/// The digest under which a token is stored.
pub fn hash_token(token: &str) -> (r: String)
    ensures
        r@ == token_digest(token@),
        r@.len() == 64,
{
    encode_hex(sha256_digest(token.as_bytes()).as_slice())
}

/// The registration that a request makes, and the token to hand out. A token
/// that the request brings is checked and not handed out again; else the server
/// makes one, and the response is the only place that shows it.
pub fn post_org_worker(
    body: &RegisterWorkerRequest,
    organization: Id,
    user: Id,
    now: Timestamp,
) -> (r: WebResult<(RegistrationRow, RegisterWorkerResponse)>)
    ensures
        r is Ok <==> worker_uuid(body.worker_id@) is Some && (body.token is Some ==> token_error(
            trimmed(body.token->0@),
        ) is None),
        match r {
            Ok((row, answer)) => {
                &&& uuid_version(row.id) == 4
                &&& row.peer_id == organization
                &&& row.worker_id@ == uuid_text(worker_uuid(body.worker_id@)->0)
                &&& !row.managed
                &&& row.url == body.url
                &&& row.display_name@ == trimmed(body.display_name@)
                &&& row.active
                &&& row.created_by == Some(user)
                &&& row.created_at == now
                &&& answer.peer_id == organization
                &&& match body.token {
                    Some(t) => answer.token is None && row.token_hash@ == token_digest(trimmed(t@)),
                    None => {
                        &&& answer.token is Some
                        &&& token_error(trimmed(answer.token->0@)) is None
                        &&& row.token_hash@ == token_digest(answer.token->0@)
                    },
                }
            },
            Err(e) => if worker_uuid(body.worker_id@) is None {
                e@ == ErrorModel::bad_request("worker_id must be a valid UUID v4"@)
            } else {
                token_error(trimmed(body.token->0@)) == Some(e@)
            },
        },
{
    let worker_id = match check_worker_id(body.worker_id.as_str()) {
        Ok(w) => w,
        Err(e) => {
            return Err(e);
        },
    };
    let (token, return_token) = match &body.token {
        Some(provided) => match check_worker_token(provided.as_str()) {
            Ok(t) => (t, false),
            Err(e) => {
                return Err(e);
            },
        },
        None => (generate_worker_token(), true),
    };
    let token_hash = hash_token(token.as_str());
    let id: Id = random_uuid();
    let row = RegistrationRow {
        id,
        peer_id: organization,
        worker_id,
        token_hash,
        managed: false,
        url: opt_clone(&body.url),
        display_name: trim(body.display_name.as_str()).to_owned(),
        active: true,
        created_by: Some(user),
        created_at: now,
    };
    let token = if return_token {
        Some(token)
    } else {
        None
    };
    Ok((row, RegisterWorkerResponse { peer_id: organization, token }))
}

// ── Listing ──────────────────────────────────────────────────────────────────

/// The position of the last connected worker called `id`.
pub open spec fn live_position<C>(workers: Seq<WorkerInfo<C>>, id: Seq<char>) -> Option<int>
    decreases workers.len(),
{
    if workers.len() == 0 {
        None
    } else if workers.last().id@ == id {
        Some(workers.len() - 1)
    } else {
        live_position(workers.drop_last(), id)
    }
}

/// `l` says what `w` says of itself.
pub open spec fn shows_worker<C: Clone>(l: WorkerLiveInfo<C>, w: WorkerInfo<C>) -> bool {
    &&& cloned(w.capabilities, l.capabilities)
    &&& crate::text::views(l.architectures@) == crate::text::views(w.architectures@)
    &&& crate::text::views(l.system_features@) == crate::text::views(w.system_features@)
    &&& l.max_concurrent_builds == w.max_concurrent_builds
    &&& l.assigned_job_count == w.assigned_job_count
    &&& l.draining == w.draining
}

/// `e` shows the registration `reg`, with what the worker says of itself where
/// it is connected.
pub open spec fn shows_registration<C: Clone>(
    e: OrgWorkerEntry<C>,
    reg: RegistrationRow,
    workers: Seq<WorkerInfo<C>>,
) -> bool {
    &&& e.worker_id == reg.worker_id
    &&& e.display_name == reg.display_name
    &&& e.registered_at == reg.created_at
    &&& e.active == reg.active
    &&& e.url == reg.url
    &&& e.created_by == reg.created_by
    &&& match live_position(workers, reg.worker_id@) {
        Some(k) => e.live matches Some(l) && shows_worker(l, workers[k]),
        None => e.live is None,
    }
}

fn clone_texts(v: &Vec<String>) -> (r: Vec<String>)
    ensures
        crate::text::views(r@) == crate::text::views(v@),
{
    let mut out: Vec<String> = Vec::new();
    let mut i: usize = 0;
    while i < v.len()
        invariant
            i <= v.len(),
            crate::text::views(out@) == crate::text::views(v@).take(i as int),
        decreases v.len() - i,
    {
        let ghost before = crate::text::views(out@);
        out.push(v[i].clone());
        proof {
            assert(crate::text::views(out@) =~= before.push(v@[i as int]@));
            assert(crate::text::views(v@).take(i as int + 1) =~= before.push(v@[i as int]@));
        }
        i += 1;
    }
    assert(crate::text::views(v@).take(i as int) =~= crate::text::views(v@));
    out
}

fn find_live<C>(workers: &Vec<WorkerInfo<C>>, id: &str) -> (r: Option<usize>)
    ensures
        match r {
            Some(k) => k < workers@.len() && live_position(workers@, id@) == Some(k as int),
            None => live_position(workers@, id@) is None,
        },
{
    let mut i: usize = workers.len();
    assert(workers@.take(i as int) =~= workers@);
    while i > 0
        invariant
            i <= workers.len(),
            live_position(workers@, id@) == live_position(workers@.take(i as int), id@),
        decreases i,
    {
        assert(workers@.take(i as int).drop_last() =~= workers@.take(i as int - 1));
        if same(workers[i - 1].id.as_str(), id) {
            return Some(i - 1);
        }
        i -= 1;
    }
    None
}

/// The workers that an organization registered.
pub fn get_org_workers<C: Clone>(
    registrations: &Vec<RegistrationRow>,
    workers: &Vec<WorkerInfo<C>>,
) -> (r: Vec<OrgWorkerEntry<C>>)
    ensures
        r@.len() == registrations@.len(),
        forall|i: int|
            0 <= i < r@.len() ==> shows_registration(
                #[trigger] r@[i],
                registrations@[i],
                workers@,
            ),
{
    let mut out: Vec<OrgWorkerEntry<C>> = Vec::new();
    let mut i: usize = 0;
    while i < registrations.len()
        invariant
            i <= registrations.len(),
            out@.len() == i,
            forall|j: int|
                0 <= j < i ==> shows_registration(
                    #[trigger] out@[j],
                    registrations@[j],
                    workers@,
                ),
        decreases registrations.len() - i,
    {
        let reg = &registrations[i];
        let live = match find_live(workers, reg.worker_id.as_str()) {
            Some(k) => {
                let w = &workers[k];
                Some(
                    WorkerLiveInfo {
                        capabilities: w.capabilities.clone(),
                        architectures: clone_texts(&w.architectures),
                        system_features: clone_texts(&w.system_features),
                        max_concurrent_builds: w.max_concurrent_builds,
                        assigned_job_count: w.assigned_job_count,
                        draining: w.draining,
                    },
                )
            },
            None => None,
        };
        out.push(
            OrgWorkerEntry {
                worker_id: reg.worker_id.clone(),
                display_name: reg.display_name.clone(),
                registered_at: reg.created_at,
                active: reg.active,
                url: opt_clone(&reg.url),
                created_by: reg.created_by,
                live,
            },
        );
        i += 1;
    }
    out
}

// ── Changes ──────────────────────────────────────────────────────────────────

/// What the scheduler is told after a change.
#[derive(Debug, Clone, Copy, PartialEq, Eq, Structural)]
pub struct WorkerEffects {
    /// Stop the running jobs of the organization on the worker.
    pub abort_jobs: bool,
    /// Let the worker authorize itself again.
    pub reauth: bool,
}

/// A changed registration, what follows from the change, and the message that
/// says so.
pub struct WorkerPatch {
    pub row: RegistrationRow,
    pub effects: WorkerEffects,
    pub message: String,
}

/// The registration after a change. Deactivating a worker stops the jobs it runs
/// for the organization; either way of switching it makes it authorize again.
pub fn patch_org_worker(
    found: Option<RegistrationRow>,
    worker_id: &str,
    body: &PatchWorkerRequest,
) -> (r: WebResult<WorkerPatch>)
    ensures
        match found {
            None => r matches Err(e) && e@ == ErrorModel::not_found("worker registration"@),
            Some(reg) => r matches Ok(p) && {
                &&& p.row == (RegistrationRow {
                    active: match body.active {
                        Some(a) => a,
                        None => reg.active,
                    },
                    display_name: p.row.display_name,
                    ..reg
                })
                &&& p.row.display_name@ == (match body.display_name {
                    Some(n) => trimmed(n@),
                    None => reg.display_name@,
                })
                &&& p.effects == (WorkerEffects {
                    abort_jobs: body.active == Some(false),
                    reauth: body.active is Some,
                })
                &&& p.message@ == "worker '"@ + worker_id@ + "' updated"@
            },
        },
{
    match found {
        None => Err(WebError::not_found("worker registration")),
        Some(reg) => {
            let mut row = reg;
            if let Some(a) = body.active {
                row.active = a;
            }
            if let Some(n) = &body.display_name {
                row.display_name = trim(n.as_str()).to_owned();
            }
            let abort_jobs = match body.active {
                Some(a) => !a,
                None => false,
            };
            Ok(
                WorkerPatch {
                    row,
                    effects: WorkerEffects { abort_jobs, reauth: body.active.is_some() },
                    message: cat3("worker '", worker_id, "' updated"),
                },
            )
        },
    }
}

/// The answer to a request that removed `removed` registrations.
pub fn delete_org_worker(removed: u64, worker_id: &str) -> (r: WebResult<(WorkerEffects, String)>)
    ensures
        match r {
            Ok((f, m)) => {
                &&& removed > 0
                &&& f == (WorkerEffects { abort_jobs: true, reauth: true })
                &&& m@ == "worker '"@ + worker_id@ + "' unregistered"@
            },
            Err(e) => removed == 0 && e@ == ErrorModel::not_found("worker registration"@),
        },
{
    if removed == 0 {
        return Err(WebError::not_found("worker registration"));
    }
    Ok(
        (
            WorkerEffects { abort_jobs: true, reauth: true },
            cat3("worker '", worker_id, "' unregistered"),
        ),
    )
}

/// Whether the list of all workers may be seen: by everybody where the server
/// publishes its statistics, else by superusers.
pub fn get_workers(global_stats_public: bool, superuser: bool) -> (r: WebResult<()>)
    ensures
        match r {
            Ok(_) => global_stats_public || superuser,
            Err(e) => !global_stats_public && !superuser && e@ == ErrorModel::forbidden(
                "workers endpoint requires superuser"@,
            ),
        },
{
    if !global_stats_public && !superuser {
        return Err(WebError::forbidden("workers endpoint requires superuser"));
    }
    Ok(())
}

/// A worker is named by a UUID of version 4, and stored by its canonical text; a token is
/// base64 of 48 bytes.
pub proof fn law_worker_names_and_tokens(
    parsed: Option<u128>,
    r: WebResult<String>,
    decoded: Option<Vec<u8>>,
    t: WebResult<()>,
)
    requires
        call_ensures(worker_id_of, (parsed,), r),
        call_ensures(check_decoded_token, (&decoded,), t),
    ensures
        r is Ok <==> parsed is Some && (parsed->0 >> 76) & 0xf == 4,
        r is Ok ==> r->Ok_0@ == uuid_text(parsed->0),
        r is Err ==> (r matches Err(WebError::BadRequest(c, m)) && c == ErrorCode::BAD_REQUEST
            && m@ == "worker_id must be a valid UUID v4"@),
        t is Ok <==> decoded is Some && decoded->0@.len() == 48,
        decoded is None ==> (t matches Err(WebError::BadRequest(c, m))
            && c == ErrorCode::BAD_REQUEST && m@ == "token is not valid base64"@),
        decoded is Some && decoded->0@.len() != 48
            ==> (t matches Err(WebError::BadRequest(c, m)) && c == ErrorCode::BAD_REQUEST
            && m@ == "token must be 48 raw bytes encoded as base64 (openssl rand -base64 48)"@),
{
}

/// A registration belongs to the organization and is active and unmanaged. It holds the digest
/// of the token, never the token: of the one that the request brings, trimmed, which is not
/// handed out again, or of the one that the answer hands out.
pub proof fn law_registrations_hold_digests(
    body: RegisterWorkerRequest,
    organization: Id,
    user: Id,
    now: Timestamp,
    r: WebResult<(RegistrationRow, RegisterWorkerResponse)>,
)
    requires
        call_ensures(post_org_worker, (&body, organization, user, now), r),
    ensures
        r is Ok <==> {
            &&& uuid_parsed(body.worker_id@) is Some
            &&& (uuid_parsed(body.worker_id@)->0 >> 76) & 0xf == 4
            &&& body.token is Some ==> base64_decoded(trimmed(body.token->0@)) is Some
                && base64_decoded(trimmed(body.token->0@))->0.len() == 48
        },
        r matches Ok((row, answer)) ==> {
            &&& row.peer_id == organization && answer.peer_id == organization
            &&& row.active && !row.managed && row.created_by == Some(user) && row.created_at == now
            &&& row.url == body.url && row.display_name@ == trimmed(body.display_name@)
            &&& row.worker_id@ == uuid_text(uuid_parsed(body.worker_id@)->0)
            &&& body.token is Some ==> answer.token is None && row.token_hash@ == hex_text(
                sha256(encode_utf8(trimmed(body.token->0@))),
            )
            &&& body.token is None ==> answer.token is Some && row.token_hash@ == hex_text(
                sha256(encode_utf8(answer.token->0@)),
            )
        },
        uuid_parsed(body.worker_id@) is None
            ==> (r matches Err(WebError::BadRequest(c, m)) && c == ErrorCode::BAD_REQUEST
            && m@ == "worker_id must be a valid UUID v4"@),
        uuid_parsed(body.worker_id@) is Some && (uuid_parsed(body.worker_id@)->0 >> 76) & 0xf != 4
            ==> (r matches Err(WebError::BadRequest(c, m)) && c == ErrorCode::BAD_REQUEST
            && m@ == "worker_id must be a valid UUID v4"@),
        uuid_parsed(body.worker_id@) is Some && (uuid_parsed(body.worker_id@)->0 >> 76) & 0xf == 4
            && body.token is Some && base64_decoded(trimmed(body.token->0@)) is None
            ==> (r matches Err(WebError::BadRequest(c, m)) && c == ErrorCode::BAD_REQUEST
            && m@ == "token is not valid base64"@),
{
}

/// A worker is switched and renamed as the request says. Switching it lets it authorize again,
/// switching it off and removing it stops its jobs.
pub proof fn law_worker_changes(
    found: Option<RegistrationRow>,
    worker_id: &str,
    body: PatchWorkerRequest,
    r: WebResult<WorkerPatch>,
    removed: u64,
    d: WebResult<(WorkerEffects, String)>,
)
    requires
        call_ensures(patch_org_worker, (found, worker_id, &body), r),
        call_ensures(delete_org_worker, (removed, worker_id), d),
    ensures
        r is Ok <==> found is Some,
        r is Err ==> (r matches Err(WebError::NotFound(c, m)) && c == ErrorCode::NOT_FOUND
            && m@ == "worker registration"@ + " not found"@),
        r matches Ok(p) ==> {
            let reg = found->0;
            &&& p.row.id == reg.id && p.row.peer_id == reg.peer_id && p.row.worker_id
                == reg.worker_id && p.row.token_hash == reg.token_hash && p.row.managed
                == reg.managed && p.row.url == reg.url && p.row.created_by == reg.created_by
                && p.row.created_at == reg.created_at
            &&& body.active is Some ==> p.row.active == body.active->0
            &&& body.active is None ==> p.row.active == reg.active
            &&& body.display_name is Some ==> p.row.display_name@ == trimmed(
                body.display_name->0@,
            )
            &&& body.display_name is None ==> p.row.display_name@ == reg.display_name@
            &&& p.effects.reauth <==> body.active is Some
            &&& p.effects.abort_jobs <==> body.active is Some && !body.active->0
            &&& p.message@ == "worker '"@ + worker_id@ + "' updated"@
        },
        d is Ok <==> removed > 0,
        d is Err ==> (d matches Err(WebError::NotFound(c, m)) && c == ErrorCode::NOT_FOUND
            && m@ == "worker registration"@ + " not found"@),
        d matches Ok((f, m)) ==> f.abort_jobs && f.reauth && m@ == "worker '"@ + worker_id@
            + "' unregistered"@,
{
}

/// All workers are seen by everybody where the server publishes its statistics, and else by
/// superusers.
pub proof fn law_who_sees_workers(
    public: bool,
    superuser: bool,
    r: WebResult<()>,
)
    requires
        call_ensures(get_workers, (public, superuser), r),
    ensures
        r is Ok <==> public || superuser,
        r is Err ==> (r matches Err(WebError::Forbidden(c, m)) && c == ErrorCode::FORBIDDEN
            && m@ == "workers endpoint requires superuser"@),
{
}

/// A list shows every registration, in order; a connected worker, the last of that name, is
/// shown with what it says of itself, and no other is.
pub proof fn law_listed_workers<C: Clone>(
    registrations: Vec<RegistrationRow>,
    workers: Vec<WorkerInfo<C>>,
    r: Vec<OrgWorkerEntry<C>>,
    i: int,
    k: int,
)
    requires
        call_ensures(get_org_workers::<C>, (&registrations, &workers), r),
        0 <= i < registrations@.len(),
    ensures
        r@.len() == registrations@.len(),
        ({
            let e = r@[i];
            let reg = registrations@[i];
            &&& e.worker_id@ == reg.worker_id@ && e.display_name@ == reg.display_name@
                && e.registered_at == reg.created_at && e.active == reg.active && e.url == reg.url
                && e.created_by == reg.created_by
            &&& (forall|j: int| 0 <= j < workers@.len() ==> (#[trigger] workers@[j]).id@
                != reg.worker_id@) ==> e.live is None
            &&& 0 <= k < workers@.len() && workers@[k].id@ == reg.worker_id@ && (forall|j: int|
                k < j < workers@.len() ==> (#[trigger] workers@[j]).id@ != reg.worker_id@) ==> {
                &&& e.live is Some
                &&& e.live->0.max_concurrent_builds == workers@[k].max_concurrent_builds
                &&& e.live->0.assigned_job_count == workers@[k].assigned_job_count
                &&& e.live->0.draining == workers@[k].draining
                &&& cloned(workers@[k].capabilities, e.live->0.capabilities)
            }
        }),
{
    assert(shows_registration(r@[i], registrations@[i], workers@));
    lemma_live_position(workers@, registrations@[i].worker_id@);
}

proof fn lemma_live_position<C>(workers: Seq<WorkerInfo<C>>, id: Seq<char>)
    ensures
        match live_position(workers, id) {
            Some(k) => 0 <= k < workers.len() && workers[k].id@ == id && forall|j: int|
                k < j < workers.len() ==> (#[trigger] workers[j]).id@ != id,
            None => forall|j: int| 0 <= j < workers.len() ==> (#[trigger] workers[j]).id@ != id,
        },
    decreases workers.len(),
{
    if workers.len() > 0 && workers.last().id@ != id {
        let less = workers.drop_last();
        lemma_live_position(less, id);
        assert forall|j: int| 0 <= j < less.len() implies less[j] == #[trigger] workers[j] by {}
    }
}

/// A worker has a random identifier; a token is forty-eight bytes in base64, with or without
/// space around it, and is stored as its digest.
pub proof fn law_worker_credentials(
    s: &str,
    i: WebResult<String>,
    provided: &str,
    t: WebResult<String>,
    fresh: String,
    token: &str,
    d: String,
)
    requires
        call_ensures(check_worker_id, (s,), i),
        call_ensures(check_worker_token, (provided,), t),
        call_ensures(generate_worker_token, (), fresh),
        call_ensures(hash_token, (token,), d),
    ensures
        i is Ok <==> uuid_parsed(s@) is Some && uuid_version(uuid_parsed(s@)->0) == 4,
        i is Ok ==> i->Ok_0@ == uuid_text(uuid_parsed(s@)->0),
        i is Err ==> (i matches Err(WebError::BadRequest(c, m)) && c == ErrorCode::BAD_REQUEST
            && m@ == "worker_id must be a valid UUID v4"@),
        t is Ok <==> base64_decoded(trimmed(provided@)) is Some
            && base64_decoded(trimmed(provided@))->0.len() == 48,
        t is Ok ==> t->Ok_0@ == trimmed(provided@),
        base64_decoded(trimmed(provided@)) is None
            ==> (t matches Err(WebError::BadRequest(c, m)) && c == ErrorCode::BAD_REQUEST
            && m@ == "token is not valid base64"@),
        base64_decoded(trimmed(provided@)) is Some
            && base64_decoded(trimmed(provided@))->0.len() != 48
            ==> (t matches Err(WebError::BadRequest(c, m)) && c == ErrorCode::BAD_REQUEST
            && m@ == "token must be 48 raw bytes encoded as base64 (openssl rand -base64 48)"@),
        trimmed(fresh@) == fresh@ && base64_decoded(fresh@) is Some
            && base64_decoded(fresh@)->0.len() == 48,
        d@ == hex_text(sha256(encode_utf8(token@))),
{
}

} // verus!
