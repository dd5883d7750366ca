//! Webhooks that an organization registers.

use crate::access::{anywhere, AccessRule, Capability};
use crate::codec::{date_rfc3339, format_rfc3339, format_uuid, is_date, uuid_text};
use crate::error::{ErrorCode, ErrorModel, WebError, WebResult};
use crate::helpers::{Id, Timestamp};
use crate::json::{is_text_array, text_array, Json};
use crate::rows::reversed;
use crate::text::{cat, decimal, opt_clone, to_decimal};
use vstd::prelude::*;

verus! {

/// What every request about the webhooks of an organization asks for; state-managed
/// organizations are no exception.
pub fn webhook_org_access() -> (r: AccessRule)
    ensures
        r == anywhere(Capability::ManageWebhooks),
{
    AccessRule::Require { permission: Capability::ManageWebhooks, reject_managed: false }
}

#[derive(Debug, PartialEq, Eq)]
pub struct CreateWebhookRequest {
    pub name: String,
    pub url: String,
    pub secret: String,
    pub events: Vec<String>,
}

#[derive(Debug, PartialEq, Eq)]
pub struct UpdateWebhookRequest {
    pub name: Option<String>,
    pub url: Option<String>,
    pub secret: Option<String>,
    pub events: Option<Vec<String>>,
    pub active: Option<bool>,
}

/// A webhook, as the database holds it.
#[derive(Debug, PartialEq, Eq)]
pub struct WebhookRow {
    pub id: Id,
    pub organization: Id,
    pub name: String,
    pub url: String,
    /// The encrypted secret.
    pub secret: String,
    pub events: Json,
    pub active: bool,
    pub created_by: Id,
    pub created_at: Timestamp,
}

/// Public-safe webhook view - secret is never exposed.
#[derive(Debug, PartialEq, Eq)]
pub struct WebhookResponse {
    pub id: Id,
    pub organization: Id,
    pub name: String,
    pub url: String,
    pub events: Json,
    pub active: bool,
    pub created_by: Id,
    pub created_at: Timestamp,
}

/// A past delivery, as the database holds it.
#[derive(Debug, PartialEq, Eq)]
pub struct DeliveryRow {
    pub id: Id,
    pub event: String,
    pub success: bool,
    pub response_status: Option<i32>,
    pub error_message: Option<String>,
    pub duration_ms: i32,
    pub delivered_at: Timestamp,
}

#[derive(Debug, PartialEq, Eq)]
pub struct WebhookDeliveryResponse {
    pub id: String,
    pub event: String,
    pub success: bool,
    pub response_status: Option<i32>,
    pub error_message: Option<String>,
    pub duration_ms: i32,
    pub delivered_at: String,
}

/// One page of a list.
#[derive(Debug, PartialEq, Eq)]
pub struct DeliveryPage {
    pub items: Vec<WebhookDeliveryResponse>,
    pub total: u64,
    pub page: u64,
    pub per_page: u64,
}

/// What is shown of a webhook.
pub open spec fn shown_webhook(w: WebhookRow) -> WebhookResponse {
    WebhookResponse {
        id: w.id,
        organization: w.organization,
        name: w.name,
        url: w.url,
        events: w.events,
        active: w.active,
        created_by: w.created_by,
        created_at: w.created_at,
    }
}

impl WebhookResponse {
    /// What is shown of a webhook.
    pub fn from_row(w: WebhookRow) -> (r: WebhookResponse)
        ensures
            r == shown_webhook(w),
    {
        WebhookResponse {
            id: w.id,
            organization: w.organization,
            name: w.name,
            url: w.url,
            events: w.events,
            active: w.active,
            created_by: w.created_by,
            created_at: w.created_at,
        }
    }
}

/// The webhooks of an organization.
pub fn get(rows: Vec<WebhookRow>) -> (r: Vec<WebhookResponse>)
    ensures
        r@ == rows@.map_values(|w: WebhookRow| shown_webhook(w)),
{
    let ghost whole = rows@;
    let mut rest = reversed(rows);
    let mut out: Vec<WebhookResponse> = Vec::new();
    while rest.len() > 0
        invariant
            rest@.len() + out@.len() == whole.len(),
            forall|j: int| 0 <= j < rest@.len() ==> rest@[j] == whole[whole.len() - 1 - j],
            forall|i: int| 0 <= i < out@.len() ==> #[trigger] out@[i] == shown_webhook(whole[i]),
        decreases rest.len(),
    {
        if let Some(row) = rest.pop() {
            out.push(WebhookResponse::from_row(row));
        }
    }
    assert(out@ =~= whole.map_values(|w: WebhookRow| shown_webhook(w)));
    out
}

/// Webhooks that differ in their secret alone look alike.
pub proof fn law_webhook_secret_is_not_shown(a: WebhookRow, b: WebhookRow)
    requires
        a == (WebhookRow { secret: a.secret, ..b }),
    ensures
        shown_webhook(a) == shown_webhook(b),
{
}

/// Why a request for a new webhook is refused; `url_error` says what is wrong with
/// the address, if anything is.
pub open spec fn new_webhook_error(body: CreateWebhookRequest, url_error: Option<String>) -> Option<
    ErrorModel,
> {
    if body.name@.len() == 0 {
        Some(ErrorModel::bad_request("Webhook name cannot be empty."@))
    } else if body.url@.len() == 0 {
        Some(ErrorModel::bad_request("Webhook URL cannot be empty."@))
    } else if url_error is Some {
        Some(ErrorModel::bad_request(url_error->0@))
    } else if body.secret@.len() == 0 {
        Some(ErrorModel::bad_request("Webhook secret cannot be empty."@))
    } else {
        None
    }
}

/// Whether a request for a new webhook is well-formed.
pub fn check_new_webhook(body: &CreateWebhookRequest, url_error: &Option<String>) -> (r: WebResult<()>)
    ensures
        match r {
            Ok(_) => new_webhook_error(*body, *url_error) is None,
            Err(e) => new_webhook_error(*body, *url_error) == Some(e@),
        },
{
    if body.name.as_str().unicode_len() == 0 {
        return Err(WebError::bad_request("Webhook name cannot be empty."));
    }
    if body.url.as_str().unicode_len() == 0 {
        return Err(WebError::bad_request("Webhook URL cannot be empty."));
    }
    if let Some(e) = url_error {
        return Err(WebError::bad_request(e.as_str()));
    }
    if body.secret.as_str().unicode_len() == 0 {
        return Err(WebError::bad_request("Webhook secret cannot be empty."));
    }
    Ok(())
}

/// The webhook that a request creates. `encrypted` is the encrypted secret, or why
/// it could not be encrypted.
pub fn put(
    body: CreateWebhookRequest,
    url_error: &Option<String>,
    encrypted: Result<String, String>,
    id: Id,
    organization: Id,
    created_by: Id,
    now: Timestamp,
) -> (r: WebResult<WebhookRow>)
    ensures
        match r {
            Ok(w) => {
                &&& new_webhook_error(body, *url_error) is None
                &&& encrypted == Ok::<String, String>(w.secret)
                &&& is_text_array(w.events, body.events@)
                &&& w == (WebhookRow {
                    id,
                    organization,
                    name: body.name,
                    url: body.url,
                    secret: w.secret,
                    events: w.events,
                    active: true,
                    created_by,
                    created_at: now,
                })
            },
            Err(e) => match new_webhook_error(body, *url_error) {
                Some(why) => e@ == why,
                None => encrypted is Err && e@ == ErrorModel::internal(
                    "Failed to encrypt secret: "@ + encrypted->Err_0@,
                ),
            },
        },
{
    if let Err(e) = check_new_webhook(&body, url_error) {
        return Err(e);
    }
    let secret = match encrypted {
        Ok(s) => s,
        Err(e) => {
            return Err(WebError::internal(cat("Failed to encrypt secret: ", e.as_str()).as_str()));
        },
    };
    Ok(
        WebhookRow {
            id,
            organization,
            name: body.name,
            url: body.url,
            secret,
            events: text_array(body.events),
            active: true,
            created_by,
            created_at: now,
        },
    )
}

/// Why a change of a webhook is refused.
pub open spec fn patch_webhook_error(
    body: UpdateWebhookRequest,
    url_error: Option<String>,
    encrypted: Result<String, String>,
) -> Option<ErrorModel> {
    if body.url is Some && url_error is Some {
        Some(ErrorModel::bad_request(url_error->0@))
    } else if body.secret is Some && encrypted is Err {
        Some(ErrorModel::internal("Failed to encrypt secret: "@ + encrypted->Err_0@))
    } else {
        None
    }
}

/// `r` is the webhook after a change.
pub open spec fn is_patched_webhook(
    r: WebhookRow,
    w: WebhookRow,
    body: UpdateWebhookRequest,
    encrypted: Result<String, String>,
) -> bool {
    &&& match body.events {
        Some(v) => is_text_array(r.events, v@),
        None => r.events == w.events,
    }
    &&& r == (WebhookRow {
        name: match body.name {
            Some(v) => v,
            None => w.name,
        },
        url: match body.url {
            Some(v) => v,
            None => w.url,
        },
        secret: match body.secret {
            Some(_) => encrypted->Ok_0,
            None => w.secret,
        },
        events: r.events,
        active: match body.active {
            Some(v) => v,
            None => w.active,
        },
        ..w
    })
}

/// The webhook after a change. `url_error` says what is wrong with the new address,
/// if anything is; `encrypted` is the new secret encrypted, or why it could not be.
pub fn patch_webhook(
    webhook: WebhookRow,
    body: UpdateWebhookRequest,
    url_error: &Option<String>,
    encrypted: Result<String, String>,
) -> (r: WebResult<WebhookRow>)
    ensures
        match r {
            Ok(w) => patch_webhook_error(body, *url_error, encrypted) is None
                && is_patched_webhook(w, webhook, body, encrypted),
            Err(e) => patch_webhook_error(body, *url_error, encrypted) == Some(e@),
        },
{
    let mut w = webhook;
    if let Some(name) = body.name {
        w.name = name;
    }
    if let Some(url) = body.url {
        if let Some(e) = url_error {
            return Err(WebError::bad_request(e.as_str()));
        }
        w.url = url;
    }
    if let Some(_) = body.secret {
        match encrypted {
            Ok(s) => {
                w.secret = s;
            },
            Err(e) => {
                return Err(
                    WebError::internal(cat("Failed to encrypt secret: ", e.as_str()).as_str()),
                );
            },
        }
    }
    if let Some(events) = body.events {
        w.events = text_array(events);
    }
    if let Some(active) = body.active {
        w.active = active;
    }
    Ok(w)
}

/// The first entry of a page, counted from zero.
pub fn page_offset(page: u64, per_page: u64) -> (r: u64)
    requires
        page >= 1,
        (page - 1) * per_page <= u64::MAX,
    ensures
        r == (page - 1) * per_page,
{
    (page - 1) * per_page
}

/// A past delivery is shown as it was recorded.
pub open spec fn shows_delivery(r: WebhookDeliveryResponse, d: DeliveryRow) -> bool {
    &&& r.id@ == uuid_text(d.id)
    &&& r.event == d.event
    &&& r.success == d.success
    &&& r.response_status == d.response_status
    &&& r.error_message == d.error_message
    &&& r.duration_ms == d.duration_ms
    &&& r.delivered_at@ == date_rfc3339(d.delivered_at)
}

/// One page of the history of past delivery attempts for a webhook.
pub fn get_webhook_deliveries(rows: &Vec<DeliveryRow>, total: u64, page: u64, per_page: u64) -> (r:
    DeliveryPage)
    requires
        forall|i: int| 0 <= i < rows@.len() ==> is_date((#[trigger] rows@[i]).delivered_at),
    ensures
        r.total == total,
        r.page == page,
        r.per_page == per_page,
        r.items@.len() == rows@.len(),
        forall|i: int| 0 <= i < rows@.len() ==> shows_delivery(#[trigger] r.items@[i], rows@[i]),
{
    let mut items: Vec<WebhookDeliveryResponse> = Vec::new();
    let mut i: usize = 0;
    while i < rows.len()
        invariant
            i <= rows.len(),
            items@.len() == i,
            forall|j: int| 0 <= j < rows@.len() ==> is_date((#[trigger] rows@[j]).delivered_at),
            forall|j: int| 0 <= j < i ==> shows_delivery(#[trigger] items@[j], rows@[j]),
        decreases rows.len() - i,
    {
        let d = &rows[i];
        items.push(
            WebhookDeliveryResponse {
                id: format_uuid(d.id),
                event: d.event.clone(),
                success: d.success,
                response_status: d.response_status,
                error_message: opt_clone(&d.error_message),
                duration_ms: d.duration_ms,
                delivered_at: format_rfc3339(d.delivered_at),
            },
        );
        i += 1;
    }
    DeliveryPage { items, total, page, per_page }
}

/// How the delivery of a test event went.
pub enum TestDelivery {
    /// The secret could not be decrypted, for this reason.
    NoSecret(String),
    /// Nothing was delivered, for this reason.
    Undelivered(String),
    /// The endpoint answered with this status.
    Answered(u16),
}

/// The answer to a test event: success takes an answer with a status from 200 up
/// to 299.
pub fn post_webhook_test(delivery: &TestDelivery) -> (r: WebResult<bool>)
    ensures
        match delivery {
            TestDelivery::NoSecret(e) => r matches Err(x) && x@ == ErrorModel::internal(
                "Failed to decrypt webhook secret: "@ + e@,
            ),
            TestDelivery::Undelivered(e) => r matches Err(x) && x@ == ErrorModel::internal(
                "Webhook delivery failed: "@ + e@,
            ),
            TestDelivery::Answered(status) => if 200 <= *status < 300 {
                r matches Ok(b) && b
            } else {
                r matches Err(x) && x@ == ErrorModel::internal(
                    "Webhook endpoint returned status "@ + decimal(*status as nat),
                )
            },
        },
{
    match delivery {
        TestDelivery::NoSecret(e) => Err(
            WebError::internal(cat("Failed to decrypt webhook secret: ", e.as_str()).as_str()),
        ),
        TestDelivery::Undelivered(e) => Err(
            WebError::internal(cat("Webhook delivery failed: ", e.as_str()).as_str()),
        ),
        TestDelivery::Answered(status) => {
            let s: u16 = *status;
            if 200 <= s && s < 300 {
                return Ok(true);
            }
            let number = to_decimal(s as u64);
            Err(
                WebError::internal(
                    cat("Webhook endpoint returned status ", number.as_str()).as_str(),
                ),
            )
        },
    }
}

/// A list of webhooks has all of them, in order, with everything but the secret.
pub proof fn law_shown_webhooks(
    rows: Vec<WebhookRow>,
    r: Vec<WebhookResponse>,
    i: int,
)
    requires
        call_ensures(get, (rows,), r),
        0 <= i < rows@.len(),
    ensures
        r@.len() == rows@.len(),
        r@[i].id == rows@[i].id && r@[i].organization == rows@[i].organization
            && r@[i].name == rows@[i].name && r@[i].url == rows@[i].url,
        r@[i].events == rows@[i].events && r@[i].active == rows@[i].active
            && r@[i].created_by == rows@[i].created_by && r@[i].created_at == rows@[i].created_at,
{
}

/// The webhooks of an organization take the right to manage webhooks, whether configuration
/// manages the organization or not.
pub proof fn law_webhook_rights(
    r: AccessRule,
)
    requires
        call_ensures(webhook_org_access, (), r),
    ensures
        r matches AccessRule::Require { permission: Capability::ManageWebhooks, reject_managed: false },
{
}

/// A new webhook takes a name, a good address and a secret that can be encrypted; the first
/// that lacks is named. It is active and has what the request says.
pub proof fn law_new_webhooks(
    body: CreateWebhookRequest,
    url_error: Option<String>,
    encrypted: Result<String, String>,
    id: Id,
    organization: Id,
    created_by: Id,
    now: Timestamp,
    r: WebResult<WebhookRow>,
    i: int,
)
    requires
        call_ensures(put, (body, &url_error, encrypted, id, organization, created_by, now), r),
    ensures
        r is Ok <==> body.name@.len() > 0 && body.url@.len() > 0 && url_error is None
            && body.secret@.len() > 0 && encrypted is Ok,
        body.name@.len() == 0 ==> (r matches Err(WebError::BadRequest(c, m))
            && c == ErrorCode::BAD_REQUEST && m@ == "Webhook name cannot be empty."@),
        body.name@.len() > 0 && body.url@.len() == 0
            ==> (r matches Err(WebError::BadRequest(c, m)) && c == ErrorCode::BAD_REQUEST
            && m@ == "Webhook URL cannot be empty."@),
        body.name@.len() > 0 && body.url@.len() > 0 && url_error is Some
            ==> (r matches Err(WebError::BadRequest(c, m)) && c == ErrorCode::BAD_REQUEST
            && m@ == url_error->0@),
        body.name@.len() > 0 && body.url@.len() > 0 && url_error is None && body.secret@.len() == 0
            ==> (r matches Err(WebError::BadRequest(c, m)) && c == ErrorCode::BAD_REQUEST
            && m@ == "Webhook secret cannot be empty."@),
        body.name@.len() > 0 && body.url@.len() > 0 && url_error is None && body.secret@.len() > 0
            && encrypted is Err ==> (r matches Err(WebError::Internal(m))
            && m@ == "Failed to encrypt secret: "@ + encrypted->Err_0@),
        r matches Ok(w) ==> {
            &&& w.id == id && w.organization == organization && w.created_by == created_by
                && w.created_at == now
            &&& w.name == body.name && w.url == body.url && w.secret == encrypted->Ok_0 && w.active
            &&& w.events matches Json::Array(items) && items@.len() == body.events@.len() && (0 <= i
                < items@.len() ==> items@[i] == Json::Text(body.events@[i]))
        },
{
}

/// A change of a webhook takes a good address and a secret that can be encrypted, where it
/// gives them. What is given replaces what was there, and everything else stays.
pub proof fn law_changed_webhooks(
    webhook: WebhookRow,
    body: UpdateWebhookRequest,
    url_error: Option<String>,
    encrypted: Result<String, String>,
    r: WebResult<WebhookRow>,
    i: int,
)
    requires
        call_ensures(patch_webhook, (webhook, body, &url_error, encrypted), r),
    ensures
        r is Ok <==> (body.url is Some ==> url_error is None)
            && (body.secret is Some ==> encrypted is Ok),
        body.url is Some && url_error is Some
            ==> (r matches Err(WebError::BadRequest(c, m)) && c == ErrorCode::BAD_REQUEST
            && m@ == url_error->0@),
        !(body.url is Some && url_error is Some) && body.secret is Some && encrypted is Err
            ==> (r matches Err(WebError::Internal(m))
            && m@ == "Failed to encrypt secret: "@ + encrypted->Err_0@),
        r matches Ok(w) ==> {
            &&& w.id == webhook.id && w.organization == webhook.organization && w.created_by
                == webhook.created_by && w.created_at == webhook.created_at
            &&& body.name is Some ==> w.name == body.name->0
            &&& body.name is None ==> w.name == webhook.name
            &&& body.url is Some ==> w.url == body.url->0
            &&& body.url is None ==> w.url == webhook.url
            &&& body.secret is Some ==> w.secret == encrypted->Ok_0
            &&& body.secret is None ==> w.secret == webhook.secret
            &&& body.active is Some ==> w.active == body.active->0
            &&& body.active is None ==> w.active == webhook.active
            &&& body.events is None ==> w.events == webhook.events
            &&& body.events is Some ==> (w.events matches Json::Array(items) && items@.len()
                == body.events->0@.len() && (0 <= i < items@.len() ==> items@[i] == Json::Text(
                body.events->0@[i],
            )))
        },
{
}

/// A page of deliveries shows each as it was recorded; its first entry comes after those of the
/// pages before it.
pub proof fn law_pages_of_deliveries(
    rows: Vec<DeliveryRow>,
    total: u64,
    page: u64,
    per_page: u64,
    r: DeliveryPage,
    i: int,
    first: u64,
    second: u64,
    n: u64,
)
    requires
        forall|j: int| 0 <= j < rows@.len() ==> is_date((#[trigger] rows@[j]).delivered_at),
        0 <= i < rows@.len(),
        1 <= n && n * per_page <= u64::MAX,
        call_ensures(get_webhook_deliveries, (&rows, total, page, per_page), r),
        call_ensures(page_offset, (n, per_page), first),
        call_ensures(page_offset, ((n + 1) as u64, per_page), second),
        n < u64::MAX,
    ensures
        r.total == total && r.page == page && r.per_page == per_page
            && r.items@.len() == rows@.len(),
        r.items@[i].id@ == uuid_text(rows@[i].id) && r.items@[i].event == rows@[i].event
            && r.items@[i].success == rows@[i].success,
        r.items@[i].response_status == rows@[i].response_status
            && r.items@[i].error_message == rows@[i].error_message
            && r.items@[i].duration_ms == rows@[i].duration_ms,
        r.items@[i].delivered_at@ == date_rfc3339(rows@[i].delivered_at),
        n == 1 ==> first == 0,
        second == first + per_page,
{
    assert(((n + 1) as u64 - 1) * per_page == (n - 1) * per_page + per_page) by (nonlinear_arith)
        requires
            n < u64::MAX,
            1 <= n,
    ;
    assert((1 - 1) * per_page == 0);
}

/// A test of a webhook succeeds when the endpoint answers with a status in the two hundreds;
/// each failure is told.
pub proof fn law_webhook_tests(
    delivery: TestDelivery,
    r: WebResult<bool>,
)
    requires
        call_ensures(post_webhook_test, (&delivery,), r),
    ensures
        match delivery {
            TestDelivery::NoSecret(e) => (r matches Err(WebError::Internal(m))
                && m@ == "Failed to decrypt webhook secret: "@ + e@),
            TestDelivery::Undelivered(e) => (r matches Err(WebError::Internal(m))
                && m@ == "Webhook delivery failed: "@ + e@),
            TestDelivery::Answered(status) => {
                &&& 200 <= status <= 299 <==> r is Ok
                &&& r is Ok ==> r->Ok_0
                &&& r is Err ==> (r matches Err(WebError::Internal(m))
                    && m@ == "Webhook endpoint returned status "@ + decimal(status as nat))
            },
        },
{
}

} // verus!
