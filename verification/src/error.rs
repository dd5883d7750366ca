//! Web-layer error type.
//!
//! `WebError` collapses every failure mode the HTTP layer can produce into one
//! variant per HTTP status, plus an `Internal` variant. Each non-internal
//! variant carries a stable [`ErrorCode`] slug that is emitted in the JSON
//! response body so clients can branch on failures without parsing prose.
//!
//! The view of a `WebError` is an [`ErrorModel`]; contracts elsewhere in the
//! crate name an error by the model that its constructor promises.

use crate::text::{cat, cat3};
use sea_orm::{sqlx, DbErr, RuntimeErr};
use vstd::prelude::*;

verus! {

/// Stable, machine-readable error slug returned in the JSON body alongside the
/// HTTP status.
#[allow(non_camel_case_types)]
#[derive(Debug, Clone, Copy, PartialEq, Eq, Structural)]
pub enum ErrorCode {
    // 400 Bad Request
    BAD_REQUEST,
    VALIDATION,
    INPUT_VALIDATION,
    JSON_PARSING,
    INVALID_NAME,
    INVALID_EMAIL,
    INVALID_PASSWORD,
    INVALID_USERNAME,
    INVALID_OAUTH_CODE,
    OAUTH_DISABLED,
    REGISTRATION_DISABLED,
    REPOSITORY_UNREACHABLE,
    // 401 Unauthorized
    UNAUTHORIZED,
    AUTHENTICATION,
    INVALID_CREDENTIALS,
    OAUTH_REQUIRED,
    // 403 Forbidden
    FORBIDDEN,
    SUPERUSER_REQUIRED,
    FORBIDDEN_SOURCE_IP,
    // 404 Not Found
    NOT_FOUND,
    // 409 Conflict
    CONFLICT,
    ALREADY_EXISTS,
    // 410 Gone
    GONE,
    // 413 Payload Too Large
    PAYLOAD_TOO_LARGE,
    // 422 Unprocessable Entity
    UNPROCESSABLE_ENTITY,
    // 500 Internal Server Error
    INTERNAL,
    DATABASE,
    DATA_INCONSISTENCY,
    TOKEN_GENERATION_FAILED,
    USER_UPDATE_FAILED,
    SSH_KEY_GENERATION_FAILED,
    // 503 Service Unavailable
    SERVICE_UNAVAILABLE,
}

impl ErrorCode {
    /// The characters of the slug.
    pub open spec fn slug(self) -> Seq<char> {
        match self {
            ErrorCode::BAD_REQUEST => "bad_request"@,
            ErrorCode::VALIDATION => "validation"@,
            ErrorCode::INPUT_VALIDATION => "input_validation"@,
            ErrorCode::JSON_PARSING => "json_parsing"@,
            ErrorCode::INVALID_NAME => "invalid_name"@,
            ErrorCode::INVALID_EMAIL => "invalid_email"@,
            ErrorCode::INVALID_PASSWORD => "invalid_password"@,
            ErrorCode::INVALID_USERNAME => "invalid_username"@,
            ErrorCode::INVALID_OAUTH_CODE => "invalid_oauth_code"@,
            ErrorCode::OAUTH_DISABLED => "oauth_disabled"@,
            ErrorCode::REGISTRATION_DISABLED => "registration_disabled"@,
            ErrorCode::REPOSITORY_UNREACHABLE => "repository_unreachable"@,
            ErrorCode::UNAUTHORIZED => "unauthorized"@,
            ErrorCode::AUTHENTICATION => "authentication"@,
            ErrorCode::INVALID_CREDENTIALS => "invalid_credentials"@,
            ErrorCode::OAUTH_REQUIRED => "oauth_required"@,
            ErrorCode::FORBIDDEN => "forbidden"@,
            ErrorCode::SUPERUSER_REQUIRED => "superuser_required"@,
            ErrorCode::FORBIDDEN_SOURCE_IP => "forbidden_source_ip"@,
            ErrorCode::NOT_FOUND => "not_found"@,
            ErrorCode::CONFLICT => "conflict"@,
            ErrorCode::ALREADY_EXISTS => "already_exists"@,
            ErrorCode::GONE => "gone"@,
            ErrorCode::PAYLOAD_TOO_LARGE => "payload_too_large"@,
            ErrorCode::UNPROCESSABLE_ENTITY => "unprocessable_entity"@,
            ErrorCode::INTERNAL => "internal"@,
            ErrorCode::DATABASE => "database"@,
            ErrorCode::DATA_INCONSISTENCY => "data_inconsistency"@,
            ErrorCode::TOKEN_GENERATION_FAILED => "token_generation_failed"@,
            ErrorCode::USER_UPDATE_FAILED => "user_update_failed"@,
            ErrorCode::SSH_KEY_GENERATION_FAILED => "ssh_key_generation_failed"@,
            ErrorCode::SERVICE_UNAVAILABLE => "service_unavailable"@,
        }
    }

    /// The slug.
    pub fn as_str(&self) -> (r: &'static str)
        ensures
            r@ == self.slug(),
    {
        match self {
            ErrorCode::BAD_REQUEST => "bad_request",
            ErrorCode::VALIDATION => "validation",
            ErrorCode::INPUT_VALIDATION => "input_validation",
            ErrorCode::JSON_PARSING => "json_parsing",
            ErrorCode::INVALID_NAME => "invalid_name",
            ErrorCode::INVALID_EMAIL => "invalid_email",
            ErrorCode::INVALID_PASSWORD => "invalid_password",
            ErrorCode::INVALID_USERNAME => "invalid_username",
            ErrorCode::INVALID_OAUTH_CODE => "invalid_oauth_code",
            ErrorCode::OAUTH_DISABLED => "oauth_disabled",
            ErrorCode::REGISTRATION_DISABLED => "registration_disabled",
            ErrorCode::REPOSITORY_UNREACHABLE => "repository_unreachable",
            ErrorCode::UNAUTHORIZED => "unauthorized",
            ErrorCode::AUTHENTICATION => "authentication",
            ErrorCode::INVALID_CREDENTIALS => "invalid_credentials",
            ErrorCode::OAUTH_REQUIRED => "oauth_required",
            ErrorCode::FORBIDDEN => "forbidden",
            ErrorCode::SUPERUSER_REQUIRED => "superuser_required",
            ErrorCode::FORBIDDEN_SOURCE_IP => "forbidden_source_ip",
            ErrorCode::NOT_FOUND => "not_found",
            ErrorCode::CONFLICT => "conflict",
            ErrorCode::ALREADY_EXISTS => "already_exists",
            ErrorCode::GONE => "gone",
            ErrorCode::PAYLOAD_TOO_LARGE => "payload_too_large",
            ErrorCode::UNPROCESSABLE_ENTITY => "unprocessable_entity",
            ErrorCode::INTERNAL => "internal",
            ErrorCode::DATABASE => "database",
            ErrorCode::DATA_INCONSISTENCY => "data_inconsistency",
            ErrorCode::TOKEN_GENERATION_FAILED => "token_generation_failed",
            ErrorCode::USER_UPDATE_FAILED => "user_update_failed",
            ErrorCode::SSH_KEY_GENERATION_FAILED => "ssh_key_generation_failed",
            ErrorCode::SERVICE_UNAVAILABLE => "service_unavailable",
        }
    }
}

/// The variants of [`WebError`] without their contents.
#[derive(Debug, Clone, Copy, PartialEq, Eq, Structural)]
pub enum ErrorKind {
    BadRequest,
    Unauthorized,
    Forbidden,
    NotFound,
    Conflict,
    Gone,
    PayloadTooLarge,
    UnprocessableEntity,
    ServiceUnavailable,
    DataInconsistency,
    Internal,
}

impl ErrorKind {
    /// The HTTP status of the kind.
    pub open spec fn http_status(self) -> int {
        match self {
            ErrorKind::BadRequest => 400,
            ErrorKind::Unauthorized => 401,
            ErrorKind::Forbidden => 403,
            ErrorKind::NotFound => 404,
            ErrorKind::Conflict => 409,
            ErrorKind::Gone => 410,
            ErrorKind::PayloadTooLarge => 413,
            ErrorKind::UnprocessableEntity => 422,
            ErrorKind::ServiceUnavailable => 503,
            ErrorKind::DataInconsistency => 500,
            ErrorKind::Internal => 500,
        }
    }

    /// Whether the message stays on the server.
    pub open spec fn is_private(self) -> bool {
        self is DataInconsistency || self is Internal
    }
}

/// What a [`WebError`] says: its kind, its slug and its message.
#[verifier::ext_equal]
pub ghost struct ErrorModel {
    pub kind: ErrorKind,
    pub code: ErrorCode,
    pub message: Seq<char>,
}

impl ErrorModel {
    pub open spec fn bad_request(message: Seq<char>) -> ErrorModel {
        ErrorModel { kind: ErrorKind::BadRequest, code: ErrorCode::BAD_REQUEST, message }
    }

    pub open spec fn bad_request_with(code: ErrorCode, message: Seq<char>) -> ErrorModel {
        ErrorModel { kind: ErrorKind::BadRequest, code, message }
    }

    pub open spec fn unauthorized(message: Seq<char>) -> ErrorModel {
        ErrorModel { kind: ErrorKind::Unauthorized, code: ErrorCode::UNAUTHORIZED, message }
    }

    pub open spec fn forbidden(message: Seq<char>) -> ErrorModel {
        ErrorModel { kind: ErrorKind::Forbidden, code: ErrorCode::FORBIDDEN, message }
    }

    pub open spec fn forbidden_with(code: ErrorCode, message: Seq<char>) -> ErrorModel {
        ErrorModel { kind: ErrorKind::Forbidden, code, message }
    }

    pub open spec fn not_found_msg(message: Seq<char>) -> ErrorModel {
        ErrorModel { kind: ErrorKind::NotFound, code: ErrorCode::NOT_FOUND, message }
    }

    pub open spec fn not_found(resource: Seq<char>) -> ErrorModel {
        ErrorModel::not_found_msg(resource + " not found"@)
    }

    pub open spec fn invalid_name(name: Seq<char>) -> ErrorModel {
        ErrorModel::bad_request_with(ErrorCode::INVALID_NAME, "Invalid "@ + name)
    }

    pub open spec fn already_exists(resource: Seq<char>) -> ErrorModel {
        ErrorModel {
            kind: ErrorKind::Conflict,
            code: ErrorCode::ALREADY_EXISTS,
            message: resource + " already exists"@,
        }
    }

    pub open spec fn conflict(message: Seq<char>) -> ErrorModel {
        ErrorModel { kind: ErrorKind::Conflict, code: ErrorCode::CONFLICT, message }
    }

    pub open spec fn unprocessable_entity(message: Seq<char>) -> ErrorModel {
        ErrorModel {
            kind: ErrorKind::UnprocessableEntity,
            code: ErrorCode::UNPROCESSABLE_ENTITY,
            message,
        }
    }

    pub open spec fn service_unavailable(message: Seq<char>) -> ErrorModel {
        ErrorModel {
            kind: ErrorKind::ServiceUnavailable,
            code: ErrorCode::SERVICE_UNAVAILABLE,
            message,
        }
    }

    pub open spec fn data_inconsistency(resource: Seq<char>) -> ErrorModel {
        ErrorModel {
            kind: ErrorKind::DataInconsistency,
            code: ErrorCode::INTERNAL,
            message: resource + " data inconsistency"@,
        }
    }

    pub open spec fn internal(message: Seq<char>) -> ErrorModel {
        ErrorModel { kind: ErrorKind::Internal, code: ErrorCode::INTERNAL, message }
    }

    /// The message that a client sees.
    pub open spec fn public_message(self) -> Seq<char> {
        if self.kind.is_private() {
            "Internal server error"@
        } else {
            self.message
        }
    }
}

/// A failure of the web layer.
#[derive(Debug)]
pub enum WebError {
    BadRequest(ErrorCode, String),
    Unauthorized(ErrorCode, String),
    Forbidden(ErrorCode, String),
    NotFound(ErrorCode, String),
    Conflict(ErrorCode, String),
    Gone(ErrorCode, String),
    PayloadTooLarge(ErrorCode, String),
    UnprocessableEntity(ErrorCode, String),
    ServiceUnavailable(ErrorCode, String),
    /// Referential-integrity mismatch detected at request time, such as a build
    /// row whose derivation row was concurrently deleted. Answered like
    /// `Internal`.
    DataInconsistency(String),
    Internal(String),
}

pub type WebResult<T> = Result<T, WebError>;

impl View for WebError {
    type V = ErrorModel;

    open spec fn view(&self) -> ErrorModel {
        match self {
            WebError::BadRequest(c, m) => ErrorModel {
                kind: ErrorKind::BadRequest,
                code: *c,
                message: m@,
            },
            WebError::Unauthorized(c, m) => ErrorModel {
                kind: ErrorKind::Unauthorized,
                code: *c,
                message: m@,
            },
            WebError::Forbidden(c, m) => ErrorModel {
                kind: ErrorKind::Forbidden,
                code: *c,
                message: m@,
            },
            WebError::NotFound(c, m) => ErrorModel {
                kind: ErrorKind::NotFound,
                code: *c,
                message: m@,
            },
            WebError::Conflict(c, m) => ErrorModel {
                kind: ErrorKind::Conflict,
                code: *c,
                message: m@,
            },
            WebError::Gone(c, m) => ErrorModel {
                kind: ErrorKind::Gone,
                code: *c,
                message: m@,
            },
            WebError::PayloadTooLarge(c, m) => ErrorModel {
                kind: ErrorKind::PayloadTooLarge,
                code: *c,
                message: m@,
            },
            WebError::UnprocessableEntity(c, m) => ErrorModel {
                kind: ErrorKind::UnprocessableEntity,
                code: *c,
                message: m@,
            },
            WebError::ServiceUnavailable(c, m) => ErrorModel {
                kind: ErrorKind::ServiceUnavailable,
                code: *c,
                message: m@,
            },
            WebError::DataInconsistency(m) => ErrorModel {
                kind: ErrorKind::DataInconsistency,
                code: ErrorCode::INTERNAL,
                message: m@,
            },
            WebError::Internal(m) => ErrorModel::internal(m@),
        }
    }
}

/// The response emitted for a `WebError`.
#[derive(Debug)]
pub struct ErrorResponse {
    pub status: u16,
    pub error: bool,
    pub code: ErrorCode,
    pub message: String,
}

impl WebError {
    /// HTTP status this error maps to.
    pub fn status(&self) -> (r: u16)
        ensures
            r == self@.kind.http_status(),
    {
        match self {
            WebError::BadRequest(_, _) => 400,
            WebError::Unauthorized(_, _) => 401,
            WebError::Forbidden(_, _) => 403,
            WebError::NotFound(_, _) => 404,
            WebError::Conflict(_, _) => 409,
            WebError::Gone(_, _) => 410,
            WebError::PayloadTooLarge(_, _) => 413,
            WebError::UnprocessableEntity(_, _) => 422,
            WebError::ServiceUnavailable(_, _) => 503,
            WebError::DataInconsistency(_) => 500,
            WebError::Internal(_) => 500,
        }
    }

    /// Stable error slug returned in the JSON body.
    pub fn code(&self) -> (r: ErrorCode)
        ensures
            r == self@.code,
    {
        match self {
            WebError::BadRequest(c, _) => *c,
            WebError::Unauthorized(c, _) => *c,
            WebError::Forbidden(c, _) => *c,
            WebError::NotFound(c, _) => *c,
            WebError::Conflict(c, _) => *c,
            WebError::Gone(c, _) => *c,
            WebError::PayloadTooLarge(c, _) => *c,
            WebError::UnprocessableEntity(c, _) => *c,
            WebError::ServiceUnavailable(c, _) => *c,
            WebError::DataInconsistency(_) => ErrorCode::INTERNAL,
            WebError::Internal(_) => ErrorCode::INTERNAL,
        }
    }

    /// The message shown to the client. What went wrong inside the server stays
    /// there.
    pub fn public_message(&self) -> (r: String)
        ensures
            r@ == self@.public_message(),
    {
        match self {
            WebError::BadRequest(_, m) => m.clone(),
            WebError::Unauthorized(_, m) => m.clone(),
            WebError::Forbidden(_, m) => m.clone(),
            WebError::NotFound(_, m) => m.clone(),
            WebError::Conflict(_, m) => m.clone(),
            WebError::Gone(_, m) => m.clone(),
            WebError::PayloadTooLarge(_, m) => m.clone(),
            WebError::UnprocessableEntity(_, m) => m.clone(),
            WebError::ServiceUnavailable(_, m) => m.clone(),
            WebError::DataInconsistency(_) => "Internal server error".to_owned(),
            WebError::Internal(_) => "Internal server error".to_owned(),
        }
    }

    /// The status and JSON body that answer a request which failed this way.
    pub fn into_response(self) -> (r: ErrorResponse)
        ensures
            r.status == self@.kind.http_status(),
            r.error,
            r.code == self@.code,
            r.message@ == self@.public_message(),
    {
        ErrorResponse {
            status: self.status(),
            error: true,
            code: self.code(),
            message: self.public_message(),
        }
    }

    pub fn bad_request(msg: &str) -> (r: WebError)
        ensures
            r@ == ErrorModel::bad_request(msg@),
    {
        WebError::BadRequest(ErrorCode::BAD_REQUEST, msg.to_owned())
    }

    pub fn unauthorized(msg: &str) -> (r: WebError)
        ensures
            r@ == ErrorModel::unauthorized(msg@),
    {
        WebError::Unauthorized(ErrorCode::UNAUTHORIZED, msg.to_owned())
    }

    pub fn forbidden(msg: &str) -> (r: WebError)
        ensures
            r@ == ErrorModel::forbidden(msg@),
    {
        WebError::Forbidden(ErrorCode::FORBIDDEN, msg.to_owned())
    }

    pub fn conflict(msg: &str) -> (r: WebError)
        ensures
            r@ == ErrorModel::conflict(msg@),
    {
        WebError::Conflict(ErrorCode::CONFLICT, msg.to_owned())
    }

    pub fn not_found_msg(msg: &str) -> (r: WebError)
        ensures
            r@ == ErrorModel::not_found_msg(msg@),
    {
        WebError::NotFound(ErrorCode::NOT_FOUND, msg.to_owned())
    }

    pub fn service_unavailable(msg: &str) -> (r: WebError)
        ensures
            r@ == ErrorModel::service_unavailable(msg@),
    {
        WebError::ServiceUnavailable(ErrorCode::SERVICE_UNAVAILABLE, msg.to_owned())
    }

    pub fn unprocessable_entity(msg: &str) -> (r: WebError)
        ensures
            r@ == ErrorModel::unprocessable_entity(msg@),
    {
        WebError::UnprocessableEntity(ErrorCode::UNPROCESSABLE_ENTITY, msg.to_owned())
    }

    pub fn gone(msg: &str) -> (r: WebError)
        ensures
            r@ == (ErrorModel { kind: ErrorKind::Gone, code: ErrorCode::GONE, message: msg@ }),
    {
        WebError::Gone(ErrorCode::GONE, msg.to_owned())
    }

    pub fn payload_too_large(msg: &str) -> (r: WebError)
        ensures
            r@ == (ErrorModel { kind: ErrorKind::PayloadTooLarge, code: ErrorCode::PAYLOAD_TOO_LARGE, message: msg@ }),
    {
        WebError::PayloadTooLarge(ErrorCode::PAYLOAD_TOO_LARGE, msg.to_owned())
    }

    pub fn bad_request_with(code: ErrorCode, msg: &str) -> (r: WebError)
        ensures
            r@ == ErrorModel::bad_request_with(code, msg@),
    {
        WebError::BadRequest(code, msg.to_owned())
    }

    pub fn unauthorized_with(code: ErrorCode, msg: &str) -> (r: WebError)
        ensures
            r@ == (ErrorModel { kind: ErrorKind::Unauthorized, code: code, message: msg@ }),
    {
        WebError::Unauthorized(code, msg.to_owned())
    }

    pub fn forbidden_with(code: ErrorCode, msg: &str) -> (r: WebError)
        ensures
            r@ == ErrorModel::forbidden_with(code, msg@),
    {
        WebError::Forbidden(code, msg.to_owned())
    }

    pub fn internal(msg: &str) -> (r: WebError)
        ensures
            r@ == ErrorModel::internal(msg@),
    {
        WebError::Internal(msg.to_owned())
    }

    // ── Domain-specific constructors ────────────────────────────────────────

    pub fn invalid_name(name: &str) -> (r: WebError)
        ensures
            r@ == ErrorModel::invalid_name(name@),
    {
        WebError::BadRequest(ErrorCode::INVALID_NAME, cat("Invalid ", name))
    }

    pub fn already_exists(resource: &str) -> (r: WebError)
        ensures
            r@ == ErrorModel::already_exists(resource@),
    {
        WebError::Conflict(ErrorCode::ALREADY_EXISTS, cat(resource, " already exists"))
    }

    pub fn not_found(resource: &str) -> (r: WebError)
        ensures
            r@ == ErrorModel::not_found(resource@),
    {
        WebError::NotFound(ErrorCode::NOT_FOUND, cat(resource, " not found"))
    }

    /// A referential-integrity violation of `resource` found at request time.
    pub fn data_inconsistency(resource: &str) -> (r: WebError)
        ensures
            r@ == ErrorModel::data_inconsistency(resource@),
    {
        WebError::DataInconsistency(cat(resource, " data inconsistency"))
    }

    pub fn invalid_credentials() -> (r: WebError)
        ensures
            r@ == (ErrorModel { kind: ErrorKind::Unauthorized, code: ErrorCode::INVALID_CREDENTIALS, message: "Invalid credentials"@ }),
    {
        WebError::Unauthorized(ErrorCode::INVALID_CREDENTIALS, "Invalid credentials".to_owned())
    }

    pub fn oauth_disabled() -> (r: WebError)
        ensures
            r@ == (ErrorModel { kind: ErrorKind::BadRequest, code: ErrorCode::OAUTH_DISABLED, message: "OAuth login is disabled"@ }),
    {
        WebError::BadRequest(ErrorCode::OAUTH_DISABLED, "OAuth login is disabled".to_owned())
    }

    pub fn oauth_required() -> (r: WebError)
        ensures
            r@ == (ErrorModel { kind: ErrorKind::Unauthorized, code: ErrorCode::OAUTH_REQUIRED, message: "Please login via OAuth"@ }),
    {
        WebError::Unauthorized(ErrorCode::OAUTH_REQUIRED, "Please login via OAuth".to_owned())
    }

    pub fn registration_disabled() -> (r: WebError)
        ensures
            r@ == (ErrorModel { kind: ErrorKind::BadRequest, code: ErrorCode::REGISTRATION_DISABLED, message: "Registration is disabled"@ }),
    {
        WebError::BadRequest(ErrorCode::REGISTRATION_DISABLED, "Registration is disabled".to_owned())
    }

    pub fn invalid_email() -> (r: WebError)
        ensures
            r@ == (ErrorModel { kind: ErrorKind::BadRequest, code: ErrorCode::INVALID_EMAIL, message: "Invalid Email"@ }),
    {
        WebError::BadRequest(ErrorCode::INVALID_EMAIL, "Invalid Email".to_owned())
    }

    pub fn invalid_oauth_code() -> (r: WebError)
        ensures
            r@ == (ErrorModel { kind: ErrorKind::BadRequest, code: ErrorCode::INVALID_OAUTH_CODE, message: "Invalid OAuth Code"@ }),
    {
        WebError::BadRequest(ErrorCode::INVALID_OAUTH_CODE, "Invalid OAuth Code".to_owned())
    }

    pub fn failed_to_generate_token() -> (r: WebError)
        ensures
            r@ == ErrorModel::internal("["@ + ErrorCode::TOKEN_GENERATION_FAILED.slug()
                + "] Failed to generate token"@),
    {
        WebError::Internal(cat3("[", ErrorCode::TOKEN_GENERATION_FAILED.as_str(), "] Failed to generate token"))
    }

    pub fn failed_to_update_user() -> (r: WebError)
        ensures
            r@ == ErrorModel::internal("["@ + ErrorCode::USER_UPDATE_FAILED.slug()
                + "] Failed to update user"@),
    {
        WebError::Internal(cat3("[", ErrorCode::USER_UPDATE_FAILED.as_str(), "] Failed to update user"))
    }

    pub fn failed_ssh_key_generation() -> (r: WebError)
        ensures
            r@ == ErrorModel::internal("["@ + ErrorCode::SSH_KEY_GENERATION_FAILED.slug()
                + "] Failed to generate SSH key"@),
    {
        WebError::Internal(cat3("[", ErrorCode::SSH_KEY_GENERATION_FAILED.as_str(), "] Failed to generate SSH key"))
    }

    pub fn invalid_password(reason: String) -> (r: WebError)
        ensures
            r@ == ErrorModel::bad_request_with(ErrorCode::INVALID_PASSWORD, "Invalid password: "@
                + reason@),
    {
        WebError::BadRequest(ErrorCode::INVALID_PASSWORD, cat("Invalid password: ", reason.as_str()))
    }

    pub fn invalid_username(reason: String) -> (r: WebError)
        ensures
            r@ == ErrorModel::bad_request_with(ErrorCode::INVALID_USERNAME, "Invalid username: "@
                + reason@),
    {
        WebError::BadRequest(ErrorCode::INVALID_USERNAME, cat("Invalid username: ", reason.as_str()))
    }

    /// An input that a validator refused, with the reason it gave.
    pub fn from_input_error(detail: &str) -> (r: WebError)
        ensures
            r@ == ErrorModel::bad_request_with(ErrorCode::INPUT_VALIDATION, detail@),
    {
        WebError::BadRequest(ErrorCode::INPUT_VALIDATION, detail.to_owned())
    }

    /// A request body that is not the JSON that the endpoint expects.
    pub fn from_json_rejection(detail: &str) -> (r: WebError)
        ensures
            r@ == ErrorModel::bad_request_with(ErrorCode::JSON_PARSING, "Invalid JSON: "@
                + detail@),
    {
        WebError::BadRequest(ErrorCode::JSON_PARSING, cat("Invalid JSON: ", detail))
    }

    /// The error of a failed INSERT or UPDATE on a table where a unique index is
    /// the source of truth for collision detection: `unique` says whether the
    /// index refused the row, `detail` what the database reported.
    pub fn from_write_failure(unique: bool, detail: &str, label: &str) -> (r: WebError)
        ensures
            r@ == if unique {
                ErrorModel::already_exists(label@)
            } else {
                ErrorModel::internal(detail@)
            },
    {
        if unique {
            return WebError::already_exists(label);
        }
        WebError::internal(detail)
    }

    /// Constructor for INSERT/UPDATE sites where a unique index is the source of
    /// truth for collision detection. Which of the two errors comes depends on
    /// what the database reported.
    pub fn from_db_err(err: DbErr, label: &str) -> (r: WebError)
        ensures
            r@ == if db_report_of(err).refuses_duplicate() {
                ErrorModel::already_exists(label@)
            } else {
                ErrorModel::internal(db_text(err))
            },
    {
        WebError::from_write_failure(
            is_unique_violation(db_report(&err)),
            db_message(&err).as_str(),
            label,
        )
    }
}

/// `sea_orm::DbErr`, the error of the database layer. Its contents are opaque.
#[verifier::external_type_specification]
#[verifier::external_body]
pub struct ExDbErr(DbErr);

/// What the database itself reported, by the statement that it answered, and whether the
/// report is of a unique index.
#[derive(Debug, Clone, Copy, PartialEq, Eq, Structural)]
pub enum DbReport {
    /// To a query.
    Query { unique: bool },
    /// To a statement that was executed.
    Exec { unique: bool },
    /// The database reported nothing.
    Nothing,
}

impl DbReport {
    /// A row was refused because of a unique index.
    pub open spec fn refuses_duplicate(self) -> bool {
        match self {
            DbReport::Query { unique } => unique,
            DbReport::Exec { unique } => unique,
            DbReport::Nothing => false,
        }
    }
}

/// What the database reported in an error.
pub uninterp spec fn db_report_of(err: DbErr) -> DbReport;

/// What the database reported: which of `DbErr::Query` and `DbErr::Exec` the error is,
/// and what `sqlx::error::DatabaseError::is_unique_violation` says of the driver error
/// inside. An error with no driver error inside reports nothing.
#[verifier::external_body]
fn db_report(err: &DbErr) -> (r: DbReport)
    ensures
        r == db_report_of(*err),
{
    match err {
        DbErr::Query(RuntimeErr::SqlxError(sqlx::Error::Database(e))) => {
            DbReport::Query { unique: e.is_unique_violation() }
        },
        DbErr::Exec(RuntimeErr::SqlxError(sqlx::Error::Database(e))) => {
            DbReport::Exec { unique: e.is_unique_violation() }
        },
        _ => DbReport::Nothing,
    }
}

/// Whether a row was refused because of a unique index.
fn is_unique_violation(report: DbReport) -> (r: bool)
    ensures
        r == report.refuses_duplicate(),
{
    match report {
        DbReport::Query { unique } => unique,
        DbReport::Exec { unique } => unique,
        DbReport::Nothing => false,
    }
}

/// The `Display` text of an error of the database layer.
pub uninterp spec fn db_text(err: DbErr) -> Seq<char>;

/// The `Display` text of a `sea_orm::DbErr`.
#[verifier::external_body]
fn db_message(err: &DbErr) -> (r: String)
    ensures
        r@ == db_text(*err),
{
    err.to_string()
}

/// Returns `Forbidden` when the user is not a superuser. Use at the top of
/// admin handlers.
pub fn require_superuser(superuser: bool) -> (r: Result<(), WebError>)
    ensures
        match r {
            Ok(_) => superuser,
            Err(e) => !superuser && e@ == ErrorModel::forbidden_with(
                ErrorCode::SUPERUSER_REQUIRED,
                "superuser required"@,
            ),
        },
{
    if superuser {
        Ok(())
    } else {
        Err(WebError::forbidden_with(ErrorCode::SUPERUSER_REQUIRED, "superuser required"))
    }
}

/// Whatever went wrong inside the server, the client learns only that
/// something did: two errors of an internal kind are answered alike.
pub proof fn law_internal_errors_look_alike(a: WebError, b: WebError)
    requires
        a@.kind.is_private(),
        b@.kind.is_private(),
    ensures
        a@.kind.http_status() == b@.kind.http_status(),
        a@.code == b@.code,
        a@.public_message() == b@.public_message(),
{
}

/// The status tells the kinds apart, but for the two internal ones.
pub proof fn law_status_determines_kind(a: ErrorKind, b: ErrorKind)
    requires
        a.http_status() == b.http_status(),
    ensures
        a == b || (a.is_private() && b.is_private()),
{
}

/// The slug of each code.
pub proof fn law_error_slugs(c: ErrorCode, r: &str)
    requires
        call_ensures(ErrorCode::as_str, (&c,), r),
    ensures
        c is BAD_REQUEST ==> r@ == "bad_request"@,
        c is VALIDATION ==> r@ == "validation"@,
        c is INPUT_VALIDATION ==> r@ == "input_validation"@,
        c is JSON_PARSING ==> r@ == "json_parsing"@,
        c is INVALID_NAME ==> r@ == "invalid_name"@,
        c is INVALID_EMAIL ==> r@ == "invalid_email"@,
        c is INVALID_PASSWORD ==> r@ == "invalid_password"@,
        c is INVALID_USERNAME ==> r@ == "invalid_username"@,
        c is INVALID_OAUTH_CODE ==> r@ == "invalid_oauth_code"@,
        c is OAUTH_DISABLED ==> r@ == "oauth_disabled"@,
        c is REGISTRATION_DISABLED ==> r@ == "registration_disabled"@,
        c is REPOSITORY_UNREACHABLE ==> r@ == "repository_unreachable"@,
        c is UNAUTHORIZED ==> r@ == "unauthorized"@,
        c is AUTHENTICATION ==> r@ == "authentication"@,
        c is INVALID_CREDENTIALS ==> r@ == "invalid_credentials"@,
        c is OAUTH_REQUIRED ==> r@ == "oauth_required"@,
        c is FORBIDDEN ==> r@ == "forbidden"@,
        c is SUPERUSER_REQUIRED ==> r@ == "superuser_required"@,
        c is FORBIDDEN_SOURCE_IP ==> r@ == "forbidden_source_ip"@,
        c is NOT_FOUND ==> r@ == "not_found"@,
        c is CONFLICT ==> r@ == "conflict"@,
        c is ALREADY_EXISTS ==> r@ == "already_exists"@,
        c is GONE ==> r@ == "gone"@,
        c is PAYLOAD_TOO_LARGE ==> r@ == "payload_too_large"@,
        c is UNPROCESSABLE_ENTITY ==> r@ == "unprocessable_entity"@,
        c is INTERNAL ==> r@ == "internal"@,
        c is DATABASE ==> r@ == "database"@,
        c is DATA_INCONSISTENCY ==> r@ == "data_inconsistency"@,
        c is TOKEN_GENERATION_FAILED ==> r@ == "token_generation_failed"@,
        c is USER_UPDATE_FAILED ==> r@ == "user_update_failed"@,
        c is SSH_KEY_GENERATION_FAILED ==> r@ == "ssh_key_generation_failed"@,
        c is SERVICE_UNAVAILABLE ==> r@ == "service_unavailable"@,
{
}

/// What a client gets of an error: the status of its kind, its code and its message. Of what
/// went wrong inside the server it gets no more than that something did.
pub proof fn law_error_responses(e: WebError, r: ErrorResponse)
    requires
        call_ensures(WebError::into_response, (e,), r),
    ensures
        r.error,
        match e {
            WebError::BadRequest(c, m) => r.status == 400 && r.code == c && r.message@ == m@,
            WebError::Unauthorized(c, m) => r.status == 401 && r.code == c && r.message@ == m@,
            WebError::Forbidden(c, m) => r.status == 403 && r.code == c && r.message@ == m@,
            WebError::NotFound(c, m) => r.status == 404 && r.code == c && r.message@ == m@,
            WebError::Conflict(c, m) => r.status == 409 && r.code == c && r.message@ == m@,
            WebError::Gone(c, m) => r.status == 410 && r.code == c && r.message@ == m@,
            WebError::PayloadTooLarge(c, m) => r.status == 413 && r.code == c && r.message@ == m@,
            WebError::UnprocessableEntity(c, m) => r.status == 422 && r.code == c && r.message@
                == m@,
            WebError::ServiceUnavailable(c, m) => r.status == 503 && r.code == c && r.message@
                == m@,
            WebError::DataInconsistency(_) => r.status == 500 && r.code == ErrorCode::INTERNAL
                && r.message@ == "Internal server error"@,
            WebError::Internal(_) => r.status == 500 && r.code == ErrorCode::INTERNAL && r.message@
                == "Internal server error"@,
        },
{
}

/// The constructors that take a message keep it, each under the code of its kind.
pub proof fn law_message_constructors(
    msg: &str,
    bad_request: WebError,
    unauthorized: WebError,
    forbidden: WebError,
    conflict: WebError,
    not_found_msg: WebError,
    service_unavailable: WebError,
    unprocessable_entity: WebError,
    gone: WebError,
    payload_too_large: WebError,
    internal: WebError,
)
    requires
        call_ensures(WebError::bad_request, (msg,), bad_request),
        call_ensures(WebError::unauthorized, (msg,), unauthorized),
        call_ensures(WebError::forbidden, (msg,), forbidden),
        call_ensures(WebError::conflict, (msg,), conflict),
        call_ensures(WebError::not_found_msg, (msg,), not_found_msg),
        call_ensures(WebError::service_unavailable, (msg,), service_unavailable),
        call_ensures(WebError::unprocessable_entity, (msg,), unprocessable_entity),
        call_ensures(WebError::gone, (msg,), gone),
        call_ensures(WebError::payload_too_large, (msg,), payload_too_large),
        call_ensures(WebError::internal, (msg,), internal),
    ensures
        bad_request matches WebError::BadRequest(c, m) && c == ErrorCode::BAD_REQUEST && m@ == msg@,
        unauthorized matches WebError::Unauthorized(c, m) && c == ErrorCode::UNAUTHORIZED
            && m@ == msg@,
        forbidden matches WebError::Forbidden(c, m) && c == ErrorCode::FORBIDDEN && m@ == msg@,
        conflict matches WebError::Conflict(c, m) && c == ErrorCode::CONFLICT && m@ == msg@,
        not_found_msg matches WebError::NotFound(c, m) && c == ErrorCode::NOT_FOUND && m@ == msg@,
        service_unavailable matches WebError::ServiceUnavailable(c, m)
            && c == ErrorCode::SERVICE_UNAVAILABLE && m@ == msg@,
        unprocessable_entity matches WebError::UnprocessableEntity(c, m)
            && c == ErrorCode::UNPROCESSABLE_ENTITY && m@ == msg@,
        gone matches WebError::Gone(c, m) && c == ErrorCode::GONE && m@ == msg@,
        payload_too_large matches WebError::PayloadTooLarge(c, m)
            && c == ErrorCode::PAYLOAD_TOO_LARGE && m@ == msg@,
        internal matches WebError::Internal(m) && m@ == msg@,
{
}

/// The constructors that take a code keep it.
pub proof fn law_coded_constructors(
    code: ErrorCode,
    msg: &str,
    bad: WebError,
    unauthorized: WebError,
    forbidden: WebError,
)
    requires
        call_ensures(WebError::bad_request_with, (code, msg), bad),
        call_ensures(WebError::unauthorized_with, (code, msg), unauthorized),
        call_ensures(WebError::forbidden_with, (code, msg), forbidden),
    ensures
        bad matches WebError::BadRequest(c, m) && c == code && m@ == msg@,
        unauthorized matches WebError::Unauthorized(c, m) && c == code && m@ == msg@,
        forbidden matches WebError::Forbidden(c, m) && c == code && m@ == msg@,
{
}

/// The errors that name a resource or a reason.
pub proof fn law_named_errors(
    name: &str,
    reason: String,
    invalid_name: WebError,
    exists_already: WebError,
    not_found: WebError,
    inconsistent: WebError,
    password: WebError,
    username: WebError,
    input: WebError,
    rejected: WebError,
)
    requires
        call_ensures(WebError::invalid_name, (name,), invalid_name),
        call_ensures(WebError::already_exists, (name,), exists_already),
        call_ensures(WebError::not_found, (name,), not_found),
        call_ensures(WebError::data_inconsistency, (name,), inconsistent),
        call_ensures(WebError::invalid_password, (reason,), password),
        call_ensures(WebError::invalid_username, (reason,), username),
        call_ensures(WebError::from_input_error, (name,), input),
        call_ensures(WebError::from_json_rejection, (name,), rejected),
    ensures
        invalid_name matches WebError::BadRequest(c, m) && c == ErrorCode::INVALID_NAME && m@
            == "Invalid "@ + name@,
        exists_already matches WebError::Conflict(c, m) && c == ErrorCode::ALREADY_EXISTS && m@
            == name@ + " already exists"@,
        not_found matches WebError::NotFound(c, m) && c == ErrorCode::NOT_FOUND && m@ == name@
            + " not found"@,
        inconsistent matches WebError::DataInconsistency(m) && m@ == name@
            + " data inconsistency"@,
        password matches WebError::BadRequest(c, m) && c == ErrorCode::INVALID_PASSWORD && m@
            == "Invalid password: "@ + reason@,
        username matches WebError::BadRequest(c, m) && c == ErrorCode::INVALID_USERNAME && m@
            == "Invalid username: "@ + reason@,
        input matches WebError::BadRequest(c, m) && c == ErrorCode::INPUT_VALIDATION && m@ == name@,
        rejected matches WebError::BadRequest(c, m) && c == ErrorCode::JSON_PARSING && m@
            == "Invalid JSON: "@ + name@,
{
}

/// The errors that always read the same.
pub proof fn law_fixed_errors(
    credentials: WebError,
    disabled: WebError,
    required: WebError,
    registration: WebError,
    email: WebError,
    oauth_code: WebError,
)
    requires
        call_ensures(WebError::invalid_credentials, (), credentials),
        call_ensures(WebError::oauth_disabled, (), disabled),
        call_ensures(WebError::oauth_required, (), required),
        call_ensures(WebError::registration_disabled, (), registration),
        call_ensures(WebError::invalid_email, (), email),
        call_ensures(WebError::invalid_oauth_code, (), oauth_code),
    ensures
        credentials matches WebError::Unauthorized(c, m) && c == ErrorCode::INVALID_CREDENTIALS
            && m@ == "Invalid credentials"@,
        disabled matches WebError::BadRequest(c, m) && c == ErrorCode::OAUTH_DISABLED && m@
            == "OAuth login is disabled"@,
        required matches WebError::Unauthorized(c, m) && c == ErrorCode::OAUTH_REQUIRED && m@
            == "Please login via OAuth"@,
        registration matches WebError::BadRequest(c, m) && c == ErrorCode::REGISTRATION_DISABLED
            && m@ == "Registration is disabled"@,
        email matches WebError::BadRequest(c, m) && c == ErrorCode::INVALID_EMAIL && m@
            == "Invalid Email"@,
        oauth_code matches WebError::BadRequest(c, m) && c == ErrorCode::INVALID_OAUTH_CODE && m@
            == "Invalid OAuth Code"@,
{
}

/// The failures inside the server that carry a slug.
pub proof fn law_slugged_failures(token: WebError, user: WebError, key: WebError)
    requires
        call_ensures(WebError::failed_to_generate_token, (), token),
        call_ensures(WebError::failed_to_update_user, (), user),
        call_ensures(WebError::failed_ssh_key_generation, (), key),
    ensures
        token matches WebError::Internal(m) && m@ == "["@ + "token_generation_failed"@
            + "] Failed to generate token"@,
        user matches WebError::Internal(m) && m@ == "["@ + "user_update_failed"@
            + "] Failed to update user"@,
        key matches WebError::Internal(m) && m@ == "["@ + "ssh_key_generation_failed"@
            + "] Failed to generate SSH key"@,
{
}

/// A write that a unique index refused is a conflict over the named resource; any other failure
/// stays inside the server. A database error is such a refusal when the database reported one,
/// to a query or to a statement.
pub proof fn law_write_failures(
    unique: bool,
    detail: &str,
    label: &str,
    r: WebError,
    err: DbErr,
    d: WebError,
)
    requires
        call_ensures(WebError::from_write_failure, (unique, detail, label), r),
        call_ensures(WebError::from_db_err, (err, label), d),
    ensures
        unique ==> (r matches WebError::Conflict(c, m) && c == ErrorCode::ALREADY_EXISTS && m@
            == label@ + " already exists"@),
        !unique ==> (r matches WebError::Internal(m) && m@ == detail@),
        d is Conflict <==> db_report_of(err) == (DbReport::Query { unique: true }) || db_report_of(
            err,
        ) == (DbReport::Exec { unique: true }),
        d is Conflict ==> d->Conflict_0 == ErrorCode::ALREADY_EXISTS && d->Conflict_1@ == label@
            + " already exists"@,
        !(d is Conflict) ==> (d matches WebError::Internal(m) && m@ == db_text(err)),
{
}

/// Only superusers pass; everybody else is told that one is required.
pub proof fn law_superusers_pass(superuser: bool, r: Result<(), WebError>)
    requires
        call_ensures(require_superuser, (superuser,), r),
    ensures
        r is Ok <==> superuser,
        r is Err ==> (r matches Err(WebError::Forbidden(c, m)) && c
            == ErrorCode::SUPERUSER_REQUIRED && m@ == "superuser required"@),
{
}

} // verus!
