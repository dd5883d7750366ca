//! Shared response and lookup helpers.

use crate::error::{ErrorModel, WebError, WebResult};
use vstd::prelude::*;

verus! {

/// Identifier of a row: a UUID as a big-endian number.
pub type Id = u128;

/// A point in time, in microseconds since the epoch.
pub type Timestamp = i64;

/// The standard response envelope.
pub struct BaseResponse<T> {
    pub error: bool,
    pub message: T,
}

/// Wraps a value in the standard successful `BaseResponse` envelope.
pub fn ok_json<T>(message: T) -> (r: BaseResponse<T>)
    ensures
        !r.error,
        r.message == message,
{
    BaseResponse { error: false, message }
}

/// Convert an `Option<T>` (typically the result of a database lookup) into a
/// `WebResult<T>`, mapping `None` to `WebError::NotFound` with a
/// `"<resource> not found"` message.
pub trait OptionExt<T>: Sized {
    spec fn found(self) -> Option<T>;

    fn or_not_found(self, resource: &str) -> (r: WebResult<T>)
        ensures
            match self.found() {
                Some(v) => r == Ok::<T, WebError>(v),
                None => r matches Err(e) && e@ == ErrorModel::not_found(resource@),
            },
    ;
}

impl<T> OptionExt<T> for Option<T> {
    open spec fn found(self) -> Option<T> {
        self
    }

    fn or_not_found(self, resource: &str) -> (r: WebResult<T>) {
        match self {
            Some(v) => Ok(v),
            None => Err(WebError::not_found(resource)),
        }
    }
}

/// An answer that went well carries its message, and says that there was no error.
pub proof fn law_answers_carry_their_message<T>(
    message: T,
    r: BaseResponse<T>,
)
    requires
        call_ensures(ok_json::<T>, (message,), r),
    ensures
        !r.error,
        r.message == message,
{
}

} // verus!
