//! Uploading archives.

use crate::error::{ErrorCode, ErrorModel, WebError, WebResult};
use crate::text::{cat, cat4, decimal, signed_decimal, to_decimal, to_signed_decimal};
use vstd::prelude::*;

verus! {

/// What an uploader declares of an archive.
#[derive(Debug, PartialEq, Eq)]
pub struct NarinfoPart {
    pub store_path: String,
    pub file_hash: String,
    pub file_size: i64,
    pub nar_size: i64,
    pub nar_hash: String,
    pub references: Vec<String>,
    pub deriver: Option<String>,
}

/// A part of an upload, after it was read.
pub enum UploadPart {
    /// The part could not be read, for this reason.
    Unreadable(String),
    Narinfo(NarinfoPart),
    /// The declaration is not well-formed, for this reason.
    BadNarinfo(String),
    Nar(Vec<u8>),
    Other,
}

/// What was uploaded: the last declaration and the last archive.
#[derive(Debug, PartialEq, Eq)]
pub struct Upload {
    pub narinfo: Option<NarinfoPart>,
    pub nar: Option<Vec<u8>>,
}

/// An upload before its first part.
pub open spec fn nothing_yet() -> Upload {
    Upload { narinfo: None, nar: None }
}

/// The upload after a part that could be read.
pub open spec fn with_part(u: Upload, part: UploadPart) -> Upload {
    match part {
        UploadPart::Narinfo(n) => Upload { narinfo: Some(n), nar: u.nar },
        UploadPart::Nar(b) => Upload { narinfo: u.narinfo, nar: Some(b) },
        _ => u,
    }
}

/// Why a part ends the upload, if it does.
pub open spec fn part_error(part: UploadPart) -> Option<ErrorModel> {
    match part {
        UploadPart::Unreadable(why) => Some(
            ErrorModel::bad_request_with(ErrorCode::INPUT_VALIDATION, why@),
        ),
        UploadPart::BadNarinfo(why) => Some(
            ErrorModel::bad_request_with(
                ErrorCode::INPUT_VALIDATION,
                "invalid narinfo JSON: "@ + why@,
            ),
        ),
        _ => None,
    }
}

impl Upload {
    /// An upload before its first part.
    pub fn new() -> (r: Upload)
        ensures
            r == nothing_yet(),
    {
        Upload { narinfo: None, nar: None }
    }

    /// Takes one part. Where a part comes twice, the last counts; parts of other
    /// names are skipped.
    pub fn receive(self, part: UploadPart) -> (r: WebResult<Upload>)
        ensures
            match r {
                Ok(u) => part_error(part) is None && u == with_part(self, part),
                Err(e) => part_error(part) == Some(e@),
            },
    {
        match part {
            UploadPart::Unreadable(why) => Err(
                WebError::bad_request_with(ErrorCode::INPUT_VALIDATION, why.as_str()),
            ),
            UploadPart::BadNarinfo(why) => Err(
                WebError::bad_request_with(
                    ErrorCode::INPUT_VALIDATION,
                    cat("invalid narinfo JSON: ", why.as_str()).as_str(),
                ),
            ),
            UploadPart::Narinfo(n) => Ok(Upload { narinfo: Some(n), nar: self.nar }),
            UploadPart::Nar(b) => Ok(Upload { narinfo: self.narinfo, nar: Some(b) }),
            UploadPart::Other => Ok(self),
        }
    }

    /// Why the upload is not taken, if it is not.
    pub open spec fn error(self) -> Option<ErrorModel> {
        if self.narinfo is None {
            Some(
                ErrorModel::bad_request_with(
                    ErrorCode::INPUT_VALIDATION,
                    "missing narinfo part"@,
                ),
            )
        } else if self.nar is None {
            Some(ErrorModel::bad_request_with(ErrorCode::INPUT_VALIDATION, "missing nar part"@))
        } else if self.nar->0@.len() as i64 != self.narinfo->0.file_size {
            Some(
                ErrorModel::bad_request_with(
                    ErrorCode::INPUT_VALIDATION,
                    "nar size mismatch: declared "@ + signed_decimal(
                        self.narinfo->0.file_size as int,
                    ) + " bytes, got "@ + decimal(self.nar->0@.len()),
                ),
            )
        } else {
            None
        }
    }

    /// The archive and its declaration, once all parts came: both are needed, and
    /// the archive has to be as long as declared.
    pub fn nars_upload(self) -> (r: WebResult<(NarinfoPart, Vec<u8>)>)
        ensures
            match r {
                Ok(x) => self.error() is None && self.narinfo == Some(x.0) && self.nar == Some(x.1),
                Err(e) => self.error() == Some(e@),
            },
    {
        let narinfo = match self.narinfo {
            Some(n) => n,
            None => {
                return Err(
                    WebError::bad_request_with(
                        ErrorCode::INPUT_VALIDATION,
                        "missing narinfo part",
                    ),
                );
            },
        };
        let nar = match self.nar {
            Some(b) => b,
            None => {
                return Err(
                    WebError::bad_request_with(ErrorCode::INPUT_VALIDATION, "missing nar part"),
                );
            },
        };
        let len: usize = nar.len();
        if len as i64 != narinfo.file_size {
            let declared = to_signed_decimal(narinfo.file_size);
            let got = to_decimal(len as u64);
            let message = cat4(
                "nar size mismatch: declared ",
                declared.as_str(),
                " bytes, got ",
                got.as_str(),
            );
            return Err(WebError::bad_request_with(ErrorCode::INPUT_VALIDATION, message.as_str()));
        }
        Ok((narinfo, nar))
    }
}

/// Whatever the order in which the two parts come, the upload is the same.
pub proof fn law_part_order_does_not_matter(u: Upload, n: NarinfoPart, b: Vec<u8>)
    ensures
        with_part(with_part(u, UploadPart::Narinfo(n)), UploadPart::Nar(b)) == with_part(
            with_part(u, UploadPart::Nar(b)),
            UploadPart::Narinfo(n),
        ),
{
}

/// A declaration or an archive takes the place of the one before it and leaves the other; other
/// parts change nothing. What cannot be read ends the upload.
pub proof fn law_upload_parts(
    u: Upload,
    part: UploadPart,
    r: WebResult<Upload>,
    fresh: Upload,
)
    requires
        call_ensures(Upload::receive, (u, part), r),
        call_ensures(Upload::new, (), fresh),
    ensures
        fresh.narinfo is None && fresh.nar is None,
        r is Err <==> part is Unreadable || part is BadNarinfo,
        match part {
            UploadPart::Unreadable(why) => (r matches Err(WebError::BadRequest(c, m))
                && c == ErrorCode::INPUT_VALIDATION && m@ == why@),
            UploadPart::BadNarinfo(why) => (r matches Err(WebError::BadRequest(c, m))
                && c == ErrorCode::INPUT_VALIDATION && m@ == "invalid narinfo JSON: "@ + why@),
            UploadPart::Narinfo(n) => r is Ok && r->Ok_0.narinfo == Some(n) && r->Ok_0.nar == u.nar,
            UploadPart::Nar(b) => r is Ok && r->Ok_0.nar == Some(b) && r->Ok_0.narinfo == u.narinfo,
            UploadPart::Other => r is Ok && r->Ok_0 == u,
        },
{
}

/// An upload is taken when declaration and archive are there and the archive is as long as
/// declared.
pub proof fn law_uploads_are_complete(
    u: Upload,
    r: WebResult<(NarinfoPart, Vec<u8>)>,
)
    requires
        call_ensures(Upload::nars_upload, (u,), r),
    ensures
        r is Ok <==> u.narinfo is Some && u.nar is Some
            && u.nar->0@.len() as i64 == u.narinfo->0.file_size,
        r matches Ok((n, b)) ==> u.narinfo == Some(n) && u.nar == Some(b),
        u.narinfo is None ==> (r matches Err(WebError::BadRequest(c, m))
            && c == ErrorCode::INPUT_VALIDATION && m@ == "missing narinfo part"@),
        u.narinfo is Some && u.nar is None ==> (r matches Err(WebError::BadRequest(c, m))
            && c == ErrorCode::INPUT_VALIDATION && m@ == "missing nar part"@),
        u.narinfo is Some && u.nar is Some && u.nar->0@.len() as i64 != u.narinfo->0.file_size
            ==> (r matches Err(WebError::BadRequest(c, m)) && c == ErrorCode::INPUT_VALIDATION
            && m@ == "nar size mismatch: declared "@ + signed_decimal(u.narinfo->0.file_size as int)
            + " bytes, got "@ + decimal(u.nar->0@.len())),
{
}

} // verus!
