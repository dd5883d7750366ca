//! Server configuration, health and content types.

use crate::error::{ErrorCode, ErrorModel, WebError};
use crate::helpers::{ok_json, BaseResponse};
use crate::paths::{basename, extension, file_extension};
use crate::text::{cat3, same, to_decimal};
use vstd::prelude::*;

verus! {

/// The extension of a file name, where it has one.
pub open spec fn extension_of(filename: Seq<char>) -> Option<Seq<char>> {
    match basename(filename) {
        Some(name) => extension(name),
        None => None,
    }
}

/// The content type for files with the extension `ext`.
pub open spec fn content_type_spec(ext: Option<Seq<char>>) -> Seq<char> {
    match ext {
        Some(e) => if e == "html"@ || e == "htm"@ {
            "text/html"@
        } else if e == "tar"@ {
            "application/x-tar"@
        } else if e == "gz"@ {
            "application/gzip"@
        } else if e == "zst"@ {
            "application/zstd"@
        } else if e == "txt"@ {
            "text/plain"@
        } else if e == "json"@ {
            "application/json"@
        } else if e == "zip"@ {
            "application/zip"@
        } else {
            "application/octet-stream"@
        },
        None => "application/octet-stream"@,
    }
}

/// The content type that a file is served with.
pub fn content_type_for_filename(filename: &str) -> (r: &'static str)
    ensures
        r@ == content_type_spec(extension_of(filename@)),
{
    match file_extension(filename) {
        Some(e) => if same(e, "html") || same(e, "htm") {
            "text/html"
        } else if same(e, "tar") {
            "application/x-tar"
        } else if same(e, "gz") {
            "application/gzip"
        } else if same(e, "zst") {
            "application/zstd"
        } else if same(e, "txt") {
            "text/plain"
        } else if same(e, "json") {
            "application/json"
        } else if same(e, "zip") {
            "application/zip"
        } else {
            "application/octet-stream"
        },
        None => "application/octet-stream",
    }
}

/// The error for paths that no route serves.
pub fn handle_404() -> (r: WebError)
    ensures
        r@ == ErrorModel::not_found_msg("Not Found"@),
{
    WebError::not_found_msg("Not Found")
}

/// The answer of the health probe.
pub fn get_health() -> (r: BaseResponse<String>)
    ensures
        !r.error,
        r.message@ == "200 ALIVE"@,
{
    ok_json("200 ALIVE".to_owned())
}

/// What clients learn of the server.
pub struct ServerConfig {
    pub version: String,
    pub oidc_enabled: bool,
    pub oidc_required: bool,
    pub registration_enabled: bool,
    pub email_verification_enabled: bool,
    /// Whether the server advertises HTTP/3 (QUIC) support.
    pub quic: bool,
}

/// The settings that [`get_config`] reads.
pub struct ServerSettings {
    pub version: String,
    /// Whether OIDC login is required, where OIDC is set up at all.
    pub oidc_required: Option<bool>,
    pub enable_registration: bool,
    /// Whether addresses have to be verified, where email is set up at all.
    pub email_verification: Option<bool>,
    pub quic: bool,
}

/// What clients learn of the server. Registration is closed while OIDC login is
/// required.
pub fn get_config(settings: &ServerSettings) -> (r: BaseResponse<ServerConfig>)
    ensures
        !r.error,
        r.message.version@ == settings.version@,
        r.message.oidc_enabled == (settings.oidc_required is Some),
        r.message.oidc_required == (settings.oidc_required == Some(true)),
        r.message.registration_enabled == (settings.enable_registration && settings.oidc_required
            != Some(true)),
        r.message.email_verification_enabled == (settings.email_verification == Some(true)),
        r.message.quic == settings.quic,
{
    let oidc_required = match settings.oidc_required {
        Some(required) => required,
        None => false,
    };
    let verify = match settings.email_verification {
        Some(required) => required,
        None => false,
    };
    ok_json(
        ServerConfig {
            version: settings.version.clone(),
            oidc_enabled: settings.oidc_required.is_some(),
            oidc_required,
            registration_enabled: settings.enable_registration && !oidc_required,
            email_verification_enabled: verify,
            quic: settings.quic,
        },
    )
}

/// The address that the development frontend is served from.
pub fn debug_url(ip: &str) -> (r: String)
    ensures
        r@ == "http://"@ + ip@ + ":8000"@,
{
    cat3("http://", ip, ":8000")
}

/// The address that the server listens on.
pub fn server_url(ip: &str, port: u16) -> (r: String)
    ensures
        r@ == ip@ + ":"@ + crate::text::decimal(port as nat),
{
    cat3(ip, ":", to_decimal(port as u64).as_str())
}

/// What files are served as, by their extension: anything else, and anything without one, is
/// plain bytes.
pub proof fn law_content_types(
    filename: &str,
    ext: Option<&str>,
    r: &'static str,
)
    requires
        call_ensures(file_extension, (filename,), ext),
        call_ensures(content_type_for_filename, (filename,), r),
    ensures
        ext is None ==> r@ == "application/octet-stream"@,
        ext is Some && ext->0@ == "html"@ ==> r@ == "text/html"@,
        ext is Some && ext->0@ == "htm"@ ==> r@ == "text/html"@,
        ext is Some && ext->0@ == "tar"@ ==> r@ == "application/x-tar"@,
        ext is Some && ext->0@ == "gz"@ ==> r@ == "application/gzip"@,
        ext is Some && ext->0@ == "zst"@ ==> r@ == "application/zstd"@,
        ext is Some && ext->0@ == "txt"@ ==> r@ == "text/plain"@,
        ext is Some && ext->0@ == "json"@ ==> r@ == "application/json"@,
        ext is Some && ext->0@ == "zip"@ ==> r@ == "application/zip"@,
        ext is Some && ext->0@ != "html"@ && ext->0@ != "htm"@ && ext->0@ != "tar"@
            && ext->0@ != "gz"@ && ext->0@ != "zst"@ && ext->0@ != "txt"@ && ext->0@ != "json"@
            && ext->0@ != "zip"@ ==> r@ == "application/octet-stream"@,
{
    reveal_strlit("html");
    reveal_strlit("htm");
    reveal_strlit("tar");
    reveal_strlit("gz");
    reveal_strlit("zst");
    reveal_strlit("txt");
    reveal_strlit("json");
    reveal_strlit("zip");
    assert("html"@.len() == 4 && "htm"@.len() == 3 && "tar"@.len() == 3 && "gz"@.len() == 2
        && "zst"@.len() == 3 && "txt"@.len() == 3 && "json"@.len() == 4 && "zip"@.len() == 3);
    assert("html"@[0] == 'h' && "json"@[0] == 'j');
    assert("htm"@[0] == 'h' && "tar"@[0] == 't' && "tar"@[1] == 'a' && "txt"@[0] == 't' && "txt"@[1] == 'x'
        && "zst"@[0] == 'z' && "zst"@[1] == 's' && "zip"@[0] == 'z' && "zip"@[1] == 'i');
}

/// What clients learn of the server: whether there is a login of an identity provider and
/// whether it is the only one, which closes registration, and whether addresses are verified.
pub proof fn law_server_config(
    settings: ServerSettings,
    r: BaseResponse<ServerConfig>,
    h: BaseResponse<String>,
    e: WebError,
)
    requires
        call_ensures(get_config, (&settings,), r),
        call_ensures(get_health, (), h),
        call_ensures(handle_404, (), e),
    ensures
        !r.error && !h.error && h.message@ == "200 ALIVE"@,
        (e matches WebError::NotFound(c, m) && c == ErrorCode::NOT_FOUND && m@ == "Not Found"@),
        r.message.version@ == settings.version@ && r.message.quic == settings.quic,
        settings.oidc_required is None ==> !r.message.oidc_enabled && !r.message.oidc_required
            && r.message.registration_enabled == settings.enable_registration,
        settings.oidc_required is Some && !settings.oidc_required->0 ==> r.message.oidc_enabled
            && !r.message.oidc_required && r.message.registration_enabled
            == settings.enable_registration,
        settings.oidc_required is Some && settings.oidc_required->0 ==> r.message.oidc_enabled
            && r.message.oidc_required && !r.message.registration_enabled,
        r.message.email_verification_enabled <==> settings.email_verification is Some
            && settings.email_verification->0,
{
}

/// The addresses of the server and of the development frontend.
pub proof fn law_addresses(
    ip: &str,
    port: u16,
    u: String,
    d: String,
)
    requires
        call_ensures(server_url, (ip, port), u),
        call_ensures(debug_url, (ip,), d),
    ensures
        u@ == ip@ + ":"@ + crate::text::decimal(port as nat),
        d@ == "http://"@ + ip@ + ":8000"@,
{
}

} // verus!
