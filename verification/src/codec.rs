//! Encodings, digests and tokens: the calls into the crates that provide them.

use base64::Engine;
use rand::RngExt;
use sha2::Digest;
use subtle::ConstantTimeEq;
use vstd::prelude::*;
use vstd::utf8::{encode_utf8, valid_utf8};

verus! {

// ── Hexadecimal ──────────────────────────────────────────────────────────────

/// `c` is a hexadecimal digit, in either case.
pub open spec fn is_hex(c: char) -> bool {
    '0' <= c <= '9' || 'a' <= c <= 'f' || 'A' <= c <= 'F'
}

/// The value of a hexadecimal digit.
pub open spec fn hex_value(c: char) -> int {
    if '0' <= c <= '9' {
        c as int - '0' as int
    } else if 'a' <= c <= 'f' {
        c as int - 'a' as int + 10
    } else {
        c as int - 'A' as int + 10
    }
}

/// The lower-case hexadecimal digit of a value below 16.
pub open spec fn hex_digit(n: int) -> char {
    if n < 10 {
        (('0' as int) + n) as char
    } else {
        (('a' as int) + n - 10) as char
    }
}

/// The bytes that `s` encodes, two digits each; `None` when its length is odd or
/// it holds anything but hexadecimal digits.
pub open spec fn hex_bytes(s: Seq<char>) -> Option<Seq<u8>> {
    if s.len() % 2 == 0 && forall|i: int| 0 <= i < s.len() ==> is_hex(#[trigger] s[i]) {
        Some(
            Seq::new(
                s.len() / 2,
                |i: int| (16 * hex_value(s[2 * i]) + hex_value(s[2 * i + 1])) as u8,
            ),
        )
    } else {
        None
    }
}

/// `b` in lower-case hexadecimal, two digits for each byte.
pub open spec fn hex_text(b: Seq<u8>) -> Seq<char> {
    Seq::new(
        2 * b.len(),
        |i: int|
            hex_digit(
                if i % 2 == 0 {
                    b[i / 2] as int / 16
                } else {
                    b[i / 2] as int % 16
                },
            ),
    )
}

/// `hex::decode`: both cases of the digits are read, an odd length or any other
/// character is refused.
#[verifier::external_body]
pub(crate) fn decode_hex(s: &str) -> (r: Option<Vec<u8>>)
    ensures
        match r {
            Some(v) => hex_bytes(s@) == Some(v@),
            None => hex_bytes(s@) is None,
        },
{
    hex::decode(s).ok()
}

/// `hex::encode`: two lower-case digits for each byte, the high half first.
#[verifier::external_body]
pub(crate) fn encode_hex(b: &[u8]) -> (r: String)
    ensures
        r@ == hex_text(b@),
{
    hex::encode(b)
}

/// Decoding undoes encoding.
pub proof fn law_hex_round_trip(b: Seq<u8>)
    ensures
        hex_bytes(hex_text(b)) == Some(b),
{
    let s = hex_text(b);
    assert forall|i: int| 0 <= i < s.len() implies is_hex(#[trigger] s[i]) by {
        let n = if i % 2 == 0 {
            b[i / 2] as int / 16
        } else {
            b[i / 2] as int % 16
        };
        assert(0 <= n < 16);
        assert(s[i] == hex_digit(n));
    }
    let d = hex_bytes(s)->0;
    assert forall|i: int| 0 <= i < b.len() implies d[i] == b[i] by {
        let hi = b[i] as int / 16;
        let lo = b[i] as int % 16;
        assert(s[2 * i] == hex_digit(hi));
        assert(s[2 * i + 1] == hex_digit(lo));
        assert(hex_value(hex_digit(hi)) == hi);
        assert(hex_value(hex_digit(lo)) == lo);
    }
    assert(d =~= b);
}

// ── Base64 ───────────────────────────────────────────────────────────────────

/// What `base64::engine::general_purpose::STANDARD` decodes a text to, if it
/// does.
pub uninterp spec fn base64_decoded(s: Seq<char>) -> Option<Seq<u8>>;

/// What `base64::engine::general_purpose::STANDARD` encodes bytes to.
pub uninterp spec fn base64_encoded(b: Seq<u8>) -> Seq<char>;

/// What `base64::engine::general_purpose::URL_SAFE_NO_PAD` encodes bytes to.
pub uninterp spec fn base64_url_encoded(b: Seq<u8>) -> Seq<char>;

/// `Engine::decode` of `base64::engine::general_purpose::STANDARD`.
#[verifier::external_body]
pub(crate) fn decode_base64(s: &str) -> (r: Option<Vec<u8>>)
    ensures
        match r {
            Some(v) => base64_decoded(s@) == Some(v@),
            None => base64_decoded(s@) is None,
        },
{
    base64::engine::general_purpose::STANDARD.decode(s).ok()
}

/// A character that standard base64 is written with.
pub open spec fn base64_char(c: char) -> bool {
    'A' <= c <= 'Z' || 'a' <= c <= 'z' || '0' <= c <= '9' || c == '+' || c == '/' || c == '='
}

/// `Engine::encode` of `base64::engine::general_purpose::STANDARD`: the text is
/// written in the standard alphabet, and decoding gives the bytes back. The
/// engine refuses lengths whose encoding would overflow, so the length is
/// bounded.
#[verifier::external_body]
pub(crate) fn encode_base64(b: &[u8]) -> (r: String)
    requires
        b@.len() <= 0x1000_0000,
    ensures
        r@ == base64_encoded(b@),
        base64_decoded(r@) == Some(b@),
        forall|i: int| 0 <= i < r@.len() ==> base64_char(#[trigger] r@[i]),
{
    base64::engine::general_purpose::STANDARD.encode(b)
}

/// `Engine::encode` of `base64::engine::general_purpose::URL_SAFE_NO_PAD`. The
/// engine refuses lengths whose encoding would overflow, so the length is
/// bounded.
#[verifier::external_body]
pub(crate) fn encode_base64_url(b: &[u8]) -> (r: String)
    requires
        b@.len() <= 0x1000_0000,
    ensures
        r@ == base64_url_encoded(b@),
{
    base64::engine::general_purpose::URL_SAFE_NO_PAD.encode(b)
}

// ── UTF-8 ────────────────────────────────────────────────────────────────────

/// `String::from_utf8`: the text that the bytes encode, where they are valid
/// UTF-8.
#[verifier::external_body]
pub(crate) fn decode_utf8_text(b: Vec<u8>) -> (r: Option<String>)
    ensures
        match r {
            Some(s) => valid_utf8(b@) && encode_utf8(s@) == b@,
            None => !valid_utf8(b@),
        },
{
    String::from_utf8(b).ok()
}

// ── Digests, comparison, randomness ──────────────────────────────────────────

/// The SHA-256 digest of `b`.
pub uninterp spec fn sha256(b: Seq<u8>) -> Seq<u8>;

/// `sha2::Sha256::digest`: the digest has 32 bytes.
#[verifier::external_body]
pub(crate) fn sha256_digest(b: &[u8]) -> (r: Vec<u8>)
    ensures
        r@ == sha256(b@),
        r@.len() == 32,
{
    sha2::Sha256::digest(b).to_vec()
}

/// `subtle::ConstantTimeEq::ct_eq` on byte slices: whether lengths and contents
/// agree.
#[verifier::external_body]
pub(crate) fn ct_equal(a: &[u8], b: &[u8]) -> (r: bool)
    ensures
        r == (a@ == b@),
{
    a.ct_eq(b).into()
}

/// `n` bytes from `rand::rng`. Nothing but their number is fixed: the bytes are
/// chosen at random.
#[verifier::external_body]
pub(crate) fn random_bytes(n: usize) -> (r: Vec<u8>)
    ensures
        r@.len() == n,
{
    let mut raw = vec![0u8; n];
    rand::rng().fill(&mut raw[..]);
    raw
}

// ── UUIDs ────────────────────────────────────────────────────────────────────

/// What `uuid::Uuid::parse_str` reads a text as, taken as a big-endian number.
pub uninterp spec fn uuid_parsed(s: Seq<char>) -> Option<u128>;

/// The version field of a UUID: the high half of its seventh byte.
pub open spec fn uuid_version(u: u128) -> u128 {
    (u >> 76) & 0xf
}

/// The `i`-th of the 32 hexadecimal digits of a UUID, from the left.
pub open spec fn uuid_nibble(u: u128, i: int) -> int {
    ((u >> ((4 * (31 - i)) as u128)) & 0xf) as int
}

/// A UUID in lower case with hyphens, in groups of 8, 4, 4, 4 and 12 digits.
pub open spec fn uuid_text(u: u128) -> Seq<char> {
    Seq::new(
        36,
        |i: int|
            if i == 8 || i == 13 || i == 18 || i == 23 {
                '-'
            } else if i < 8 {
                hex_digit(uuid_nibble(u, i))
            } else if i < 13 {
                hex_digit(uuid_nibble(u, i - 1))
            } else if i < 18 {
                hex_digit(uuid_nibble(u, i - 2))
            } else if i < 23 {
                hex_digit(uuid_nibble(u, i - 3))
            } else {
                hex_digit(uuid_nibble(u, i - 4))
            },
    )
}

/// `uuid::Uuid::parse_str`, with the UUID as a big-endian number.
#[verifier::external_body]
pub(crate) fn parse_uuid(s: &str) -> (r: Option<u128>)
    ensures
        r == uuid_parsed(s@),
{
    uuid::Uuid::parse_str(s).ok().map(|u| u.as_u128())
}

/// The `Display` text of a `uuid::Uuid`: lower case with hyphens, which
/// `Uuid::parse_str` reads back.
#[verifier::external_body]
pub(crate) fn format_uuid(u: u128) -> (r: String)
    ensures
        r@ == uuid_text(u),
        uuid_parsed(r@) == Some(u),
{
    uuid::Uuid::from_u128(u).to_string()
}

/// Whether `uuid::Uuid::get_version` answers `Version::Random`, which it does
/// when the version field holds 4.
#[verifier::external_body]
pub(crate) fn is_random_uuid(u: u128) -> (r: bool)
    ensures
        r == (uuid_version(u) == 4),
{
    uuid::Uuid::from_u128(u).get_version() == Some(uuid::Version::Random)
}

/// `uuid::Uuid::new_v4`, as a big-endian number. It is chosen at random, with the
/// version field set to 4.
#[verifier::external_body]
pub(crate) fn random_uuid() -> (r: u128)
    ensures
        uuid_version(r) == 4,
{
    uuid::Uuid::new_v4().as_u128()
}

// ── Dates ────────────────────────────────────────────────────────────────────

/// The first microsecond of the year -262143, counted from the Unix epoch.
pub const FIRST_DATE: i64 = -8334601228800000000;

/// The last microsecond of the year 262142, counted from the Unix epoch.
pub const LAST_DATE: i64 = 8210266876799999999;

/// A count of microseconds since the Unix epoch that `chrono` can hold.
pub open spec fn is_date(t: i64) -> bool {
    FIRST_DATE <= t <= LAST_DATE
}

/// The `Display` text of the `chrono::NaiveDateTime` that is `t` microseconds after
/// the Unix epoch.
pub uninterp spec fn date_text(t: i64) -> Seq<char>;

/// The `Display` text of a `chrono::NaiveDateTime`.
#[verifier::external_body]
pub(crate) fn format_date(t: i64) -> (r: String)
    requires
        is_date(t),
    ensures
        r@ == date_text(t),
{
    chrono::DateTime::from_timestamp_micros(t).expect("date in range").naive_utc().to_string()
}

/// What `to_rfc3339` gives for the `chrono::DateTime<Utc>` that is `t` microseconds
/// after the Unix epoch.
pub uninterp spec fn date_rfc3339(t: i64) -> Seq<char>;

/// `chrono::DateTime::to_rfc3339`, in UTC.
#[verifier::external_body]
pub(crate) fn format_rfc3339(t: i64) -> (r: String)
    requires
        is_date(t),
    ensures
        r@ == date_rfc3339(t),
{
    chrono::DateTime::from_timestamp_micros(t).expect("date in range").to_rfc3339()
}

} // verus!
