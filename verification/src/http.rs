//! HTTP headers, URLs and status codes.

use std::time::Duration;

use reqwest::header::{HeaderMap, HeaderValue};
use vstd::prelude::*;
use vstd::string::StringSliceAdditionalSpecFns;

use crate::text::{decimal, parse_unsigned, unsigned_value};

verus! {

// ---------------------------------------------------------------------------
// Calls into reqwest: headers
// ---------------------------------------------------------------------------

/// `reqwest::header::HeaderMap`, held as an opaque value; [`header_fields`] names its contents.
#[verifier::external_type_specification]
#[verifier::external_body]
#[verifier::reject_recursive_types(T)]
pub struct ExHeaderMap<T>(reqwest::header::HeaderMap<T>);

/// `reqwest::header::HeaderValue`, held as an opaque value; [`header_bytes`] names its contents.
#[verifier::external_type_specification]
#[verifier::external_body]
pub struct ExHeaderValue(reqwest::header::HeaderValue);

/// The headers of a map: under each name, in lower case, the bytes of its first value.
pub uninterp spec fn header_fields(headers: HeaderMap) -> Map<Seq<char>, Seq<u8>>;

/// The bytes of a header value.
pub uninterp spec fn header_bytes(value: HeaderValue) -> Seq<u8>;

/// Whether a text is a header name in lower case: letters, digits and hyphens, at most 64.
pub open spec fn header_name(name: Seq<char>) -> bool {
    &&& 0 < name.len() <= 64
    &&& forall|i: int|
        0 <= i < name.len() ==> ('a' <= #[trigger] name[i] <= 'z' || '0' <= name[i] <= '9'
            || name[i] == '-')
}

/// Whether a text can be a header value: no ASCII control characters but the tabulator.
pub open spec fn header_text(value: Seq<char>) -> bool {
    forall|i: int|
        0 <= i < value.len() ==> ((#[trigger] value[i] as u32 >= 32 && value[i] as u32 != 127)
            || value[i] == '\t')
}

/// Whether bytes are visible ASCII, spaces and tabulators throughout.
pub open spec fn visible(bytes: Seq<u8>) -> bool {
    forall|i: int| 0 <= i < bytes.len() ==> (32 <= #[trigger] bytes[i] < 127 || bytes[i] == 9)
}

/// Calls `HeaderMap::new`: a map without headers.
#[verifier::external_body]
pub(crate) fn new_headers() -> (headers: HeaderMap)
    ensures
        header_fields(headers).is_empty(),
{
    HeaderMap::new()
}

/// Calls `HeaderMap::insert`: the name has this one value afterwards and every other name what it
/// had. The call panics on a malformed name, and once a map holds tens of thousands of names.
#[verifier::external_body]
pub(crate) fn insert_header(headers: &mut HeaderMap, name: &'static str, value: HeaderValue)
    requires
        header_name(name@),
        header_fields(*old(headers)).dom().finite(),
        header_fields(*old(headers)).dom().len() < 64,
    ensures
        header_fields(*final(headers)) == header_fields(*old(headers)).insert(
            name@,
            header_bytes(value),
        ),
{
    headers.insert(name, value);
}

/// Calls `HeaderMap::get`: the first value of a name.
#[verifier::external_body]
pub(crate) fn get_header<'a>(headers: &'a HeaderMap, name: &str) -> (value: Option<&'a HeaderValue>)
    requires
        header_name(name@),
    ensures
        match value {
            Some(v) => header_fields(*headers).dom().contains(name@)
                && header_fields(*headers)[name@] == header_bytes(*v),
            None => !header_fields(*headers).dom().contains(name@),
        },
{
    headers.get(name)
}

/// Calls `HeaderValue::from_str`, which takes exactly the texts without ASCII control characters
/// other than the tabulator, byte for byte. An error is given by the description that its
/// `Display` writes, which is always the same.
#[verifier::external_body]
pub(crate) fn header_value(text: &str) -> (value: Result<HeaderValue, String>)
    ensures
        match value {
            Ok(v) => header_text(text@) && header_bytes(v) == text.spec_bytes(),
            Err(e) => !header_text(text@) && e@ == "failed to parse header value"@,
        },
{
    HeaderValue::from_str(text).map_err(|e| e.to_string())
}

/// Calls `HeaderValue::from_static`, which takes a text of visible ASCII as it stands and panics on
/// any other.
#[verifier::external_body]
pub(crate) fn static_header_value(text: &'static str) -> (value: HeaderValue)
    requires
        visible(text.spec_bytes()),
    ensures
        header_bytes(value) == text.spec_bytes(),
{
    HeaderValue::from_static(text)
}

/// Calls `HeaderValue::to_str`, which gives the text of exactly the values that are visible ASCII.
#[verifier::external_body]
pub(crate) fn header_value_text<'a>(value: &'a HeaderValue) -> (text: Option<&'a str>)
    ensures
        match text {
            Some(s) => visible(header_bytes(*value)) && s@ == header_bytes(*value).map_values(
                |b: u8| b as char,
            ),
            None => !visible(header_bytes(*value)),
        },
{
    value.to_str().ok()
}

// ---------------------------------------------------------------------------
// Calls into reqwest, url and std: status codes, URLs and durations
// ---------------------------------------------------------------------------

/// The reason phrase that `reqwest::StatusCode` displays behind a status code.
pub uninterp spec fn reason_phrase(code: u16) -> Seq<char>;

/// How a status code is displayed.
pub open spec fn status_display(code: u16) -> Seq<char> {
    decimal(code as nat) + " "@ + reason_phrase(code)
}

/// Displays a status code through `reqwest::StatusCode`, which exists for the codes from 100 to
/// 999: the code in decimal digits, a space and the reason phrase. The phrase is a function of the
/// code; nothing more is claimed of it.
#[verifier::external_body]
pub(crate) fn status_text(code: u16) -> (text: String)
    requires
        100 <= code <= 999,
    ensures
        text@ == decimal(code as nat) + " "@ + reason_phrase(code),
{
    reqwest::StatusCode::from_u16(code).unwrap().to_string()
}

/// What `url::Url::parse` makes of a text: the URL in its normal form, or the description of what
/// is wrong with it.
pub uninterp spec fn url_parse(text: Seq<char>) -> Result<Seq<char>, Seq<char>>;

/// Calls `url::Url::parse`, whose outcome is a function of the text. A URL is given by its
/// serialization, an error by the description that its `Display` writes.
#[verifier::external_body]
pub(crate) fn parse_url(text: &str) -> (url: Result<String, String>)
    ensures
        match url {
            Ok(u) => url_parse(text@) == Ok::<Seq<char>, Seq<char>>(u@),
            Err(e) => url_parse(text@) == Err::<Seq<char>, Seq<char>>(e@),
        },
{
    url::Url::parse(text).map(|u| u.to_string()).map_err(|e| e.to_string())
}

/// The duration of this many milliseconds.
pub uninterp spec fn milliseconds(n: u64) -> Duration;

/// `Duration::from_millis` gives the duration of this many milliseconds.
pub assume_specification [ Duration::from_millis ](n: u64) -> (d: Duration)
    ensures
        d == milliseconds(n),
;

/// The duration of this many seconds.
pub uninterp spec fn seconds(n: u64) -> Duration;

/// `Duration::from_secs` gives the duration of this many seconds.
pub assume_specification [ Duration::from_secs ](n: u64) -> (d: Duration)
    ensures
        d == seconds(n),
;

// ---------------------------------------------------------------------------
// How long to wait
// ---------------------------------------------------------------------------

/// The number that a header holds, if the header is there and holds a number in decimal digits.
pub open spec fn header_number(fields: Map<Seq<char>, Seq<u8>>, name: Seq<char>) -> Option<u64> {
    if fields.dom().contains(name) && visible(fields[name]) {
        unsigned_value(fields[name].map_values(|b: u8| b as char))
    } else {
        None
    }
}

/// How long the headers of an answer ask to wait: `retry-after-ms` in milliseconds, else
/// `retry-after` in seconds.
pub open spec fn retry_after(fields: Map<Seq<char>, Seq<u8>>) -> Option<Duration> {
    match header_number(fields, "retry-after-ms"@) {
        Some(n) => Some(milliseconds(n)),
        None => match header_number(fields, "retry-after"@) {
            Some(n) => Some(seconds(n)),
            None => None,
        },
    }
}

/// The number that a header holds, if the header is there and holds a number in decimal digits.
fn read_header_number(headers: &HeaderMap, name: &str) -> (number: Option<u64>)
    requires
        header_name(name@),
    ensures
        number == header_number(header_fields(*headers), name@),
{
    match get_header(headers, name) {
        Some(value) => match header_value_text(value) {
            Some(text) => parse_unsigned(text),
            None => None,
        },
        None => None,
    }
}

/// How long the headers of an answer ask to wait.
pub fn parse_retry_after(headers: &HeaderMap) -> (wait: Option<Duration>)
    ensures
        wait == retry_after(header_fields(*headers)),
{
    proof {
        reveal_strlit("retry-after-ms");
        reveal_strlit("retry-after");
    }
    match read_header_number(headers, "retry-after-ms") {
        Some(n) => Some(Duration::from_millis(n)),
        None => match read_header_number(headers, "retry-after") {
            Some(n) => Some(Duration::from_secs(n)),
            None => None,
        },
    }
}

} // verus!
