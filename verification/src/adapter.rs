//! The adapter: how requests to the backend are addressed and authorized, and what its answers
//! mean.

use std::time::Duration;

use reqwest::header::HeaderMap;
use vstd::prelude::*;
use vstd::string::is_ascii_spec_bytes;
use vstd::utf8::encode_utf8;

use crate::chat::ChatEvent;
use crate::decode::json_parse;
use crate::error::{ErrorView, ProviderError};
use crate::http::{
    header_fields, header_text, header_value, insert_header, new_headers, parse_retry_after,
    parse_url, retry_after, static_header_value, status_display, status_text, url_parse,
};
use crate::json::{Json, JsonTree};
use crate::stream::{
    event_outcome, outcome_view, parsed_view, read_event, read_text_in, text_in, SseEvent,
};
use crate::text::{
    contains_text, lowercase, occurs, to_lowercase, trim_end_slashes, truncate, truncated,
    without_trailing_slashes,
};
use crate::tool_buffer::ToolCallBuffer;

verus! {

/// The address of the backend.
pub const DEFAULT_BASE_URL: &'static str = "https://api.anthropic.com";

/// The version of the interface that requests ask for.
pub const DEFAULT_API_VERSION: &'static str = "2023-06-01";

/// What is sent with every streaming request besides what the adapter itself sends.
#[derive(Clone, Debug)]
pub struct HttpProviderExtras {
    /// Headers, by name and value.
    pub headers: Vec<(String, String)>,
}

impl Default for HttpProviderExtras {
    fn default() -> (extras: HttpProviderExtras)
        ensures
            extras.headers@.len() == 0,
    {
        HttpProviderExtras { headers: Vec::new() }
    }
}

/// A credential, ready for use.
#[derive(Debug)]
pub enum ResolvedAuth {
    ApiKey(String),
    Bearer(String),
    NoAuth,
}

impl ResolvedAuth {
    /// The secret, where there is one.
    pub open spec fn key(self) -> Option<Seq<char>> {
        match self {
            ResolvedAuth::ApiKey(k) => Some(k@),
            ResolvedAuth::Bearer(k) => Some(k@),
            ResolvedAuth::NoAuth => None,
        }
    }
}

/// Talks to the backend's messages interface.
#[derive(Debug)]
pub struct AnthropicAdapter {
    pub base_url: String,
    pub api_version: String,
    pub extras: HttpProviderExtras,
}

// ---------------------------------------------------------------------------
// Addresses
// ---------------------------------------------------------------------------

/// The address to which messages are sent.
pub open spec fn messages_address(base: Seq<char>) -> Seq<char> {
    without_trailing_slashes(base) + "/v1/messages"@
}

/// The address of the batches, or with a suffix that of one batch or of a part of it.
pub open spec fn batch_address(base: Seq<char>, suffix: Seq<char>) -> Seq<char> {
    without_trailing_slashes(base) + "/v1/messages/batches"@ + suffix
}

/// What a parsed address comes to: a bad one is this library's own fault.
pub open spec fn address_outcome(
    parsed: Result<Seq<char>, Seq<char>>,
    complaint: Seq<char>,
) -> Result<Seq<char>, ErrorView> {
    match parsed {
        Ok(url) => Ok(url),
        Err(e) => Err(ErrorView::Internal(complaint + e)),
    }
}

/// What the outcome of building an address says.
pub open spec fn address_view(outcome: Result<String, ProviderError>) -> Result<
    Seq<char>,
    ErrorView,
> {
    match outcome {
        Ok(url) => Ok(url@),
        Err(e) => Err(e@),
    }
}

/// What a parsed address comes to, given what parsing it came to.
pub fn checked_address(parsed: Result<String, String>, complaint: &str) -> (outcome: Result<
    String,
    ProviderError,
>)
    ensures
        address_view(outcome) == address_outcome(
            match parsed {
                Ok(url) => Ok(url@),
                Err(e) => Err(e@),
            },
            complaint@,
        ),
{
    match parsed {
        Ok(url) => Ok(url),
        Err(e) => {
            let mut text = complaint.to_string();
            text.append(e.as_str());
            Err(ProviderError::Internal(text))
        },
    }
}

impl AnthropicAdapter {
    /// The text of the address to which messages are sent.
    pub fn messages_address(&self) -> (out: String)
        ensures
            out@ == messages_address(self.base_url@),
    {
        let mut out = trim_end_slashes(self.base_url.as_str());
        out.append("/v1/messages");
        out
    }

    /// The text of the address of the batches, or with a suffix of one batch or of a part of it.
    pub fn batch_address(&self, suffix: &str) -> (out: String)
        ensures
            out@ == batch_address(self.base_url@, suffix@),
    {
        let mut out = trim_end_slashes(self.base_url.as_str());
        out.append("/v1/messages/batches");
        out.append(suffix);
        out
    }

    /// The URL to which messages are sent, whichever the model.
    pub fn build_url(&self, _model: &str) -> (outcome: Result<String, ProviderError>)
        ensures
            address_view(outcome) == address_outcome(
                url_parse(messages_address(self.base_url@)),
                "bad anthropic base_url: "@,
            ),
    {
        checked_address(
            parse_url(self.messages_address().as_str()),
            "bad anthropic base_url: ",
        )
    }

    /// The URL of the batches: with an empty suffix of all of them, with `/{id}` of one, with
    /// `/{id}/results` and `/{id}/cancel` of its parts.
    pub fn batch_url(&self, suffix: &str) -> (outcome: Result<String, ProviderError>)
        ensures
            address_view(outcome) == address_outcome(
                url_parse(batch_address(self.base_url@, suffix@)),
                "bad anthropic batch url: "@,
            ),
    {
        checked_address(
            parse_url(self.batch_address(suffix).as_str()),
            "bad anthropic batch url: ",
        )
    }
}

/// Slashes at the end of the base address make no difference.
pub proof fn law_trailing_slash_is_ignored(base: Seq<char>, suffix: Seq<char>)
    ensures
        messages_address(base.push('/')) == messages_address(base),
        batch_address(base.push('/'), suffix) == batch_address(base, suffix),
{
    assert(base.push('/').drop_last() =~= base);
}

// ---------------------------------------------------------------------------
// Headers
// ---------------------------------------------------------------------------

/// The headers of a request with the given version and key.
pub open spec fn request_headers(version: Seq<char>, key: Seq<char>) -> Map<Seq<char>, Seq<u8>> {
    Map::empty().insert("content-type"@, encode_utf8("application/json"@)).insert(
        "anthropic-version"@,
        encode_utf8(version),
    ).insert("x-api-key"@, encode_utf8(key))
}

/// What building the headers comes to.
pub open spec fn headers_outcome(version: Seq<char>, auth: ResolvedAuth) -> Result<
    Map<Seq<char>, Seq<u8>>,
    ErrorView,
> {
    if !header_text(version) {
        Err(ErrorView::Internal("bad version header: "@ + "failed to parse header value"@))
    } else {
        match auth.key() {
            Some(key) => if header_text(key) {
                Ok(request_headers(version, key))
            } else {
                Err(
                    ErrorView::Auth(
                        "malformed x-api-key value: "@ + "failed to parse header value"@,
                    ),
                )
            },
            None => Err(ErrorView::Auth("Anthropic requires an x-api-key; got Auth::None"@)),
        }
    }
}

/// What the outcome of building headers says.
pub open spec fn headers_view(outcome: Result<HeaderMap, ProviderError>) -> Result<
    Map<Seq<char>, Seq<u8>>,
    ErrorView,
> {
    match outcome {
        Ok(headers) => Ok(header_fields(headers)),
        Err(e) => Err(e@),
    }
}

/// A message made of two parts.
fn joined(first: &str, second: &str) -> (out: String)
    ensures
        out@ == first@ + second@,
{
    let mut out = first.to_string();
    out.append(second);
    out
}

impl AnthropicAdapter {
    /// The headers of a request. The key goes into `x-api-key`, whichever kind of key it is.
    pub fn build_headers(&self, auth: &ResolvedAuth) -> (outcome: Result<HeaderMap, ProviderError>)
        ensures
            headers_view(outcome) == headers_outcome(self.api_version@, *auth),
    {
        proof {
            reveal_strlit("content-type");
            reveal_strlit("anthropic-version");
            reveal_strlit("x-api-key");
            reveal_strlit("application/json");
            is_ascii_spec_bytes("application/json");
        }
        let mut headers = new_headers();
        let ghost none = header_fields(headers);
        assert(none =~= Map::empty());
        insert_header(&mut headers, "content-type", static_header_value("application/json"));
        let version = match header_value(self.api_version.as_str()) {
            Ok(v) => v,
            Err(e) => {
                return Err(ProviderError::Internal(joined("bad version header: ", e.as_str())));
            },
        };
        insert_header(&mut headers, "anthropic-version", version);
        match auth {
            ResolvedAuth::ApiKey(k) | ResolvedAuth::Bearer(k) => {
                let key = match header_value(k.as_str()) {
                    Ok(v) => v,
                    Err(e) => {
                        return Err(
                            ProviderError::Auth(joined("malformed x-api-key value: ", e.as_str())),
                        );
                    },
                };
                insert_header(&mut headers, "x-api-key", key);
            },
            ResolvedAuth::NoAuth => {
                return Err(
                    ProviderError::Auth(
                        "Anthropic requires an x-api-key; got Auth::None".to_string(),
                    ),
                );
            },
        }
        Ok(headers)
    }
}

/// A bearer token is sent exactly as an API key is.
pub proof fn law_bearer_is_sent_as_key(version: Seq<char>, key: String)
    ensures
        headers_outcome(version, ResolvedAuth::Bearer(key)) == headers_outcome(
            version,
            ResolvedAuth::ApiKey(key),
        ),
{
}

/// Where headers are built they are three: the content type, the version and the key.
pub proof fn law_headers_sent(version: Seq<char>, auth: ResolvedAuth)
    ensures
        headers_outcome(version, auth) matches Ok(headers) ==> {
            &&& headers.dom() == set!["content-type"@, "anthropic-version"@, "x-api-key"@]
            &&& headers["content-type"@] == encode_utf8("application/json"@)
            &&& headers["anthropic-version"@] == encode_utf8(version)
            &&& auth.key() matches Some(key) && headers["x-api-key"@] == encode_utf8(key)
        },
{
    reveal_strlit("content-type");
    reveal_strlit("anthropic-version");
    reveal_strlit("x-api-key");
    assert("content-type"@.len() != "anthropic-version"@.len());
    assert("content-type"@.len() != "x-api-key"@.len());
    assert("anthropic-version"@.len() != "x-api-key"@.len());
    if let Ok(headers) = headers_outcome(version, auth) {
        assert(headers.dom() =~= set!["content-type"@, "anthropic-version"@, "x-api-key"@]);
    }
}

// ---------------------------------------------------------------------------
// Answers
// ---------------------------------------------------------------------------

/// The message of a failure: the one that the body holds, or else the beginning of the body.
pub open spec fn failure_text(parsed: Result<JsonTree, Seq<char>>, body: Seq<char>) -> Seq<char> {
    match parsed {
        Ok(v) => match text_in(v, "error"@, "message"@) {
            Some(message) => message,
            None => truncated(body, 300),
        },
        Err(_) => truncated(body, 300),
    }
}

/// The error that an answer with the given status stands for, where `wait` is how long the answer
/// asks to wait, `lower` its message in lower case, and `shown` the status as it is displayed.
pub open spec fn classified(
    status: u16,
    wait: Option<Duration>,
    message: Seq<char>,
    lower: Seq<char>,
    shown: Seq<char>,
) -> ErrorView {
    if status == 401 || status == 403 {
        ErrorView::Auth(message)
    } else if status == 429 {
        ErrorView::RateLimited { retry_after: wait }
    } else if status == 503 || status == 504 {
        ErrorView::ModelOverloaded
    } else if status == 400 {
        if occurs(lower, "max_tokens"@) || occurs(lower, "context"@) {
            ErrorView::ContextTooLong { limit: 0, requested: 0 }
        } else {
            ErrorView::InvalidRequest(message)
        }
    } else if 500 <= status < 600 {
        ErrorView::Internal("status "@ + shown + ": "@ + message)
    } else {
        ErrorView::InvalidRequest("status "@ + shown + ": "@ + message)
    }
}

/// The error that an answer with the given status, headers and body stands for.
pub open spec fn classified_answer(
    status: u16,
    headers: Map<Seq<char>, Seq<u8>>,
    body: Seq<char>,
) -> ErrorView {
    let message = failure_text(json_parse(body), body);
    classified(status, retry_after(headers), message, lowercase(message), status_display(status))
}

/// A failed answer is never taken for one that could not be reached or understood, and only a
/// status that says so is taken for a refused credential, a limit or an overload.
pub proof fn law_failures_are_told_apart(
    status: u16,
    headers: Map<Seq<char>, Seq<u8>>,
    body: Seq<char>,
)
    ensures
        !(classified_answer(status, headers, body) is Network),
        !(classified_answer(status, headers, body) is Parse),
        classified_answer(status, headers, body) is Auth <==> status == 401 || status == 403,
        classified_answer(status, headers, body) is RateLimited <==> status == 429,
        classified_answer(status, headers, body) is ModelOverloaded <==> status == 503 || status
            == 504,
        classified_answer(status, headers, body) is ContextTooLong ==> status == 400,
{
}

/// The message of a failure, given what the body denotes.
pub fn failure_message_of(parsed: &Result<Json, String>, body: &str) -> (message: String)
    ensures
        message@ == failure_text(parsed_view(*parsed), body@),
{
    match parsed {
        Ok(v) => match read_text_in(v, "error", "message") {
            Some(message) => message.to_string(),
            None => truncate(body, 300),
        },
        Err(_) => truncate(body, 300),
    }
}

/// The error that an answer with the given status stands for.
pub fn classify_status(
    status: u16,
    wait: Option<Duration>,
    message: String,
    lower: &str,
    shown: &str,
) -> (error: ProviderError)
    ensures
        error@ == classified(status, wait, message@, lower@, shown@),
{
    if status == 401 || status == 403 {
        ProviderError::Auth(message)
    } else if status == 429 {
        ProviderError::RateLimited { retry_after: wait }
    } else if status == 503 || status == 504 {
        ProviderError::ModelOverloaded
    } else if status == 400 {
        if contains_text(lower, "max_tokens") || contains_text(lower, "context") {
            ProviderError::ContextTooLong { limit: 0, requested: 0 }
        } else {
            ProviderError::InvalidRequest(message)
        }
    } else {
        let mut text = "status ".to_string();
        text.append(shown);
        text.append(": ");
        text.append(message.as_str());
        if 500 <= status && status < 600 {
            ProviderError::Internal(text)
        } else {
            ProviderError::InvalidRequest(text)
        }
    }
}

impl AnthropicAdapter {
    /// What a server-sent event comes to; the tool calls it is about go through `buf`.
    pub fn parse_event(&self, raw: &SseEvent, buf: &mut ToolCallBuffer) -> (outcome: Result<
        Vec<ChatEvent>,
        ProviderError,
    >)
        ensures
            (outcome_view(outcome), final(buf)@) == event_outcome(
                raw.event@,
                raw.data@,
                json_parse(raw.data@),
                old(buf)@,
            ),
    {
        read_event(raw, Json::parse(raw.data.as_str()), buf)
    }

    /// The error that an answer other than a success stands for.
    pub fn classify_error(&self, status: u16, headers: &HeaderMap, body: &str) -> (error:
        ProviderError)
        requires
            100 <= status <= 999,
        ensures
            error@ == classified_answer(status, header_fields(*headers), body@),
    {
        let message = failure_message_of(&Json::parse(body), body);
        let lower = to_lowercase(message.as_str());
        classify_status(
            status,
            parse_retry_after(headers),
            message,
            lower.as_str(),
            status_text(status).as_str(),
        )
    }

    /// What is sent with every streaming request besides.
    pub fn extras(&self) -> (extras: &HttpProviderExtras)
        ensures
            *extras == self.extras,
    {
        &self.extras
    }
}

} // verus!
