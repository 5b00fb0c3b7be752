//! What the backend's answers mean, told by their status, headers and members alone.

use std::time::Duration;

use reqwest::header::HeaderMap;
use vstd::prelude::*;
use vstd::utf8::encode_utf8;

use crate::adapter::{
    address_outcome, address_view, batch_address, classified, classified_answer, failure_text,
    headers_outcome, headers_view, messages_address, AnthropicAdapter, ResolvedAuth,
};
use crate::batch::{
    block_text, blocks_text, counts_fit, idle_return, item_outcome, item_view, item_views,
    items_of_lines, response_of, results_of, results_view, status_of, status_view, BatchItemId,
    BatchResultItem, BatchStatus, ItemView,
};
use crate::chat::{CacheHitInfo, ChatRequest, ModelHint, ResponseView, StopReason, Usage};
use crate::decode::json_parse;
use crate::error::{ErrorView, ProviderError};
use crate::event_laws::{counted, said_in};
use crate::http::{
    header_fields, header_text, milliseconds, reason_phrase, retry_after, seconds, status_display,
    url_parse,
};
use crate::json::{Json, JsonTree};
use crate::request::translation_view;
use crate::submit::{
    assembled, batch_call, call_view, items_sent, optional_text, pending_text, status_told,
    submission, submitted, CallView, HttpCall, HttpMethod, Payload, Reply,
};
use crate::text::{
    blank, debug_form, decimal, digits_value, lines, lowercase, occurs, truncated,
};
use crate::text_laws::{law_numbers_read, law_slashes_stripped};

verus! {

/// The string that stands under a key.
pub open spec fn said(v: JsonTree, key: Seq<char>) -> Option<Seq<char>> {
    match v.field(key) {
        Some(JsonTree::Text(t)) => Some(t),
        _ => None,
    }
}

/// The unsigned number that stands under `inner` in the member under `outer`, or zero.
pub open spec fn counted_in(v: JsonTree, outer: Seq<char>, inner: Seq<char>) -> u64 {
    match v.field(outer) {
        Some(x) => counted(x, inner),
        None => 0,
    }
}

// ---------------------------------------------------------------------------
// The status of a batch
// ---------------------------------------------------------------------------

/// One of the request counts, as a 32-bit number.
pub open spec fn requests(v: JsonTree, name: Seq<char>) -> u32 {
    counted_in(v, "request_counts"@, name) as u32
}

/// The number of requests that are done: those that succeeded, failed, were cancelled or expired.
pub open spec fn requests_done(v: JsonTree) -> int {
    requests(v, "succeeded"@) + requests(v, "errored"@) + requests(v, "canceled"@) + requests(
        v,
        "expired"@,
    )
}

/// The counts fit exactly if all of them together are a 32-bit number.
pub proof fn law_counts_fit(v: JsonTree)
    ensures
        counts_fit(v) <==> requests_done(v) + requests(v, "processing"@) <= u32::MAX,
{
}

/// A batch that is under way, being cancelled or not, reports how many requests are done, in
/// whatever way, and of how many: the others are being processed.
pub proof fn law_batch_under_way(v: JsonTree)
    requires
        requests_done(v) + requests(v, "processing"@) <= u32::MAX,
        said(v, "processing_status"@) == Some("in_progress"@) || said(v, "processing_status"@)
            == Some("canceling"@),
    ensures
        status_of(v) matches Ok(BatchStatus::InProgress { processed, total, eta }) && {
            &&& processed == requests_done(v)
            &&& total matches Some(n) && n - processed == requests(v, "processing"@)
            &&& eta is None
        },
{
}

/// A batch that has ended is cancelled if requests are done and all of those were cancelled, expired
/// if all of those expired, and complete otherwise.
pub proof fn law_batch_ended(v: JsonTree)
    requires
        said(v, "processing_status"@) == Some("ended"@),
    ensures
        ({
            let done = requests_done(v);
            let cancelled = requests(v, "canceled"@);
            let expired = requests(v, "expired"@);
            &&& done > 0 && cancelled == done ==> status_of(v) == Ok::<BatchStatus, ErrorView>(
                BatchStatus::Cancelled,
            )
            &&& done > 0 && expired == done ==> status_of(v) == Ok::<BatchStatus, ErrorView>(
                BatchStatus::Expired,
            )
            &&& done == 0 || (cancelled != done && expired != done) ==> status_of(v) == Ok::<
                BatchStatus,
                ErrorView,
            >(BatchStatus::Completed)
        }),
{
    reveal_strlit("ended");
    reveal_strlit("in_progress");
    reveal_strlit("canceling");
    assert("ended"@.len() == 5 && "in_progress"@.len() == 11 && "canceling"@.len() == 9);
}

/// A status that is missing or not known is reported as such.
pub proof fn law_status_not_known(v: JsonTree)
    ensures
        said(v, "processing_status"@) is None ==> status_of(v) == Err::<BatchStatus, ErrorView>(
            ErrorView::Parse("batch status: missing `processing_status`"@),
        ),
        said(v, "processing_status"@) matches Some(word) ==> word != "in_progress"@ && word
            != "canceling"@ && word != "ended"@ ==> status_of(v) == Err::<BatchStatus, ErrorView>(
            ErrorView::Parse(
                "batch status: unknown `processing_status` value: "@ + debug_form(word),
            ),
        ),
{
}

/// Which statuses are final.
pub proof fn law_final_statuses(status: BatchStatus)
    ensures
        match status {
            BatchStatus::Submitted => !status.terminal(),
            BatchStatus::InProgress { .. } => !status.terminal(),
            BatchStatus::Completed => status.terminal(),
            BatchStatus::Failed { .. } => status.terminal(),
            BatchStatus::Expired => status.terminal(),
            BatchStatus::Cancelled => status.terminal(),
        },
{
}

// ---------------------------------------------------------------------------
// The answer in a finished message
// ---------------------------------------------------------------------------

/// The text that a block of a message gives: its `text` where its `type` is `text`.
pub open spec fn given_text(block: JsonTree) -> Seq<char> {
    match (block.field("type"@), block.field("text"@)) {
        (Some(JsonTree::Text(kind)), Some(JsonTree::Text(text))) => if kind == "text"@ {
            text
        } else {
            Seq::empty()
        },
        _ => Seq::empty(),
    }
}

/// The texts that blocks give, one behind the other.
pub open spec fn given_texts(blocks: Seq<JsonTree>) -> Seq<char>
    decreases blocks.len(),
{
    if blocks.len() == 0 {
        Seq::empty()
    } else {
        given_texts(blocks.drop_last()) + given_text(blocks.last())
    }
}

proof fn lemma_given_texts(blocks: Seq<JsonTree>)
    ensures
        blocks_text(blocks) == given_texts(blocks),
    decreases blocks.len(),
{
    if blocks.len() > 0 {
        lemma_given_texts(blocks.drop_last());
        assert(block_text(blocks.last()) =~= given_text(blocks.last()));
    }
}

/// The answer names the model that the message names, and `anthropic` only where it names none.
pub proof fn law_answer_names_its_model(message: JsonTree)
    ensures
        said(message, "model"@) matches Some(model) ==> response_of(message).actual_model == model,
        said(message, "model"@) is None ==> response_of(message).actual_model == "anthropic"@,
{
}

/// The answer holds the text of every text block, in order.
pub proof fn law_answer_holds_all_text(message: JsonTree)
    ensures
        message.field("content"@) matches Some(JsonTree::Array(blocks)) ==> response_of(
            message,
        ).text == given_texts(blocks),
        !(message.field("content"@) matches Some(JsonTree::Array(_))) ==> response_of(
            message,
        ).text.len() == 0,
{
    if let Some(JsonTree::Array(blocks)) = message.field("content"@) {
        lemma_given_texts(blocks);
    }
}

/// The answer gives the reason that the message names; one that is not known, or none, is the end
/// of the turn.
pub proof fn law_answer_gives_its_reason(message: JsonTree)
    ensures
        ({
            let word = said(message, "stop_reason"@);
            let reason = response_of(message).stop_reason;
            &&& word == Some("end_turn"@) ==> reason == Some(StopReason::EndTurn)
            &&& word == Some("max_tokens"@) ==> reason == Some(StopReason::MaxTokens)
            &&& word == Some("stop_sequence"@) ==> reason == Some(StopReason::StopSequence)
            &&& word == Some("tool_use"@) ==> reason == Some(StopReason::ToolUse)
            &&& word != Some("max_tokens"@) && word != Some("stop_sequence"@) && word != Some(
                "tool_use"@,
            ) ==> reason == Some(StopReason::EndTurn)
        }),
{
    reveal_strlit("end_turn");
    reveal_strlit("max_tokens");
    reveal_strlit("stop_sequence");
    reveal_strlit("tool_use");
    assert("end_turn"@.len() == 8 && "max_tokens"@.len() == 10 && "stop_sequence"@.len() == 13
        && "tool_use"@.len() == 8);
    assert("end_turn"@[0] != "tool_use"@[0]);
}

/// The answer counts what the message's usage counts, the whole prompt as its input.
pub proof fn law_answer_counts_its_tokens(message: JsonTree)
    ensures
        ({
            let usage = response_of(message).usage;
            let cached = counted_in(message, "usage"@, "cache_read_input_tokens"@);
            let written = counted_in(message, "usage"@, "cache_creation_input_tokens"@);
            let whole = counted_in(message, "usage"@, "input_tokens"@) + cached + written;
            &&& whole <= u64::MAX ==> usage.input_tokens == whole
            &&& whole > u64::MAX ==> usage.input_tokens == u64::MAX
            &&& usage.output_tokens == counted_in(message, "usage"@, "output_tokens"@)
            &&& usage.cached_input_tokens == cached
            &&& usage.cache_creation_tokens == written
            &&& usage.thinking_tokens == 0
        }),
{
}

// ---------------------------------------------------------------------------
// The lines of results
// ---------------------------------------------------------------------------

/// A complaint about the line with this number.
pub open spec fn complaint(number: nat, what: Seq<char>) -> ErrorView {
    ErrorView::Parse("batch results line "@ + decimal(number) + what)
}

/// A line that cannot be understood is named by its number and by what it lacks, the first that it
/// lacks.
pub proof fn law_lines_not_understood(number: nat, v: JsonTree, fault: Seq<char>)
    ensures
        item_outcome(number, Err(fault)) == Err::<ItemView, ErrorView>(
            complaint(number, ": not JSON: "@ + fault),
        ),
        said(v, "custom_id"@) is None ==> item_outcome(number, Ok(v)) == Err::<
            ItemView,
            ErrorView,
        >(complaint(number, ": missing custom_id"@)),
        said(v, "custom_id"@) is Some && v.field("result"@) is None ==> item_outcome(number, Ok(v))
            == Err::<ItemView, ErrorView>(complaint(number, ": missing result"@)),
        said(v, "custom_id"@) is Some && v.field("result"@) is Some && said_in(
            v,
            "result"@,
            "type"@,
        ) is None ==> item_outcome(number, Ok(v)) == Err::<ItemView, ErrorView>(
            complaint(number, ": missing result.type"@),
        ),
        said(v, "custom_id"@) is Some && said_in(v, "result"@, "type"@) == Some("succeeded"@) && (
        v.field("result"@) matches Some(r) && r.field("message"@) is None) ==> item_outcome(
            number,
            Ok(v),
        ) == Err::<ItemView, ErrorView>(complaint(number, ": succeeded but missing message"@)),
{
}

proof fn lemma_result_words()
    ensures
        "succeeded"@.len() == 9 && "errored"@.len() == 7 && "canceled"@.len() == 8
            && "expired"@.len() == 7,
        "errored"@ != "expired"@,
{
    reveal_strlit("succeeded");
    reveal_strlit("errored");
    reveal_strlit("canceled");
    reveal_strlit("expired");
    assert("errored"@[1] != "expired"@[1]);
}

/// What became of a request stands under the name that its line gives: the answer that its message
/// is, or why there is none.
pub proof fn law_lines_understood(number: nat, v: JsonTree, id: Seq<char>, result: JsonTree)
    requires
        said(v, "custom_id"@) == Some(id),
        v.field("result"@) == Some(result),
    ensures
        said(result, "type"@) == Some("succeeded"@) ==> (result.field("message"@) matches Some(m)
            ==> item_outcome(number, Ok(v)) == Ok::<ItemView, ErrorView>(
            ItemView { id, result: Ok(response_of(m)) },
        )),
        said(result, "type"@) == Some("canceled"@) ==> item_outcome(number, Ok(v)) == Ok::<
            ItemView,
            ErrorView,
        >(ItemView { id, result: Err(ErrorView::Internal("item cancelled"@)) }),
        said(result, "type"@) == Some("expired"@) ==> item_outcome(number, Ok(v)) == Ok::<
            ItemView,
            ErrorView,
        >(ItemView { id, result: Err(ErrorView::Internal("item expired"@)) }),
        said(result, "type"@) matches Some(kind) ==> kind != "succeeded"@ && kind != "errored"@
            && kind != "canceled"@ && kind != "expired"@ ==> item_outcome(number, Ok(v)) == Ok::<
            ItemView,
            ErrorView,
        >(
            ItemView {
                id,
                result: Err(complaint(number, ": unknown result.type "@ + debug_form(kind))),
            },
        ),
{
    lemma_result_words();
}

/// A request that failed fails with the error that its line names, and with the message that stands
/// there.
pub proof fn law_failed_requests(number: nat, v: JsonTree, id: Seq<char>, result: JsonTree)
    requires
        said(v, "custom_id"@) == Some(id),
        v.field("result"@) == Some(result),
        said(result, "type"@) == Some("errored"@),
    ensures
        ({
            let kind = match said_in(result, "error"@, "type"@) {
                Some(kind) => kind,
                None => "error"@,
            };
            let message = match said_in(result, "error"@, "message"@) {
                Some(message) => message,
                None => "(no message)"@,
            };
            item_outcome(number, Ok(v)) matches Ok(item) && item.id == id && (
            item.result matches Err(e) && {
                &&& kind == "invalid_request_error"@ ==> e == ErrorView::InvalidRequest(message)
                &&& kind == "authentication_error"@ ==> e == ErrorView::Auth(message)
                &&& kind == "rate_limit_error"@ ==> e == (ErrorView::RateLimited {
                    retry_after: None,
                })
                &&& kind == "overloaded_error"@ ==> e == ErrorView::ModelOverloaded
                &&& kind != "invalid_request_error"@ && kind != "authentication_error"@ && kind
                    != "rate_limit_error"@ && kind != "overloaded_error"@ ==> e
                    == ErrorView::Internal(
                    "anthropic batch item error ("@ + kind + "): "@ + message,
                )
            })
        }),
{
    lemma_result_words();
    reveal_strlit("invalid_request_error");
    reveal_strlit("authentication_error");
    reveal_strlit("rate_limit_error");
    reveal_strlit("overloaded_error");
    assert("invalid_request_error"@.len() == 21 && "authentication_error"@.len() == 20
        && "rate_limit_error"@.len() == 16 && "overloaded_error"@.len() == 16);
    assert("rate_limit_error"@[0] != "overloaded_error"@[0]);
}

/// Results whose lines can all be understood are read, blank lines passed over.
pub proof fn law_results_are_read(text: Seq<char>)
    requires
        forall|i: int|
            0 <= i < lines(text).len() ==> blank(#[trigger] lines(text)[i]) || item_outcome(
                (i + 1) as nat,
                json_parse(lines(text)[i]),
            ) is Ok,
    ensures
        results_of(text) is Ok,
{
    lemma_lines_are_read(lines(text), lines(text).len());
}

proof fn lemma_lines_are_read(rows: Seq<Seq<char>>, n: nat)
    requires
        n <= rows.len(),
        forall|i: int|
            0 <= i < n ==> blank(#[trigger] rows[i]) || item_outcome(
                (i + 1) as nat,
                json_parse(rows[i]),
            ) is Ok,
    ensures
        items_of_lines(rows, n) is Ok,
    decreases n,
{
    if n > 0 {
        lemma_lines_are_read(rows, (n - 1) as nat);
        assert(blank(rows[n - 1]) || item_outcome(n, json_parse(rows[n - 1])) is Ok);
    }
}

/// The first line that cannot be understood decides: its complaint is that of the results.
pub proof fn law_first_bad_line_decides(text: Seq<char>, at: int)
    requires
        0 <= at < lines(text).len(),
        !blank(lines(text)[at]),
        item_outcome((at + 1) as nat, json_parse(lines(text)[at])) is Err,
        forall|i: int|
            0 <= i < at ==> blank(#[trigger] lines(text)[i]) || item_outcome(
                (i + 1) as nat,
                json_parse(lines(text)[i]),
            ) is Ok,
    ensures
        results_of(text) == Err::<Seq<ItemView>, ErrorView>(
            item_outcome((at + 1) as nat, json_parse(lines(text)[at]))->Err_0,
        ),
{
    let rows = lines(text);
    lemma_lines_are_read(rows, at as nat);
    assert(items_of_lines(rows, (at + 1) as nat) is Err);
    crate::batch::lemma_first_fault(rows, (at + 1) as nat, rows.len());
}

/// What results, items, statuses and calls say is what they hold.
pub proof fn law_items_say_what_they_hold(
    item: BatchResultItem,
    items: Vec<BatchResultItem>,
    status: BatchStatus,
    error: ProviderError,
)
    ensures
        item@.id == item.item_id.name@,
        item.result matches Ok(r) ==> item@.result == Ok::<ResponseView, ErrorView>(r@),
        item.result matches Err(e) ==> item@.result == Err::<ResponseView, ErrorView>(e@),
        item_views(items@).len() == items@.len(),
        forall|i: int| 0 <= i < items@.len() ==> #[trigger] item_views(items@)[i] == items@[i]@,
        results_view(Ok(items)) == Ok::<Seq<ItemView>, ErrorView>(item_views(items@)),
        results_view(Err(error)) == Err::<Seq<ItemView>, ErrorView>(error@),
        item_view(Ok(item)) == Ok::<ItemView, ErrorView>(item@),
        item_view(Err(error)) == Err::<ItemView, ErrorView>(error@),
        status_view(Ok(status)) == Ok::<BatchStatus, ErrorView>(status),
        status_view(Err(error)) == Err::<BatchStatus, ErrorView>(error@),
{
}

/// When a carriage return at the end of a line makes no difference.
pub proof fn law_idle_return(line: Seq<char>)
    ensures
        idle_return(line) <==> (!blank(line) && line.len() > 0 && line.last() == '\r' ==> json_parse(
            line.drop_last(),
        ) == json_parse(line)),
{
}

// ---------------------------------------------------------------------------
// Addresses and headers
// ---------------------------------------------------------------------------

/// An address is the base without the slashes at its end, and the path behind it.
pub proof fn law_addresses(rest: Seq<char>, slashes: Seq<char>, suffix: Seq<char>)
    requires
        rest.len() > 0 ==> rest.last() != '/',
        forall|i: int| 0 <= i < slashes.len() ==> #[trigger] slashes[i] == '/',
    ensures
        messages_address(rest + slashes) == rest + "/v1/messages"@,
        batch_address(rest + slashes, suffix) == rest + "/v1/messages/batches"@ + suffix,
{
    let base = rest + slashes;
    law_slashes_stripped(base);
    let found = crate::text::without_trailing_slashes(base);
    if found.len() < rest.len() {
        assert(base[rest.len() - 1] == rest.last());
    }
    if found.len() > rest.len() {
        assert(found.last() == base[found.len() - 1]);
        assert(base[found.len() - 1] == slashes[found.len() - 1 - rest.len()]);
    }
    assert(found =~= rest);
}

/// What parsing an address comes to is kept; a bad address is an internal error with the complaint
/// before the description.
pub proof fn law_parsed_addresses(url: Seq<char>, fault: Seq<char>, complaint: Seq<char>)
    ensures
        address_outcome(Ok(url), complaint) == Ok::<Seq<char>, ErrorView>(url),
        address_outcome(Err(fault), complaint) == Err::<Seq<char>, ErrorView>(
            ErrorView::Internal(complaint + fault),
        ),
{
}

/// Whether a text can be a header value: no control characters but the tabulator.
pub open spec fn can_be_header(text: Seq<char>) -> bool {
    forall|i: int|
        0 <= i < text.len() ==> (#[trigger] text[i] as u32 >= 32 && text[i] as u32 != 127)
            || text[i] == '\t'
}

/// The secret of a credential.
pub open spec fn secret(auth: ResolvedAuth) -> Option<Seq<char>> {
    match auth {
        ResolvedAuth::ApiKey(k) => Some(k@),
        ResolvedAuth::Bearer(k) => Some(k@),
        ResolvedAuth::NoAuth => None,
    }
}

/// The headers of a request are the content type, the version and the key, exactly if there is a
/// key and both can be header values. A bad version comes before a bad or missing key.
pub proof fn law_headers_built(version: Seq<char>, auth: ResolvedAuth)
    ensures
        !can_be_header(version) ==> headers_outcome(version, auth) == Err::<
            Map<Seq<char>, Seq<u8>>,
            ErrorView,
        >(ErrorView::Internal("bad version header: "@ + "failed to parse header value"@)),
        can_be_header(version) && secret(auth) is None ==> headers_outcome(version, auth) == Err::<
            Map<Seq<char>, Seq<u8>>,
            ErrorView,
        >(ErrorView::Auth("Anthropic requires an x-api-key; got Auth::None"@)),
        can_be_header(version) ==> (secret(auth) matches Some(key) ==> !can_be_header(key)
            ==> headers_outcome(version, auth) == Err::<Map<Seq<char>, Seq<u8>>, ErrorView>(
            ErrorView::Auth("malformed x-api-key value: "@ + "failed to parse header value"@),
        )),
        can_be_header(version) ==> (secret(auth) matches Some(key) ==> can_be_header(key) ==> (
        headers_outcome(version, auth) matches Ok(h) && {
            &&& h.dom() == set!["content-type"@, "anthropic-version"@, "x-api-key"@]
            &&& h["content-type"@] == encode_utf8("application/json"@)
            &&& h["anthropic-version"@] == encode_utf8(version)
            &&& h["x-api-key"@] == encode_utf8(key)
        })),
{
    assert(can_be_header(version) == header_text(version));
    if let Some(key) = secret(auth) {
        assert(can_be_header(key) == header_text(key));
    }
    crate::adapter::law_headers_sent(version, auth);
}

// ---------------------------------------------------------------------------
// Failures
// ---------------------------------------------------------------------------

/// What a failed answer says of itself: the message in its body, or else the beginning of the body.
pub open spec fn own_words(body: Seq<char>) -> Seq<char> {
    match json_parse(body) {
        Ok(v) => match said_in(v, "error"@, "message"@) {
            Some(message) => message,
            None => truncated(body, 300),
        },
        Err(_) => truncated(body, 300),
    }
}

/// What each status stands for. A bad request is one about the size of the context exactly if its
/// message, in lower case, speaks of `max_tokens` or of the `context`; otherwise the caller gets the
/// message as it is.
pub proof fn law_statuses(status: u16, headers: Map<Seq<char>, Seq<u8>>, body: Seq<char>)
    ensures
        ({
            let error = classified_answer(status, headers, body);
            let message = own_words(body);
            let sized = occurs(lowercase(message), "max_tokens"@) || occurs(
                lowercase(message),
                "context"@,
            );
            let full = "status "@ + (decimal(status as nat) + " "@ + reason_phrase(status)) + ": "@
                + message;
            &&& status == 401 || status == 403 ==> error == ErrorView::Auth(message)
            &&& status == 429 ==> error == (ErrorView::RateLimited {
                retry_after: retry_after(headers),
            })
            &&& status == 503 || status == 504 ==> error == ErrorView::ModelOverloaded
            &&& status == 400 && sized ==> error == (ErrorView::ContextTooLong {
                limit: 0,
                requested: 0,
            })
            &&& status == 400 && !sized ==> error == ErrorView::InvalidRequest(message)
            &&& 500 <= status < 600 && status != 503 && status != 504 ==> error
                == ErrorView::Internal(full)
            &&& !(500 <= status < 600) && status != 400 && status != 401 && status != 403 && status
                != 429 ==> error == ErrorView::InvalidRequest(full)
        }),
{
}

/// The same, for what was found out of an answer.
pub proof fn law_classes(
    status: u16,
    wait: Option<Duration>,
    message: Seq<char>,
    lower: Seq<char>,
    shown: Seq<char>,
)
    ensures
        ({
            let error = classified(status, wait, message, lower, shown);
            let sized = occurs(lower, "max_tokens"@) || occurs(lower, "context"@);
            &&& status == 401 || status == 403 ==> error == ErrorView::Auth(message)
            &&& status == 429 ==> error == (ErrorView::RateLimited { retry_after: wait })
            &&& status == 503 || status == 504 ==> error == ErrorView::ModelOverloaded
            &&& status == 400 && sized ==> error == (ErrorView::ContextTooLong {
                limit: 0,
                requested: 0,
            })
            &&& status == 400 && !sized ==> error == ErrorView::InvalidRequest(message)
            &&& 500 <= status < 600 && status != 503 && status != 504 ==> error
                == ErrorView::Internal("status "@ + shown + ": "@ + message)
            &&& !(500 <= status < 600) && status != 400 && status != 401 && status != 403 && status
                != 429 ==> error == ErrorView::InvalidRequest(
                "status "@ + shown + ": "@ + message,
            )
        }),
{
}

/// The message of a failure is the one that its body holds, else the beginning of the body.
pub proof fn law_failure_text(v: JsonTree, fault: Seq<char>, body: Seq<char>)
    ensures
        said_in(v, "error"@, "message"@) matches Some(message) ==> failure_text(Ok(v), body)
            == message,
        said_in(v, "error"@, "message"@) is None ==> failure_text(Ok(v), body) == truncated(
            body,
            300,
        ),
        failure_text(Err(fault), body) == truncated(body, 300),
{
}

/// How a status is displayed.
pub proof fn law_status_display(code: u16)
    ensures
        status_display(code) == decimal(code as nat) + " "@ + reason_phrase(code),
{
}

/// The number that a header holds: one or more decimal digits whose value fits in 64 bits.
pub open spec fn number_in(fields: Map<Seq<char>, Seq<u8>>, name: Seq<char>) -> Option<u64> {
    let digits = fields[name].map_values(|b: u8| b as char);
    if fields.dom().contains(name) && digits.len() > 0 && (forall|i: int|
        0 <= i < digits.len() ==> '0' <= #[trigger] digits[i] <= '9') && digits_value(digits)
        <= u64::MAX {
        Some(digits_value(digits) as u64)
    } else {
        None
    }
}

/// How long an answer asks to wait: as many milliseconds as `retry-after-ms` says, else as many
/// seconds as `retry-after` says, else nothing is known.
pub proof fn law_waits(fields: Map<Seq<char>, Seq<u8>>)
    ensures
        number_in(fields, "retry-after-ms"@) matches Some(n) ==> retry_after(fields) == Some(
            milliseconds(n),
        ),
        number_in(fields, "retry-after-ms"@) is None ==> (number_in(
            fields,
            "retry-after"@,
        ) matches Some(n) ==> retry_after(fields) == Some(seconds(n))),
        number_in(fields, "retry-after-ms"@) is None && number_in(fields, "retry-after"@) is None
            ==> retry_after(fields) is None,
{
    lemma_header_number(fields, "retry-after-ms"@);
    lemma_header_number(fields, "retry-after"@);
}

proof fn lemma_header_number(fields: Map<Seq<char>, Seq<u8>>, name: Seq<char>)
    ensures
        crate::http::header_number(fields, name) == number_in(fields, name),
{
    let bytes = fields[name];
    let digits = bytes.map_values(|b: u8| b as char);
    law_numbers_read(digits);
    if number_in(fields, name) is Some {
        assert forall|i: int| 0 <= i < bytes.len() implies (32 <= #[trigger] bytes[i] < 127
            || bytes[i] == 9) by {
            assert('0' <= digits[i] <= '9');
        }
    }
}

// ---------------------------------------------------------------------------
// Calls
// ---------------------------------------------------------------------------

/// A call is made of its method, its URL, its headers and its body; where headers or URL could not
/// be built, it fails as they did, the headers first.
pub proof fn law_calls(
    adapter: AnthropicAdapter,
    method: HttpMethod,
    suffix: Seq<char>,
    auth: ResolvedAuth,
    body: Option<JsonTree>,
)
    ensures
        ({
            let call = batch_call(adapter, method, suffix, auth, body);
            let headers = headers_outcome(adapter.api_version@, auth);
            let url = url_parse(batch_address(adapter.base_url@, suffix));
            &&& headers matches Err(e) ==> call == Err::<CallView, ErrorView>(e)
            &&& headers is Ok ==> (url matches Err(e) ==> call == Err::<CallView, ErrorView>(
                ErrorView::Internal("bad anthropic batch url: "@ + e),
            ))
            &&& headers matches Ok(h) ==> (url matches Ok(u) ==> call == Ok::<CallView, ErrorView>(
                CallView { method, url: u, headers: h, body },
            ))
        }),
{
}

/// The same, for headers and a URL that have been built or not.
pub proof fn law_assembled_calls(
    method: HttpMethod,
    headers: Result<Map<Seq<char>, Seq<u8>>, ErrorView>,
    url: Result<Seq<char>, ErrorView>,
    body: Option<JsonTree>,
)
    ensures
        headers matches Err(e) ==> assembled(method, headers, url, body) == Err::<
            CallView,
            ErrorView,
        >(e),
        headers is Ok ==> (url matches Err(e) ==> assembled(method, headers, url, body) == Err::<
            CallView,
            ErrorView,
        >(e)),
        headers matches Ok(h) ==> (url matches Ok(u) ==> assembled(method, headers, url, body)
            == Ok::<CallView, ErrorView>(CallView { method, url: u, headers: h, body })),
{
}

/// A batch that holds nothing is refused. What submits any other holds its requests and nothing
/// else, and each of them its name, its body and nothing else.
pub proof fn law_submission_members(
    items: Seq<(BatchItemId, ChatRequest)>,
    i: int,
    key: Seq<char>,
)
    ensures
        items.len() == 0 ==> submission(items) == Err::<JsonTree, ErrorView>(
            ErrorView::InvalidRequest("batch submit: items list must not be empty"@),
        ),
        submission(items) matches Ok(body) ==> (body.field(key) is Some ==> key == "requests"@),
        submission(items) matches Ok(body) ==> (body.field("requests"@) matches Some(
            JsonTree::Array(sent),
        ) && (0 <= i < sent.len() ==> sent[i].field(key) is Some ==> key == "custom_id"@ || key
            == "params"@)),
{
    if submission(items) is Ok {
        lemma_item_members(items, i, key);
    }
}

proof fn lemma_item_members(items: Seq<(BatchItemId, ChatRequest)>, i: int, key: Seq<char>)
    requires
        items_sent(items) is Ok,
    ensures
        0 <= i < items_sent(items)->Ok_0.len() ==> items_sent(items)->Ok_0[i].field(key) is Some
            ==> key == "custom_id"@ || key == "params"@,
    decreases items.len(),
{
    if items.len() > 0 {
        lemma_item_members(items.drop_last(), i, key);
    }
}

/// What the answer to a submission means.
pub proof fn law_submission_answers(reply: Reply<Payload>)
    ensures
        reply matches Reply::Failure { status, headers, text } ==> submitted(reply) == Err::<
            Seq<char>,
            ErrorView,
        >(classified_answer(status, header_fields(headers), text@)),
        reply matches Reply::Success(Err(e)) ==> submitted(reply) == Err::<Seq<char>, ErrorView>(
            ErrorView::Parse("batch submit: response not JSON: "@ + e@),
        ),
        reply matches Reply::Success(Ok(v)) ==> (said(v.tree(), "id"@) matches Some(id)
            ==> submitted(reply) == Ok::<Seq<char>, ErrorView>(id)),
        reply matches Reply::Success(Ok(v)) ==> said(v.tree(), "id"@) is None ==> submitted(reply)
            == Err::<Seq<char>, ErrorView>(
            ErrorView::Parse("batch submit: response missing `id`"@),
        ),
{
}

/// What the answer to a question for the status means.
pub proof fn law_status_answers(reply: Reply<Payload>)
    ensures
        reply matches Reply::Failure { status, headers, text } ==> status_told(reply) == Err::<
            BatchStatus,
            ErrorView,
        >(classified_answer(status, header_fields(headers), text@)),
        reply matches Reply::Success(Err(e)) ==> status_told(reply) == Err::<
            BatchStatus,
            ErrorView,
        >(ErrorView::Parse("batch status: response not JSON: "@ + e@)),
        reply matches Reply::Success(Ok(v)) ==> status_told(reply) == status_of(v.tree()),
        reply.well_formed() <==> (reply matches Reply::Failure { status, .. } ==> 100 <= status
            <= 999),
{
}

/// How a status that is not final is displayed.
pub proof fn law_pending_text(processed: u32, total: u32, eta: u64)
    ensures
        pending_text(BatchStatus::Submitted) == "Submitted"@,
        pending_text(BatchStatus::InProgress { processed, total: Some(total), eta: None })
            == "InProgress { processed: "@ + decimal(processed as nat) + ", total: "@ + ("Some("@
            + decimal(total as nat) + ")"@) + ", eta: "@ + "None"@ + " }"@,
        pending_text(BatchStatus::InProgress { processed, total: None, eta: Some(eta) })
            == "InProgress { processed: "@ + decimal(processed as nat) + ", total: "@ + "None"@
            + ", eta: "@ + ("Some("@ + decimal(eta as nat) + ")"@) + " }"@,
        pending_text(BatchStatus::InProgress { processed, total: Some(total), eta: Some(eta) })
            == "InProgress { processed: "@ + decimal(processed as nat) + ", total: "@ + ("Some("@
            + decimal(total as nat) + ")"@) + ", eta: "@ + ("Some("@ + decimal(eta as nat) + ")"@)
            + " }"@,
        pending_text(BatchStatus::InProgress { processed, total: None, eta: None })
            == "InProgress { processed: "@ + decimal(processed as nat) + ", total: "@ + "None"@
            + ", eta: "@ + "None"@ + " }"@,
        optional_text(Some(eta)) == "Some("@ + decimal(eta as nat) + ")"@,
        optional_text(None) == "None"@,
{
}

/// What calls and the outcomes of preparing them say is what they hold.
pub proof fn law_calls_say_what_they_hold(
    call: HttpCall,
    error: ProviderError,
    url: String,
    headers: HeaderMap,
    body: Json,
)
    ensures
        call@.method == call.method,
        call@.url == call.url@,
        call@.headers == header_fields(call.headers),
        call.body matches Some(v) ==> call@.body == Some(v.tree()),
        call.body is None ==> call@.body is None,
        call_view(Ok(call)) == Ok::<CallView, ErrorView>(call@),
        call_view(Err(error)) == Err::<CallView, ErrorView>(error@),
        address_view(Ok(url)) == Ok::<Seq<char>, ErrorView>(url@),
        address_view(Err(error)) == Err::<Seq<char>, ErrorView>(error@),
        headers_view(Ok(headers)) == Ok::<Map<Seq<char>, Seq<u8>>, ErrorView>(
            header_fields(headers),
        ),
        headers_view(Err(error)) == Err::<Map<Seq<char>, Seq<u8>>, ErrorView>(error@),
        translation_view(Ok(body)) == Ok::<JsonTree, ErrorView>(body.tree()),
        translation_view(Err(error)) == Err::<JsonTree, ErrorView>(error@),
{
}

/// What a model hint names, and what counts as nothing.
pub proof fn law_small_records(hint: ModelHint, n: u64)
    ensures
        hint matches ModelHint::Explicit(name) ==> hint.name() == Some(name@),
        hint is Unresolved ==> hint.name() is None,
        CacheHitInfo::tokens(n) == (CacheHitInfo {
            cached_input_tokens: n,
            used_explicit_handle: false,
            replayed_from_cache: false,
        }),
        Usage::zero() == (Usage {
            input_tokens: 0,
            output_tokens: 0,
            cached_input_tokens: 0,
            cache_creation_tokens: 0,
            thinking_tokens: 0,
        }),
{
}

} // verus!
