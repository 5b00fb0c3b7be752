//! What holds of every call of an operation: its result, told by its arguments alone.

use reqwest::header::HeaderMap;
use vstd::prelude::*;

use crate::adapter::{batch_address, classified_answer, AnthropicAdapter, ResolvedAuth};
use crate::answer_laws::{
    counted_in, given_texts, law_answer_counts_its_tokens, law_answer_gives_its_reason,
    law_answer_holds_all_text, law_answer_names_its_model, law_batch_ended, law_batch_under_way,
    law_calls, law_counts_fit, law_statuses, own_words, requests, requests_done, said,
};
use crate::batch::{
    anthropic_message_to_chat_response, item_views, results_of, translate_anthropic_batch_status,
    BatchJobId, BatchResultItem, BatchStatus,
};
use crate::chat::{
    event_views, ChatEvent, ChatRequest, ChatResponse, ChatResponseBuilder, ContentBlock, Message,
    StopReason,
};
use crate::cli::{
    failure_line, telemetry_format, verbosity, Cli, Command, LogFormat, TelemetryFormat, Verbosity,
};
use crate::decode::json_parse;
use crate::error::ProviderError;
use crate::event_laws::{counted, law_arguments_are_collected, law_text_is_forwarded, said_in};
use crate::http::{header_fields, reason_phrase, retry_after, url_parse};
use crate::json::{Json, JsonTree};
use crate::provider::{
    default_capabilities, AnthropicProviderBuilder, Auth, Capabilities, Modality, PromptCacheKind,
    StructuredOutputMode,
};
use crate::request::translated;
use crate::sent_laws::{
    is_sound, law_block_is_shown, law_message_is_shown, law_messages_are_shown,
    law_sound_requests_are_accepted, shows_block, shows_message,
};
use crate::stream::{events_of, SseEvent};
use crate::submit::{check_terminal, is_success, pending_text, HttpCall, HttpMethod, Reply};
use crate::text::{decimal, lowercase, occurs};
use crate::tool_buffer::ToolCallBuffer;

verus! {

// ---------------------------------------------------------------------------
// Requests
// ---------------------------------------------------------------------------

/// Translating a block shows all of it.
pub proof fn law_translated_block(block: ContentBlock, out: Json)
    requires
        call_ensures(AnthropicAdapter::translate_block, (&block,), out),
    ensures
        shows_block(out.tree(), block, false),
{
    law_block_is_shown(block);
}

/// Translating a message shows all of it: its texts and images, the calls in it, and the content of
/// a tool's result, be it an error or not.
pub proof fn law_translated_message(message: Message, out: Json)
    requires
        call_ensures(AnthropicAdapter::translate_message, (&message,), out),
    ensures
        shows_message(out.tree(), message),
{
    law_message_is_shown(message);
}

/// Translating a request succeeds exactly if the request is sound, and then every message is in the
/// body, in order.
pub proof fn law_translated_request(
    adapter: AnthropicAdapter,
    req: ChatRequest,
    out: Result<Json, ProviderError>,
)
    requires
        call_ensures(AnthropicAdapter::translate_request, (&adapter, &req), out),
    ensures
        out is Ok <==> is_sound(req),
        out matches Err(e) ==> e is InvalidRequest,
        out matches Ok(body) ==> (body.tree().field("messages"@) matches Some(
            JsonTree::Array(sent),
        ) && sent.len() == req.messages@.len() && forall|i: int|
            0 <= i < sent.len() ==> shows_message(#[trigger] sent[i], req.messages@[i])),
{
    law_sound_requests_are_accepted(req);
    if translated(req) is Ok {
        law_messages_are_shown(req);
    }
    if let Err(e) = out {
        assert(e@ is InvalidRequest);
    }
}

// ---------------------------------------------------------------------------
// Answers
// ---------------------------------------------------------------------------

/// The answer in a finished message names the model that the message names, holds the text of every
/// text block in order, and says why the message ends and what it cost.
pub proof fn law_response_of_message(message: Json, out: Result<ChatResponse, ProviderError>)
    requires
        call_ensures(anthropic_message_to_chat_response, (&message,), out),
    ensures
        out matches Ok(response) && {
            &&& said(message.tree(), "model"@) matches Some(model) ==> response.actual_model@
                == model
            &&& said(message.tree(), "model"@) is None ==> response.actual_model@ == "anthropic"@
            &&& message.tree().field("content"@) matches Some(JsonTree::Array(blocks))
                ==> response.text@ == given_texts(blocks)
            &&& said(message.tree(), "stop_reason"@) == Some("max_tokens"@)
                ==> response.stop_reason == Some(StopReason::MaxTokens)
            &&& said(message.tree(), "stop_reason"@) == Some("stop_sequence"@)
                ==> response.stop_reason == Some(StopReason::StopSequence)
            &&& said(message.tree(), "stop_reason"@) == Some("tool_use"@) ==> response.stop_reason
                == Some(StopReason::ToolUse)
            &&& said(message.tree(), "stop_reason"@) == Some("end_turn"@) ==> response.stop_reason
                == Some(StopReason::EndTurn)
            &&& response.usage.output_tokens == counted_in(
                message.tree(),
                "usage"@,
                "output_tokens"@,
            )
            &&& response.usage.cached_input_tokens == counted_in(
                message.tree(),
                "usage"@,
                "cache_read_input_tokens"@,
            )
            &&& response.usage.cache_creation_tokens == counted_in(
                message.tree(),
                "usage"@,
                "cache_creation_input_tokens"@,
            )
        },
{
    law_answer_names_its_model(message.tree());
    law_answer_holds_all_text(message.tree());
    law_answer_gives_its_reason(message.tree());
    law_answer_counts_its_tokens(message.tree());
}

/// The status of a batch under way counts every request that is done, in whatever way; that of one
/// that has ended is a final one.
pub proof fn law_status_of_batch(v: Json, out: Result<BatchStatus, ProviderError>)
    requires
        requests_done(v.tree()) + requests(v.tree(), "processing"@) <= u32::MAX,
        call_ensures(translate_anthropic_batch_status, (&v,), out),
    ensures
        said(v.tree(), "processing_status"@) == Some("in_progress"@) || said(
            v.tree(),
            "processing_status"@,
        ) == Some("canceling"@) ==> (out matches Ok(
            BatchStatus::InProgress { processed, total, eta },
        ) && processed == requests_done(v.tree()) && (total matches Some(n) && n == requests_done(
            v.tree(),
        ) + requests(v.tree(), "processing"@)) && eta is None),
        said(v.tree(), "processing_status"@) == Some("ended"@) ==> (out matches Ok(status) && (
        status is Completed || status is Cancelled || status is Expired)),
        out is Ok <==> said(v.tree(), "processing_status"@) == Some("in_progress"@) || said(
            v.tree(),
            "processing_status"@,
        ) == Some("canceling"@) || said(v.tree(), "processing_status"@) == Some("ended"@),
{
    law_counts_fit(v.tree());
    let word = said(v.tree(), "processing_status"@);
    if word == Some("in_progress"@) || word == Some("canceling"@) {
        law_batch_under_way(v.tree());
    }
    if word == Some("ended"@) {
        law_batch_ended(v.tree());
    }
}

/// What a failed call is classified as. A bad request is one about the size of the context exactly if
/// its message speaks of `max_tokens` or of the `context`, whatever form its body has.
pub proof fn law_classified_failure(
    adapter: AnthropicAdapter,
    status: u16,
    headers: HeaderMap,
    body: &str,
    out: ProviderError,
)
    requires
        100 <= status <= 999,
        call_ensures(AnthropicAdapter::classify_error, (&adapter, status, &headers, body), out),
    ensures
        ({
            let message = own_words(body@);
            let sized = occurs(lowercase(message), "max_tokens"@) || occurs(
                lowercase(message),
                "context"@,
            );
            &&& out is Auth <==> status == 401 || status == 403
            &&& out matches ProviderError::Auth(m) ==> m@ == message
            &&& out is RateLimited <==> status == 429
            &&& out matches ProviderError::RateLimited { retry_after: wait } ==> wait
                == retry_after(header_fields(headers))
            &&& out is ModelOverloaded <==> status == 503 || status == 504
            &&& out is ContextTooLong <==> status == 400 && sized
            &&& status == 400 && !sized ==> (out matches ProviderError::InvalidRequest(m) && m@
                == message)
            &&& out is Internal <==> 500 <= status < 600 && status != 503 && status != 504
            &&& out matches ProviderError::Internal(m) ==> m@ == "status "@ + (decimal(
                status as nat,
            ) + " "@ + reason_phrase(status)) + ": "@ + message
        }),
{
    law_statuses(status, header_fields(headers), body@);
    assert(out@ is Auth <==> out is Auth);
}

// ---------------------------------------------------------------------------
// Streamed answers
// ---------------------------------------------------------------------------

/// A piece of text in a streamed answer is handed on as it is, whichever content block it belongs
/// to, and the buffer stays as it is.
pub proof fn law_streamed_text(
    v: Json,
    name: &str,
    buf: &mut ToolCallBuffer,
    out: Vec<ChatEvent>,
    piece: Seq<char>,
)
    requires
        call_ensures(events_of, (name, &v, buf), out),
        name@ == "content_block_delta"@,
    ensures
        said_in(v.tree(), "delta"@, "type"@) == Some("text_delta"@) && said_in(
            v.tree(),
            "delta"@,
            "text"@,
        ) == Some(piece) ==> {
            &&& out@.len() == 1
            &&& out@[0] matches ChatEvent::Delta { text } && text@ == piece
            &&& final(buf)@ == old(buf)@
        },
        said_in(v.tree(), "delta"@, "type"@) == Some("thinking_delta"@) && said_in(
            v.tree(),
            "delta"@,
            "thinking"@,
        ) == Some(piece) ==> {
            &&& out@.len() == 1
            &&& out@[0] matches ChatEvent::ThinkingDelta { text } && text@ == piece
            &&& final(buf)@ == old(buf)@
        },
{
    law_text_is_forwarded(v.tree(), piece, old(buf)@);
    assert(event_views(out@).len() == out@.len());
    if out@.len() > 0 {
        assert(event_views(out@)[0] == out@[0]@);
    }
}

/// A piece of a tool call's arguments is handed on and added to what the call has collected.
pub proof fn law_streamed_arguments(
    v: Json,
    name: &str,
    buf: &mut ToolCallBuffer,
    out: Vec<ChatEvent>,
    piece: Seq<char>,
)
    requires
        call_ensures(events_of, (name, &v, buf), out),
        name@ == "content_block_delta"@,
        said_in(v.tree(), "delta"@, "type"@) == Some("input_json_delta"@),
        said_in(v.tree(), "delta"@, "partial_json"@) == Some(piece),
    ensures
        ({
            let at = counted(v.tree(), "index"@) as usize;
            &&& out@.len() == 1
            &&& out@[0] matches ChatEvent::ToolCallArgsDelta { index, args_delta } && index == at
                && args_delta@ == piece
            &&& old(buf)@.calls.dom().contains(at) ==> final(buf)@.calls[at].args == old(buf)@.calls[at].args + piece
        }),
{
    law_arguments_are_collected(v.tree(), piece, old(buf)@);
    assert(event_views(out@).len() == out@.len());
    assert(event_views(out@)[0] == out@[0]@);
}

/// An event whose data is a JSON text says what that value says; one without data says nothing.
pub proof fn law_event_is_read(
    adapter: AnthropicAdapter,
    raw: SseEvent,
    buf: &mut ToolCallBuffer,
    out: Result<Vec<ChatEvent>, ProviderError>,
)
    requires
        call_ensures(AnthropicAdapter::parse_event, (&adapter, &raw, buf), out),
    ensures
        raw.data@.len() == 0 || raw.event@ == "ping"@ ==> (out matches Ok(events) && events@.len()
            == 0) && final(buf)@ == old(buf)@,
        raw.data@.len() > 0 && raw.event@ == "error"@ ==> out matches Err(
            ProviderError::Internal(_),
        ),
        raw.data@.len() > 0 && raw.event@ != "error"@ && raw.event@ != "ping"@ ==> (out is Ok
            <==> json_parse(raw.data@) is Ok),
{
    reveal_strlit("ping");
    reveal_strlit("error");
    assert("ping"@.len() != "error"@.len());
    if let Ok(events) = out {
        assert(event_views(events@).len() == events@.len());
    }
    if let Err(e) = out {
        assert(e@ is Internal <==> e is Internal);
    }
}

/// Taking the pieces of an answer in adds up its text.
pub proof fn law_piece_is_added(builder: &mut ChatResponseBuilder, event: ChatEvent)
    requires
        call_ensures(ChatResponseBuilder::apply, (builder, event), ()),
    ensures
        event matches ChatEvent::Delta { text } ==> final(builder)@.text == old(builder)@.text
            + text@,
        event matches ChatEvent::Finished { stop_reason, usage } ==> final(builder)@.stop_reason
            == Some(stop_reason) && final(builder)@.usage == usage,
        event matches ChatEvent::Started { actual_model, .. } ==> final(builder)@.actual_model
            == actual_model@,
        !(event is Delta) ==> final(builder)@.text == old(builder)@.text,
        !(event is Started) ==> final(builder)@.actual_model == old(builder)@.actual_model,
        !(event is Finished) ==> final(builder)@.stop_reason == old(builder)@.stop_reason && final(builder)@.usage == old(builder)@.usage,
{
}

// ---------------------------------------------------------------------------
// Batches
// ---------------------------------------------------------------------------

/// Asking for the status of a batch: nothing is sent, and what is asked for is the job.
pub proof fn law_status_is_asked_for(
    adapter: AnthropicAdapter,
    id: BatchJobId,
    auth: ResolvedAuth,
    out: Result<HttpCall, ProviderError>,
)
    requires
        call_ensures(AnthropicAdapter::status_call, (&adapter, &id, &auth), out),
    ensures
        out matches Ok(call) ==> {
            &&& call.method == HttpMethod::Get
            &&& call.body is None
            &&& call@.url == url_parse(
                batch_address(adapter.base_url@, "/"@ + id.name@),
            )->Ok_0
        },
{
    law_calls(adapter, HttpMethod::Get, "/"@ + id.name@, auth, None);
    if let Ok(call) = out {
        assert(call@.body is None && call@.method == HttpMethod::Get);
    }
}

/// Asking for the results of a batch: nothing is sent, and what is asked for lies below the job.
pub proof fn law_results_are_asked_for(
    adapter: AnthropicAdapter,
    id: BatchJobId,
    auth: ResolvedAuth,
    out: Result<HttpCall, ProviderError>,
)
    requires
        call_ensures(AnthropicAdapter::results_call, (&adapter, &id, &auth), out),
    ensures
        out matches Ok(call) ==> {
            &&& call.method == HttpMethod::Get
            &&& call.body is None
            &&& call@.url == url_parse(
                batch_address(adapter.base_url@, "/"@ + id.name@ + "/results"@),
            )->Ok_0
        },
{
    law_calls(adapter, HttpMethod::Get, "/"@ + id.name@ + "/results"@, auth, None);
    if let Ok(call) = out {
        assert(call@.body is None && call@.method == HttpMethod::Get);
    }
}

/// Cancelling a batch: nothing is sent along.
pub proof fn law_cancelling_is_asked_for(
    adapter: AnthropicAdapter,
    id: BatchJobId,
    auth: ResolvedAuth,
    out: Result<HttpCall, ProviderError>,
)
    requires
        call_ensures(AnthropicAdapter::cancel_call, (&adapter, &id, &auth), out),
    ensures
        out matches Ok(call) ==> {
            &&& call.method == HttpMethod::Post
            &&& call.body is None
            &&& call@.url == url_parse(
                batch_address(adapter.base_url@, "/"@ + id.name@ + "/cancel"@),
            )->Ok_0
        },
{
    law_calls(adapter, HttpMethod::Post, "/"@ + id.name@ + "/cancel"@, auth, None);
    if let Ok(call) = out {
        assert(call@.body is None && call@.method == HttpMethod::Post);
    }
}

/// Submitting a batch sends the body as it is.
pub proof fn law_batch_is_submitted(
    adapter: AnthropicAdapter,
    body: Json,
    auth: ResolvedAuth,
    out: Result<HttpCall, ProviderError>,
)
    requires
        call_ensures(AnthropicAdapter::submit_call, (&adapter, body, &auth), out),
    ensures
        out matches Ok(call) ==> {
            &&& call.method == HttpMethod::Post
            &&& call.body matches Some(sent) && sent.tree() == body.tree()
            &&& call@.url == url_parse(
                batch_address(adapter.base_url@, Seq::empty()),
            )->Ok_0
        },
{
    reveal_strlit("");
    assert(""@ =~= Seq::<char>::empty());
    law_calls(adapter, HttpMethod::Post, ""@, auth, Some(body.tree()));
    if let Ok(call) = out {
        assert(call@.body == Some(body.tree()) && call@.method == HttpMethod::Post);
    }
}

/// The results of a batch can be had exactly if its status is a final one.
pub proof fn law_results_of_final_batches(
    id: BatchJobId,
    status: BatchStatus,
    out: Result<(), ProviderError>,
)
    requires
        call_ensures(check_terminal, (&id, &status), out),
    ensures
        out is Ok <==> status is Completed || status is Failed || status is Expired
            || status is Cancelled,
        out matches Err(e) ==> (e matches ProviderError::InvalidRequest(m) && m@
            == "batch results: job "@ + id.name@ + " is not yet terminal (status: "@
            + pending_text(status) + ")"@),
{
    if let Err(e) = out {
        assert(e@ is InvalidRequest);
    }
}

/// Which statuses are a success.
pub proof fn law_success(status: u16, out: bool)
    requires
        call_ensures(is_success, (status,), out),
    ensures
        out <==> status / 100 == 2,
{
}

// ---------------------------------------------------------------------------
// The backend and the command line
// ---------------------------------------------------------------------------

/// What a backend can do where nothing else is said: it takes texts and images and answers in text.
pub proof fn law_default_capabilities(caps: Capabilities)
    requires
        call_ensures(default_capabilities, (), caps),
    ensures
        caps.max_context_tokens == 200_000,
        caps.max_output_tokens == 8_192,
        caps.supports_tool_use && caps.supports_parallel_tool_calls,
        caps.supports_structured_output == StructuredOutputMode::ToolUseEmulation,
        caps.supports_vision && caps.supports_thinking && caps.supports_cancel,
        caps.prompt_cache == PromptCacheKind::ExplicitMarker,
        caps.streaming,
        forall|m: Modality|
            caps.modalities_in@.contains(m) <==> m == Modality::Text || m == Modality::Image,
        forall|m: Modality| caps.modalities_out@.contains(m) <==> m == Modality::Text,
        caps.pricing.input == 0 && caps.pricing.output == 0 && caps.pricing.cached_input == 0
            && caps.pricing.cache_creation == 0,
{
    assert forall|m: Modality|
        caps.modalities_in@.contains(m) <==> m == Modality::Text || m == Modality::Image by {
        assert(caps.modalities_in@.contains(m) <==> caps.modalities_in@.to_set().contains(m));
    }
    assert forall|m: Modality| caps.modalities_out@.contains(m) <==> m == Modality::Text by {
        assert(caps.modalities_out@.contains(m) <==> caps.modalities_out@.to_set().contains(m));
    }
}

/// What a backend is set up with where nothing else is said.
pub proof fn law_default_backend(id: &str, auth: Auth, out: AnthropicProviderBuilder)
    requires
        call_ensures(AnthropicProviderBuilder::new, (id, auth), out),
    ensures
        out.id.name@ == id@,
        out.base_url@ == "https://api.anthropic.com"@,
        out.api_version@ == "2023-06-01"@,
        out.auth == auth,
        out.capabilities is None,
        out.extras.headers@.len() == 0,
{
}

/// Each `-v` shows more, up to the third.
pub proof fn law_verbosity(count: u8, out: Verbosity)
    requires
        call_ensures(verbosity, (count,), out),
    ensures
        count == 0 <==> out == Verbosity::Default,
        count == 1 <==> out == Verbosity::Info,
        count == 2 <==> out == Verbosity::Debug,
        count >= 3 <==> out == Verbosity::Trace,
{
}

/// The format on the command line counts before the configured one.
pub proof fn law_telemetry_format(
    flag: Option<LogFormat>,
    configured: TelemetryFormat,
    out: TelemetryFormat,
)
    requires
        call_ensures(telemetry_format, (flag, configured), out),
    ensures
        flag is None ==> out == configured,
        flag is Some ==> (out == TelemetryFormat::Json <==> flag == Some(LogFormat::Json)),
{
}

/// A failure is reported with the command that failed and with what it says.
pub proof fn law_failure_line(command: Command, description: &str, out: String)
    requires
        call_ensures(failure_line, (command, description), out),
    ensures
        out@ == "error in `tars "@ + command.spelling() + "`: "@ + description@,
{
}

/// A failed cancellation says what the answer says, and any other succeeds.
pub proof fn law_cancellation(
    adapter: AnthropicAdapter,
    reply: Reply<()>,
    out: Result<(), ProviderError>,
)
    requires
        reply.well_formed(),
        call_ensures(AnthropicAdapter::cancel_reply, (&adapter, reply), out),
    ensures
        out is Ok <==> reply is Success,
        reply matches Reply::Failure { status, headers, text } ==> (out matches Err(e) && e@
            == classified_answer(status, header_fields(headers), text@)),
{
}

/// Results come out of a success exactly if every line is understood, and a failure says what the
/// answer says.
pub proof fn law_results(
    adapter: AnthropicAdapter,
    reply: Reply<String>,
    out: Result<Vec<BatchResultItem>, ProviderError>,
)
    requires
        reply.well_formed(),
        call_ensures(AnthropicAdapter::results_reply, (&adapter, reply), out),
    ensures
        reply matches Reply::Success(text) ==> (out is Ok <==> results_of(text@) is Ok),
        reply matches Reply::Success(text) ==> (out matches Ok(items) ==> item_views(items@)
            == results_of(text@)->Ok_0),
        reply matches Reply::Failure { status, headers, text } ==> (out matches Err(e) && e@
            == classified_answer(status, header_fields(headers), text@)),
{
}

/// A config file that is of no use to the command is warned of, and nothing else is.
pub proof fn law_config_warning(cli: Cli, out: Option<&'static str>)
    requires
        call_ensures(Cli::config_warning, (&cli,), out),
    ensures
        out is Some <==> cli.config is Some && (cli.command == Command::Trajectory || cli.command
            == Command::Init || cli.command == Command::Events),
{
}

} // verus!
