//! Reading the events of a streamed answer.
//!
//! The backend sends named server-sent events. The name says what an event is about; the data is
//! a JSON object.

use vstd::prelude::*;

use crate::chat::{event_views, CacheHitInfo, ChatEvent, EventView, StopReason, Usage};
use crate::error::{ErrorView, ProviderError};
use crate::json::{or_text, or_zero, Json, JsonTree};
use crate::text::{same_text, truncate, truncated};
use crate::tool_buffer::{arguments, BufferView, ToolCallBuffer};

verus! {

/// One server-sent event.
#[derive(Debug)]
pub struct SseEvent {
    pub event: String,
    pub data: String,
}

// ---------------------------------------------------------------------------
// Stop reasons and usage
// ---------------------------------------------------------------------------

/// The stop reason that the backend's word for it means.
pub open spec fn stop_reason_of(word: Seq<char>) -> StopReason {
    if word == "end_turn"@ {
        StopReason::EndTurn
    } else if word == "max_tokens"@ {
        StopReason::MaxTokens
    } else if word == "stop_sequence"@ {
        StopReason::StopSequence
    } else if word == "tool_use"@ {
        StopReason::ToolUse
    } else {
        StopReason::Other
    }
}

/// The stop reason that the backend's word for it means.
pub fn map_stop_reason(word: &str) -> (reason: StopReason)
    ensures
        reason == stop_reason_of(word@),
{
    if same_text(word, "end_turn") {
        StopReason::EndTurn
    } else if same_text(word, "max_tokens") {
        StopReason::MaxTokens
    } else if same_text(word, "stop_sequence") {
        StopReason::StopSequence
    } else if same_text(word, "tool_use") {
        StopReason::ToolUse
    } else {
        StopReason::Other
    }
}

/// A sum that stays at the largest 64-bit number where it would exceed it.
pub open spec fn capped(n: nat) -> u64 {
    if n > u64::MAX {
        u64::MAX
    } else {
        n as u64
    }
}

/// The first of two members that is there, as an unsigned integer.
pub open spec fn first_unsigned(v: JsonTree, first: Seq<char>, second: Seq<char>) -> Option<u64> {
    if v.field(first) is Some {
        v.field_unsigned(first)
    } else {
        v.field_unsigned(second)
    }
}

/// The usage that a `usage` object reports. The backend counts the tokens read from the cache and
/// written to it apart from `input_tokens`; here they are part of the input.
pub open spec fn usage_of(u: JsonTree) -> Usage {
    let input = or_zero(u.field_unsigned("input_tokens"@));
    let cached = or_zero(u.field_unsigned("cache_read_input_tokens"@));
    let creation = or_zero(u.field_unsigned("cache_creation_input_tokens"@));
    Usage {
        input_tokens: capped((input + cached + creation) as nat),
        output_tokens: or_zero(u.field_unsigned("output_tokens"@)),
        cached_input_tokens: cached,
        cache_creation_tokens: creation,
        thinking_tokens: or_zero(
            first_unsigned(u, "thinking_tokens"@, "output_thinking_tokens"@),
        ),
    }
}

/// The usage that a `usage` object reports.
pub fn parse_usage(u: &Json) -> (usage: Usage)
    ensures
        usage == usage_of(u.tree()),
{
    let input: u64 = u.get_u64("input_tokens").unwrap_or(0);
    let output: u64 = u.get_u64("output_tokens").unwrap_or(0);
    let cached: u64 = u.get_u64("cache_read_input_tokens").unwrap_or(0);
    let creation: u64 = u.get_u64("cache_creation_input_tokens").unwrap_or(0);
    let thinking: u64 = match u.get("thinking_tokens") {
        Some(v) => v.as_u64().unwrap_or(0),
        None => u.get_u64("output_thinking_tokens").unwrap_or(0),
    };
    Usage {
        input_tokens: input.saturating_add(cached).saturating_add(creation),
        output_tokens: output,
        cached_input_tokens: cached,
        cache_creation_tokens: creation,
        thinking_tokens: thinking,
    }
}

// ---------------------------------------------------------------------------
// Events
// ---------------------------------------------------------------------------

/// The index of the content block that an event is about.
pub open spec fn block_index(v: JsonTree) -> usize {
    or_zero(v.field_unsigned("index"@)) as usize
}

fn read_block_index(v: &Json) -> (index: usize)
    ensures
        index == block_index(v.tree()),
{
    v.get_u64("index").unwrap_or(0) as usize
}

/// The characters of a member of a member.
pub open spec fn text_in(v: JsonTree, outer: Seq<char>, inner: Seq<char>) -> Option<Seq<char>> {
    match v.field_in(outer, inner) {
        Some(x) => x.text(),
        None => None,
    }
}

pub fn read_text_in<'a>(v: &'a Json, outer: &str, inner: &str) -> (text: Option<&'a str>)
    ensures
        match text {
            Some(s) => text_in(v.tree(), outer@, inner@) == Some(s@),
            None => text_in(v.tree(), outer@, inner@) is None,
        },
{
    match v.get_in(outer, inner) {
        Some(x) => x.as_str(),
        None => None,
    }
}

/// `message_start`: the answer begins.
pub open spec fn message_started(v: JsonTree) -> EventView {
    EventView::Started {
        actual_model: or_text(text_in(v, "message"@, "model"@), Seq::empty()),
        cache_hit: CacheHitInfo::tokens(
            match v.field_in("message"@, "usage"@) {
                Some(u) => or_zero(u.field_unsigned("cache_read_input_tokens"@)),
                None => 0,
            },
        ),
    }
}

/// `content_block_start`: a tool call starts, or a text or a thought that may already hold
/// something. Blocks of other types are ignored.
pub open spec fn block_started(v: JsonTree, buf: BufferView) -> (Seq<EventView>, BufferView) {
    let index = block_index(v);
    let kind = text_in(v, "content_block"@, "type"@);
    if kind == Some("tool_use"@) {
        let id = or_text(text_in(v, "content_block"@, "id"@), Seq::empty());
        let name = or_text(text_in(v, "content_block"@, "name"@), Seq::empty());
        (seq![EventView::ToolCallStart { index, id, name }], buf.start(index, id, name))
    } else if kind == Some("text"@) {
        match text_in(v, "content_block"@, "text"@) {
            Some(text) if text.len() > 0 => (seq![EventView::Delta { text }], buf),
            _ => (Seq::empty(), buf),
        }
    } else if kind == Some("thinking"@) {
        match text_in(v, "content_block"@, "thinking"@) {
            Some(text) if text.len() > 0 => (seq![EventView::ThinkingDelta { text }], buf),
            _ => (Seq::empty(), buf),
        }
    } else {
        (Seq::empty(), buf)
    }
}

/// `content_block_delta`: more text, more of a tool call's arguments, or more thought.
pub open spec fn block_delta(v: JsonTree, buf: BufferView) -> (Seq<EventView>, BufferView) {
    let index = block_index(v);
    let kind = text_in(v, "delta"@, "type"@);
    if kind == Some("text_delta"@) {
        match text_in(v, "delta"@, "text"@) {
            Some(text) => (seq![EventView::Delta { text }], buf),
            None => (Seq::empty(), buf),
        }
    } else if kind == Some("input_json_delta"@) {
        match text_in(v, "delta"@, "partial_json"@) {
            Some(args_delta) => (
                seq![EventView::ToolCallArgsDelta { index, args_delta }],
                buf.extend(index, args_delta),
            ),
            None => (Seq::empty(), buf),
        }
    } else if kind == Some("thinking_delta"@) {
        match text_in(v, "delta"@, "thinking"@) {
            Some(text) => (seq![EventView::ThinkingDelta { text }], buf),
            None => (Seq::empty(), buf),
        }
    } else {
        (Seq::empty(), buf)
    }
}

/// `content_block_stop`: a tool call ends, if one has started at this index and its arguments are
/// JSON. The end of any other block says nothing.
pub open spec fn block_stopped(v: JsonTree, buf: BufferView) -> (Seq<EventView>, BufferView) {
    let index = block_index(v);
    if buf.calls.dom().contains(index) {
        let call = buf.calls[index];
        match arguments(call.args) {
            Ok(parsed_args) => (
                seq![EventView::ToolCallEnd { index, id: call.id, parsed_args }],
                buf.end(index),
            ),
            Err(_) => (Seq::empty(), buf.end(index)),
        }
    } else {
        (Seq::empty(), buf)
    }
}

/// `message_delta`: the answer ends, if the event has both a stop reason and a usage object.
pub open spec fn message_changed(v: JsonTree, buf: BufferView) -> (Seq<EventView>, BufferView) {
    match (text_in(v, "delta"@, "stop_reason"@), v.field("usage"@)) {
        (Some(word), Some(u)) if u is Object => (
            seq![EventView::Finished { stop_reason: stop_reason_of(word), usage: usage_of(u) }],
            buf.finish(),
        ),
        _ => (Seq::empty(), buf),
    }
}

/// `message_stop`: the end, reported here only if it has not been reported before.
pub open spec fn message_stopped(buf: BufferView) -> (Seq<EventView>, BufferView) {
    if buf.finished {
        (Seq::empty(), buf)
    } else {
        (
            seq![EventView::Finished { stop_reason: StopReason::Other, usage: Usage::zero() }],
            buf.finish(),
        )
    }
}

/// What the event `name` with the data `v` says, and what the buffer holds after it. Unknown
/// events say nothing.
pub open spec fn told(name: Seq<char>, v: JsonTree, buf: BufferView) -> (
    Seq<EventView>,
    BufferView,
) {
    if name == "message_start"@ {
        (seq![message_started(v)], buf)
    } else if name == "content_block_start"@ {
        block_started(v, buf)
    } else if name == "content_block_delta"@ {
        block_delta(v, buf)
    } else if name == "content_block_stop"@ {
        block_stopped(v, buf)
    } else if name == "message_delta"@ {
        message_changed(v, buf)
    } else if name == "message_stop"@ {
        message_stopped(buf)
    } else {
        (Seq::empty(), buf)
    }
}

/// The message of an event that reports a failure of the backend.
pub open spec fn failure_message(parsed: Result<JsonTree, Seq<char>>) -> Seq<char> {
    match parsed {
        Ok(v) => or_text(text_in(v, "error"@, "message"@), "anthropic mid-stream error"@),
        Err(_) => "anthropic mid-stream error"@,
    }
}

/// What an event with the given name and data comes to, and what the buffer holds after it. An
/// event without data and a `ping` say nothing; an `error` is one; the data of any other event
/// must be JSON.
pub open spec fn event_outcome(
    name: Seq<char>,
    data: Seq<char>,
    parsed: Result<JsonTree, Seq<char>>,
    buf: BufferView,
) -> (Result<Seq<EventView>, ErrorView>, BufferView) {
    if data.len() == 0 || name == "ping"@ {
        (Ok(Seq::empty()), buf)
    } else if name == "error"@ {
        (Err(ErrorView::Internal(failure_message(parsed))), buf)
    } else {
        match parsed {
            Ok(v) => (Ok(told(name, v, buf).0), told(name, v, buf).1),
            Err(e) => (
                Err(
                    ErrorView::Parse(
                        "anthropic sse: "@ + e + " (raw: "@ + truncated(data, 200) + ")"@,
                    ),
                ),
                buf,
            ),
        }
    }
}

/// What the outcome of reading an event says.
pub open spec fn outcome_view(outcome: Result<Vec<ChatEvent>, ProviderError>) -> Result<
    Seq<EventView>,
    ErrorView,
> {
    match outcome {
        Ok(events) => Ok(event_views(events@)),
        Err(e) => Err(e@),
    }
}

/// What a parsed text holds.
pub open spec fn parsed_view(parsed: Result<Json, String>) -> Result<JsonTree, Seq<char>> {
    match parsed {
        Ok(v) => Ok(v.tree()),
        Err(e) => Err(e@),
    }
}

fn none() -> (events: Vec<ChatEvent>)
    ensures
        event_views(events@) == Seq::<EventView>::empty(),
{
    let events: Vec<ChatEvent> = Vec::new();
    assert(event_views(events@) =~= Seq::<EventView>::empty());
    events
}

fn one(event: ChatEvent) -> (events: Vec<ChatEvent>)
    ensures
        event_views(events@) == seq![event@],
{
    let mut events: Vec<ChatEvent> = Vec::new();
    events.push(event);
    assert(event_views(events@) =~= seq![event@]);
    events
}

fn is_kind(kind: Option<&str>, word: &str) -> (answer: bool)
    ensures
        answer == (kind matches Some(k) && k@ == word@),
{
    match kind {
        Some(k) => same_text(k, word),
        None => false,
    }
}

fn on_message_start(v: &Json) -> (events: Vec<ChatEvent>)
    ensures
        event_views(events@) == seq![message_started(v.tree())],
{
    let actual_model = match read_text_in(v, "message", "model") {
        Some(m) => m.to_string(),
        None => String::new(),
    };
    let cached_input_tokens: u64 = match v.get_in("message", "usage") {
        Some(u) => u.get_u64("cache_read_input_tokens").unwrap_or(0),
        None => 0,
    };
    one(
        ChatEvent::Started {
            actual_model,
            cache_hit: CacheHitInfo {
                cached_input_tokens,
                used_explicit_handle: false,
                replayed_from_cache: false,
            },
        },
    )
}

fn on_block_start(v: &Json, buf: &mut ToolCallBuffer) -> (events: Vec<ChatEvent>)
    ensures
        (event_views(events@), final(buf)@) == block_started(v.tree(), old(buf)@),
{
    let index: usize = read_block_index(v);
    let kind = read_text_in(v, "content_block", "type");
    if is_kind(kind, "tool_use") {
        let id = match read_text_in(v, "content_block", "id") {
            Some(s) => s.to_string(),
            None => String::new(),
        };
        let name = match read_text_in(v, "content_block", "name") {
            Some(s) => s.to_string(),
            None => String::new(),
        };
        let events = one(
            ChatEvent::ToolCallStart { index, id: id.clone(), name: name.clone() },
        );
        buf.on_start(index, id, name);
        events
    } else if is_kind(kind, "text") {
        match read_text_in(v, "content_block", "text") {
            Some(text) => if text.is_empty() {
                none()
            } else {
                one(ChatEvent::Delta { text: text.to_string() })
            },
            None => none(),
        }
    } else if is_kind(kind, "thinking") {
        match read_text_in(v, "content_block", "thinking") {
            Some(text) => if text.is_empty() {
                none()
            } else {
                one(ChatEvent::ThinkingDelta { text: text.to_string() })
            },
            None => none(),
        }
    } else {
        none()
    }
}

fn on_block_delta(v: &Json, buf: &mut ToolCallBuffer) -> (events: Vec<ChatEvent>)
    ensures
        (event_views(events@), final(buf)@) == block_delta(v.tree(), old(buf)@),
{
    let index: usize = read_block_index(v);
    let kind = read_text_in(v, "delta", "type");
    if is_kind(kind, "text_delta") {
        match read_text_in(v, "delta", "text") {
            Some(text) => one(ChatEvent::Delta { text: text.to_string() }),
            None => none(),
        }
    } else if is_kind(kind, "input_json_delta") {
        match read_text_in(v, "delta", "partial_json") {
            Some(fragment) => {
                buf.on_delta(index, fragment);
                one(ChatEvent::ToolCallArgsDelta { index, args_delta: fragment.to_string() })
            },
            None => none(),
        }
    } else if is_kind(kind, "thinking_delta") {
        match read_text_in(v, "delta", "thinking") {
            Some(text) => one(ChatEvent::ThinkingDelta { text: text.to_string() }),
            None => none(),
        }
    } else {
        none()
    }
}

fn on_block_stop(v: &Json, buf: &mut ToolCallBuffer) -> (events: Vec<ChatEvent>)
    ensures
        (event_views(events@), final(buf)@) == block_stopped(v.tree(), old(buf)@),
{
    let index: usize = read_block_index(v);
    match buf.finalize(index) {
        Ok((id, _name, parsed_args)) => one(ChatEvent::ToolCallEnd { index, id, parsed_args }),
        Err(_) => {
            assert(!old(buf)@.calls.dom().contains(index) ==> old(buf)@.end(index) =~= old(buf)@);
            none()
        },
    }
}

fn on_message_delta(v: &Json, buf: &mut ToolCallBuffer) -> (events: Vec<ChatEvent>)
    ensures
        (event_views(events@), final(buf)@) == message_changed(v.tree(), old(buf)@),
{
    let stop = read_text_in(v, "delta", "stop_reason");
    let usage = v.get("usage");
    match (stop, usage) {
        (Some(word), Some(u)) => if u.is_object() {
            buf.mark_finished();
            one(ChatEvent::Finished { stop_reason: map_stop_reason(word), usage: parse_usage(u) })
        } else {
            none()
        },
        _ => none(),
    }
}

fn on_message_stop(buf: &mut ToolCallBuffer) -> (events: Vec<ChatEvent>)
    ensures
        (event_views(events@), final(buf)@) == message_stopped(old(buf)@),
{
    if buf.finished_emitted() {
        none()
    } else {
        buf.mark_finished();
        one(ChatEvent::Finished { stop_reason: StopReason::Other, usage: Usage::default() })
    }
}

/// What the event `name` with the data `v` says; the tool calls it is about go through `buf`.
pub fn events_of(name: &str, v: &Json, buf: &mut ToolCallBuffer) -> (events: Vec<ChatEvent>)
    ensures
        (event_views(events@), final(buf)@) == told(name@, v.tree(), old(buf)@),
{
    if same_text(name, "message_start") {
        on_message_start(v)
    } else if same_text(name, "content_block_start") {
        on_block_start(v, buf)
    } else if same_text(name, "content_block_delta") {
        on_block_delta(v, buf)
    } else if same_text(name, "content_block_stop") {
        on_block_stop(v, buf)
    } else if same_text(name, "message_delta") {
        on_message_delta(v, buf)
    } else if same_text(name, "message_stop") {
        on_message_stop(buf)
    } else {
        none()
    }
}

/// What a server-sent event comes to, given what its data denotes.
pub fn read_event(raw: &SseEvent, parsed: Result<Json, String>, buf: &mut ToolCallBuffer) -> (
    outcome: Result<Vec<ChatEvent>, ProviderError>)
    ensures
        (outcome_view(outcome), final(buf)@) == event_outcome(
            raw.event@,
            raw.data@,
            parsed_view(parsed),
            old(buf)@,
        ),
{
    if raw.data.as_str().is_empty() {
        return Ok(none());
    }
    if same_text(raw.event.as_str(), "ping") {
        return Ok(none());
    }
    if same_text(raw.event.as_str(), "error") {
        let message = match &parsed {
            Ok(v) => match read_text_in(v, "error", "message") {
                Some(m) => m.to_string(),
                None => "anthropic mid-stream error".to_string(),
            },
            Err(_) => "anthropic mid-stream error".to_string(),
        };
        return Err(ProviderError::Internal(message));
    }
    match parsed {
        Ok(v) => Ok(events_of(raw.event.as_str(), &v, buf)),
        Err(e) => {
            let mut message = "anthropic sse: ".to_string();
            message.append(e.as_str());
            message.append(" (raw: ");
            message.append(truncate(raw.data.as_str(), 200).as_str());
            message.append(")");
            Err(ProviderError::Parse(message))
        },
    }
}

} // verus!
