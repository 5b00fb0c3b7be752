//! What the events of a streamed answer say, told by their names and data alone.

use vstd::prelude::*;

use crate::chat::{
    event_views, CacheHitInfo, ChatEvent, ChatResponse, EventView, ResponseView, StopReason, Usage,
};
use crate::decode::json_parse;
use crate::error::{ErrorView, ProviderError};
use crate::json::{Json, JsonTree, NumberTree};
use crate::stream::{
    event_outcome, outcome_view, parsed_view, stop_reason_of, told, usage_of,
};
use crate::stream_laws::{events_text, run, Row};
use crate::text::truncated;
use crate::tool_buffer::{arguments, BufferView, CallView, PendingCall};

verus! {

// ---------------------------------------------------------------------------
// Reading the data of an event
// ---------------------------------------------------------------------------

/// The string that stands under `inner` in the member under `outer`.
pub open spec fn said_in(v: JsonTree, outer: Seq<char>, inner: Seq<char>) -> Option<Seq<char>> {
    match v.field(outer) {
        Some(x) => match x.field(inner) {
            Some(JsonTree::Text(t)) => Some(t),
            _ => None,
        },
        None => None,
    }
}

/// The unsigned number that stands under a key, or zero.
pub open spec fn counted(v: JsonTree, key: Seq<char>) -> u64 {
    match v.field(key) {
        Some(JsonTree::Number(NumberTree { unsigned: Some(n), .. })) => n,
        _ => 0,
    }
}

/// The characters, or none.
pub open spec fn or_nothing(text: Option<Seq<char>>) -> Seq<char> {
    match text {
        Some(t) => t,
        None => Seq::empty(),
    }
}

proof fn lemma_event_words()
    ensures
        "message_start"@.len() == 13 && "content_block_start"@.len() == 19,
        "content_block_delta"@.len() == 19 && "content_block_stop"@.len() == 18,
        "message_delta"@.len() == 13 && "message_stop"@.len() == 12,
        "message_start"@ != "message_delta"@,
        "content_block_start"@ != "content_block_delta"@,
        "ping"@.len() == 4 && "error"@.len() == 5,
        "text_delta"@.len() == 10 && "input_json_delta"@.len() == 16,
        "thinking_delta"@.len() == 14,
        "tool_use"@.len() == 8 && "text"@.len() == 4 && "thinking"@.len() == 8,
        "tool_use"@ != "thinking"@,
{
    reveal_strlit("message_start");
    reveal_strlit("content_block_start");
    reveal_strlit("content_block_delta");
    reveal_strlit("content_block_stop");
    reveal_strlit("message_delta");
    reveal_strlit("message_stop");
    reveal_strlit("ping");
    reveal_strlit("error");
    reveal_strlit("text_delta");
    reveal_strlit("input_json_delta");
    reveal_strlit("thinking_delta");
    reveal_strlit("tool_use");
    reveal_strlit("text");
    reveal_strlit("thinking");
    assert("message_start"@[8] != "message_delta"@[8]);
    assert("content_block_start"@[14] != "content_block_delta"@[14]);
    assert("tool_use"@[1] != "thinking"@[1]);
}

// ---------------------------------------------------------------------------
// Single events
// ---------------------------------------------------------------------------

/// A piece of text or of thought is forwarded as it is, whichever content block it belongs to and
/// whatever the buffer holds; the buffer stays as it is.
pub proof fn law_text_is_forwarded(v: JsonTree, text: Seq<char>, buf: BufferView)
    ensures
        said_in(v, "delta"@, "type"@) == Some("text_delta"@) && said_in(v, "delta"@, "text"@)
            == Some(text) ==> told("content_block_delta"@, v, buf) == (
            seq![EventView::Delta { text }],
            buf,
        ),
        said_in(v, "delta"@, "type"@) == Some("thinking_delta"@) && said_in(
            v,
            "delta"@,
            "thinking"@,
        ) == Some(text) ==> told("content_block_delta"@, v, buf) == (
            seq![EventView::ThinkingDelta { text }],
            buf,
        ),
        said_in(v, "content_block"@, "type"@) == Some("text"@) && said_in(
            v,
            "content_block"@,
            "text"@,
        ) == Some(text) ==> told("content_block_start"@, v, buf) == (
            if text.len() == 0 {
                Seq::empty()
            } else {
                seq![EventView::Delta { text }]
            },
            buf,
        ),
        said_in(v, "content_block"@, "type"@) == Some("thinking"@) && said_in(
            v,
            "content_block"@,
            "thinking"@,
        ) == Some(text) ==> told("content_block_start"@, v, buf) == (
            if text.len() == 0 {
                Seq::empty()
            } else {
                seq![EventView::ThinkingDelta { text }]
            },
            buf,
        ),
{
    lemma_event_words();
}

/// A piece of a tool call's arguments is forwarded with the index that the event gives, zero where
/// it gives none, and is added to what the call at that index has collected, if there is one. The
/// other calls stay as they are.
pub proof fn law_arguments_are_collected(v: JsonTree, piece: Seq<char>, buf: BufferView)
    requires
        said_in(v, "delta"@, "type"@) == Some("input_json_delta"@),
        said_in(v, "delta"@, "partial_json"@) == Some(piece),
    ensures
        ({
            let index = counted(v, "index"@) as usize;
            let (events, after) = told("content_block_delta"@, v, buf);
            &&& events == seq![EventView::ToolCallArgsDelta { index, args_delta: piece }]
            &&& after.finished == buf.finished
            &&& after.calls.dom() == buf.calls.dom()
            &&& forall|i: usize|
                i != index && buf.calls.dom().contains(i) ==> #[trigger] after.calls[i]
                    == buf.calls[i]
            &&& buf.calls.dom().contains(index) ==> after.calls[index].id == buf.calls[index].id
                && after.calls[index].name == buf.calls[index].name && after.calls[index].args
                == buf.calls[index].args + piece
        }),
{
    lemma_event_words();
    let (_, after) = told("content_block_delta"@, v, buf);
    assert(after.calls.dom() =~= buf.calls.dom());
}

/// A tool call that starts is announced with its index, its identifier and its name, and has
/// collected nothing yet. The other calls stay as they are.
pub proof fn law_call_starts(v: JsonTree, buf: BufferView)
    requires
        said_in(v, "content_block"@, "type"@) == Some("tool_use"@),
    ensures
        ({
            let index = counted(v, "index"@) as usize;
            let id = or_nothing(said_in(v, "content_block"@, "id"@));
            let name = or_nothing(said_in(v, "content_block"@, "name"@));
            let (events, after) = told("content_block_start"@, v, buf);
            &&& events == seq![EventView::ToolCallStart { index, id, name }]
            &&& after.finished == buf.finished
            &&& after.calls.dom() == buf.calls.dom().insert(index)
            &&& after.calls[index] == (CallView { id, name, args: Seq::empty() })
            &&& forall|i: usize|
                i != index && buf.calls.dom().contains(i) ==> #[trigger] after.calls[i]
                    == buf.calls[i]
        }),
{
    lemma_event_words();
}

/// A content block that ends ends the tool call at its index, if there is one: the call leaves the
/// buffer, and is reported with what its arguments denote, if they denote anything. A call without
/// arguments has the empty object. Any other block ends without a word.
pub proof fn law_call_ends(v: JsonTree, buf: BufferView)
    ensures
        ({
            let index = counted(v, "index"@) as usize;
            let (events, after) = told("content_block_stop"@, v, buf);
            &&& !buf.calls.dom().contains(index) ==> events.len() == 0 && after == buf
            &&& buf.calls.dom().contains(index) ==> {
                let call = buf.calls[index];
                let id = call.id;
                &&& after == (BufferView { calls: buf.calls.remove(index), finished: buf.finished })
                &&& call.args.len() == 0 ==> events == seq![
                    EventView::ToolCallEnd {
                        index,
                        id,
                        parsed_args: JsonTree::Object(Map::empty()),
                    },
                ]
                &&& call.args.len() > 0 ==> (json_parse(call.args) matches Ok(parsed_args)
                    ==> events == seq![EventView::ToolCallEnd { index, id, parsed_args }])
                &&& call.args.len() > 0 && json_parse(call.args) is Err ==> events.len() == 0
            }
        }),
{
    lemma_event_words();
}

/// An answer that starts names its model, and how many tokens came from the cache.
pub proof fn law_answer_starts(v: JsonTree, buf: BufferView)
    ensures
        told("message_start"@, v, buf) == (
            seq![
                EventView::Started {
                    actual_model: or_nothing(said_in(v, "message"@, "model"@)),
                    cache_hit: CacheHitInfo {
                        cached_input_tokens: match v.field("message"@) {
                            Some(m) => match m.field("usage"@) {
                                Some(u) => counted(u, "cache_read_input_tokens"@),
                                None => 0,
                            },
                            None => 0,
                        },
                        used_explicit_handle: false,
                        replayed_from_cache: false,
                    },
                },
            ],
            buf,
        ),
{
    lemma_event_words();
}

/// The end of an answer is reported with its reason and its usage where an event gives both, and
/// remembered; an event that lacks either says nothing.
pub proof fn law_answer_ends(v: JsonTree, buf: BufferView)
    ensures
        said_in(v, "delta"@, "stop_reason"@) matches Some(word) ==> (v.field(
            "usage"@,
        ) matches Some(JsonTree::Object(u)) ==> told("message_delta"@, v, buf) == (
            seq![
                EventView::Finished {
                    stop_reason: stop_reason_of(word),
                    usage: usage_of(JsonTree::Object(u)),
                },
            ],
            BufferView { calls: buf.calls, finished: true },
        )),
        said_in(v, "delta"@, "stop_reason"@) is None || !(v.field("usage"@) matches Some(
            JsonTree::Object(_),
        )) ==> told("message_delta"@, v, buf) == (Seq::<EventView>::empty(), buf),
{
    lemma_event_words();
}

/// `message_stop` reports an end without a reason where none has been reported, and nothing
/// otherwise.
pub proof fn law_answer_stops(v: JsonTree, buf: BufferView)
    ensures
        buf.finished ==> told("message_stop"@, v, buf) == (Seq::<EventView>::empty(), buf),
        !buf.finished ==> told("message_stop"@, v, buf) == (
            seq![
                EventView::Finished {
                    stop_reason: StopReason::Other,
                    usage: Usage {
                        input_tokens: 0,
                        output_tokens: 0,
                        cached_input_tokens: 0,
                        cache_creation_tokens: 0,
                        thinking_tokens: 0,
                    },
                },
            ],
            BufferView { calls: buf.calls, finished: true },
        ),
{
    lemma_event_words();
}

/// Blocks and deltas of other kinds, and those that lack what they are about, say nothing and
/// change nothing.
pub proof fn law_other_blocks_are_ignored(v: JsonTree, buf: BufferView)
    ensures
        ({
            let kind = said_in(v, "content_block"@, "type"@);
            kind != Some("tool_use"@) && (kind == Some("text"@) ==> said_in(
                v,
                "content_block"@,
                "text"@,
            ) is None) && (kind == Some("thinking"@) ==> said_in(
                v,
                "content_block"@,
                "thinking"@,
            ) is None)
        }) ==> told("content_block_start"@, v, buf) == (Seq::<EventView>::empty(), buf),
        ({
            let kind = said_in(v, "delta"@, "type"@);
            (kind == Some("text_delta"@) ==> said_in(v, "delta"@, "text"@) is None) && (kind
                == Some("thinking_delta"@) ==> said_in(v, "delta"@, "thinking"@) is None) && (kind
                == Some("input_json_delta"@) ==> said_in(v, "delta"@, "partial_json"@) is None)
        }) ==> told("content_block_delta"@, v, buf) == (Seq::<EventView>::empty(), buf),
{
    lemma_event_words();
}

/// The words for stop reasons.
pub proof fn law_stop_words(word: Seq<char>)
    ensures
        word == "end_turn"@ ==> stop_reason_of(word) == StopReason::EndTurn,
        word == "max_tokens"@ ==> stop_reason_of(word) == StopReason::MaxTokens,
        word == "stop_sequence"@ ==> stop_reason_of(word) == StopReason::StopSequence,
        word == "tool_use"@ ==> stop_reason_of(word) == StopReason::ToolUse,
        word != "end_turn"@ && word != "max_tokens"@ && word != "stop_sequence"@ && word
            != "tool_use"@ ==> stop_reason_of(word) == StopReason::Other,
{
    reveal_strlit("end_turn");
    reveal_strlit("max_tokens");
    reveal_strlit("stop_sequence");
    reveal_strlit("tool_use");
    assert("end_turn"@.len() == 8 && "max_tokens"@.len() == 10 && "stop_sequence"@.len() == 13
        && "tool_use"@.len() == 8);
    assert("end_turn"@[0] != "tool_use"@[0]);
}

/// What a usage object counts: the whole prompt with its cached and its written part, capped at 64
/// bits; the answer; and the thinking under either of its two names, the first one counting where
/// both are there.
pub proof fn law_usage_counts(u: JsonTree)
    ensures
        ({
            let whole = counted(u, "input_tokens"@) + counted(u, "cache_read_input_tokens"@)
                + counted(u, "cache_creation_input_tokens"@);
            &&& whole <= u64::MAX ==> usage_of(u).input_tokens == whole
            &&& whole > u64::MAX ==> usage_of(u).input_tokens == u64::MAX
        }),
        usage_of(u).output_tokens == counted(u, "output_tokens"@),
        usage_of(u).cached_input_tokens == counted(u, "cache_read_input_tokens"@),
        usage_of(u).cache_creation_tokens == counted(u, "cache_creation_input_tokens"@),
        u.field("thinking_tokens"@) is Some ==> usage_of(u).thinking_tokens == counted(
            u,
            "thinking_tokens"@,
        ),
        u.field("thinking_tokens"@) is None ==> usage_of(u).thinking_tokens == counted(
            u,
            "output_thinking_tokens"@,
        ),
{
}

// ---------------------------------------------------------------------------
// Raw events
// ---------------------------------------------------------------------------

/// What a raw event comes to: nothing without data or for a `ping`; an error for an `error`, with
/// the message that its data hold; else what its data say, which must be JSON.
pub proof fn law_raw_events(
    name: Seq<char>,
    data: Seq<char>,
    parsed: Result<JsonTree, Seq<char>>,
    buf: BufferView,
)
    ensures
        data.len() == 0 || name == "ping"@ ==> event_outcome(name, data, parsed, buf) == (
            Ok::<Seq<EventView>, ErrorView>(Seq::empty()),
            buf,
        ),
        data.len() > 0 && name == "error"@ ==> event_outcome(name, data, parsed, buf) == (
            Err::<Seq<EventView>, ErrorView>(
                ErrorView::Internal(
                    match parsed {
                        Ok(v) => match said_in(v, "error"@, "message"@) {
                            Some(message) => message,
                            None => "anthropic mid-stream error"@,
                        },
                        Err(_) => "anthropic mid-stream error"@,
                    },
                ),
            ),
            buf,
        ),
        data.len() > 0 && name != "ping"@ && name != "error"@ ==> (parsed matches Ok(v)
            ==> event_outcome(name, data, parsed, buf) == (
            Ok::<Seq<EventView>, ErrorView>(told(name, v, buf).0),
            told(name, v, buf).1,
        )),
        data.len() > 0 && name != "ping"@ && name != "error"@ ==> (parsed matches Err(e)
            ==> event_outcome(name, data, parsed, buf) == (
            Err::<Seq<EventView>, ErrorView>(
                ErrorView::Parse(
                    "anthropic sse: "@ + e + " (raw: "@ + truncated(data, 200) + ")"@,
                ),
            ),
            buf,
        )),
{
    lemma_event_words();
    assert("ping"@ != "error"@);
}

// ---------------------------------------------------------------------------
// Whole answers
// ---------------------------------------------------------------------------

/// The text that an event carries for the reader, told by the event alone.
pub open spec fn carried_text(row: Row) -> Seq<char> {
    if row.0 == "content_block_delta"@ && said_in(row.1, "delta"@, "type"@) == Some(
        "text_delta"@,
    ) {
        or_nothing(said_in(row.1, "delta"@, "text"@))
    } else if row.0 == "content_block_start"@ && said_in(row.1, "content_block"@, "type"@) == Some(
        "text"@,
    ) {
        or_nothing(said_in(row.1, "content_block"@, "text"@))
    } else {
        Seq::empty()
    }
}

/// The texts that a row of events carries, one behind the other.
pub open spec fn carried_texts(rows: Seq<Row>) -> Seq<char>
    decreases rows.len(),
{
    if rows.len() == 0 {
        Seq::empty()
    } else {
        carried_texts(rows.drop_last()) + carried_text(rows.last())
    }
}

proof fn lemma_events_text_of_one(row: Row, buf: BufferView)
    ensures
        events_text(told(row.0, row.1, buf).0) == carried_text(row),
{
    lemma_event_words();
    let events = told(row.0, row.1, buf).0;
    law_text_is_forwarded(row.1, carried_text(row), buf);
    crate::stream_laws::law_end_is_remembered(row.0, row.1, buf);
    if events.len() == 1 {
        assert(events.drop_last().len() == 0);
        assert(events_text(events.drop_last()) == Seq::<char>::empty());
        assert(events_text(events) =~= crate::stream_laws::event_text(events[0]));
    }
}

proof fn lemma_events_text_joined(a: Seq<EventView>, b: Seq<EventView>)
    ensures
        events_text(a + b) == events_text(a) + events_text(b),
    decreases b.len(),
{
    if b.len() == 0 {
        assert(a + b =~= a);
        assert(events_text(a) + events_text(b) =~= events_text(a));
    } else {
        lemma_events_text_joined(a, b.drop_last());
        assert((a + b).drop_last() =~= a + b.drop_last());
        assert((a + b).last() == b.last());
        assert(events_text(a + b) =~= events_text(a) + events_text(b));
    }
}

/// The text of the answer that a row of events tells is all the text that the events carry, in
/// order.
pub proof fn law_no_text_is_lost(rows: Seq<Row>, buf: BufferView)
    ensures
        events_text(run(rows, buf).0) == carried_texts(rows),
        ResponseView::told_by(run(rows, buf).0).text == carried_texts(rows),
    decreases rows.len(),
{
    if rows.len() > 0 {
        let short = rows.drop_last();
        law_no_text_is_lost(short, buf);
        let before = run(short, buf);
        let last = told(rows.last().0, rows.last().1, before.1);
        lemma_events_text_joined(before.0, last.0);
        lemma_events_text_of_one(rows.last(), before.1);
    }
    crate::stream_laws::law_answer_is_told_by_events(run(rows, buf).0);
}

/// What an answer holds after one more event.
pub proof fn law_answer_grows(answer: ResponseView, event: EventView)
    ensures
        match event {
            EventView::Started { actual_model, .. } => answer.after(event) == (ResponseView {
                actual_model,
                ..answer
            }),
            EventView::Delta { text } => answer.after(event) == (ResponseView {
                text: answer.text + text,
                ..answer
            }),
            EventView::Finished { stop_reason, usage } => answer.after(event) == (ResponseView {
                stop_reason: Some(stop_reason),
                usage,
                ..answer
            }),
            _ => answer.after(event) == answer,
        },
        ResponseView::empty().text.len() == 0,
        ResponseView::empty().actual_model.len() == 0,
        ResponseView::empty().stop_reason is None,
        ResponseView::empty().usage == (Usage {
            input_tokens: 0,
            output_tokens: 0,
            cached_input_tokens: 0,
            cache_creation_tokens: 0,
            thinking_tokens: 0,
        }),
{
}

// ---------------------------------------------------------------------------
// The buffer, and what values say
// ---------------------------------------------------------------------------

/// What becomes of the buffer: a call that starts has collected nothing; a fragment is added to the
/// call at its index and is dropped where there is none; a call that ends is gone; an end that is
/// reported is remembered.
pub proof fn law_buffer_steps(
    buf: BufferView,
    index: usize,
    id: Seq<char>,
    name: Seq<char>,
    piece: Seq<char>,
)
    ensures
        BufferView::empty().calls == Map::<usize, CallView>::empty(),
        !BufferView::empty().finished,
        buf.start(index, id, name) == (BufferView {
            calls: buf.calls.insert(index, CallView { id, name, args: Seq::empty() }),
            finished: buf.finished,
        }),
        !buf.calls.dom().contains(index) ==> buf.extend(index, piece) == buf,
        buf.calls.dom().contains(index) ==> buf.extend(index, piece) == (BufferView {
            calls: buf.calls.insert(
                index,
                CallView {
                    id: buf.calls[index].id,
                    name: buf.calls[index].name,
                    args: buf.calls[index].args + piece,
                },
            ),
            finished: buf.finished,
        }),
        buf.end(index) == (BufferView { calls: buf.calls.remove(index), finished: buf.finished }),
        buf.finish() == (BufferView { calls: buf.calls, finished: true }),
{
}

/// What collected arguments denote: the empty object where there are none, else what they denote as
/// JSON.
pub proof fn law_arguments(args: Seq<char>)
    ensures
        args.len() == 0 ==> arguments(args) == Ok::<JsonTree, Seq<char>>(
            JsonTree::Object(Map::empty()),
        ),
        args.len() > 0 ==> arguments(args) == json_parse(args),
{
}

/// What an event, an answer and a pending call say is what they hold.
pub proof fn law_values_say_what_they_hold(
    event: ChatEvent,
    answer: ChatResponse,
    call: PendingCall,
)
    ensures
        match event {
            ChatEvent::Started { actual_model, cache_hit } => event@ == (EventView::Started {
                actual_model: actual_model@,
                cache_hit,
            }),
            ChatEvent::Delta { text } => event@ == (EventView::Delta { text: text@ }),
            ChatEvent::ThinkingDelta { text } => event@ == (EventView::ThinkingDelta {
                text: text@,
            }),
            ChatEvent::ToolCallStart { index, id, name } => event@ == (EventView::ToolCallStart {
                index,
                id: id@,
                name: name@,
            }),
            ChatEvent::ToolCallArgsDelta { index, args_delta } => event@ == (
            EventView::ToolCallArgsDelta { index, args_delta: args_delta@ }),
            ChatEvent::ToolCallEnd { index, id, parsed_args } => event@ == (
            EventView::ToolCallEnd { index, id: id@, parsed_args: parsed_args.tree() }),
            ChatEvent::Finished { stop_reason, usage } => event@ == (EventView::Finished {
                stop_reason,
                usage,
            }),
        },
        answer@.actual_model == answer.actual_model@,
        answer@.text == answer.text@,
        answer@.stop_reason == answer.stop_reason,
        answer@.usage == answer.usage,
        call@.id == call.id@,
        call@.name == call.name@,
        call@.args == call.args@,
{
}

/// What an outcome says is what it holds.
pub proof fn law_outcomes_say_what_they_hold(
    events: Vec<ChatEvent>,
    error: ProviderError,
    value: Json,
    fault: String,
)
    ensures
        outcome_view(Ok(events)) matches Ok(views) && views.len() == events@.len() && forall|i: int|
            0 <= i < views.len() ==> #[trigger] views[i] == events@[i]@,
        outcome_view(Err(error)) == Err::<Seq<EventView>, ErrorView>(error@),
        event_views(events@).len() == events@.len(),
        parsed_view(Ok(value)) == Ok::<JsonTree, Seq<char>>(value.tree()),
        parsed_view(Err(fault)) == Err::<JsonTree, Seq<char>>(fault@),
{
}

/// What an error says is what it holds.
pub proof fn law_errors_say_what_they_hold(error: ProviderError)
    ensures
        match error {
            ProviderError::Auth(m) => error@ == ErrorView::Auth(m@),
            ProviderError::RateLimited { retry_after } => error@ == (ErrorView::RateLimited {
                retry_after,
            }),
            ProviderError::ContextTooLong { limit, requested } => error@ == (
            ErrorView::ContextTooLong { limit, requested }),
            ProviderError::ModelOverloaded => error@ == ErrorView::ModelOverloaded,
            ProviderError::InvalidRequest(m) => error@ == ErrorView::InvalidRequest(m@),
            ProviderError::Internal(m) => error@ == ErrorView::Internal(m@),
            ProviderError::Parse(m) => error@ == ErrorView::Parse(m@),
            ProviderError::Network(m) => error@ == ErrorView::Network(m@),
        },
{
}

} // verus!
