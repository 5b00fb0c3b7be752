//! What holds of every streamed answer.

use vstd::prelude::*;

use crate::chat::{EventView, ResponseView, StopReason, Usage};
use crate::json::{or_text, or_zero, JsonTree};
use crate::stream::{block_index, event_outcome, text_in, told, usage_of};
use crate::tool_buffer::{arguments, BufferView};

verus! {

/// The name and the data of an event.
pub type Row = (Seq<char>, JsonTree);

/// What a row of events says, and what the buffer holds after it.
pub open spec fn run(rows: Seq<Row>, buf: BufferView) -> (Seq<EventView>, BufferView)
    decreases rows.len(),
{
    if rows.len() == 0 {
        (Seq::empty(), buf)
    } else {
        let before = run(rows.drop_last(), buf);
        let last = told(rows.last().0, rows.last().1, before.1);
        (before.0 + last.0, last.1)
    }
}

/// Whether some event reports the end of the answer.
pub open spec fn reports_end(events: Seq<EventView>) -> bool {
    exists|i: int| 0 <= i < events.len() && (#[trigger] events[i]) is Finished
}

// ---------------------------------------------------------------------------
// The end of an answer
// ---------------------------------------------------------------------------

/// An event says one thing at most, and the buffer knows that the end of the answer has been
/// reported exactly if it knew so before or the event reports it.
pub proof fn law_end_is_remembered(name: Seq<char>, v: JsonTree, buf: BufferView)
    ensures
        told(name, v, buf).0.len() <= 1,
        told(name, v, buf).1.finished == (buf.finished || reports_end(told(name, v, buf).0)),
{
    let (events, after) = told(name, v, buf);
    if after.finished && !buf.finished {
        assert(events[0] is Finished);
    }
}

/// Over a whole row of events the buffer knows exactly whether the end has been reported.
pub proof fn law_end_is_remembered_throughout(rows: Seq<Row>)
    ensures
        run(rows, BufferView::empty()).1.finished == reports_end(
            run(rows, BufferView::empty()).0,
        ),
    decreases rows.len(),
{
    if rows.len() > 0 {
        let short = rows.drop_last();
        law_end_is_remembered_throughout(short);
        let before = run(short, BufferView::empty());
        let last = told(rows.last().0, rows.last().1, before.1);
        law_end_is_remembered(rows.last().0, rows.last().1, before.1);
        let all = before.0 + last.0;
        if reports_end(before.0) {
            let i = choose|i: int| 0 <= i < before.0.len() && (#[trigger] before.0[i]) is Finished;
            assert(all[i] is Finished);
        }
        if reports_end(last.0) {
            let i = choose|i: int| 0 <= i < last.0.len() && (#[trigger] last.0[i]) is Finished;
            assert(all[before.0.len() + i] is Finished);
        }
        if reports_end(all) {
            let i = choose|i: int| 0 <= i < all.len() && (#[trigger] all[i]) is Finished;
            if i < before.0.len() {
                assert(before.0[i] is Finished);
            } else {
                assert(last.0[i - before.0.len()] is Finished);
            }
        }
    }
}

/// Once the end has been reported, the buffer never forgets it.
pub proof fn law_end_is_final(rows: Seq<Row>, buf: BufferView)
    requires
        buf.finished,
    ensures
        run(rows, buf).1.finished,
    decreases rows.len(),
{
    if rows.len() > 0 {
        law_end_is_final(rows.drop_last(), buf);
        law_end_is_remembered(rows.last().0, rows.last().1, run(rows.drop_last(), buf).1);
    }
}

/// A row of events that holds `message_stop` reports the end of the answer: nobody waits forever.
pub proof fn law_stopped_answer_ends(rows: Seq<Row>, at: int)
    requires
        0 <= at < rows.len(),
        rows[at].0 == "message_stop"@,
    ensures
        reports_end(run(rows, BufferView::empty()).0),
    decreases rows.len(),
{
    law_end_is_remembered_throughout(rows);
    let before = run(rows.drop_last(), BufferView::empty());
    if at < rows.len() - 1 {
        law_stopped_answer_ends(rows.drop_last(), at);
        law_end_is_remembered_throughout(rows.drop_last());
        law_end_is_remembered(rows.last().0, rows.last().1, before.1);
    } else {
        lemma_event_names();
        assert(told(rows.last().0, rows.last().1, before.1).1.finished);
    }
}

proof fn lemma_event_names()
    ensures
        "message_start"@.len() == 13,
        "content_block_start"@.len() == 19,
        "content_block_delta"@.len() == 19,
        "content_block_stop"@.len() == 18,
        "message_delta"@.len() == 13,
        "message_stop"@.len() == 12,
        "message_start"@ != "message_delta"@,
        "content_block_start"@ != "content_block_delta"@,
{
    reveal_strlit("message_start");
    reveal_strlit("content_block_start");
    reveal_strlit("content_block_delta");
    reveal_strlit("content_block_stop");
    reveal_strlit("message_delta");
    reveal_strlit("message_stop");
    assert("message_start"@[8] != "message_delta"@[8]);
    assert("content_block_start"@[14] != "content_block_delta"@[14]);
}

/// A `message_stop` reports an end of its own only where none has been reported: then it gives
/// no reason and counts no tokens.
pub proof fn law_stop_reports_once(v: JsonTree, buf: BufferView)
    ensures
        told("message_stop"@, v, buf).0 == if buf.finished {
            Seq::<EventView>::empty()
        } else {
            seq![EventView::Finished { stop_reason: StopReason::Other, usage: Usage::zero() }]
        },
        told("message_stop"@, v, told("message_stop"@, v, buf).1).0.len() == 0,
{
    lemma_event_names();
}

// ---------------------------------------------------------------------------
// Tool calls
// ---------------------------------------------------------------------------

/// The fragment of tool call arguments that an event brings for the call at `index`.
pub open spec fn fragment(row: Row, index: usize) -> Seq<char> {
    if row.0 == "content_block_delta"@ && block_index(row.1) == index && text_in(
        row.1,
        "delta"@,
        "type"@,
    ) == Some("input_json_delta"@) {
        match text_in(row.1, "delta"@, "partial_json"@) {
            Some(text) => text,
            None => Seq::empty(),
        }
    } else {
        Seq::empty()
    }
}

/// The fragments that a row of events brings for the call at `index`, one behind the other.
pub open spec fn fragments(rows: Seq<Row>, index: usize) -> Seq<char>
    decreases rows.len(),
{
    if rows.len() == 0 {
        Seq::empty()
    } else {
        fragments(rows.drop_last(), index) + fragment(rows.last(), index)
    }
}

/// Whether an event starts or stops the content block at `index`.
pub open spec fn bounds_block(row: Row, index: usize) -> bool {
    (row.0 == "content_block_start"@ || row.0 == "content_block_stop"@) && block_index(row.1)
        == index
}

/// Between its start and its stop a tool call collects its own fragments, in order, and nothing
/// else; what happens to other content blocks does not touch it.
pub proof fn law_fragments_add_up(rows: Seq<Row>, index: usize, buf: BufferView)
    requires
        buf.calls.dom().contains(index),
        forall|i: int| 0 <= i < rows.len() ==> !bounds_block(#[trigger] rows[i], index),
    ensures
        run(rows, buf).1.calls.dom().contains(index),
        run(rows, buf).1.calls[index].id == buf.calls[index].id,
        run(rows, buf).1.calls[index].name == buf.calls[index].name,
        run(rows, buf).1.calls[index].args == buf.calls[index].args + fragments(rows, index),
    decreases rows.len(),
{
    if rows.len() > 0 {
        let short = rows.drop_last();
        assert forall|i: int| 0 <= i < short.len() implies !bounds_block(
            #[trigger] short[i],
            index,
        ) by {
            assert(short[i] == rows[i]);
        }
        law_fragments_add_up(short, index, buf);
        let row = rows.last();
        assert(row == rows[rows.len() - 1]);
        assert(!bounds_block(row, index));
        lemma_event_names();
        lemma_delta_types();
        let args = run(short, buf).1.calls[index].args;
        assert(args + fragment(row, index) =~= buf.calls[index].args + fragments(rows, index));
        assert(args + Seq::<char>::empty() =~= args);
    } else {
        assert(buf.calls[index].args + fragments(rows, index) =~= buf.calls[index].args);
    }
}

proof fn lemma_delta_types()
    ensures
        "text_delta"@.len() == 10,
        "input_json_delta"@.len() == 16,
        "thinking_delta"@.len() == 14,
{
    reveal_strlit("text_delta");
    reveal_strlit("input_json_delta");
    reveal_strlit("thinking_delta");
}

/// A tool call that starts, collects its fragments and stops is reported with the identifier it
/// started with and with what its fragments, put together, denote; afterwards it is gone. A call
/// whose fragments denote nothing is dropped without a word.
pub proof fn law_tool_call_ends(start: JsonTree, rows: Seq<Row>, stop: JsonTree, buf: BufferView)
    requires
        text_in(start, "content_block"@, "type"@) == Some("tool_use"@),
        block_index(stop) == block_index(start),
        forall|i: int|
            0 <= i < rows.len() ==> !bounds_block(#[trigger] rows[i], block_index(start)),
    ensures
        ({
            let index = block_index(start);
            let opened = told("content_block_start"@, start, buf).1;
            let ended = told("content_block_stop"@, stop, run(rows, opened).1);
            &&& !ended.1.calls.dom().contains(index)
            &&& ended.0 == match arguments(fragments(rows, index)) {
                Ok(parsed_args) => seq![
                    EventView::ToolCallEnd {
                        index,
                        id: opened.calls[index].id,
                        parsed_args,
                    },
                ],
                Err(_) => Seq::<EventView>::empty(),
            }
            &&& opened.calls[index].id == or_text(
                text_in(start, "content_block"@, "id"@),
                Seq::empty(),
            )
        }),
{
    lemma_event_names();
    let index = block_index(start);
    let opened = told("content_block_start"@, start, buf).1;
    law_fragments_add_up(rows, index, opened);
    assert(Seq::<char>::empty() + fragments(rows, index) =~= fragments(rows, index));
}

/// An event that cannot be read, reports a failure or carries nothing leaves the tool calls alone.
pub proof fn law_failed_event_keeps_buffer(
    name: Seq<char>,
    data: Seq<char>,
    parsed: Result<JsonTree, Seq<char>>,
    buf: BufferView,
)
    ensures
        event_outcome(name, data, parsed, buf).0 is Err || data.len() == 0 || name == "ping"@
            ==> event_outcome(name, data, parsed, buf).1 == buf,
        event_outcome(name, data, parsed, buf).0 is Err ==> data.len() > 0 && name != "ping"@ && (
        name == "error"@ || parsed is Err),
{
}

// ---------------------------------------------------------------------------
// Usage and text
// ---------------------------------------------------------------------------

/// The input of a call counts the tokens read from the cache and those written to it, and it is
/// their sum with the rest of the prompt wherever that fits in 64 bits.
pub proof fn law_input_counts_whole_prompt(u: JsonTree)
    ensures
        usage_of(u).input_tokens >= usage_of(u).cached_input_tokens,
        usage_of(u).input_tokens >= usage_of(u).cache_creation_tokens,
        ({
            let whole = or_zero(u.field_unsigned("input_tokens"@))
                + usage_of(u).cached_input_tokens + usage_of(u).cache_creation_tokens;
            usage_of(u).input_tokens == if whole <= u64::MAX {
                whole
            } else {
                u64::MAX as int
            }
        }),
{
}

/// The text that an event adds to an answer.
pub open spec fn event_text(event: EventView) -> Seq<char> {
    match event {
        EventView::Delta { text } => text,
        _ => Seq::empty(),
    }
}

/// The texts that events add to an answer, one behind the other.
pub open spec fn events_text(events: Seq<EventView>) -> Seq<char>
    decreases events.len(),
{
    if events.len() == 0 {
        Seq::empty()
    } else {
        events_text(events.drop_last()) + event_text(events.last())
    }
}

/// The text of an answer is that of its events, one behind the other, and the answer has come to
/// its end exactly if an event says so.
pub proof fn law_answer_is_told_by_events(events: Seq<EventView>)
    ensures
        ResponseView::told_by(events).text == events_text(events),
        ResponseView::told_by(events).stop_reason is Some <==> reports_end(events),
    decreases events.len(),
{
    if events.len() > 0 {
        let short = events.drop_last();
        law_answer_is_told_by_events(short);
        assert(events_text(short) + Seq::<char>::empty() =~= events_text(short));
        if reports_end(short) {
            let i = choose|i: int| 0 <= i < short.len() && (#[trigger] short[i]) is Finished;
            assert(events[i] is Finished);
        }
        if events.last() is Finished {
            assert(events[events.len() - 1] is Finished);
        }
        if reports_end(events) && !(events.last() is Finished) {
            let i = choose|i: int| 0 <= i < events.len() && (#[trigger] events[i]) is Finished;
            assert(short[i] is Finished);
        }
    }
}

// ---------------------------------------------------------------------------
// What is not known
// ---------------------------------------------------------------------------

/// An event with a name that is not known says nothing and changes nothing.
pub proof fn law_unknown_events_are_tolerated(name: Seq<char>, v: JsonTree, buf: BufferView)
    requires
        !seq![
            "message_start"@,
            "content_block_start"@,
            "content_block_delta"@,
            "content_block_stop"@,
            "message_delta"@,
            "message_stop"@,
        ].contains(name),
    ensures
        told(name, v, buf) == (Seq::<EventView>::empty(), buf),
{
    let known = seq![
        "message_start"@,
        "content_block_start"@,
        "content_block_delta"@,
        "content_block_stop"@,
        "message_delta"@,
        "message_stop"@,
    ];
    assert(known[0] == "message_start"@ && known[1] == "content_block_start"@ && known[2]
        == "content_block_delta"@ && known[3] == "content_block_stop"@ && known[4]
        == "message_delta"@ && known[5] == "message_stop"@);
    assert forall|i: int| 0 <= i < 6 implies known[i] != name by {
        assert(known.contains(known[i]));
    }
}

} // verus!
