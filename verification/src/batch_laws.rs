//! What holds of every batch.

use vstd::prelude::*;

use crate::batch::{
    blocks_text, counts_fit, idle_return, idle_returns, item_outcome, items_of_lines,
    request_count, response_of, results_of, status_of, BatchItemId, BatchStatus, ItemView,
};
use crate::chat::{CacheHitInfo, ChatRequest, EventView, ResponseView, StopReason, Usage};
use crate::decode::json_parse;
use crate::error::ErrorView;
use crate::json::JsonTree;
use crate::request::translated;
use crate::stream::usage_of;
use crate::stream_laws::events_text;
use crate::submit::{items_sent, submission};
use crate::text::{
    blank, ends_in_return, law_line_feed_ends_the_last_line, law_line_feed_takes_the_return,
    law_lines_of_blank_text, law_lines_up_to_and_behind, lines, white_space,
};

verus! {

// ---------------------------------------------------------------------------
// Submission
// ---------------------------------------------------------------------------

/// The body that submits a batch holds every request of it, in order, each under the name that the
/// caller gave it and with the body that it would have outside a batch.
pub proof fn law_every_item_is_submitted(items: Seq<(BatchItemId, ChatRequest)>)
    requires
        submission(items) is Ok,
    ensures
        submission(items)->Ok_0.field_items("requests"@) matches Some(sent) && {
            &&& sent.len() == items.len()
            &&& sent.len() > 0
            &&& forall|i: int|
                0 <= i < sent.len() ==> (#[trigger] sent[i]).field_text("custom_id"@) == Some(
                    items[i].0.name@,
                )
            &&& forall|i: int|
                0 <= i < sent.len() ==> translated(items[i].1) == Ok::<JsonTree, ErrorView>(
                    (#[trigger] sent[i]).field("params"@)->Some_0,
                ) && sent[i].field("params"@) is Some
        },
{
    lemma_items_sent(items);
}

proof fn lemma_items_sent(items: Seq<(BatchItemId, ChatRequest)>)
    requires
        items_sent(items) is Ok,
    ensures
        items_sent(items)->Ok_0.len() == items.len(),
        forall|i: int|
            0 <= i < items.len() ==> ({
                let sent = #[trigger] items_sent(items)->Ok_0[i];
                &&& sent.field_text("custom_id"@) == Some(items[i].0.name@)
                &&& sent.field("params"@) is Some
                &&& translated(items[i].1) == Ok::<JsonTree, ErrorView>(
                    sent.field("params"@)->Some_0,
                )
            }),
    decreases items.len(),
{
    reveal_strlit("custom_id");
    reveal_strlit("params");
    assert("custom_id"@.len() != "params"@.len());
    if items.len() > 0 {
        let short = items.drop_last();
        lemma_items_sent(short);
        assert forall|i: int| 0 <= i < items.len() implies ({
            let sent = #[trigger] items_sent(items)->Ok_0[i];
            &&& sent.field_text("custom_id"@) == Some(items[i].0.name@)
            &&& sent.field("params"@) is Some
            &&& translated(items[i].1) == Ok::<JsonTree, ErrorView>(sent.field("params"@)->Some_0)
        }) by {
            if i < short.len() {
                assert(items_sent(items)->Ok_0[i] == items_sent(short)->Ok_0[i]);
                assert(short[i] == items[i]);
            }
        }
    }
}

/// A batch with requests that are refused is refused itself, for the reason of the first of them.
pub proof fn law_first_refusal_decides(items: Seq<(BatchItemId, ChatRequest)>, at: int)
    requires
        0 <= at < items.len(),
        translated(items[at].1) is Err,
        forall|i: int| 0 <= i < at ==> translated((#[trigger] items[i]).1) is Ok,
    ensures
        submission(items) == Err::<JsonTree, ErrorView>(translated(items[at].1)->Err_0),
    decreases items.len(),
{
    let short = items.drop_last();
    if at < items.len() - 1 {
        assert forall|i: int| 0 <= i < at implies translated((#[trigger] short[i]).1) is Ok by {
            assert(short[i] == items[i]);
        }
        law_first_refusal_decides(short, at);
    } else {
        assert forall|i: int| 0 <= i < short.len() implies translated(
            (#[trigger] short[i]).1,
        ) is Ok by {
            assert(short[i] == items[i]);
        }
        lemma_all_accepted(short);
        assert(items.last() == items[at]);
    }
}

proof fn lemma_all_accepted(items: Seq<(BatchItemId, ChatRequest)>)
    requires
        forall|i: int| 0 <= i < items.len() ==> translated((#[trigger] items[i]).1) is Ok,
    ensures
        items_sent(items) is Ok,
    decreases items.len(),
{
    if items.len() > 0 {
        let short = items.drop_last();
        assert forall|i: int| 0 <= i < short.len() implies translated(
            (#[trigger] short[i]).1,
        ) is Ok by {
            assert(short[i] == items[i]);
        }
        lemma_all_accepted(short);
        assert(items.last() == items[items.len() - 1]);
    }
}

/// A batch whose requests are all accepted is submitted.
pub proof fn law_accepted_items_are_submitted(items: Seq<(BatchItemId, ChatRequest)>)
    requires
        items.len() > 0,
        forall|i: int| 0 <= i < items.len() ==> translated((#[trigger] items[i]).1) is Ok,
    ensures
        submission(items) is Ok,
{
    lemma_all_accepted(items);
}

// ---------------------------------------------------------------------------
// Status
// ---------------------------------------------------------------------------

/// The status that the backend reports is final exactly if the batch has ended; before that it
/// counts no more requests as done than there are. A batch never fails as a whole.
pub proof fn law_reported_status(v: JsonTree)
    requires
        status_of(v) is Ok,
        counts_fit(v),
    ensures
        status_of(v)->Ok_0.terminal() == (v.field_text("processing_status"@) == Some("ended"@)),
        status_of(v)->Ok_0 matches BatchStatus::InProgress { processed, total, .. } ==> (
        total matches Some(n) && processed <= n),
        !(status_of(v)->Ok_0 is Failed),
{
    lemma_words_of_status();
}

/// A batch that has ended with at least one request that was answered, or that failed, is
/// complete.
pub proof fn law_some_answers_complete_a_batch(v: JsonTree)
    requires
        v.field_text("processing_status"@) == Some("ended"@),
        request_count(v, "succeeded"@) > 0 || request_count(v, "errored"@) > 0,
    ensures
        status_of(v) == Ok::<BatchStatus, ErrorView>(BatchStatus::Completed),
{
    lemma_words_of_status();
}

proof fn lemma_words_of_status()
    ensures
        "ended"@ != "in_progress"@,
        "ended"@ != "canceling"@,
{
    reveal_strlit("in_progress");
    reveal_strlit("canceling");
    reveal_strlit("ended");
    assert("ended"@.len() != "in_progress"@.len());
    assert("ended"@.len() != "canceling"@.len());
}

// ---------------------------------------------------------------------------
// Results
// ---------------------------------------------------------------------------

/// The lines among the first `n` that are not blank, with their numbers, which start at one.
pub open spec fn filled_lines(lines: Seq<Seq<char>>, n: nat) -> Seq<(nat, Seq<char>)>
    decreases n,
{
    if n == 0 {
        Seq::empty()
    } else if blank(lines[n - 1]) {
        filled_lines(lines, (n - 1) as nat)
    } else {
        filled_lines(lines, (n - 1) as nat).push((n, lines[n - 1]))
    }
}

proof fn lemma_items_match_lines(lines: Seq<Seq<char>>, n: nat)
    requires
        n <= lines.len(),
        items_of_lines(lines, n) is Ok,
    ensures
        items_of_lines(lines, n)->Ok_0.len() == filled_lines(lines, n).len(),
        forall|i: int|
            0 <= i < filled_lines(lines, n).len() ==> item_outcome(
                filled_lines(lines, n)[i].0,
                json_parse(filled_lines(lines, n)[i].1),
            ) == Ok::<ItemView, ErrorView>(#[trigger] items_of_lines(lines, n)->Ok_0[i]),
    decreases n,
{
    if n > 0 {
        lemma_items_match_lines(lines, (n - 1) as nat);
    }
}

/// The results hold one item for every line that is not blank, in order.
pub proof fn law_one_item_per_line(text: Seq<char>)
    requires
        results_of(text) is Ok,
    ensures
        results_of(text)->Ok_0.len() == filled_lines(lines(text), lines(text).len()).len(),
        forall|i: int|
            0 <= i < results_of(text)->Ok_0.len() ==> item_outcome(
                filled_lines(lines(text), lines(text).len())[i].0,
                json_parse(filled_lines(lines(text), lines(text).len())[i].1),
            ) == Ok::<ItemView, ErrorView>(#[trigger] results_of(text)->Ok_0[i]),
{
    lemma_items_match_lines(lines(text), lines(text).len());
}

/// Whether a line of the results is blank, or says of what became of its request something that is
/// known.
pub open spec fn known_line(line: Seq<char>) -> bool {
    blank(line) || match json_parse(line) {
        Ok(v) => match v.field_in("result"@, "type"@) {
            Some(kind) => seq![
                Some("succeeded"@),
                Some("errored"@),
                Some("canceled"@),
                Some("expired"@),
            ].contains(kind.text()),
            None => false,
        },
        Err(_) => false,
    }
}

/// Whether every line of a text is a known one.
pub open spec fn known_results(text: Seq<char>) -> bool {
    forall|i: int| 0 <= i < lines(text).len() ==> known_line(#[trigger] lines(text)[i])
}

/// Whether a line of the results is blank, or is known and can be understood.
spec fn good_line(line: Seq<char>) -> bool {
    known_line(line) && (blank(line) || item_outcome(1, json_parse(line)) is Ok)
}

/// The items of good lines.
spec fn items_of_good(lines: Seq<Seq<char>>) -> Seq<ItemView>
    decreases lines.len(),
{
    if lines.len() == 0 {
        Seq::empty()
    } else if blank(lines.last()) {
        items_of_good(lines.drop_last())
    } else {
        items_of_good(lines.drop_last()).push(item_outcome(1, json_parse(lines.last()))->Ok_0)
    }
}

/// What a known line says does not depend on its number, if it can be understood.
proof fn lemma_number_is_irrelevant(line: Seq<char>, n: nat, m: nat)
    requires
        known_line(line),
        !blank(line),
        item_outcome(n, json_parse(line)) is Ok,
    ensures
        item_outcome(m, json_parse(line)) == item_outcome(n, json_parse(line)),
{
    let known = seq![
        Some("succeeded"@),
        Some("errored"@),
        Some("canceled"@),
        Some("expired"@),
    ];
    let kind = json_parse(line)->Ok_0.field_in("result"@, "type"@)->Some_0.text();
    let i = choose|i: int| 0 <= i < known.len() && known[i] == kind;
    assert(0 <= i < 4 && known[i] == kind);
}

/// Where known lines can be understood, each of them can.
proof fn lemma_understood_lines_are_good(lines: Seq<Seq<char>>, n: nat)
    requires
        n <= lines.len(),
        items_of_lines(lines, n) is Ok,
        forall|i: int| 0 <= i < n ==> known_line(#[trigger] lines[i]),
    ensures
        forall|i: int| 0 <= i < n ==> good_line(#[trigger] lines[i]),
    decreases n,
{
    if n > 0 {
        lemma_understood_lines_are_good(lines, (n - 1) as nat);
        let line = lines[n - 1];
        if !blank(line) {
            lemma_number_is_irrelevant(line, n, 1);
        }
        assert(good_line(line));
    }
}

/// Good lines are understood, each for itself.
proof fn lemma_good_lines(lines: Seq<Seq<char>>, n: nat)
    requires
        n <= lines.len(),
        forall|i: int| 0 <= i < n ==> good_line(#[trigger] lines[i]),
    ensures
        items_of_lines(lines, n) == Ok::<Seq<ItemView>, ErrorView>(
            items_of_good(lines.take(n as int)),
        ),
    decreases n,
{
    if n > 0 {
        lemma_good_lines(lines, (n - 1) as nat);
        let line = lines[n - 1];
        assert(good_line(line));
        assert(lines.take(n as int).drop_last() =~= lines.take(n - 1));
        assert(lines.take(n as int).last() == line);
        if !blank(line) {
            lemma_number_is_irrelevant(line, 1, n);
        }
    } else {
        assert(lines.take(0).len() == 0);
    }
}

proof fn lemma_items_of_good_joined(a: Seq<Seq<char>>, b: Seq<Seq<char>>)
    ensures
        items_of_good(a + b) == items_of_good(a) + items_of_good(b),
    decreases b.len(),
{
    if b.len() == 0 {
        assert(a + b =~= a);
        assert(items_of_good(a) + items_of_good(b) =~= items_of_good(a));
    } else {
        let short = b.drop_last();
        lemma_items_of_good_joined(a, short);
        assert((a + b).drop_last() =~= a + short);
        assert((a + b).last() == b.last());
        assert(items_of_good(a + b) =~= items_of_good(a) + items_of_good(b));
    }
}

proof fn lemma_items_of_blank(lines: Seq<Seq<char>>)
    requires
        forall|i: int| 0 <= i < lines.len() ==> blank(#[trigger] lines[i]),
    ensures
        items_of_good(lines) == Seq::<ItemView>::empty(),
    decreases lines.len(),
{
    if lines.len() > 0 {
        let short = lines.drop_last();
        assert forall|i: int| 0 <= i < short.len() implies blank(#[trigger] short[i]) by {
            assert(short[i] == lines[i]);
        }
        lemma_items_of_blank(short);
        assert(lines.last() == lines[lines.len() - 1]);
    }
}

/// Good results are the items of their lines.
proof fn lemma_good_results(text: Seq<char>)
    requires
        forall|i: int| 0 <= i < lines(text).len() ==> good_line(#[trigger] lines(text)[i]),
    ensures
        results_of(text) == Ok::<Seq<ItemView>, ErrorView>(items_of_good(lines(text))),
{
    lemma_good_lines(lines(text), lines(text).len());
    assert(lines(text).take(lines(text).len() as int) =~= lines(text));
}

/// Results in which every line is blank, the empty text among them, hold no item.
pub proof fn law_blank_results_are_empty(text: Seq<char>)
    requires
        blank(text),
    ensures
        results_of(text) == Ok::<Seq<ItemView>, ErrorView>(Seq::empty()),
{
    law_lines_of_blank_text(text);
    lemma_good_results(text);
    lemma_items_of_blank(lines(text));
}

/// A line that is not blank is not blank without a carriage return at its end.
proof fn lemma_not_blank_without_return(line: Seq<char>)
    requires
        ends_in_return(line),
    ensures
        blank(line.drop_last()) == blank(line),
{
    assert(white_space('\r'));
    if blank(line.drop_last()) {
        assert forall|i: int| 0 <= i < line.len() implies white_space(#[trigger] line[i]) by {
            if i < line.len() - 1 {
                assert(line.drop_last()[i] == line[i]);
            }
        }
    }
    if blank(line) {
        assert forall|i: int| 0 <= i < line.len() - 1 implies white_space(
            #[trigger] line.drop_last()[i],
        ) by {
            assert(line.drop_last()[i] == line[i]);
        }
    }
}

/// The lines of good results with a line feed behind them are good and hold the same items.
proof fn lemma_line_feed_behind_results(a: Seq<char>)
    requires
        forall|i: int| 0 <= i < lines(a).len() ==> good_line(#[trigger] lines(a)[i]),
        ends_in_return(a) ==> idle_returns(a),
    ensures
        forall|i: int|
            0 <= i < lines(a.push('\n')).len() ==> good_line(#[trigger] lines(a.push('\n'))[i]),
        items_of_good(lines(a.push('\n'))) == items_of_good(lines(a)),
{
    let ended = lines(a.push('\n'));
    if ends_in_return(a) {
        law_line_feed_takes_the_return(a);
        let init = lines(a).drop_last();
        let last = lines(a).last();
        assert(last == lines(a)[lines(a).len() - 1]);
        assert(idle_return(last));
        lemma_not_blank_without_return(last);
        assert(good_line(last));
        assert(good_line(last.drop_last()));
        assert forall|i: int| 0 <= i < ended.len() implies good_line(#[trigger] ended[i]) by {
            if i < init.len() {
                assert(ended[i] == lines(a)[i]);
            }
        }
        assert(ended.drop_last() =~= init);
    } else {
        law_line_feed_ends_the_last_line(a);
        assert(good_line(Seq::<char>::empty()));
        assert forall|i: int| 0 <= i < ended.len() implies good_line(#[trigger] ended[i]) by {
            if i < lines(a).len() {
                assert(ended[i] == lines(a)[i]);
            }
        }
        if ended != lines(a) {
            assert(ended.drop_last() =~= lines(a));
            assert(blank(ended.last()));
        }
    }
}

/// Results joined by a line feed read as the two lists of items, one behind the other. Where the
/// first of them ends in a carriage return, which becomes part of the line ending, that return must
/// make no difference; reading those results shows it
/// ([`crate::batch::parse_anthropic_batch_results`]).
pub proof fn law_joined_results(a: Seq<char>, b: Seq<char>)
    requires
        results_of(a) is Ok,
        results_of(b) is Ok,
        known_results(a),
        known_results(b),
        ends_in_return(a) ==> idle_returns(a),
    ensures
        results_of(a + "\n"@ + b) == Ok::<Seq<ItemView>, ErrorView>(
            results_of(a)->Ok_0 + results_of(b)->Ok_0,
        ),
{
    reveal_strlit("\n");
    let whole = a + "\n"@ + b;
    assert(whole =~= a.push('\n') + b);
    law_lines_up_to_and_behind(a, b);
    lemma_understood_lines_are_good(lines(a), lines(a).len());
    lemma_understood_lines_are_good(lines(b), lines(b).len());
    lemma_good_results(a);
    lemma_good_results(b);
    lemma_line_feed_behind_results(a);
    let ended = lines(a.push('\n'));
    assert forall|i: int| 0 <= i < lines(whole).len() implies good_line(
        #[trigger] lines(whole)[i],
    ) by {
        if i < ended.len() {
            assert(lines(whole)[i] == ended[i]);
        } else {
            assert(lines(whole)[i] == lines(b)[i - ended.len()]);
        }
    }
    lemma_good_results(whole);
    lemma_items_of_good_joined(ended, lines(b));
}

/// Blank lines between the lines of results change no item.
pub proof fn law_blank_lines_change_no_item(a: Seq<char>, w: Seq<char>, b: Seq<char>)
    requires
        blank(w),
        results_of(a + "\n"@ + b) is Ok,
        known_results(a + "\n"@ + b),
    ensures
        results_of(a + "\n"@ + w + "\n"@ + b) == results_of(a + "\n"@ + b),
{
    reveal_strlit("\n");
    let tight = a + "\n"@ + b;
    let loose = a + "\n"@ + w + "\n"@ + b;
    let tail = w.push('\n') + b;
    assert(tight =~= a.push('\n') + b);
    assert(loose =~= a.push('\n') + tail);
    law_lines_up_to_and_behind(a, b);
    law_lines_up_to_and_behind(a, tail);
    law_lines_up_to_and_behind(w, b);
    assert(white_space('\n'));
    assert(blank(w.push('\n')));
    law_lines_of_blank_text(w.push('\n'));
    let first = lines(a.push('\n'));
    let gap = lines(w.push('\n'));
    let last = lines(b);
    lemma_understood_lines_are_good(lines(tight), lines(tight).len());
    lemma_good_results(tight);
    assert forall|i: int| 0 <= i < lines(loose).len() implies good_line(
        #[trigger] lines(loose)[i],
    ) by {
        if i < first.len() {
            assert(lines(loose)[i] == lines(tight)[i]);
        } else if i < first.len() + gap.len() {
            assert(lines(loose)[i] == gap[i - first.len()]);
        } else {
            assert(lines(loose)[i] == lines(tight)[i - gap.len()]);
        }
    }
    lemma_good_results(loose);
    lemma_items_of_blank(gap);
    lemma_items_of_good_joined(first, last);
    lemma_items_of_good_joined(gap, last);
    lemma_items_of_good_joined(first, gap + last);
    assert(items_of_good(gap) + items_of_good(last) =~= items_of_good(last));
}

/// A request that failed, was cancelled or expired spoils no other: its line is understood, and
/// says so under the name of the request.
pub proof fn law_failures_stay_with_their_item(
    number: nat,
    v: JsonTree,
    id: Seq<char>,
    result: JsonTree,
)
    requires
        v.field_text("custom_id"@) == Some(id),
        v.field("result"@) == Some(result),
        result.field_text("type"@) is Some,
        result.field_text("type"@) != Some("succeeded"@),
    ensures
        item_outcome(number, Ok(v)) matches Ok(item) && item.id == id && item.result is Err,
{
}

/// A batch counts the tokens of an answer as a stream does, but for those of thinking, which it
/// leaves out.
pub proof fn law_usage_is_counted_alike(message: JsonTree, usage: JsonTree)
    requires
        message.field("usage"@) == Some(usage),
    ensures
        response_of(message).usage == (Usage { thinking_tokens: 0, ..usage_of(usage) }),
{
}

/// The events that the text blocks of a message stand for.
pub open spec fn text_deltas(blocks: Seq<JsonTree>) -> Seq<EventView>
    decreases blocks.len(),
{
    if blocks.len() == 0 {
        Seq::empty()
    } else {
        let before = text_deltas(blocks.drop_last());
        match blocks.last().field_text("text"@) {
            Some(text) if blocks.last().field_text("type"@) == Some("text"@) => before.push(
                EventView::Delta { text },
            ),
            _ => before,
        }
    }
}

/// The events that a finished message stands for: the model that it names starts, each text block
/// adds its text, and the stop reason and the counts that it gives end it.
pub open spec fn message_events(message: JsonTree) -> Seq<EventView> {
    let model = match message.field("model"@) {
        Some(JsonTree::Text(model)) => model,
        _ => "anthropic"@,
    };
    let deltas = match message.field("content"@) {
        Some(JsonTree::Array(blocks)) => text_deltas(blocks),
        _ => Seq::empty(),
    };
    let stop_reason = match message.field("stop_reason"@) {
        Some(JsonTree::Text(word)) => if word == "max_tokens"@ {
            StopReason::MaxTokens
        } else if word == "stop_sequence"@ {
            StopReason::StopSequence
        } else if word == "tool_use"@ {
            StopReason::ToolUse
        } else {
            StopReason::EndTurn
        },
        _ => StopReason::EndTurn,
    };
    let usage = match message.field("usage"@) {
        Some(usage) => Usage { thinking_tokens: 0, ..usage_of(usage) },
        None => Usage::zero(),
    };
    let started = EventView::Started { actual_model: model, cache_hit: CacheHitInfo::tokens(0) };
    (seq![started] + deltas).push(EventView::Finished { stop_reason, usage })
}

/// The answer that a finished message is, is the one that the events it stands for tell.
pub proof fn law_message_is_replayed(message: JsonTree)
    ensures
        ResponseView::told_by(message_events(message)) == response_of(message),
{
    let all = message_events(message);
    let started = all[0];
    let deltas = match message.field("content"@) {
        Some(JsonTree::Array(blocks)) => text_deltas(blocks),
        _ => Seq::empty(),
    };
    if let Some(JsonTree::Array(blocks)) = message.field("content"@) {
        lemma_text_deltas(blocks);
    }
    lemma_started_and_deltas(started, deltas);
    assert(all.drop_last() =~= seq![started] + deltas);
    assert(ResponseView::told_by(all) =~= response_of(message));
}

proof fn lemma_text_deltas(blocks: Seq<JsonTree>)
    ensures
        forall|i: int| 0 <= i < text_deltas(blocks).len() ==> (#[trigger] text_deltas(
            blocks,
        )[i]) is Delta,
        events_text(text_deltas(blocks)) == blocks_text(blocks),
    decreases blocks.len(),
{
    if blocks.len() > 0 {
        let short = blocks.drop_last();
        lemma_text_deltas(short);
        let before = text_deltas(short);
        assert(events_text(before) + Seq::<char>::empty() =~= events_text(before));
        if text_deltas(blocks) != before {
            assert(text_deltas(blocks).drop_last() =~= before);
        }
    }
}

proof fn lemma_started_and_deltas(started: EventView, deltas: Seq<EventView>)
    requires
        started is Started,
        forall|i: int| 0 <= i < deltas.len() ==> (#[trigger] deltas[i]) is Delta,
    ensures
        ResponseView::told_by(seq![started] + deltas) == (ResponseView {
            actual_model: started->Started_actual_model,
            text: events_text(deltas),
            ..ResponseView::empty()
        }),
    decreases deltas.len(),
{
    let all = seq![started] + deltas;
    if deltas.len() == 0 {
        assert(all.drop_last() =~= Seq::<EventView>::empty());
        assert(all.last() == started);
        assert(ResponseView::told_by(Seq::<EventView>::empty()) == ResponseView::empty());
    } else {
        let short = deltas.drop_last();
        assert forall|i: int| 0 <= i < short.len() implies (#[trigger] short[i]) is Delta by {
            assert(short[i] == deltas[i]);
        }
        lemma_started_and_deltas(started, short);
        assert(all.drop_last() =~= seq![started] + short);
        assert(all.last() == deltas.last());
        assert(deltas.last() == deltas[deltas.len() - 1]);
    }
}

} // verus!
