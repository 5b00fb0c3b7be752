//! What holds of every stream of server-sent events.

use vstd::prelude::*;

use crate::sse::{
    events_in, events_of_lines, field_of, lemma_colon_at, sse_views, value_of, Pending,
    SseView,
};
use crate::stream::SseEvent;
use crate::text::lines;

verus! {

proof fn lemma_field_and_value(field: Seq<char>, value: Seq<char>)
    requires
        forall|i: int| 0 <= i < field.len() ==> #[trigger] field[i] != ':',
    ensures
        field_of(field.push(':') + value) == field,
        value_of(field.push(':') + value) == if value.len() > 0 && value[0] == ' ' {
            value.drop_first()
        } else {
            value
        },
        field_of(field) == field,
        value_of(field) == Seq::<char>::empty(),
{
    let line = field.push(':') + value;
    lemma_colon_at(line, field.len());
    assert(line.take(field.len() as int) =~= field);
    assert(line.skip(field.len() as int + 1) =~= value);
    if value.len() > 0 && value[0] == ' ' {
        assert(line.skip(field.len() as int + 2) =~= value.drop_first());
    }
    lemma_colon_at(field, field.len());
    assert(field.take(field.len() as int) =~= field);
}

/// What a line adds to an event: an `event` line names it, a `data` line adds to its data, several
/// of them joined by line feeds, and any other line adds nothing. One space behind the colon is no
/// part of the value.
pub proof fn law_lines_add_up(pending: Pending, field: Seq<char>, value: Seq<char>)
    requires
        forall|i: int| 0 <= i < field.len() ==> #[trigger] field[i] != ':',
        value.len() > 0 ==> value[0] != ' ',
    ensures
        forall|line: Seq<char>|
            line == field.push(':') + value || line == field.push(':').push(' ') + value ==> {
                &&& field == "event"@ ==> #[trigger] pending.after(line) == (Pending {
                    event: value,
                    data: pending.data,
                })
                &&& field == "data"@ && pending.data is None ==> pending.after(line) == (Pending {
                    event: pending.event,
                    data: Some(value),
                })
                &&& field == "data"@ ==> (pending.data matches Some(data) ==> pending.after(line)
                    == (Pending { event: pending.event, data: Some(data.push('\n') + value) }))
                &&& field != "event"@ && field != "data"@ ==> pending.after(line) == pending
            },
{
    reveal_strlit("event");
    reveal_strlit("data");
    assert("event"@.len() != "data"@.len());
    lemma_field_and_value(field, value);
    let spaced = seq![' '] + value;
    lemma_field_and_value(field, spaced);
    assert(spaced.drop_first() =~= value);
    assert(field.push(':').push(' ') + value =~= field.push(':') + spaced);
}

/// A line without a colon is a field with an empty value.
pub proof fn law_lines_without_colon(pending: Pending, line: Seq<char>)
    requires
        forall|i: int| 0 <= i < line.len() ==> #[trigger] line[i] != ':',
    ensures
        line == "event"@ ==> pending.after(line) == (Pending {
            event: Seq::empty(),
            data: pending.data,
        }),
        line == "data"@ && pending.data is None ==> pending.after(line) == (Pending {
            event: pending.event,
            data: Some(Seq::empty()),
        }),
        line == "data"@ ==> (pending.data matches Some(data) ==> pending.after(line) == (Pending {
            event: pending.event,
            data: Some(data.push('\n')),
        })),
        line != "event"@ && line != "data"@ ==> pending.after(line) == pending,
{
    reveal_strlit("event");
    reveal_strlit("data");
    assert("event"@.len() != "data"@.len());
    lemma_field_and_value(line, Seq::empty());
    if let Some(data) = pending.data {
        assert(data.push('\n') + Seq::<char>::empty() =~= data.push('\n'));
    }
}

/// A stream is read line by line. A line adds to the event that is pending; an empty line ends it,
/// and gives it out if it has data.
pub proof fn law_stream_is_read_by_lines(start: Pending, rows: Seq<Seq<char>>, n: nat)
    ensures
        Pending::none().event.len() == 0,
        Pending::none().data is None,
        events_of_lines(start, rows, 0) == (Seq::<SseView>::empty(), start),
        ({
            let (events, pending) = events_of_lines(start, rows, n);
            let line = rows[n as int];
            let next = events_of_lines(start, rows, n + 1);
            &&& line.len() > 0 ==> next == (events, pending.after(line))
            &&& line.len() == 0 && pending.data is None ==> next == (events, Pending::none())
            &&& line.len() == 0 ==> (pending.data matches Some(data) ==> next == (
                events.push(SseView { event: pending.event, data }),
                Pending::none(),
            ))
        }),
{
}

/// The events in a text are those in all of its lines.
pub proof fn law_events_in_text(start: Pending, text: Seq<char>, event: SseEvent, events: Seq<SseEvent>)
    ensures
        events_in(start, text) == events_of_lines(start, lines(text), lines(text).len()),
        event@.event == event.event@,
        event@.data == event.data@,
        sse_views(events).len() == events.len(),
        forall|i: int| 0 <= i < events.len() ==> #[trigger] sse_views(events)[i] == events[i]@,
{
}

} // verus!
