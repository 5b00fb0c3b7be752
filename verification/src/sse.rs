//! Server-sent events: taking the text of a stream apart.

use vstd::prelude::*;

use crate::stream::SseEvent;
use crate::text::{
    chars_of, law_lines_up_to_and_behind, lines, same_text, split_lines, text_between, texts,
};

verus! {

/// The name and the data of an event.
#[verifier::ext_equal]
pub struct SseView {
    pub event: Seq<char>,
    pub data: Seq<char>,
}

impl View for SseEvent {
    type V = SseView;

    open spec fn view(&self) -> SseView {
        SseView { event: self.event@, data: self.data@ }
    }
}

/// What events say.
pub open spec fn sse_views(events: Seq<SseEvent>) -> Seq<SseView> {
    events.map_values(|e: SseEvent| e@)
}

/// An event of which some lines have come; without a line of data there is no event.
#[verifier::ext_equal]
pub struct Pending {
    pub event: Seq<char>,
    pub data: Option<Seq<char>>,
}

impl Pending {
    pub open spec fn none() -> Pending {
        Pending { event: Seq::empty(), data: None }
    }

    /// After one more line that is not empty. Only `event` and `data` lines count; several lines
    /// of data are joined by line feeds.
    pub open spec fn after(self, line: Seq<char>) -> Pending {
        let field = field_of(line);
        let value = value_of(line);
        if field == "event"@ {
            Pending { event: value, ..self }
        } else if field == "data"@ {
            Pending {
                data: Some(
                    match self.data {
                        Some(data) => data.push('\n') + value,
                        None => value,
                    },
                ),
                ..self
            }
        } else {
            self
        }
    }
}

/// Where the first colon stands, or the length of a line that has none.
pub open spec fn colon_at(line: Seq<char>) -> nat
    decreases line.len(),
{
    if line.len() == 0 || line[0] == ':' {
        0
    } else {
        1 + colon_at(line.drop_first())
    }
}

/// The name of the field that a line is about: what stands before its first colon.
pub open spec fn field_of(line: Seq<char>) -> Seq<char> {
    line.take(colon_at(line) as int)
}

/// The value that a line gives its field: what stands behind its first colon, without the space
/// that may follow it.
pub open spec fn value_of(line: Seq<char>) -> Seq<char> {
    let at = colon_at(line) as int;
    if at >= line.len() {
        Seq::empty()
    } else if at + 1 < line.len() && line[at + 1] == ' ' {
        line.skip(at + 2)
    } else {
        line.skip(at + 1)
    }
}

/// The events that the first `n` lines complete where `start` is pending before them, and what is
/// pending after them. An empty line ends an event.
pub open spec fn events_of_lines(start: Pending, lines: Seq<Seq<char>>, n: nat) -> (
    Seq<SseView>,
    Pending,
)
    decreases n,
{
    if n == 0 {
        (Seq::empty(), start)
    } else {
        let (events, pending) = events_of_lines(start, lines, (n - 1) as nat);
        let line = lines[n - 1];
        if line.len() > 0 {
            (events, pending.after(line))
        } else {
            match pending.data {
                Some(data) => (
                    events.push(SseView { event: pending.event, data }),
                    Pending::none(),
                ),
                None => (events, Pending::none()),
            }
        }
    }
}

/// The events that a text completes where `start` is pending before it, and what is pending after
/// it.
pub open spec fn events_in(start: Pending, text: Seq<char>) -> (Seq<SseView>, Pending) {
    events_of_lines(start, lines(text), lines(text).len())
}

proof fn lemma_lines_in_pieces(start: Pending, a: Seq<Seq<char>>, b: Seq<Seq<char>>, n: nat)
    requires
        n <= b.len(),
    ensures
        ({
            let first = events_of_lines(start, a, a.len());
            let second = events_of_lines(first.1, b, n);
            events_of_lines(start, a + b, a.len() + n) == (first.0 + second.0, second.1)
        }),
    decreases n,
{
    let first = events_of_lines(start, a, a.len());
    if n == 0 {
        lemma_same_lines(start, a + b, a, a.len());
        assert(first.0 + Seq::<SseView>::empty() =~= first.0);
    } else {
        lemma_lines_in_pieces(start, a, b, (n - 1) as nat);
        assert((a + b)[a.len() + n - 1] == b[n - 1]);
        let second = events_of_lines(first.1, b, n);
        assert(events_of_lines(start, a + b, a.len() + n).0 =~= first.0 + second.0);
    }
}

proof fn lemma_same_lines(start: Pending, a: Seq<Seq<char>>, b: Seq<Seq<char>>, n: nat)
    requires
        n <= a.len(),
        n <= b.len(),
        forall|i: int| 0 <= i < n ==> a[i] == b[i],
    ensures
        events_of_lines(start, a, n) == events_of_lines(start, b, n),
    decreases n,
{
    if n > 0 {
        lemma_same_lines(start, a, b, (n - 1) as nat);
    }
}

/// A stream may come in pieces: cut behind any line feed, its pieces hold the events that it holds
/// as a whole.
pub proof fn law_stream_in_pieces(start: Pending, a: Seq<char>, b: Seq<char>)
    ensures
        ({
            let first = events_in(start, a.push('\n'));
            let second = events_in(first.1, b);
            events_in(start, a.push('\n') + b) == (first.0 + second.0, second.1)
        }),
{
    law_lines_up_to_and_behind(a, b);
    lemma_lines_in_pieces(start, lines(a.push('\n')), lines(b), lines(b).len());
}

pub proof fn lemma_colon_at(line: Seq<char>, at: nat)
    requires
        at <= line.len(),
        forall|j: int| 0 <= j < at ==> line[j] != ':',
        at < line.len() ==> line[at as int] == ':',
    ensures
        colon_at(line) == at,
    decreases at,
{
    if at > 0 {
        assert forall|j: int| 0 <= j < at - 1 implies line.drop_first()[j] != ':' by {
            assert(line[j + 1] != ':');
        }
        lemma_colon_at(line.drop_first(), (at - 1) as nat);
    }
}

/// Splits a line into the name of its field and its value.
fn split_field(line: &str) -> (out: (String, String))
    ensures
        out.0@ == field_of(line@),
        out.1@ == value_of(line@),
{
    let chars = chars_of(line);
    let n: usize = chars.len();
    let mut at: usize = 0;
    while at < n && chars[at] != ':'
        invariant
            n == chars@.len(),
            at <= n,
            forall|j: int| 0 <= j < at ==> chars@[j] != ':',
        decreases n - at,
    {
        at = at + 1;
    }
    proof {
        lemma_colon_at(line@, at as nat);
        assert(chars@.subrange(0, at as int) =~= field_of(line@));
    }
    let field = text_between(&chars, 0, at);
    if at == n {
        return (field, String::new());
    }
    let from: usize = if at + 1 < n && chars[at + 1] == ' ' {
        at + 2
    } else {
        at + 1
    };
    assert(chars@.subrange(from as int, n as int) =~= value_of(line@));
    (field, text_between(&chars, from, n))
}

/// Takes a stream apart into its events, piece by piece.
#[derive(Debug)]
pub struct SseReader {
    event: String,
    data: Option<String>,
}

impl View for SseReader {
    type V = Pending;

    closed spec fn view(&self) -> Pending {
        Pending {
            event: self.event@,
            data: match self.data {
                Some(d) => Some(d@),
                None => None,
            },
        }
    }
}

impl SseReader {
    /// A reader at the start of a stream.
    pub fn new() -> (reader: SseReader)
        ensures
            reader@ == Pending::none(),
    {
        let reader = SseReader { event: String::new(), data: None };
        assert(reader@ =~= Pending::none());
        reader
    }

    /// Takes in one line, and gives the event that it ends.
    fn read_line(&mut self, line: &str) -> (event: Option<SseEvent>)
        ensures
            line@.len() > 0 ==> event is None && final(self)@ == old(self)@.after(line@),
            line@.len() == 0 ==> final(self)@ == Pending::none() && match event {
                Some(e) => old(self)@.data == Some(e@.data) && old(self)@.event == e@.event,
                None => old(self)@.data is None,
            },
    {
        if line.is_empty() {
            let mut done = SseReader::new();
            std::mem::swap(self, &mut done);
            match done.data {
                Some(data) => Some(SseEvent { event: done.event, data }),
                None => None,
            }
        } else {
            let (field, value) = split_field(line);
            if same_text(field.as_str(), "event") {
                self.event = value;
            } else if same_text(field.as_str(), "data") {
                match self.data.take() {
                    Some(mut whole) => {
                        whole.push('\n');
                        whole.append(value.as_str());
                        self.data = Some(whole);
                    },
                    None => {
                        self.data = Some(value);
                    },
                }
            }
            None
        }
    }

    /// Takes in the next piece of the stream, which is made of whole lines, and gives the events
    /// that it completes.
    pub fn read(&mut self, text: &str) -> (events: Vec<SseEvent>)
        ensures
            (sse_views(events@), final(self)@) == events_in(old(self)@, text@),
    {
        let rows = split_lines(text);
        let n: usize = rows.len();
        let ghost all = lines(text@);
        let ghost start = self@;
        let mut events: Vec<SseEvent> = Vec::new();
        assert(sse_views(events@) =~= Seq::<SseView>::empty());
        for i in 0..n
            invariant
                n == rows@.len(),
                texts(rows@) == all,
                all == lines(text@),
                events_of_lines(start, all, i as nat) == (sse_views(events@), self@),
        {
            assert(rows@[i as int]@ == texts(rows@)[i as int]);
            if let Some(event) = self.read_line(rows[i].as_str()) {
                let ghost before = sse_views(events@);
                events.push(event);
                assert(sse_views(events@) =~= before.push(event@));
            }
        }
        events
    }
}

} // verus!
